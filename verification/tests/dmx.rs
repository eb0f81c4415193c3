use dmx_fixture::channels::{Delivery, RouterChannel};
use dmx_fixture::dmx::{DmxAction, DmxDetector, DmxInput, DmxState, DmxTiming};
use dmx_fixture::event_router::RouterEvent;

fn frame_with_start(start: u8) -> [u8; 513] {
    let mut frame = [0u8; 513];
    frame[0] = start;
    for i in 1..513 {
        frame[i] = (i % 251) as u8;
    }
    frame
}

#[test]
fn standard_timing_values() {
    let t = DmxTiming::standard();
    assert_eq!(t.break_delay, 88);
    assert_eq!(t.mab_delay, 8);
    assert_eq!(t.timeout, 1_000_000);
}

#[test]
fn valid_break_and_mab_emit_one_frame_unchanged() {
    let mut d = DmxDetector::new(DmxTiming::standard());
    assert_eq!(d.action(), DmxAction::WaitFalling);
    assert_eq!(d.advance(DmxInput::Falling(5_000)), None);
    assert_eq!(d.action(), DmxAction::WaitRising);
    assert_eq!(d.advance(DmxInput::Rising(5_100)), None);
    assert_eq!(d.state, DmxState::WaitMabFall { rise: 5_100 });
    assert_eq!(d.action(), DmxAction::WaitFalling);
    assert_eq!(d.advance(DmxInput::Falling(5_112)), None);
    assert_eq!(d.state, DmxState::ReadFrame);
    assert_eq!(d.action(), DmxAction::ReadFrame);
    let frame = frame_with_start(0);
    assert_eq!(d.advance(DmxInput::Frame(frame)), Some(RouterEvent::DmxPacket(frame)));
    assert_eq!(d.state, DmxState::WaitBreakFall);
    assert_eq!(d.advance(DmxInput::Frame(frame)), None);
}

#[test]
fn wrong_start_code_emits_nothing() {
    let mut d = DmxDetector::new(DmxTiming::standard());
    d.advance(DmxInput::Falling(0));
    d.advance(DmxInput::Rising(100));
    d.advance(DmxInput::Falling(112));
    assert_eq!(d.state, DmxState::ReadFrame);
    assert_eq!(d.advance(DmxInput::Frame(frame_with_start(1))), None);
    assert_eq!(d.state, DmxState::WaitBreakFall);
}

#[test]
fn failed_read_resets() {
    let mut d = DmxDetector::new(DmxTiming::standard());
    d.advance(DmxInput::Falling(0));
    d.advance(DmxInput::Rising(100));
    d.advance(DmxInput::Falling(112));
    assert_eq!(d.advance(DmxInput::ReadFailed), None);
    assert_eq!(d.state, DmxState::WaitBreakFall);
}

#[test]
fn break_window_bounds() {
    for (interval, valid) in [
        (0u64, false),
        (87, false),
        (88, false),
        (89, true),
        (999_999, true),
        (1_000_000, false),
        (1_000_001, false),
    ] {
        let mut d = DmxDetector::new(DmxTiming::standard());
        d.advance(DmxInput::Falling(10));
        assert_eq!(d.advance(DmxInput::Rising(10 + interval)), None);
        let expected = if valid {
            DmxState::WaitMabFall { rise: 10 + interval }
        } else {
            DmxState::WaitBreakFall
        };
        assert_eq!(d.state, expected);
    }
}

#[test]
fn mab_window_bounds() {
    for (interval, valid) in [
        (0u64, false),
        (8, false),
        (9, true),
        (12, true),
        (999_999, true),
        (1_000_000, false),
    ] {
        let mut d = DmxDetector::new(DmxTiming::standard());
        d.advance(DmxInput::Falling(0));
        d.advance(DmxInput::Rising(100));
        assert_eq!(d.advance(DmxInput::Falling(100 + interval)), None);
        let expected = if valid { DmxState::ReadFrame } else { DmxState::WaitBreakFall };
        assert_eq!(d.state, expected);
    }
}

#[test]
fn clock_that_runs_backwards_is_a_violation() {
    let mut d = DmxDetector::new(DmxTiming::standard());
    d.advance(DmxInput::Falling(500));
    d.advance(DmxInput::Rising(100));
    assert_eq!(d.state, DmxState::WaitBreakFall);
    d.advance(DmxInput::Falling(u64::MAX));
    d.advance(DmxInput::Rising(0));
    assert_eq!(d.state, DmxState::WaitBreakFall);
}

#[test]
fn inputs_that_are_not_awaited_change_nothing() {
    let mut d = DmxDetector::new(DmxTiming::standard());
    assert_eq!(d.advance(DmxInput::Rising(1)), None);
    assert_eq!(d.advance(DmxInput::Frame(frame_with_start(0))), None);
    assert_eq!(d.advance(DmxInput::ReadFailed), None);
    assert_eq!(d.state, DmxState::WaitBreakFall);
    d.advance(DmxInput::Falling(0));
    assert_eq!(d.advance(DmxInput::Falling(50)), None);
    assert_eq!(d.state, DmxState::WaitBreakRise { break_fall: 0 });
    d.advance(DmxInput::Rising(100));
    d.advance(DmxInput::Rising(105));
    assert_eq!(d.state, DmxState::WaitMabFall { rise: 100 });
    d.advance(DmxInput::Falling(120));
    d.advance(DmxInput::Falling(130));
    d.advance(DmxInput::Rising(140));
    assert_eq!(d.state, DmxState::ReadFrame);
}

#[test]
fn custom_timing_is_used() {
    let timing = DmxTiming { break_delay: 10, mab_delay: 2, timeout: 50 };
    let mut d = DmxDetector::new(timing);
    d.advance(DmxInput::Falling(0));
    d.advance(DmxInput::Rising(11));
    assert_eq!(d.state, DmxState::WaitMabFall { rise: 11 });
    d.advance(DmxInput::Falling(61));
    assert_eq!(d.state, DmxState::WaitBreakFall);
}

#[test]
fn feed_sends_the_frame_to_the_router() {
    let mut tx = RouterChannel::new();
    let mut d = DmxDetector::new(DmxTiming::standard());
    assert_eq!(d.feed(DmxInput::Falling(0), &mut tx), Delivery::Nothing);
    assert_eq!(d.feed(DmxInput::Rising(100), &mut tx), Delivery::Nothing);
    assert_eq!(d.feed(DmxInput::Falling(112), &mut tx), Delivery::Nothing);
    let frame = frame_with_start(0);
    assert_eq!(d.feed(DmxInput::Frame(frame), &mut tx), Delivery::Sent);
    assert_eq!(tx.try_receive(), Some(RouterEvent::DmxPacket(frame)));
    assert_eq!(tx.try_receive(), None);
}

#[test]
fn feed_sends_nothing_for_a_wrong_start_code() {
    let mut tx = RouterChannel::new();
    let mut d = DmxDetector::new(DmxTiming::standard());
    d.feed(DmxInput::Falling(0), &mut tx);
    d.feed(DmxInput::Rising(100), &mut tx);
    d.feed(DmxInput::Falling(112), &mut tx);
    assert_eq!(d.feed(DmxInput::Frame(frame_with_start(0xCC)), &mut tx), Delivery::Nothing);
    assert_eq!(tx.try_receive(), None);
}

#[test]
fn feed_drops_the_frame_when_the_mailbox_is_full() {
    let mut tx = RouterChannel::new();
    for _ in 0..10 {
        assert_eq!(tx.offer(RouterEvent::ButtonHold), Delivery::Sent);
    }
    let mut d = DmxDetector::new(DmxTiming::standard());
    d.feed(DmxInput::Falling(0), &mut tx);
    d.feed(DmxInput::Rising(100), &mut tx);
    d.feed(DmxInput::Falling(112), &mut tx);
    assert_eq!(d.feed(DmxInput::Frame(frame_with_start(0)), &mut tx), Delivery::Dropped);
    assert_eq!(d.state, DmxState::WaitBreakFall);
    for _ in 0..10 {
        assert_eq!(tx.try_receive(), Some(RouterEvent::ButtonHold));
    }
    assert_eq!(tx.try_receive(), None);
}
