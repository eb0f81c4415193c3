use dmx_fixture::channels::{
    Delivery, GlobalDataChannel, GlobalDataChannelRx, LedChannel, RouterChannel, LED_DEPTH,
    ROUTER_DEPTH,
};
use dmx_fixture::event_router::{route, ButtonPhase, GlobalData, Router, RouterEvent};
use dmx_fixture::led::{Led, LedEvent};

#[test]
fn default_state_is_zeroed() {
    let d = GlobalData::default();
    assert_eq!(d.button, ButtonPhase::Idle);
    assert_eq!(d.dmx.len(), 513);
    assert!(d.dmx.iter().all(|b| *b == 0));
}

#[test]
fn button_phase_codes() {
    assert_eq!(ButtonPhase::Idle.code(), 0);
    assert_eq!(ButtonPhase::Held.code(), 1);
    assert_eq!(ButtonPhase::Pressed.code(), 2);
    assert_eq!(ButtonPhase::DoublePressed.code(), 3);
}

#[test]
fn route_button_events() {
    let d = GlobalData::default();
    let r = route(&d, &RouterEvent::ButtonHold);
    assert_eq!(r.data.button, ButtonPhase::Held);
    assert_eq!(r.led, Some(LedEvent::Blink));
    assert!(r.publish);
    let r = route(&d, &RouterEvent::ButtonPressed);
    assert_eq!(r.data.button, ButtonPhase::Pressed);
    assert_eq!(r.led, Some(LedEvent::On));
    assert!(r.publish);
    let r = route(&d, &RouterEvent::ButtonDouble);
    assert_eq!(r.data.button, ButtonPhase::DoublePressed);
    assert_eq!(r.led, Some(LedEvent::Off));
    assert!(r.publish);
}

#[test]
fn route_host_commands() {
    let mut d = GlobalData::default();
    d.button = ButtonPhase::Held;
    d.dmx[7] = 9;
    let r = route(&d, &RouterEvent::UsbCommand(1));
    assert_eq!(r.led, Some(LedEvent::On));
    assert_eq!(r.data, d);
    assert!(!r.publish);
    let r = route(&d, &RouterEvent::UsbCommand(2));
    assert_eq!(r.led, Some(LedEvent::Off));
    assert_eq!(r.data, d);
    for code in [0u8, 3, 4, 0x31, 200, 255] {
        let r = route(&d, &RouterEvent::UsbCommand(code));
        assert_eq!(r.led, Some(LedEvent::Blink));
        assert_eq!(r.data, d);
        assert!(!r.publish);
    }
}

#[test]
fn route_frame_overwrites_whole_frame() {
    let mut d = GlobalData::default();
    d.button = ButtonPhase::Pressed;
    d.dmx = [0xEE; 513];
    let mut frame = [0u8; 513];
    frame[1] = 10;
    frame[512] = 200;
    let r = route(&d, &RouterEvent::DmxPacket(frame));
    assert_eq!(r.data.dmx, frame);
    assert_eq!(r.data.button, ButtonPhase::Pressed);
    assert_eq!(r.led, None);
    assert!(!r.publish);
}

#[test]
fn same_compares_every_byte() {
    let a = GlobalData::default();
    let mut b = GlobalData::default();
    assert!(a.same(&b));
    b.dmx[512] = 1;
    assert!(!a.same(&b));
    b.dmx[512] = 0;
    b.button = ButtonPhase::Held;
    assert!(!a.same(&b));
}

fn new_router() -> Router {
    Router::new(RouterChannel::new(), LedChannel::new(), GlobalDataChannel::new())
}

#[test]
fn pressed_twice_sends_on_each_time() {
    let mut router = new_router();
    let mut driver = Led::new(false);

    let out = router.process_event(RouterEvent::ButtonPressed);
    assert_eq!(router.data.button, ButtonPhase::Pressed);
    assert_eq!(out.led, Some(LedEvent::On));
    assert_eq!(out.delivery, Delivery::Sent);
    assert!(out.published);
    let (event, _) = driver.show(&mut router.channel_led).unwrap();
    assert_eq!(event, LedEvent::On);

    let out = router.process_event(RouterEvent::ButtonPressed);
    assert_eq!(router.data.button, ButtonPhase::Pressed);
    assert_eq!(out.led, Some(LedEvent::On));
    assert_eq!(out.delivery, Delivery::Sent);
    assert!(out.published);
    let (event, _) = driver.show(&mut router.channel_led).unwrap();
    assert_eq!(event, LedEvent::On);
    assert!(driver.show(&mut router.channel_led).is_none());
}

#[test]
fn full_led_mailbox_drops_newest_command() {
    let mut router = new_router();

    let out = router.process_event(RouterEvent::ButtonPressed);
    assert_eq!(out.delivery, Delivery::Sent);
    let out = router.process_event(RouterEvent::ButtonDouble);
    assert_eq!(out.led, Some(LedEvent::Off));
    assert_eq!(out.delivery, Delivery::Dropped);
    assert_eq!(router.data.button, ButtonPhase::DoublePressed);

    assert_eq!(router.channel_led.try_receive(), Some(LedEvent::On));
    assert_eq!(router.channel_led.try_receive(), None);
}

#[test]
fn poll_takes_events_in_order() {
    let mut router = new_router();
    assert!(router.poll().is_none());
    assert_eq!(router.data, GlobalData::default());

    assert_eq!(router.channel.offer(RouterEvent::ButtonHold), Delivery::Sent);
    let mut frame = [0u8; 513];
    frame[3] = 33;
    assert_eq!(router.channel.offer(RouterEvent::DmxPacket(frame)), Delivery::Sent);

    let (event, out) = router.poll().unwrap();
    assert_eq!(event, RouterEvent::ButtonHold);
    assert_eq!(out.led, Some(LedEvent::Blink));
    assert_eq!(router.data.button, ButtonPhase::Held);

    let (event, out) = router.poll().unwrap();
    assert_eq!(event, RouterEvent::DmxPacket(frame));
    assert_eq!(out.led, None);
    assert_eq!(out.delivery, Delivery::Nothing);
    assert!(!out.published);
    assert_eq!(router.data.dmx, frame);
    assert_eq!(router.data.button, ButtonPhase::Held);
    assert!(router.poll().is_none());
}

#[test]
fn state_is_published_after_button_events_only() {
    let mut router = new_router();
    let mut reader = GlobalDataChannelRx::new();
    assert_eq!(reader.try_changed(&router.channel_log), None);
    assert_eq!(router.channel_log.version(), 0);
    assert_eq!(router.channel_log.try_get(), None);

    let out = router.process_event(RouterEvent::UsbCommand(1));
    assert!(!out.published);
    assert_eq!(reader.try_changed(&router.channel_log), None);
    let out = router.process_event(RouterEvent::DmxPacket([0u8; 513]));
    assert!(!out.published);
    assert_eq!(reader.try_changed(&router.channel_log), None);
    assert_eq!(router.channel_log.version(), 0);

    let out = router.process_event(RouterEvent::ButtonHold);
    assert!(out.published);
    assert_eq!(router.channel_log.version(), 1);
    assert_eq!(router.channel_log.try_get(), Some(router.data));
    let seen = reader.try_changed(&router.channel_log).unwrap();
    assert_eq!(seen.button, ButtonPhase::Held);
    assert_eq!(reader.seen, 1);
    assert_eq!(reader.try_changed(&router.channel_log), None);
}

#[test]
fn mailbox_is_bounded_and_first_in_first_out() {
    assert_eq!(ROUTER_DEPTH, 10);
    assert_eq!(LED_DEPTH, 1);
    let mut events = RouterChannel::new();
    assert_eq!(events.try_receive(), None);
    for code in 0..10u8 {
        assert!(!events.is_full());
        assert_eq!(events.offer(RouterEvent::UsbCommand(code)), Delivery::Sent);
    }
    assert!(events.is_full());
    assert_eq!(events.offer(RouterEvent::ButtonHold), Delivery::Dropped);
    assert_eq!(events.offer(RouterEvent::UsbCommand(77)), Delivery::Dropped);
    for code in 0..10u8 {
        assert_eq!(events.try_receive(), Some(RouterEvent::UsbCommand(code)));
        assert!(!events.is_full());
    }
    assert_eq!(events.try_receive(), None);
    assert_eq!(events.offer(RouterEvent::ButtonDouble), Delivery::Sent);
    assert_eq!(events.try_receive(), Some(RouterEvent::ButtonDouble));
}

#[test]
fn led_mailbox_holds_one_command() {
    let mut led = LedChannel::new();
    assert_eq!(led.try_receive(), None);
    assert_eq!(led.offer(LedEvent::Blink), Delivery::Sent);
    assert_eq!(led.offer(LedEvent::Off), Delivery::Dropped);
    assert_eq!(led.try_receive(), Some(LedEvent::Blink));
    assert_eq!(led.try_receive(), None);
    assert_eq!(led.offer(LedEvent::Off), Delivery::Sent);
    assert_eq!(led.try_receive(), Some(LedEvent::Off));
}

#[test]
fn state_cell_keeps_latest_value_only() {
    let mut log = GlobalDataChannel::new();
    let mut reader = GlobalDataChannelRx::new();
    let mut other = GlobalDataChannelRx::new();
    let mut a = GlobalData::default();
    a.button = ButtonPhase::Held;
    let mut b = GlobalData::default();
    b.button = ButtonPhase::Pressed;
    log.send(a);
    assert_eq!(other.try_changed(&log), Some(a));
    assert!(log.publish(b));
    assert_eq!(log.version(), 2);
    assert_eq!(log.try_get(), Some(b));
    assert_eq!(reader.try_changed(&log), Some(b));
    assert_eq!(reader.try_changed(&log), None);
    assert_eq!(other.try_changed(&log), Some(b));
    assert_eq!(other.try_changed(&log), None);
    assert_eq!(reader.seen, 2);
}
