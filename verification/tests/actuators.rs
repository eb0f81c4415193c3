use dmx_fixture::channels::{Delivery, LedChannel, PwmChannel};
use dmx_fixture::led::{Led, LedEvent, LedStep};
use dmx_fixture::pwm::{duty_ticks, Pwm, PwmBank, PwmEvent, PwmOutput, PwmOutputs};

fn all_channels(o: &PwmOutputs) -> Vec<PwmOutput> {
    let mut v = Vec::new();
    for bank in [o.a, o.b, o.c] {
        let PwmBank { ch1, ch2, ch3, ch4 } = bank;
        v.push(ch1);
        v.push(ch2);
        v.push(ch3);
        v.push(ch4);
    }
    v
}

#[test]
fn led_on_and_off() {
    let mut led = Led::new(false);
    assert_eq!(led.process_event(LedEvent::On), vec![LedStep { high: true, hold: 0 }]);
    assert!(led.high);
    assert_eq!(led.process_event(LedEvent::On), vec![LedStep { high: true, hold: 0 }]);
    assert!(led.high);
    assert_eq!(led.process_event(LedEvent::Off), vec![LedStep { high: false, hold: 0 }]);
    assert!(!led.high);
}

#[test]
fn led_blink_toggles_six_times() {
    let mut led = Led::new(false);
    let steps = led.process_event(LedEvent::Blink);
    assert_eq!(
        steps,
        vec![
            LedStep { high: true, hold: 200 },
            LedStep { high: false, hold: 200 },
            LedStep { high: true, hold: 200 },
            LedStep { high: false, hold: 200 },
            LedStep { high: true, hold: 200 },
            LedStep { high: false, hold: 200 },
        ]
    );
    assert!(!led.high);

    let mut lit = Led::new(true);
    let steps = lit.flash();
    assert_eq!(steps.len(), 6);
    assert_eq!(steps[0], LedStep { high: false, hold: 200 });
    assert_eq!(steps[5], LedStep { high: true, hold: 200 });
    assert!(lit.high);
}

#[test]
fn led_show_takes_one_command_per_turn() {
    let mut rx = LedChannel::new();
    let mut led = Led::new(false);
    assert!(led.show(&mut rx).is_none());
    assert_eq!(rx.offer(LedEvent::On), Delivery::Sent);
    assert_eq!(rx.offer(LedEvent::Off), Delivery::Dropped);
    let (event, steps) = led.show(&mut rx).unwrap();
    assert_eq!(event, LedEvent::On);
    assert_eq!(steps, vec![LedStep { high: true, hold: 0 }]);
    assert!(led.high);
    assert!(led.show(&mut rx).is_none());
    assert!(led.high);
}

#[test]
fn pwm_starts_off() {
    let pwm = Pwm::new();
    for ch in all_channels(&pwm.outputs) {
        assert_eq!(ch, PwmOutput { enabled: false, duty: 0 });
    }
}

#[test]
fn pwm_on_enables_the_three_light_channels() {
    let mut pwm = Pwm::new();
    pwm.process_event(PwmEvent::On);
    let flags: Vec<bool> = all_channels(&pwm.outputs).iter().map(|c| c.enabled).collect();
    assert_eq!(
        flags,
        vec![true, false, false, false, false, false, true, false, false, true, false, false]
    );
    assert!(all_channels(&pwm.outputs).iter().all(|c| c.duty == 0));
}

#[test]
fn pwm_levels_set_only_duty_cycles() {
    let mut pwm = Pwm::new();
    pwm.process_event(PwmEvent::Value([10, 128, 255]));
    assert_eq!(pwm.outputs.a.ch1, PwmOutput { enabled: false, duty: 10 });
    assert_eq!(pwm.outputs.b.ch3, PwmOutput { enabled: false, duty: 128 });
    assert_eq!(pwm.outputs.c.ch2, PwmOutput { enabled: false, duty: 255 });
    pwm.enable();
    assert_eq!(pwm.outputs.a.ch1, PwmOutput { enabled: true, duty: 10 });
    assert_eq!(pwm.outputs.b.ch3, PwmOutput { enabled: true, duty: 128 });
    assert_eq!(pwm.outputs.c.ch2, PwmOutput { enabled: true, duty: 255 });
    assert_eq!(pwm.outputs.a.ch2, PwmOutput { enabled: false, duty: 0 });
}

#[test]
fn pwm_off_disables_and_clears_every_channel() {
    let mut pwm = Pwm::new();
    pwm.process_event(PwmEvent::On);
    pwm.process_event(PwmEvent::Value([200, 100, 50]));
    pwm.outputs.b.ch1 = PwmOutput { enabled: true, duty: 77 };
    pwm.process_event(PwmEvent::Off);
    for ch in all_channels(&pwm.outputs) {
        assert_eq!(ch, PwmOutput { enabled: false, duty: 0 });
    }
    pwm.process_event(PwmEvent::On);
    assert_eq!(pwm.outputs.a.ch1, PwmOutput { enabled: true, duty: 0 });

    pwm.process_event(PwmEvent::Value([1, 2, 3]));
    pwm.disable();
    for ch in all_channels(&pwm.outputs) {
        assert_eq!(ch, PwmOutput { enabled: false, duty: 0 });
    }
}

#[test]
fn pwm_show_takes_one_command_per_turn() {
    let mut rx = PwmChannel::new();
    let mut pwm = Pwm::new();
    assert_eq!(pwm.show(&mut rx), None);
    assert_eq!(rx.offer(PwmEvent::Value([9, 8, 7])), Delivery::Sent);
    assert_eq!(rx.offer(PwmEvent::Off), Delivery::Dropped);
    assert_eq!(pwm.show(&mut rx), Some(PwmEvent::Value([9, 8, 7])));
    assert_eq!(pwm.outputs.a.ch1.duty, 9);
    assert_eq!(pwm.outputs.b.ch3.duty, 8);
    assert_eq!(pwm.outputs.c.ch2.duty, 7);
    assert_eq!(pwm.show(&mut rx), None);
    assert_eq!(rx.offer(PwmEvent::Off), Delivery::Sent);
    assert_eq!(rx.try_receive(), Some(PwmEvent::Off));
}

#[test]
fn duty_ticks_is_linear_over_255() {
    assert_eq!(duty_ticks(0, 1000), 0);
    assert_eq!(duty_ticks(255, 1000), 1000);
    assert_eq!(duty_ticks(128, 1000), 501);
    assert_eq!(duty_ticks(1, 1000), 3);
    assert_eq!(duty_ticks(254, 65535), 65278);
    assert_eq!(duty_ticks(255, 65535), 65535);
    assert_eq!(duty_ticks(200, 0), 0);
}
