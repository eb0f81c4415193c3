//! PWM commands and the model of the PWM outputs.
//!
//! The outputs are three timers of four channels each. One channel of
//! each timer drives a light; the others are kept off. The model holds,
//! for every channel, whether it is enabled and its duty cycle. Whoever
//! owns the hardware makes it follow the model.
use vstd::prelude::*;

use crate::channels::pwm_queue;
use crate::channels::PwmChannel;

verus! {

/// The duty value that stands for an output that is always active.
pub const FULL_SCALE: u8 = 255;

/// What the PWM outputs are told to do.
#[derive(Clone, Copy, Debug, PartialEq, Eq)]
pub enum PwmEvent {
    /// Enable the three channels that drive a light.
    On,
    /// Disable every channel and take every duty cycle to fully off.
    Off,
    /// Set the duty cycles of the three channels that drive a light.
    Value([u8; 3]),
}

/// One PWM channel: whether it is enabled, and its duty cycle as a
/// fraction of 255.
#[derive(Clone, Copy, Debug, PartialEq, Eq, Structural)]
pub struct PwmOutput {
    pub enabled: bool,
    pub duty: u8,
}

/// The four channels of one timer.
#[derive(Clone, Copy, Debug, PartialEq, Eq, Structural)]
pub struct PwmBank {
    pub ch1: PwmOutput,
    pub ch2: PwmOutput,
    pub ch3: PwmOutput,
    pub ch4: PwmOutput,
}

/// All twelve channels. The lights are on channel 1 of `a`, channel 3 of
/// `b` and channel 2 of `c`.
#[derive(Clone, Copy, Debug, PartialEq, Eq, Structural)]
pub struct PwmOutputs {
    pub a: PwmBank,
    pub b: PwmBank,
    pub c: PwmBank,
}

impl PwmOutput {
    /// The channel with another enable flag and the same duty cycle.
    pub open spec fn switched(self, enabled: bool) -> PwmOutput {
        PwmOutput { enabled, duty: self.duty }
    }

    /// The channel with another duty cycle and the same enable flag.
    pub open spec fn with_duty(self, duty: u8) -> PwmOutput {
        PwmOutput { enabled: self.enabled, duty }
    }

    /// Disabled, with the duty cycle fully off.
    pub open spec fn is_off(self) -> bool {
        !self.enabled && self.duty == 0
    }
}

impl PwmBank {
    /// Every channel of the timer is disabled and fully off.
    pub open spec fn is_off(self) -> bool {
        self.ch1.is_off() && self.ch2.is_off() && self.ch3.is_off() && self.ch4.is_off()
    }
}

impl PwmOutputs {
    /// Every channel is disabled and fully off.
    pub open spec fn all_off(self) -> bool {
        self.a.is_off() && self.b.is_off() && self.c.is_off()
    }

    /// The outputs after `On`: the three channels that drive a light are
    /// enabled, the nine others disabled. No duty cycle changes.
    pub open spec fn enabled(self) -> PwmOutputs {
        PwmOutputs {
            a: PwmBank {
                ch1: self.a.ch1.switched(true),
                ch2: self.a.ch2.switched(false),
                ch3: self.a.ch3.switched(false),
                ch4: self.a.ch4.switched(false),
            },
            b: PwmBank {
                ch1: self.b.ch1.switched(false),
                ch2: self.b.ch2.switched(false),
                ch3: self.b.ch3.switched(true),
                ch4: self.b.ch4.switched(false),
            },
            c: PwmBank {
                ch1: self.c.ch1.switched(false),
                ch2: self.c.ch2.switched(true),
                ch3: self.c.ch3.switched(false),
                ch4: self.c.ch4.switched(false),
            },
        }
    }

    /// The outputs after `Value`: the three channels that drive a light
    /// have the given duty cycles. Nothing else changes.
    pub open spec fn with_levels(self, values: [u8; 3]) -> PwmOutputs {
        PwmOutputs {
            a: PwmBank {
                ch1: self.a.ch1.with_duty(values[0]),
                ch2: self.a.ch2,
                ch3: self.a.ch3,
                ch4: self.a.ch4,
            },
            b: PwmBank {
                ch1: self.b.ch1,
                ch2: self.b.ch2,
                ch3: self.b.ch3.with_duty(values[1]),
                ch4: self.b.ch4,
            },
            c: PwmBank {
                ch1: self.c.ch1,
                ch2: self.c.ch2.with_duty(values[2]),
                ch3: self.c.ch3,
                ch4: self.c.ch4,
            },
        }
    }

    /// The outputs after an event.
    pub open spec fn after(self, event: PwmEvent) -> PwmOutputs {
        match event {
            PwmEvent::On => self.enabled(),
            PwmEvent::Off => pwm_off(),
            PwmEvent::Value(values) => self.with_levels(values),
        }
    }
}

/// The outputs with every channel disabled and fully off.
pub open spec fn pwm_off() -> PwmOutputs {
    let off = PwmOutput { enabled: false, duty: 0 };
    let bank = PwmBank { ch1: off, ch2: off, ch3: off, ch4: off };
    PwmOutputs { a: bank, b: bank, c: bank }
}

/// The count that a timer is given for a duty cycle: `level` of 255
/// parts of `max_duty`, rounded down.
pub open spec fn duty_ticks_spec(level: u8, max_duty: u16) -> int {
    (level as int * max_duty as int) / 255
}

/// `Off` leaves every channel disabled and fully off, whatever the
/// outputs were before.
pub proof fn lemma_off_is_all_off(outputs: PwmOutputs)
    ensures
        outputs.after(PwmEvent::Off).all_off(),
{
}

/// `Off` after `Value` leaves every channel disabled and fully off: no
/// duty cycle that was set before survives it.
pub proof fn lemma_off_after_levels(outputs: PwmOutputs, values: [u8; 3])
    ensures
        outputs.after(PwmEvent::Value(values)).after(PwmEvent::Off).all_off(),
{
}

/// `On` after `Off` shows no light: the three channels are enabled, and
/// their duty cycles are still fully off.
pub proof fn lemma_on_after_off_is_dark(outputs: PwmOutputs)
    ensures
        ({
            let now = outputs.after(PwmEvent::Off).after(PwmEvent::On);
            now.a.ch1.duty == 0 && now.b.ch3.duty == 0 && now.c.ch2.duty == 0
        }),
{
}

/// The duty cycle maps linearly onto the count of the timer: 0 is
/// fully off, 255 is the full count, and a higher duty cycle never gives
/// a lower count.
pub proof fn lemma_duty_ticks_linear(low: u8, high: u8, max_duty: u16)
    requires
        low <= high,
    ensures
        duty_ticks_spec(0, max_duty) == 0,
        duty_ticks_spec(FULL_SCALE, max_duty) == max_duty,
        duty_ticks_spec(low, max_duty) <= duty_ticks_spec(high, max_duty),
{
    assert(low * max_duty <= high * max_duty) by (nonlinear_arith)
        requires
            low <= high,
            max_duty >= 0,
    ;
}

/// The count that a timer with the full count `max_duty` is given for the
/// duty cycle `level`.
pub fn duty_ticks(level: u8, max_duty: u16) -> (ticks: u16)
    ensures
        ticks == duty_ticks_spec(level, max_duty),
        ticks <= max_duty,
{
    assert(0 <= level * max_duty <= 255 * max_duty && 255 * max_duty <= 255 * 65535)
        by (nonlinear_arith)
        requires
            0 <= level <= 255,
            0 <= max_duty <= 65535,
    ;
    let product: u32 = level as u32 * max_duty as u32;
    (product / 255) as u16
}

/// The PWM driver: the model of the outputs.
#[derive(Clone, Copy, Debug, PartialEq, Eq, Structural)]
pub struct Pwm {
    pub outputs: PwmOutputs,
}

impl Pwm {
    /// A driver on outputs that are all disabled and fully off, as the
    /// timers are after their set-up.
    pub fn new() -> (p: Self)
        ensures
            p.outputs == pwm_off(),
    {
        let off = PwmOutput { enabled: false, duty: 0 };
        let bank = PwmBank { ch1: off, ch2: off, ch3: off, ch4: off };
        Pwm { outputs: PwmOutputs { a: bank, b: bank, c: bank } }
    }

    /// Enables the three channels that drive a light and disables the
    /// others.
    pub fn enable(&mut self)
        ensures
            final(self).outputs == old(self).outputs.enabled(),
    {
        self.outputs.a.ch1.enabled = true;
        self.outputs.a.ch2.enabled = false;
        self.outputs.a.ch3.enabled = false;
        self.outputs.a.ch4.enabled = false;
        self.outputs.b.ch1.enabled = false;
        self.outputs.b.ch2.enabled = false;
        self.outputs.b.ch3.enabled = true;
        self.outputs.b.ch4.enabled = false;
        self.outputs.c.ch1.enabled = false;
        self.outputs.c.ch2.enabled = true;
        self.outputs.c.ch3.enabled = false;
        self.outputs.c.ch4.enabled = false;
    }

    /// Disables every channel and takes every duty cycle to fully off.
    /// Both are needed: a channel that is only disabled keeps its duty
    /// cycle and shows it again when it is enabled.
    pub fn disable(&mut self)
        ensures
            final(self).outputs == pwm_off(),
            final(self).outputs.all_off(),
    {
        self.outputs.a.ch1.enabled = false;
        self.outputs.a.ch2.enabled = false;
        self.outputs.a.ch3.enabled = false;
        self.outputs.a.ch4.enabled = false;
        self.outputs.b.ch1.enabled = false;
        self.outputs.b.ch2.enabled = false;
        self.outputs.b.ch3.enabled = false;
        self.outputs.b.ch4.enabled = false;
        self.outputs.c.ch1.enabled = false;
        self.outputs.c.ch2.enabled = false;
        self.outputs.c.ch3.enabled = false;
        self.outputs.c.ch4.enabled = false;

        self.outputs.a.ch1.duty = 0;
        self.outputs.a.ch2.duty = 0;
        self.outputs.a.ch3.duty = 0;
        self.outputs.a.ch4.duty = 0;
        self.outputs.b.ch1.duty = 0;
        self.outputs.b.ch2.duty = 0;
        self.outputs.b.ch3.duty = 0;
        self.outputs.b.ch4.duty = 0;
        self.outputs.c.ch1.duty = 0;
        self.outputs.c.ch2.duty = 0;
        self.outputs.c.ch3.duty = 0;
        self.outputs.c.ch4.duty = 0;
    }

    /// Applies one command to the outputs.
    pub fn process_event(&mut self, event: PwmEvent)
        ensures
            final(self).outputs == old(self).outputs.after(event),
            event is Off ==> final(self).outputs.all_off(),
    {
        match event {
            PwmEvent::On => {
                self.enable();
            },
            PwmEvent::Off => {
                self.disable();
            },
            PwmEvent::Value(values) => {
                self.outputs.a.ch1.duty = values[0];
                self.outputs.b.ch3.duty = values[1];
                self.outputs.c.ch2.duty = values[2];
            },
        }
    }

    /// One turn of the driver: takes the oldest command out of the
    /// mailbox, if one waits there, and applies it. Without a command
    /// nothing changes.
    pub fn show(&mut self, rx: &mut PwmChannel) -> (event: Option<PwmEvent>)
        ensures
            event is Some <==> pwm_queue(*old(rx)).len() > 0,
            event matches Some(e) ==> {
                &&& e == pwm_queue(*old(rx))[0]
                &&& pwm_queue(*final(rx)) == pwm_queue(*old(rx)).skip(1)
                &&& final(self).outputs == old(self).outputs.after(e)
            },
            event is None ==> final(self).outputs == old(self).outputs && pwm_queue(*final(rx))
                == pwm_queue(*old(rx)),
    {
        match rx.try_receive() {
            Some(event) => {
                self.process_event(event);
                Some(event)
            },
            None => None,
        }
    }
}

} // verus!
