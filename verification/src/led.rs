//! LED commands and the indicator driver.
//!
//! The driver holds the level of the pin and turns each command into the
//! steps that whoever owns the pin performs: a level to drive, and a time
//! to keep it.
use vstd::prelude::*;

use crate::channels::led_queue;
use crate::channels::LedChannel;

verus! {

/// Number of times a blink toggles the pin.
pub const BLINK_TOGGLES: usize = 6;

/// Time between two toggles of a blink, in milliseconds.
pub const BLINK_PERIOD: u64 = 200;

/// What the indicator LED is told to do.
#[derive(Clone, Copy, Debug, PartialEq, Eq, Structural)]
pub enum LedEvent {
    On,
    Off,
    Blink,
}

/// One step on the pin: drive it to `high`, then keep it for `hold`
/// milliseconds.
#[derive(Clone, Copy, Debug, PartialEq, Eq, Structural)]
pub struct LedStep {
    pub high: bool,
    pub hold: u64,
}

/// The level of the pin after `n` toggles, starting from `high`.
pub open spec fn toggled(high: bool, n: int) -> bool {
    if n % 2 == 0 {
        high
    } else {
        !high
    }
}

/// The steps of `n` toggles from the level `high`: the pin alternates,
/// beginning with the other level, and each level is kept for one blink
/// period.
pub open spec fn blink_steps(high: bool, n: nat) -> Seq<LedStep> {
    Seq::new(n, |i: int| LedStep { high: toggled(high, i + 1), hold: BLINK_PERIOD })
}

/// The steps that a command takes on a pin at the level `high`.
pub open spec fn led_steps(high: bool, event: LedEvent) -> Seq<LedStep> {
    match event {
        LedEvent::On => seq![LedStep { high: true, hold: 0 }],
        LedEvent::Off => seq![LedStep { high: false, hold: 0 }],
        LedEvent::Blink => blink_steps(high, BLINK_TOGGLES as nat),
    }
}

/// The level of the pin after a command. A blink toggles an even number
/// of times and so leaves the level as it was.
pub open spec fn led_level(high: bool, event: LedEvent) -> bool {
    match event {
        LedEvent::On => true,
        LedEvent::Off => false,
        LedEvent::Blink => high,
    }
}

/// The LED driver: the level of its pin.
#[derive(Clone, Copy, Debug, PartialEq, Eq, Structural)]
pub struct Led {
    pub high: bool,
}

impl Led {
    /// A driver for a pin that is at the level `high`.
    pub fn new(high: bool) -> (led: Self)
        ensures
            led.high == high,
    {
        Led { high }
    }

    /// The steps of one blink.
    pub fn flash(&mut self) -> (steps: Vec<LedStep>)
        ensures
            steps@ == blink_steps(old(self).high, BLINK_TOGGLES as nat),
            final(self).high == old(self).high,
    {
        let mut steps: Vec<LedStep> = Vec::new();
        let mut i: usize = 0;
        while i < BLINK_TOGGLES
            invariant
                i <= BLINK_TOGGLES,
                self.high == toggled(old(self).high, i as int),
                steps@ == blink_steps(old(self).high, i as nat),
            decreases BLINK_TOGGLES - i,
        {
            self.high = !self.high;
            steps.push(LedStep { high: self.high, hold: BLINK_PERIOD });
            i += 1;
            assert(steps@ =~= blink_steps(old(self).high, i as nat));
        }
        steps
    }

    /// Applies one command: returns the steps to take on the pin, and
    /// keeps the level that the pin has after them.
    pub fn process_event(&mut self, event: LedEvent) -> (steps: Vec<LedStep>)
        ensures
            steps@ == led_steps(old(self).high, event),
            final(self).high == led_level(old(self).high, event),
    {
        match event {
            LedEvent::On => {
                self.high = true;
                let steps = vec![LedStep { high: true, hold: 0 }];
                assert(steps@ =~= led_steps(old(self).high, event));
                steps
            },
            LedEvent::Off => {
                self.high = false;
                let steps = vec![LedStep { high: false, hold: 0 }];
                assert(steps@ =~= led_steps(old(self).high, event));
                steps
            },
            LedEvent::Blink => self.flash(),
        }
    }

    /// One turn of the driver: takes the oldest command out of the
    /// mailbox, if one waits there, and applies it. Without a command
    /// nothing changes.
    pub fn show(&mut self, rx: &mut LedChannel) -> (r: Option<(LedEvent, Vec<LedStep>)>)
        ensures
            r is Some <==> led_queue(*old(rx)).len() > 0,
            r matches Some((event, steps)) ==> {
                &&& event == led_queue(*old(rx))[0]
                &&& led_queue(*final(rx)) == led_queue(*old(rx)).skip(1)
                &&& steps@ == led_steps(old(self).high, event)
                &&& final(self).high == led_level(old(self).high, event)
            },
            r is None ==> final(self).high == old(self).high && led_queue(*final(rx)) == led_queue(
                *old(rx),
            ),
    {
        match rx.try_receive() {
            Some(event) => {
                let steps = self.process_event(event);
                Some((event, steps))
            },
            None => None,
        }
    }
}

} // verus!
