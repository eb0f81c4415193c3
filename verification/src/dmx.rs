//! The timing detector for the DMX line.
//!
//! A frame is announced by a break (the line low) and a mark after break
//! (the line high). Neither can be had from the serial peripheral, so the
//! detector times the edges of an auxiliary input. The waiting and the
//! serial read are the caller's: the detector says what to wait for, takes
//! what came, and decides.
use vstd::prelude::*;

use crate::channels::delivery;
use crate::channels::offered;
use crate::channels::router_queue;
use crate::channels::Delivery;
use crate::channels::RouterChannel;
use crate::channels::ROUTER_DEPTH;
use crate::event_router::RouterEvent;

verus! {

/// Shortest mark after break, in microseconds.
pub const MAB_DELAY: u64 = 8;

/// Shortest break, in microseconds.
pub const BREAK_DELAY: u64 = 88;

/// Bound on a break and on a mark after break, in microseconds.
pub const BREAK_TIMEOUT: u64 = 1000000;

/// The start code that byte 0 of an accepted frame holds.
pub const START_CODE: u8 = 0x00;

/// The windows of the protocol, in microseconds. An interval is valid if
/// it is longer than its delay and shorter than the timeout.
#[derive(Clone, Copy, Debug, PartialEq, Eq, Structural)]
pub struct DmxTiming {
    pub break_delay: u64,
    pub mab_delay: u64,
    pub timeout: u64,
}

/// Where the detector stands.
#[derive(Clone, Copy, Debug, PartialEq, Eq, Structural)]
pub enum DmxState {
    /// Waiting for the line to fall: the start of a break.
    WaitBreakFall,
    /// In a break that began at `break_fall`; waiting for the line to rise.
    WaitBreakRise { break_fall: u64 },
    /// In a mark after break that began at `rise`; waiting for the line to
    /// fall.
    WaitMabFall { rise: u64 },
    /// Break and mark were valid; waiting for the serial read of the frame.
    ReadFrame,
}

/// What the detector is given: an edge with its time in microseconds, or
/// the result of the serial read.
#[derive(Clone, Copy, Debug, PartialEq, Eq)]
pub enum DmxInput {
    Falling(u64),
    Rising(u64),
    Frame([u8; 513]),
    ReadFailed,
}

/// What the caller does next for the detector.
#[derive(Clone, Copy, Debug, PartialEq, Eq, Structural)]
pub enum DmxAction {
    WaitFalling,
    WaitRising,
    ReadFrame,
}

/// Whether the interval from `from` to `to` is longer than `delay` and
/// shorter than `timeout`.
pub open spec fn in_window(from: u64, to: u64, delay: u64, timeout: u64) -> bool {
    delay < to - from < timeout
}

/// The state after an input. An input that the state does not wait for
/// changes nothing.
pub open spec fn dmx_next(timing: DmxTiming, state: DmxState, input: DmxInput) -> DmxState {
    match (state, input) {
        (DmxState::WaitBreakFall, DmxInput::Falling(t)) => DmxState::WaitBreakRise {
            break_fall: t,
        },
        (DmxState::WaitBreakRise { break_fall }, DmxInput::Rising(t)) => {
            if in_window(break_fall, t, timing.break_delay, timing.timeout) {
                DmxState::WaitMabFall { rise: t }
            } else {
                DmxState::WaitBreakFall
            }
        },
        (DmxState::WaitMabFall { rise }, DmxInput::Falling(t)) => {
            if in_window(rise, t, timing.mab_delay, timing.timeout) {
                DmxState::ReadFrame
            } else {
                DmxState::WaitBreakFall
            }
        },
        (DmxState::ReadFrame, DmxInput::Frame(_)) => DmxState::WaitBreakFall,
        (DmxState::ReadFrame, DmxInput::ReadFailed) => DmxState::WaitBreakFall,
        _ => state,
    }
}

/// The event that an input gives rise to: a frame that was read while the
/// detector waited for one, and that begins with the start code.
pub open spec fn dmx_emits(state: DmxState, input: DmxInput) -> Option<RouterEvent> {
    match (state, input) {
        (DmxState::ReadFrame, DmxInput::Frame(frame)) => {
            if frame[0] == START_CODE {
                Some(RouterEvent::DmxPacket(frame))
            } else {
                None
            }
        },
        _ => None,
    }
}

/// What the caller does next in a state.
pub open spec fn dmx_action(state: DmxState) -> DmxAction {
    match state {
        DmxState::WaitBreakFall => DmxAction::WaitFalling,
        DmxState::WaitBreakRise { .. } => DmxAction::WaitRising,
        DmxState::WaitMabFall { .. } => DmxAction::WaitFalling,
        DmxState::ReadFrame => DmxAction::ReadFrame,
    }
}

/// The state after a sequence of inputs.
pub open spec fn dmx_run_state(timing: DmxTiming, state: DmxState, inputs: Seq<DmxInput>) -> DmxState
    decreases inputs.len(),
{
    if inputs.len() == 0 {
        state
    } else {
        dmx_next(timing, dmx_run_state(timing, state, inputs.drop_last()), inputs.last())
    }
}

/// The events that a sequence of inputs gives rise to, in order.
pub open spec fn dmx_run_events(timing: DmxTiming, state: DmxState, inputs: Seq<DmxInput>) -> Seq<
    RouterEvent,
>
    decreases inputs.len(),
{
    if inputs.len() == 0 {
        Seq::empty()
    } else {
        let before = dmx_run_events(timing, state, inputs.drop_last());
        match dmx_emits(dmx_run_state(timing, state, inputs.drop_last()), inputs.last()) {
            Some(event) => before.push(event),
            None => before,
        }
    }
}

/// One more input is one more step.
pub proof fn lemma_dmx_run_push(
    timing: DmxTiming,
    state: DmxState,
    inputs: Seq<DmxInput>,
    input: DmxInput,
)
    ensures
        dmx_run_state(timing, state, inputs.push(input)) == dmx_next(
            timing,
            dmx_run_state(timing, state, inputs),
            input,
        ),
        dmx_run_events(timing, state, inputs.push(input)) == match dmx_emits(
            dmx_run_state(timing, state, inputs),
            input,
        ) {
            Some(event) => dmx_run_events(timing, state, inputs).push(event),
            None => dmx_run_events(timing, state, inputs),
        },
{
    assert(inputs.push(input).drop_last() =~= inputs);
}

/// A break that is too short or too long gives no frame. After a falling
/// and a rising edge whose interval is not longer than the break delay,
/// or not shorter than the timeout, nothing was emitted and the detector
/// waits for a break again.
pub proof fn lemma_bad_break_resets(timing: DmxTiming, fall: u64, rise: u64)
    requires
        rise - fall <= timing.break_delay || rise - fall >= timing.timeout,
    ensures
        dmx_run_state(
            timing,
            DmxState::WaitBreakFall,
            seq![DmxInput::Falling(fall), DmxInput::Rising(rise)],
        ) == DmxState::WaitBreakFall,
        dmx_run_events(
            timing,
            DmxState::WaitBreakFall,
            seq![DmxInput::Falling(fall), DmxInput::Rising(rise)],
        ) == Seq::<RouterEvent>::empty(),
{
    let start = DmxState::WaitBreakFall;
    let none = Seq::<DmxInput>::empty();
    let one = none.push(DmxInput::Falling(fall));
    let two = one.push(DmxInput::Rising(rise));
    lemma_dmx_run_push(timing, start, none, DmxInput::Falling(fall));
    lemma_dmx_run_push(timing, start, one, DmxInput::Rising(rise));
    assert(two =~= seq![DmxInput::Falling(fall), DmxInput::Rising(rise)]);
}

/// A valid break, a valid mark after break and a frame that was read
/// give exactly one event, which holds the frame as it was read, if the
/// frame begins with the start code, and no event if it does not. Either
/// way the detector waits for a break again.
pub proof fn lemma_frame_after_valid_timing(
    timing: DmxTiming,
    fall: u64,
    rise: u64,
    mab_fall: u64,
    frame: [u8; 513],
)
    requires
        in_window(fall, rise, timing.break_delay, timing.timeout),
        in_window(rise, mab_fall, timing.mab_delay, timing.timeout),
    ensures
        dmx_run_state(
            timing,
            DmxState::WaitBreakFall,
            seq![
                DmxInput::Falling(fall),
                DmxInput::Rising(rise),
                DmxInput::Falling(mab_fall),
                DmxInput::Frame(frame),
            ],
        ) == DmxState::WaitBreakFall,
        dmx_run_events(
            timing,
            DmxState::WaitBreakFall,
            seq![
                DmxInput::Falling(fall),
                DmxInput::Rising(rise),
                DmxInput::Falling(mab_fall),
                DmxInput::Frame(frame),
            ],
        ) == (if frame[0] == START_CODE {
            seq![RouterEvent::DmxPacket(frame)]
        } else {
            Seq::<RouterEvent>::empty()
        }),
{
    let start = DmxState::WaitBreakFall;
    let none = Seq::<DmxInput>::empty();
    let one = none.push(DmxInput::Falling(fall));
    let two = one.push(DmxInput::Rising(rise));
    let three = two.push(DmxInput::Falling(mab_fall));
    let four = three.push(DmxInput::Frame(frame));
    lemma_dmx_run_push(timing, start, none, DmxInput::Falling(fall));
    lemma_dmx_run_push(timing, start, one, DmxInput::Rising(rise));
    lemma_dmx_run_push(timing, start, two, DmxInput::Falling(mab_fall));
    lemma_dmx_run_push(timing, start, three, DmxInput::Frame(frame));
    assert(four =~= seq![
        DmxInput::Falling(fall),
        DmxInput::Rising(rise),
        DmxInput::Falling(mab_fall),
        DmxInput::Frame(frame),
    ]);
    if frame[0] == START_CODE {
        assert(Seq::<RouterEvent>::empty().push(RouterEvent::DmxPacket(frame)) =~= seq![
            RouterEvent::DmxPacket(frame),
        ]);
    }
}

/// Nothing is emitted but on a frame that was read while the detector
/// waited for one.
pub proof fn lemma_events_only_from_read(state: DmxState, input: DmxInput)
    ensures
        dmx_emits(state, input) is Some ==> state == DmxState::ReadFrame && input is Frame,
{
}

/// Whether `to - from` lies in the window, computed without overflow.
fn window_holds(from: u64, to: u64, delay: u64, timeout: u64) -> (r: bool)
    ensures
        r == in_window(from, to, delay, timeout),
{
    if to <= from {
        false
    } else {
        let interval = to - from;
        interval > delay && interval < timeout
    }
}

impl DmxTiming {
    /// The windows of the standard: a break longer than 88 microseconds, a
    /// mark longer than 8, both shorter than a second.
    pub fn standard() -> (t: Self)
        ensures
            t == (DmxTiming {
                break_delay: BREAK_DELAY,
                mab_delay: MAB_DELAY,
                timeout: BREAK_TIMEOUT,
            }),
    {
        DmxTiming { break_delay: BREAK_DELAY, mab_delay: MAB_DELAY, timeout: BREAK_TIMEOUT }
    }
}

/// The detector: its windows and where it stands.
#[derive(Clone, Copy, Debug, PartialEq, Eq)]
pub struct DmxDetector {
    pub timing: DmxTiming,
    pub state: DmxState,
}

impl DmxDetector {
    /// A detector that waits for a break.
    pub fn new(timing: DmxTiming) -> (d: Self)
        ensures
            d.timing == timing,
            d.state == DmxState::WaitBreakFall,
    {
        DmxDetector { timing, state: DmxState::WaitBreakFall }
    }

    /// What the caller does next: which edge to wait for, or to read the
    /// frame.
    pub fn action(&self) -> (a: DmxAction)
        ensures
            a == dmx_action(self.state),
    {
        match self.state {
            DmxState::WaitBreakFall => DmxAction::WaitFalling,
            DmxState::WaitBreakRise { .. } => DmxAction::WaitRising,
            DmxState::WaitMabFall { .. } => DmxAction::WaitFalling,
            DmxState::ReadFrame => DmxAction::ReadFrame,
        }
    }

    /// Takes one input and moves on. Returns the event for the router, if
    /// the input completes a frame.
    pub fn advance(&mut self, input: DmxInput) -> (event: Option<RouterEvent>)
        ensures
            final(self).timing == old(self).timing,
            final(self).state == dmx_next(old(self).timing, old(self).state, input),
            event == dmx_emits(old(self).state, input),
    {
        let timing = self.timing;
        match (self.state, input) {
            (DmxState::WaitBreakFall, DmxInput::Falling(t)) => {
                self.state = DmxState::WaitBreakRise { break_fall: t };
                None
            },
            (DmxState::WaitBreakRise { break_fall }, DmxInput::Rising(t)) => {
                if window_holds(break_fall, t, timing.break_delay, timing.timeout) {
                    self.state = DmxState::WaitMabFall { rise: t };
                } else {
                    self.state = DmxState::WaitBreakFall;
                }
                None
            },
            (DmxState::WaitMabFall { rise }, DmxInput::Falling(t)) => {
                if window_holds(rise, t, timing.mab_delay, timing.timeout) {
                    self.state = DmxState::ReadFrame;
                } else {
                    self.state = DmxState::WaitBreakFall;
                }
                None
            },
            (DmxState::ReadFrame, DmxInput::Frame(frame)) => {
                self.state = DmxState::WaitBreakFall;
                if frame[0] == START_CODE {
                    Some(RouterEvent::DmxPacket(frame))
                } else {
                    None
                }
            },
            (DmxState::ReadFrame, DmxInput::ReadFailed) => {
                self.state = DmxState::WaitBreakFall;
                None
            },
            _ => None,
        }
    }

    /// Takes one input and offers the frame that it completes, if any, to
    /// the router's mailbox. A full mailbox loses the frame: the next
    /// break brings a fresher one.
    pub fn feed(&mut self, input: DmxInput, tx: &mut RouterChannel) -> (d: Delivery)
        ensures
            final(self).timing == old(self).timing,
            final(self).state == dmx_next(old(self).timing, old(self).state, input),
            router_queue(*final(tx)) == offered(
                router_queue(*old(tx)),
                ROUTER_DEPTH as nat,
                dmx_emits(old(self).state, input),
            ),
            d == delivery(
                router_queue(*old(tx)),
                ROUTER_DEPTH as nat,
                dmx_emits(old(self).state, input),
            ),
    {
        match self.advance(input) {
            Some(event) => tx.offer(event),
            None => Delivery::Nothing,
        }
    }
}

} // verus!
