//! The gesture classifier for the button.
//!
//! One gesture is a press with what follows it, up to the moment the
//! classifier waits for a new press. Each gesture is reported once, as a
//! hold, a single press or a double press. The waiting is the caller's: the
//! classifier says which edge to wait for and for how long, takes what
//! came first, and decides. A wait that runs out is an input like any
//! other.
use vstd::prelude::*;

use crate::channels::delivery;
use crate::channels::offered;
use crate::channels::router_queue;
use crate::channels::Delivery;
use crate::channels::RouterChannel;
use crate::channels::ROUTER_DEPTH;
use crate::event_router::RouterEvent;

verus! {

/// How long a second press may take to make a double press, in
/// milliseconds.
pub const DOUBLE_CLICK_DELAY: u64 = 250;

/// How long the button is down before the press is a hold, in
/// milliseconds.
pub const HOLD_DELAY: u64 = 1000;

/// The two waiting times of the classifier, in milliseconds.
#[derive(Clone, Copy, Debug, PartialEq, Eq, Structural)]
pub struct GestureTiming {
    pub hold_delay: u64,
    pub double_click_delay: u64,
}

/// Where the classifier stands within a gesture.
#[derive(Clone, Copy, Debug, PartialEq, Eq, Structural)]
pub enum ButtonState {
    /// Between gestures: waiting for a press.
    WaitPress,
    /// The button is down; the hold time runs.
    WaitRelease,
    /// The button went up in time; the double press time runs.
    WaitSecondPress,
    /// A hold was reported; waiting for the button to go up.
    HoldRelease,
    /// A double press was reported; waiting for the button to go up.
    DoubleRelease,
}

/// What the classifier is given.
#[derive(Clone, Copy, Debug, PartialEq, Eq, Structural)]
pub enum ButtonInput {
    /// The button went down.
    Press,
    /// The button went up.
    Release,
    /// The time that the classifier asked to wait ran out first.
    TimedOut,
}

/// The two edges of the button.
#[derive(Clone, Copy, Debug, PartialEq, Eq, Structural)]
pub enum ButtonEdge {
    Press,
    Release,
}

/// What the caller waits for next: an edge, and at most so many
/// milliseconds where a time is given.
#[derive(Clone, Copy, Debug, PartialEq, Eq, Structural)]
pub struct ButtonWait {
    pub edge: ButtonEdge,
    pub timeout: Option<u64>,
}

/// The state after an input. An input that the state does not wait for
/// changes nothing.
pub open spec fn button_next(state: ButtonState, input: ButtonInput) -> ButtonState {
    match (state, input) {
        (ButtonState::WaitPress, ButtonInput::Press) => ButtonState::WaitRelease,
        (ButtonState::WaitRelease, ButtonInput::Release) => ButtonState::WaitSecondPress,
        (ButtonState::WaitRelease, ButtonInput::TimedOut) => ButtonState::HoldRelease,
        (ButtonState::WaitSecondPress, ButtonInput::Press) => ButtonState::DoubleRelease,
        (ButtonState::WaitSecondPress, ButtonInput::TimedOut) => ButtonState::WaitPress,
        (ButtonState::HoldRelease, ButtonInput::Release) => ButtonState::WaitPress,
        (ButtonState::DoubleRelease, ButtonInput::Release) => ButtonState::WaitPress,
        _ => state,
    }
}

/// The event that an input gives rise to. The hold time running out is a
/// hold; the double press time running out is a single press; a second
/// press in time is a double press.
pub open spec fn button_emits(state: ButtonState, input: ButtonInput) -> Option<RouterEvent> {
    match (state, input) {
        (ButtonState::WaitRelease, ButtonInput::TimedOut) => Some(RouterEvent::ButtonHold),
        (ButtonState::WaitSecondPress, ButtonInput::Press) => Some(RouterEvent::ButtonDouble),
        (ButtonState::WaitSecondPress, ButtonInput::TimedOut) => Some(RouterEvent::ButtonPressed),
        _ => None,
    }
}

/// What the caller waits for in a state.
pub open spec fn button_wait(timing: GestureTiming, state: ButtonState) -> ButtonWait {
    match state {
        ButtonState::WaitPress => ButtonWait { edge: ButtonEdge::Press, timeout: None },
        ButtonState::WaitRelease => ButtonWait {
            edge: ButtonEdge::Release,
            timeout: Some(timing.hold_delay),
        },
        ButtonState::WaitSecondPress => ButtonWait {
            edge: ButtonEdge::Press,
            timeout: Some(timing.double_click_delay),
        },
        ButtonState::HoldRelease => ButtonWait { edge: ButtonEdge::Release, timeout: None },
        ButtonState::DoubleRelease => ButtonWait { edge: ButtonEdge::Release, timeout: None },
    }
}

/// The state after a sequence of inputs.
pub open spec fn button_run_state(state: ButtonState, inputs: Seq<ButtonInput>) -> ButtonState
    decreases inputs.len(),
{
    if inputs.len() == 0 {
        state
    } else {
        button_next(button_run_state(state, inputs.drop_last()), inputs.last())
    }
}

/// The events that a sequence of inputs gives rise to, in order.
pub open spec fn button_run_events(state: ButtonState, inputs: Seq<ButtonInput>) -> Seq<RouterEvent>
    decreases inputs.len(),
{
    if inputs.len() == 0 {
        Seq::empty()
    } else {
        let before = button_run_events(state, inputs.drop_last());
        match button_emits(button_run_state(state, inputs.drop_last()), inputs.last()) {
            Some(event) => before.push(event),
            None => before,
        }
    }
}

/// The gesture that has been reported by the time the classifier is in
/// `state`, if any: between the report of a hold or a double press and
/// the release that ends the gesture, it is that report.
pub open spec fn reported(state: ButtonState) -> Option<RouterEvent> {
    match state {
        ButtonState::HoldRelease => Some(RouterEvent::ButtonHold),
        ButtonState::DoubleRelease => Some(RouterEvent::ButtonDouble),
        _ => None,
    }
}

/// `inputs` begin a gesture and do not end it: they start with a press,
/// given to a classifier that waits for one, and at no point after it
/// does the classifier wait for a new press.
pub open spec fn within_gesture(inputs: Seq<ButtonInput>) -> bool {
    &&& inputs.len() >= 1
    &&& inputs[0] == ButtonInput::Press
    &&& forall|k: int|
        1 <= k <= inputs.len() ==> button_run_state(
            ButtonState::WaitPress,
            #[trigger] inputs.take(k),
        ) != ButtonState::WaitPress
}

/// `inputs` are one whole gesture: they begin one, and their last input,
/// and none before it, takes the classifier back to waiting for a press.
pub open spec fn is_gesture(inputs: Seq<ButtonInput>) -> bool {
    &&& inputs.len() >= 1
    &&& within_gesture(inputs.drop_last())
    &&& button_run_state(ButtonState::WaitPress, inputs) == ButtonState::WaitPress
}

/// One more input is one more step.
pub proof fn lemma_button_run_push(state: ButtonState, inputs: Seq<ButtonInput>, input: ButtonInput)
    ensures
        button_run_state(state, inputs.push(input)) == button_next(
            button_run_state(state, inputs),
            input,
        ),
        button_run_events(state, inputs.push(input)) == match button_emits(
            button_run_state(state, inputs),
            input,
        ) {
            Some(event) => button_run_events(state, inputs).push(event),
            None => button_run_events(state, inputs),
        },
{
    assert(inputs.push(input).drop_last() =~= inputs);
}

/// While a gesture goes on, what has been emitted is what the state says
/// has been reported: nothing, or the one report of the gesture.
proof fn lemma_within_gesture(inputs: Seq<ButtonInput>)
    requires
        within_gesture(inputs),
    ensures
        button_run_state(ButtonState::WaitPress, inputs) != ButtonState::WaitPress,
        button_run_events(ButtonState::WaitPress, inputs) == match reported(
            button_run_state(ButtonState::WaitPress, inputs),
        ) {
            Some(event) => seq![event],
            None => Seq::<RouterEvent>::empty(),
        },
    decreases inputs.len(),
{
    let start = ButtonState::WaitPress;
    assert(inputs.take(inputs.len() as int) =~= inputs);
    let before = inputs.drop_last();
    assert(inputs =~= before.push(inputs.last()));
    lemma_button_run_push(start, before, inputs.last());
    if inputs.len() == 1 {
        assert(before =~= Seq::<ButtonInput>::empty());
        assert(button_run_state(start, before) == start);
        assert(button_run_events(start, before) =~= Seq::<RouterEvent>::empty());
    } else {
        assert forall|k: int| 1 <= k <= before.len() implies button_run_state(
            start,
            #[trigger] before.take(k),
        ) != start by {
            assert(before.take(k) =~= inputs.take(k));
        }
        lemma_within_gesture(before);
        let events = button_run_events(start, before);
        match button_emits(button_run_state(start, before), inputs.last()) {
            Some(event) => {
                assert(events.push(event) =~= seq![event]);
            },
            None => {},
        }
    }
}

/// Within a gesture, a classifier that has reported a hold stays with it:
/// nothing that comes before the release moves it.
proof fn lemma_hold_persists(inputs: Seq<ButtonInput>, k: int)
    requires
        within_gesture(inputs),
        1 <= k <= inputs.len(),
        button_run_state(ButtonState::WaitPress, inputs.take(k)) == ButtonState::HoldRelease,
    ensures
        button_run_state(ButtonState::WaitPress, inputs) == ButtonState::HoldRelease,
    decreases inputs.len(),
{
    let start = ButtonState::WaitPress;
    assert(inputs.take(inputs.len() as int) =~= inputs);
    if k < inputs.len() {
        let before = inputs.drop_last();
        assert forall|j: int| 1 <= j <= before.len() implies button_run_state(
            start,
            #[trigger] before.take(j),
        ) != start by {
            assert(before.take(j) =~= inputs.take(j));
        }
        assert(before.take(k) =~= inputs.take(k));
        lemma_hold_persists(before, k);
        assert(inputs =~= before.push(inputs.last()));
        lemma_button_run_push(start, before, inputs.last());
    }
}

/// Every gesture is reported exactly once. Whatever the edges and the
/// waits that ran out between a press and the moment the classifier
/// waits for the next press, exactly one event was emitted, and it is a
/// hold, a single press or a double press.
pub proof fn lemma_one_event_per_gesture(inputs: Seq<ButtonInput>)
    requires
        is_gesture(inputs),
    ensures
        button_run_events(ButtonState::WaitPress, inputs).len() == 1,
        ({
            let event = button_run_events(ButtonState::WaitPress, inputs)[0];
            event == RouterEvent::ButtonHold || event == RouterEvent::ButtonPressed || event
                == RouterEvent::ButtonDouble
        }),
{
    let start = ButtonState::WaitPress;
    let before = inputs.drop_last();
    lemma_within_gesture(before);
    assert(inputs =~= before.push(inputs.last()));
    lemma_button_run_push(start, before, inputs.last());
}

/// A hold wins. If the hold time runs out while the button is down, the
/// gesture is reported as a hold and as nothing else, whatever edges
/// follow before the release.
pub proof fn lemma_hold_dominates(inputs: Seq<ButtonInput>, k: int)
    requires
        is_gesture(inputs),
        1 <= k < inputs.len(),
        button_run_state(ButtonState::WaitPress, inputs.take(k)) == ButtonState::WaitRelease,
        inputs[k] == ButtonInput::TimedOut,
    ensures
        button_run_events(ButtonState::WaitPress, inputs) == seq![RouterEvent::ButtonHold],
{
    let start = ButtonState::WaitPress;
    let before = inputs.drop_last();
    let upto = inputs.take(k + 1);
    assert(upto =~= inputs.take(k).push(inputs[k]));
    lemma_button_run_push(start, inputs.take(k), inputs[k]);
    assert(button_run_state(start, upto) == ButtonState::HoldRelease);
    assert(inputs.take(inputs.len() as int) =~= inputs);
    assert(k + 1 < inputs.len());
    assert(before.take(k + 1) =~= upto);
    lemma_hold_persists(before, k + 1);
    lemma_within_gesture(before);
    assert(inputs =~= before.push(inputs.last()));
    lemma_button_run_push(start, before, inputs.last());
}

impl GestureTiming {
    /// A hold after a second, a double press within a quarter of one.
    pub fn standard() -> (t: Self)
        ensures
            t == (GestureTiming { hold_delay: HOLD_DELAY, double_click_delay: DOUBLE_CLICK_DELAY }),
    {
        GestureTiming { hold_delay: HOLD_DELAY, double_click_delay: DOUBLE_CLICK_DELAY }
    }
}

/// The classifier: its waiting times and where it stands.
#[derive(Clone, Copy, Debug, PartialEq, Eq)]
pub struct ButtonClassifier {
    pub timing: GestureTiming,
    pub state: ButtonState,
}

impl ButtonClassifier {
    /// A classifier that waits for a press.
    pub fn new(timing: GestureTiming) -> (c: Self)
        ensures
            c.timing == timing,
            c.state == ButtonState::WaitPress,
    {
        ButtonClassifier { timing, state: ButtonState::WaitPress }
    }

    /// What the caller waits for next.
    pub fn wait(&self) -> (w: ButtonWait)
        ensures
            w == button_wait(self.timing, self.state),
    {
        match self.state {
            ButtonState::WaitPress => ButtonWait { edge: ButtonEdge::Press, timeout: None },
            ButtonState::WaitRelease => ButtonWait {
                edge: ButtonEdge::Release,
                timeout: Some(self.timing.hold_delay),
            },
            ButtonState::WaitSecondPress => ButtonWait {
                edge: ButtonEdge::Press,
                timeout: Some(self.timing.double_click_delay),
            },
            ButtonState::HoldRelease => ButtonWait { edge: ButtonEdge::Release, timeout: None },
            ButtonState::DoubleRelease => ButtonWait { edge: ButtonEdge::Release, timeout: None },
        }
    }

    /// Takes one input and moves on. Returns the gesture, if the input
    /// decides one.
    pub fn advance(&mut self, input: ButtonInput) -> (event: Option<RouterEvent>)
        ensures
            final(self).timing == old(self).timing,
            final(self).state == button_next(old(self).state, input),
            event == button_emits(old(self).state, input),
    {
        match (self.state, input) {
            (ButtonState::WaitPress, ButtonInput::Press) => {
                self.state = ButtonState::WaitRelease;
                None
            },
            (ButtonState::WaitRelease, ButtonInput::Release) => {
                self.state = ButtonState::WaitSecondPress;
                None
            },
            (ButtonState::WaitRelease, ButtonInput::TimedOut) => {
                self.state = ButtonState::HoldRelease;
                Some(RouterEvent::ButtonHold)
            },
            (ButtonState::WaitSecondPress, ButtonInput::Press) => {
                self.state = ButtonState::DoubleRelease;
                Some(RouterEvent::ButtonDouble)
            },
            (ButtonState::WaitSecondPress, ButtonInput::TimedOut) => {
                self.state = ButtonState::WaitPress;
                Some(RouterEvent::ButtonPressed)
            },
            (ButtonState::HoldRelease, ButtonInput::Release) => {
                self.state = ButtonState::WaitPress;
                None
            },
            (ButtonState::DoubleRelease, ButtonInput::Release) => {
                self.state = ButtonState::WaitPress;
                None
            },
            _ => None,
        }
    }

    /// Takes one input and offers the gesture that it decides, if any, to
    /// the router's mailbox. A full mailbox loses the gesture.
    pub fn feed(&mut self, input: ButtonInput, tx: &mut RouterChannel) -> (d: Delivery)
        ensures
            final(self).timing == old(self).timing,
            final(self).state == button_next(old(self).state, input),
            router_queue(*final(tx)) == offered(
                router_queue(*old(tx)),
                ROUTER_DEPTH as nat,
                button_emits(old(self).state, input),
            ),
            d == delivery(
                router_queue(*old(tx)),
                ROUTER_DEPTH as nat,
                button_emits(old(self).state, input),
            ),
    {
        match self.advance(input) {
            Some(event) => tx.offer(event),
            None => Delivery::Nothing,
        }
    }
}

} // verus!
