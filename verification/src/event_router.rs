//! The event router: single owner of the device state.
//!
//! Every event of the three inputs ends here. The router updates the state,
//! tells the indicator LED what to do and publishes the new state. It never
//! waits for a consumer: a command that the LED mailbox does not take is
//! dropped. The router owns the mailboxes it reads and fills; the other
//! components borrow them for one call at a time.
use vstd::prelude::*;

use crate::channels::cell_value;
use crate::channels::cell_version;
use crate::channels::delivery;
use crate::channels::led_queue;
use crate::channels::offered;
use crate::channels::router_queue;
use crate::channels::Delivery;
use crate::channels::GlobalDataChannel;
use crate::channels::LedChannel;
use crate::channels::RouterChannel;
use crate::channels::LED_DEPTH;
use crate::led::LedEvent;

verus! {

/// Number of bytes in one lighting frame: the start code and 512 slots.
pub const DMX_FRAME_LEN: usize = 513;

/// The last gesture that was classified on the button. It is no live view
/// of the input line.
#[derive(Clone, Copy, Debug, PartialEq, Eq, Structural)]
pub enum ButtonPhase {
    Idle,
    Held,
    Pressed,
    DoublePressed,
}

/// The device state that the router owns and publishes.
#[derive(Clone, Copy, Debug, PartialEq)]
pub struct GlobalData {
    pub button: ButtonPhase,
    pub dmx: [u8; 513],
}

/// Events that reach the router.
#[derive(Clone, Copy, Debug, PartialEq)]
pub enum RouterEvent {
    UsbCommand(u8),
    ButtonHold,
    ButtonPressed,
    ButtonDouble,
    DmxPacket([u8; 513]),
}

/// What the router decides for one event, before anything is sent.
#[derive(Clone, Copy, Debug, PartialEq)]
pub struct Routing {
    /// The state after the event.
    pub data: GlobalData,
    /// The command for the indicator LED, if the event has one.
    pub led: Option<LedEvent>,
    /// Whether the state is published.
    pub publish: bool,
}

/// What the router did with one event.
#[derive(Clone, Copy, Debug, PartialEq)]
pub struct Routed {
    /// The command that was handed to the LED mailbox, if any.
    pub led: Option<LedEvent>,
    /// Whether the LED mailbox took the command.
    pub delivery: Delivery,
    /// Whether the state was published.
    pub published: bool,
}

/// The LED command that a host command code stands for.
pub open spec fn host_led(code: u8) -> LedEvent {
    if code == 1 {
        LedEvent::On
    } else if code == 2 {
        LedEvent::Off
    } else {
        LedEvent::Blink
    }
}

/// The LED command that an event leads to, if any.
pub open spec fn route_led(event: RouterEvent) -> Option<LedEvent> {
    match event {
        RouterEvent::ButtonHold => Some(LedEvent::Blink),
        RouterEvent::ButtonPressed => Some(LedEvent::On),
        RouterEvent::ButtonDouble => Some(LedEvent::Off),
        RouterEvent::UsbCommand(code) => Some(host_led(code)),
        RouterEvent::DmxPacket(_) => None,
    }
}

/// The device state after an event.
pub open spec fn route_state(data: GlobalData, event: RouterEvent) -> GlobalData {
    match event {
        RouterEvent::ButtonHold => GlobalData { button: ButtonPhase::Held, dmx: data.dmx },
        RouterEvent::ButtonPressed => GlobalData { button: ButtonPhase::Pressed, dmx: data.dmx },
        RouterEvent::ButtonDouble => GlobalData { button: ButtonPhase::DoublePressed, dmx: data.dmx },
        RouterEvent::UsbCommand(_) => data,
        RouterEvent::DmxPacket(frame) => GlobalData { button: data.button, dmx: frame },
    }
}

/// Whether the state is published after an event: after the three button
/// events, and after no other.
pub open spec fn route_publishes(event: RouterEvent) -> bool {
    event is ButtonHold || event is ButtonPressed || event is ButtonDouble
}

/// The whole decision for one event.
pub open spec fn route_spec(data: GlobalData, event: RouterEvent) -> Routing {
    Routing {
        data: route_state(data, event),
        led: route_led(event),
        publish: route_publishes(event),
    }
}

/// Every event can be applied again. A second application of the same
/// event leaves the state as the first left it, and leads to the same
/// LED command and the same publication as the first: nothing is held
/// back because it was sent before.
pub proof fn lemma_route_idempotent(data: GlobalData, event: RouterEvent)
    ensures
        route_state(route_state(data, event), event) == route_state(data, event),
        route_spec(route_state(data, event), event).led == route_spec(data, event).led,
        route_spec(route_state(data, event), event).publish == route_spec(data, event).publish,
{
}

/// A single press that is applied twice in a row leaves the button
/// phase at `Pressed` after each application, and each application leads
/// to the LED command `On`.
pub proof fn lemma_pressed_twice(data: GlobalData)
    ensures
        route_spec(data, RouterEvent::ButtonPressed).data.button == ButtonPhase::Pressed,
        route_spec(data, RouterEvent::ButtonPressed).led == Some(LedEvent::On),
        route_spec(
            route_state(data, RouterEvent::ButtonPressed),
            RouterEvent::ButtonPressed,
        ).data.button == ButtonPhase::Pressed,
        route_spec(route_state(data, RouterEvent::ButtonPressed), RouterEvent::ButtonPressed).led
            == Some(LedEvent::On),
{
}

/// A frame replaces the one in the state as a whole, and touches nothing
/// else; no other event touches the frame.
pub proof fn lemma_frame_replaced(data: GlobalData, event: RouterEvent)
    ensures
        event matches RouterEvent::DmxPacket(frame) ==> route_state(data, event).dmx == frame
            && route_state(data, event).button == data.button,
        !(event is DmxPacket) ==> route_state(data, event).dmx == data.dmx,
{
}

impl ButtonPhase {
    /// The number that the status line shows for the phase.
    pub open spec fn code_spec(self) -> u8 {
        match self {
            ButtonPhase::Idle => 0,
            ButtonPhase::Held => 1,
            ButtonPhase::Pressed => 2,
            ButtonPhase::DoublePressed => 3,
        }
    }

    /// The number that the status line shows for the phase.
    #[verifier::when_used_as_spec(code_spec)]
    pub fn code(self) -> (n: u8)
        ensures
            n == self.code_spec(),
    {
        match self {
            ButtonPhase::Idle => 0,
            ButtonPhase::Held => 1,
            ButtonPhase::Pressed => 2,
            ButtonPhase::DoublePressed => 3,
        }
    }
}

impl GlobalData {
    /// Whether this is the state at power-up: no gesture yet and an
    /// all-zero frame.
    pub open spec fn is_zeroed(self) -> bool {
        &&& self.button == ButtonPhase::Idle
        &&& self.dmx@ == Seq::new(513, |i: int| 0u8)
    }

    /// Whether two states are the same, byte for byte.
    pub fn same(&self, other: &GlobalData) -> (r: bool)
        ensures
            r == (*self == *other),
    {
        if self.button != other.button {
            return false;
        }
        let mut i: usize = 0;
        while i < 513
            invariant
                i <= 513,
                self.button == other.button,
                forall|j: int| 0 <= j < i ==> self.dmx[j] == other.dmx[j],
            decreases 513 - i,
        {
            if self.dmx[i] != other.dmx[i] {
                return false;
            }
            i += 1;
        }
        assert(self.dmx =~= other.dmx);
        true
    }
}

impl Default for GlobalData {
    fn default() -> (d: Self)
        ensures
            d.is_zeroed(),
    {
        let d = GlobalData { button: ButtonPhase::Idle, dmx: [0u8; 513] };
        assert(d.dmx@ =~= Seq::new(513, |i: int| 0u8));
        d
    }
}

/// Decides what one event does to the state and to the LED. Nothing is
/// sent here.
pub fn route(data: &GlobalData, event: &RouterEvent) -> (r: Routing)
    ensures
        r == route_spec(*data, *event),
{
    match *event {
        RouterEvent::ButtonHold => Routing {
            data: GlobalData { button: ButtonPhase::Held, dmx: data.dmx },
            led: Some(LedEvent::Blink),
            publish: true,
        },
        RouterEvent::ButtonPressed => Routing {
            data: GlobalData { button: ButtonPhase::Pressed, dmx: data.dmx },
            led: Some(LedEvent::On),
            publish: true,
        },
        RouterEvent::ButtonDouble => Routing {
            data: GlobalData { button: ButtonPhase::DoublePressed, dmx: data.dmx },
            led: Some(LedEvent::Off),
            publish: true,
        },
        RouterEvent::UsbCommand(code) => {
            let led = if code == 1 {
                LedEvent::On
            } else if code == 2 {
                LedEvent::Off
            } else {
                LedEvent::Blink
            };
            Routing { data: *data, led: Some(led), publish: false }
        },
        RouterEvent::DmxPacket(frame) => Routing {
            data: GlobalData { button: data.button, dmx: frame },
            led: None,
            publish: false,
        },
    }
}

/// The router with its mailboxes and the state it owns.
pub struct Router {
    /// Where the events come from.
    pub channel: RouterChannel,
    /// Where the LED commands go.
    pub channel_led: LedChannel,
    /// Where the state is published.
    pub channel_log: GlobalDataChannel,
    /// The device state.
    pub data: GlobalData,
}

/// The router `post` and the report `out` are what the router `pre`
/// comes to by applying `event`. The state is that of `route_state`. The
/// LED mailbox has the command of the event as its newest, if the event
/// has one and the mailbox had room. After a button event the cell holds
/// the new state and counts one more write. Nothing is said here of the
/// mailbox that the events come from.
pub open spec fn routed(pre: Router, event: RouterEvent, post: Router, out: Routed) -> bool {
    let publishes = route_publishes(event) && cell_version(pre.channel_log) < u64::MAX;
    &&& post.data == route_state(pre.data, event)
    &&& led_queue(post.channel_led) == offered(
        led_queue(pre.channel_led),
        LED_DEPTH as nat,
        route_led(event),
    )
    &&& cell_value(post.channel_log) == (if publishes {
        Some(post.data)
    } else {
        cell_value(pre.channel_log)
    })
    &&& cell_version(post.channel_log) == (if publishes {
        cell_version(pre.channel_log) + 1
    } else {
        cell_version(pre.channel_log)
    })
    &&& out.led == route_led(event)
    &&& out.delivery == delivery(led_queue(pre.channel_led), LED_DEPTH as nat, route_led(event))
    &&& out.published == publishes
}

/// Two single presses in a row at the router. The button phase is
/// `Pressed` after each. Each is answered with the LED command `On`, and
/// what becomes of the second `On` depends on the room in the LED mailbox
/// alone, not on the first: where there is room, it stands there as the
/// newest command.
pub proof fn lemma_pressed_twice_routed(
    pre: Router,
    mid: Router,
    post: Router,
    first: Routed,
    second: Routed,
)
    requires
        routed(pre, RouterEvent::ButtonPressed, mid, first),
        routed(mid, RouterEvent::ButtonPressed, post, second),
    ensures
        mid.data.button == ButtonPhase::Pressed,
        post.data.button == ButtonPhase::Pressed,
        first.led == Some(LedEvent::On),
        second.led == Some(LedEvent::On),
        second.delivery == delivery(
            led_queue(mid.channel_led),
            LED_DEPTH as nat,
            Some(LedEvent::On),
        ),
        led_queue(mid.channel_led).len() < LED_DEPTH ==> led_queue(post.channel_led) == led_queue(
            mid.channel_led,
        ).push(LedEvent::On),
{
}

/// The router never waits for the LED. Whether the LED mailbox has room
/// or not, the state after an event is the same, and so is what is
/// published.
pub proof fn lemma_router_never_stalls(pre: Router, event: RouterEvent, post: Router, out: Routed)
    requires
        routed(pre, event, post, out),
    ensures
        post.data == route_state(pre.data, event),
        out.delivery == Delivery::Dropped ==> led_queue(post.channel_led) == led_queue(
            pre.channel_led,
        ),
        out.published ==> cell_value(post.channel_log) == Some(post.data),
{
}

impl Router {
    /// A router on the given mailboxes, with the power-up state.
    pub fn new(channel: RouterChannel, channel_led: LedChannel, channel_log: GlobalDataChannel) -> (r:
        Self)
        ensures
            r.data.is_zeroed(),
            r.channel == channel,
            r.channel_led == channel_led,
            r.channel_log == channel_log,
    {
        Router { channel, channel_led, channel_log, data: GlobalData::default() }
    }

    /// Applies one event: updates the state, offers the LED command of
    /// the event to the LED mailbox, and publishes the state after a
    /// button event. A full LED mailbox loses the command; the router
    /// goes on.
    pub fn process_event(&mut self, event: RouterEvent) -> (out: Routed)
        ensures
            routed(*old(self), event, *final(self), out),
            router_queue(final(self).channel) == router_queue(old(self).channel),
    {
        let step = route(&self.data, &event);
        self.data = step.data;
        let delivery = match step.led {
            Some(command) => self.channel_led.offer(command),
            None => Delivery::Nothing,
        };
        let published = if step.publish {
            self.channel_log.publish(self.data)
        } else {
            false
        };
        Routed { led: step.led, delivery, published }
    }

    /// One turn of the router: takes the oldest event out of its mailbox,
    /// if one waits there, and applies it. Without an event nothing
    /// changes.
    pub fn poll(&mut self) -> (out: Option<(RouterEvent, Routed)>)
        ensures
            out is Some <==> router_queue(old(self).channel).len() > 0,
            out matches Some((event, report)) ==> {
                &&& event == router_queue(old(self).channel)[0]
                &&& router_queue(final(self).channel) == router_queue(old(self).channel).skip(1)
                &&& routed(*old(self), event, *final(self), report)
            },
            out is None ==> {
                &&& final(self).data == old(self).data
                &&& router_queue(final(self).channel) == router_queue(old(self).channel)
                &&& led_queue(final(self).channel_led) == led_queue(old(self).channel_led)
                &&& cell_value(final(self).channel_log) == cell_value(old(self).channel_log)
                &&& cell_version(final(self).channel_log) == cell_version(old(self).channel_log)
            },
    {
        match self.channel.try_receive() {
            Some(event) => {
                let report = self.process_event(event);
                Some((event, report))
            },
            None => None,
        }
    }
}

} // verus!
