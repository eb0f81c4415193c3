//! The mailboxes that connect the components.
//!
//! No component calls another. What one has for another goes through a
//! mailbox: bounded, first-in first-out, and never waited for when it is
//! full. The latest device state lies in a cell of its own, which counts
//! how often it was written so that a reader can tell news from what it has
//! seen.
//!
//! Each mailbox holds an `embassy_sync::channel::Channel` and the cell an
//! `embassy_sync::watch::Watch`. They are owned here and reached through
//! `&mut` alone, so what they hold changes only where a contract says so.
use vstd::prelude::*;

use embassy_sync::blocking_mutex::raw::CriticalSectionRawMutex;
use embassy_sync::channel::Channel;
use embassy_sync::channel::TrySendError;
use embassy_sync::watch::Watch;

use crate::event_router::GlobalData;
use crate::event_router::RouterEvent;
use crate::led::LedEvent;
use crate::pwm::PwmEvent;

verus! {

/// The most events that wait for the router.
pub const ROUTER_DEPTH: usize = 10;

/// The most commands that wait for the indicator LED.
pub const LED_DEPTH: usize = 1;

/// The most commands that wait for the PWM outputs.
pub const PWM_DEPTH: usize = 1;

/// The most buffers that wait for the host.
pub const USB_DEPTH: usize = 1;

/// Events on their way to the router: an
/// `embassy_sync::channel::Channel` of ten events that nothing else
/// refers to.
#[verifier::external_body]
pub struct RouterChannel {
    inner: Channel<CriticalSectionRawMutex, RouterEvent, 10>,
}

/// Commands on their way to the indicator LED: an
/// `embassy_sync::channel::Channel` of one command that nothing else
/// refers to.
#[verifier::external_body]
pub struct LedChannel {
    inner: Channel<CriticalSectionRawMutex, LedEvent, 1>,
}

/// Commands on their way to the PWM outputs: an
/// `embassy_sync::channel::Channel` of one command that nothing else
/// refers to.
#[verifier::external_body]
pub struct PwmChannel {
    inner: Channel<CriticalSectionRawMutex, PwmEvent, 1>,
}

/// Buffers on their way to the host: an `embassy_sync::channel::Channel`
/// of one buffer that nothing else refers to.
#[verifier::external_body]
pub struct UsbChannel {
    inner: Channel<CriticalSectionRawMutex, [u8; 64], 1>,
}

/// The cell that holds the latest device state: an
/// `embassy_sync::watch::Watch` that nothing else refers to.
#[verifier::external_body]
pub struct GlobalDataChannel {
    inner: Watch<CriticalSectionRawMutex, GlobalData, 2>,
}

/// The events that wait in the mailbox, oldest first.
pub uninterp spec fn router_queue(channel: RouterChannel) -> Seq<RouterEvent>;

/// The commands that wait in the mailbox, oldest first.
pub uninterp spec fn led_queue(channel: LedChannel) -> Seq<LedEvent>;

/// The commands that wait in the mailbox, oldest first.
pub uninterp spec fn pwm_queue(channel: PwmChannel) -> Seq<PwmEvent>;

/// The buffers that wait in the mailbox, oldest first.
pub uninterp spec fn usb_queue(channel: UsbChannel) -> Seq<[u8; 64]>;

/// The state that the cell holds, if it was ever written.
pub uninterp spec fn cell_value(cell: GlobalDataChannel) -> Option<GlobalData>;

/// How often the cell was written.
pub uninterp spec fn cell_version(cell: GlobalDataChannel) -> nat;

/// What became of a message that a sender had for a mailbox.
#[derive(Clone, Copy, Debug, PartialEq, Eq, Structural)]
pub enum Delivery {
    /// There was no message to send.
    Nothing,
    /// The mailbox took the message.
    Sent,
    /// The mailbox was full and the message is gone.
    Dropped,
}

/// One reader of the state cell: the number of the last write that it has
/// seen.
#[derive(Clone, Copy, Debug, PartialEq, Eq, Structural)]
pub struct GlobalDataChannelRx {
    pub seen: u64,
}

/// A queue of at most `depth` messages after `message` was offered to it:
/// the message stands last if there was room, and is gone if there was
/// none.
pub open spec fn offered<T>(queue: Seq<T>, depth: nat, message: Option<T>) -> Seq<T> {
    match message {
        Some(m) => if queue.len() < depth {
            queue.push(m)
        } else {
            queue
        },
        None => queue,
    }
}

/// What becomes of `message` when it is offered to a queue of at most
/// `depth` messages.
pub open spec fn delivery<T>(queue: Seq<T>, depth: nat, message: Option<T>) -> Delivery {
    match message {
        Some(_) => if queue.len() < depth {
            Delivery::Sent
        } else {
            Delivery::Dropped
        },
        None => Delivery::Nothing,
    }
}

/// What a reader that has seen the write `seen` gets from a cell with the
/// value `value` after `version` writes: the value if there was a write
/// since, and nothing otherwise.
pub open spec fn news(value: Option<GlobalData>, version: nat, seen: u64) -> Option<GlobalData> {
    if version > seen {
        value
    } else {
        None
    }
}

/// Offering never puts a message before one that waits already, never
/// takes one out, and never grows a queue past its depth.
pub proof fn lemma_offer_is_bounded_fifo<T>(queue: Seq<T>, depth: nat, message: Option<T>)
    ensures
        queue.is_prefix_of(offered(queue, depth, message)),
        queue.len() <= depth ==> offered(queue, depth, message).len() <= depth,
        delivery(queue, depth, message) == Delivery::Sent ==> offered(queue, depth, message)
            == queue.push(message->Some_0),
        delivery(queue, depth, message) != Delivery::Sent ==> offered(queue, depth, message)
            == queue,
        delivery(queue, depth, message) == Delivery::Dropped <==> message is Some && queue.len()
            >= depth,
{
}

/// `Channel::new`: a channel that holds nothing.
#[verifier::external_body]
fn router_new() -> (channel: RouterChannel)
    ensures
        router_queue(channel) == Seq::<RouterEvent>::empty(),
{
    RouterChannel { inner: Channel::new() }
}

/// `Channel::try_send`: with fewer than ten events waiting, the channel
/// takes the event as its newest and says `Ok`; with ten, it changes
/// nothing and hands the event back in `TrySendError::Full`.
#[verifier::external_body]
fn router_try_send(channel: &mut RouterChannel, message: RouterEvent) -> (r: Result<
    (),
    RouterEvent,
>)
    ensures
        r is Ok <==> 10 > router_queue(*old(channel)).len(),
        r is Ok ==> router_queue(*final(channel)) == router_queue(*old(channel)).push(message),
        r matches Err(back) ==> back == message && router_queue(*final(channel)) == router_queue(
            *old(channel),
        ),
{
    match channel.inner.try_send(message) {
        Ok(()) => Ok(()),
        Err(TrySendError::Full(back)) => Err(back),
    }
}

/// `Channel::try_receive`: takes the oldest event out and returns it; an
/// empty channel gives `TryReceiveError::Empty`, here `None`, and stays
/// empty.
#[verifier::external_body]
fn router_try_receive(channel: &mut RouterChannel) -> (r: Option<RouterEvent>)
    ensures
        router_queue(*old(channel)).len() > 0 ==> r == Some(router_queue(*old(channel))[0])
            && router_queue(*final(channel)) == router_queue(*old(channel)).skip(1),
        router_queue(*old(channel)).len() == 0 ==> r is None && router_queue(*final(channel))
            == router_queue(*old(channel)),
{
    channel.inner.try_receive().ok()
}

/// `Channel::is_full`: whether ten events wait.
#[verifier::external_body]
fn router_is_full(channel: &RouterChannel) -> (full: bool)
    ensures
        full == (router_queue(*channel).len() >= 10),
{
    channel.inner.is_full()
}

/// `Channel::new`: a channel that holds nothing.
#[verifier::external_body]
fn led_new() -> (channel: LedChannel)
    ensures
        led_queue(channel) == Seq::<LedEvent>::empty(),
{
    LedChannel { inner: Channel::new() }
}

/// `Channel::try_send`: an empty channel takes the command and says
/// `Ok`; one that holds a command changes nothing and hands the new one
/// back in `TrySendError::Full`.
#[verifier::external_body]
fn led_try_send(channel: &mut LedChannel, message: LedEvent) -> (r: Result<(), LedEvent>)
    ensures
        r is Ok <==> 1 > led_queue(*old(channel)).len(),
        r is Ok ==> led_queue(*final(channel)) == led_queue(*old(channel)).push(message),
        r matches Err(back) ==> back == message && led_queue(*final(channel)) == led_queue(
            *old(channel),
        ),
{
    match channel.inner.try_send(message) {
        Ok(()) => Ok(()),
        Err(TrySendError::Full(back)) => Err(back),
    }
}

/// `Channel::try_receive`: takes the oldest command out and returns it;
/// an empty channel gives `TryReceiveError::Empty`, here `None`, and
/// stays empty.
#[verifier::external_body]
fn led_try_receive(channel: &mut LedChannel) -> (r: Option<LedEvent>)
    ensures
        led_queue(*old(channel)).len() > 0 ==> r == Some(led_queue(*old(channel))[0]) && led_queue(
            *final(channel),
        ) == led_queue(*old(channel)).skip(1),
        led_queue(*old(channel)).len() == 0 ==> r is None && led_queue(*final(channel))
            == led_queue(*old(channel)),
{
    channel.inner.try_receive().ok()
}

/// `Channel::new`: a channel that holds nothing.
#[verifier::external_body]
fn pwm_new() -> (channel: PwmChannel)
    ensures
        pwm_queue(channel) == Seq::<PwmEvent>::empty(),
{
    PwmChannel { inner: Channel::new() }
}

/// `Channel::try_send`: an empty channel takes the command and says
/// `Ok`; one that holds a command changes nothing and hands the new one
/// back in `TrySendError::Full`.
#[verifier::external_body]
fn pwm_try_send(channel: &mut PwmChannel, message: PwmEvent) -> (r: Result<(), PwmEvent>)
    ensures
        r is Ok <==> 1 > pwm_queue(*old(channel)).len(),
        r is Ok ==> pwm_queue(*final(channel)) == pwm_queue(*old(channel)).push(message),
        r matches Err(back) ==> back == message && pwm_queue(*final(channel)) == pwm_queue(
            *old(channel),
        ),
{
    match channel.inner.try_send(message) {
        Ok(()) => Ok(()),
        Err(TrySendError::Full(back)) => Err(back),
    }
}

/// `Channel::try_receive`: takes the oldest command out and returns it;
/// an empty channel gives `TryReceiveError::Empty`, here `None`, and
/// stays empty.
#[verifier::external_body]
fn pwm_try_receive(channel: &mut PwmChannel) -> (r: Option<PwmEvent>)
    ensures
        pwm_queue(*old(channel)).len() > 0 ==> r == Some(pwm_queue(*old(channel))[0]) && pwm_queue(
            *final(channel),
        ) == pwm_queue(*old(channel)).skip(1),
        pwm_queue(*old(channel)).len() == 0 ==> r is None && pwm_queue(*final(channel))
            == pwm_queue(*old(channel)),
{
    channel.inner.try_receive().ok()
}

/// `Channel::new`: a channel that holds nothing.
#[verifier::external_body]
fn usb_new() -> (channel: UsbChannel)
    ensures
        usb_queue(channel) == Seq::<[u8; 64]>::empty(),
{
    UsbChannel { inner: Channel::new() }
}

/// `Channel::try_send`: an empty channel takes the buffer and says `Ok`;
/// one that holds a buffer changes nothing and hands the new one back in
/// `TrySendError::Full`.
#[verifier::external_body]
fn usb_try_send(channel: &mut UsbChannel, message: [u8; 64]) -> (r: Result<(), [u8; 64]>)
    ensures
        r is Ok <==> 1 > usb_queue(*old(channel)).len(),
        r is Ok ==> usb_queue(*final(channel)) == usb_queue(*old(channel)).push(message),
        r matches Err(back) ==> back == message && usb_queue(*final(channel)) == usb_queue(
            *old(channel),
        ),
{
    match channel.inner.try_send(message) {
        Ok(()) => Ok(()),
        Err(TrySendError::Full(back)) => Err(back),
    }
}

/// `Channel::try_receive`: takes the oldest buffer out and returns it; an
/// empty channel gives `TryReceiveError::Empty`, here `None`, and stays
/// empty.
#[verifier::external_body]
fn usb_try_receive(channel: &mut UsbChannel) -> (r: Option<[u8; 64]>)
    ensures
        usb_queue(*old(channel)).len() > 0 ==> r == Some(usb_queue(*old(channel))[0]) && usb_queue(
            *final(channel),
        ) == usb_queue(*old(channel)).skip(1),
        usb_queue(*old(channel)).len() == 0 ==> r is None && usb_queue(*final(channel))
            == usb_queue(*old(channel)),
{
    channel.inner.try_receive().ok()
}

/// `Watch::new`: a cell without a value, never written.
#[verifier::external_body]
fn watch_new() -> (cell: GlobalDataChannel)
    ensures
        cell_value(cell) is None,
        cell_version(cell) == 0,
{
    GlobalDataChannel { inner: Watch::new() }
}

/// `Watch::sender` and `Snd::send`: the value of the cell becomes `data`
/// and its count of writes grows by one. The count is a `u64` that the
/// crate increments with `+=`, so the last value it can hold is left
/// out.
#[verifier::external_body]
fn watch_send(cell: &mut GlobalDataChannel, data: GlobalData)
    requires
        cell_version(*old(cell)) < u64::MAX,
    ensures
        cell_value(*final(cell)) == Some(data),
        cell_version(*final(cell)) == cell_version(*old(cell)) + 1,
{
    cell.inner.sender().send(data)
}

/// `Watch::get_msg_id`: the count of writes.
#[verifier::external_body]
fn watch_msg_id(cell: &GlobalDataChannel) -> (id: u64)
    ensures
        id == cell_version(*cell),
{
    cell.inner.get_msg_id()
}

/// `Watch::try_get`: a copy of the value, if the cell has one.
#[verifier::external_body]
fn watch_try_get(cell: &GlobalDataChannel) -> (value: Option<GlobalData>)
    ensures
        value == cell_value(*cell),
{
    cell.inner.try_get()
}

impl RouterChannel {
    /// An empty mailbox.
    pub fn new() -> (channel: Self)
        ensures
            router_queue(channel) == Seq::<RouterEvent>::empty(),
    {
        router_new()
    }

    /// Offers an event without waiting. A mailbox with room takes it as
    /// its newest; a full one drops it and says so.
    pub fn offer(&mut self, message: RouterEvent) -> (d: Delivery)
        ensures
            router_queue(*final(self)) == offered(
                router_queue(*old(self)),
                ROUTER_DEPTH as nat,
                Some(message),
            ),
            d == delivery(router_queue(*old(self)), ROUTER_DEPTH as nat, Some(message)),
    {
        match router_try_send(self, message) {
            Ok(()) => Delivery::Sent,
            Err(_) => Delivery::Dropped,
        }
    }

    /// Takes the oldest event out, if there is one.
    pub fn try_receive(&mut self) -> (r: Option<RouterEvent>)
        ensures
            router_queue(*old(self)).len() > 0 ==> r == Some(router_queue(*old(self))[0])
                && router_queue(*final(self)) == router_queue(*old(self)).skip(1),
            router_queue(*old(self)).len() == 0 ==> r is None && router_queue(*final(self))
                == router_queue(*old(self)),
    {
        router_try_receive(self)
    }

    /// Whether the mailbox is full.
    pub fn is_full(&self) -> (full: bool)
        ensures
            full == (router_queue(*self).len() >= ROUTER_DEPTH),
    {
        router_is_full(self)
    }
}

impl LedChannel {
    /// An empty mailbox.
    pub fn new() -> (channel: Self)
        ensures
            led_queue(channel) == Seq::<LedEvent>::empty(),
    {
        led_new()
    }

    /// Offers a command without waiting. An empty mailbox takes it; a
    /// full one drops it and says so.
    pub fn offer(&mut self, message: LedEvent) -> (d: Delivery)
        ensures
            led_queue(*final(self)) == offered(
                led_queue(*old(self)),
                LED_DEPTH as nat,
                Some(message),
            ),
            d == delivery(led_queue(*old(self)), LED_DEPTH as nat, Some(message)),
    {
        match led_try_send(self, message) {
            Ok(()) => Delivery::Sent,
            Err(_) => Delivery::Dropped,
        }
    }

    /// Takes the oldest command out, if there is one.
    pub fn try_receive(&mut self) -> (r: Option<LedEvent>)
        ensures
            led_queue(*old(self)).len() > 0 ==> r == Some(led_queue(*old(self))[0]) && led_queue(
                *final(self),
            ) == led_queue(*old(self)).skip(1),
            led_queue(*old(self)).len() == 0 ==> r is None && led_queue(*final(self)) == led_queue(
                *old(self),
            ),
    {
        led_try_receive(self)
    }
}

impl PwmChannel {
    /// An empty mailbox.
    pub fn new() -> (channel: Self)
        ensures
            pwm_queue(channel) == Seq::<PwmEvent>::empty(),
    {
        pwm_new()
    }

    /// Offers a command without waiting. An empty mailbox takes it; a
    /// full one drops it and says so.
    pub fn offer(&mut self, message: PwmEvent) -> (d: Delivery)
        ensures
            pwm_queue(*final(self)) == offered(
                pwm_queue(*old(self)),
                PWM_DEPTH as nat,
                Some(message),
            ),
            d == delivery(pwm_queue(*old(self)), PWM_DEPTH as nat, Some(message)),
    {
        match pwm_try_send(self, message) {
            Ok(()) => Delivery::Sent,
            Err(_) => Delivery::Dropped,
        }
    }

    /// Takes the oldest command out, if there is one.
    pub fn try_receive(&mut self) -> (r: Option<PwmEvent>)
        ensures
            pwm_queue(*old(self)).len() > 0 ==> r == Some(pwm_queue(*old(self))[0]) && pwm_queue(
                *final(self),
            ) == pwm_queue(*old(self)).skip(1),
            pwm_queue(*old(self)).len() == 0 ==> r is None && pwm_queue(*final(self)) == pwm_queue(
                *old(self),
            ),
    {
        pwm_try_receive(self)
    }
}

impl UsbChannel {
    /// An empty mailbox.
    pub fn new() -> (channel: Self)
        ensures
            usb_queue(channel) == Seq::<[u8; 64]>::empty(),
    {
        usb_new()
    }

    /// Offers a buffer without waiting. An empty mailbox takes it; a full
    /// one does not, and the sender may offer the buffer again later.
    pub fn offer(&mut self, message: [u8; 64]) -> (d: Delivery)
        ensures
            usb_queue(*final(self)) == offered(
                usb_queue(*old(self)),
                USB_DEPTH as nat,
                Some(message),
            ),
            d == delivery(usb_queue(*old(self)), USB_DEPTH as nat, Some(message)),
    {
        match usb_try_send(self, message) {
            Ok(()) => Delivery::Sent,
            Err(_) => Delivery::Dropped,
        }
    }

    /// Takes the oldest buffer out, if there is one.
    pub fn try_receive(&mut self) -> (r: Option<[u8; 64]>)
        ensures
            usb_queue(*old(self)).len() > 0 ==> r == Some(usb_queue(*old(self))[0]) && usb_queue(
                *final(self),
            ) == usb_queue(*old(self)).skip(1),
            usb_queue(*old(self)).len() == 0 ==> r is None && usb_queue(*final(self)) == usb_queue(
                *old(self),
            ),
    {
        usb_try_receive(self)
    }
}

impl GlobalDataChannel {
    /// A cell that holds no state yet.
    pub fn new() -> (cell: Self)
        ensures
            cell_value(cell) is None,
            cell_version(cell) == 0,
    {
        watch_new()
    }

    /// How often the cell was written.
    pub fn version(&self) -> (id: u64)
        ensures
            id == cell_version(*self),
    {
        watch_msg_id(self)
    }

    /// The state in the cell, if it was ever written.
    pub fn try_get(&self) -> (value: Option<GlobalData>)
        ensures
            value == cell_value(*self),
    {
        watch_try_get(self)
    }

    /// Replaces the state in the cell as a whole. The count of writes
    /// must have room for one more.
    pub fn send(&mut self, data: GlobalData)
        requires
            cell_version(*old(self)) < u64::MAX,
        ensures
            cell_value(*final(self)) == Some(data),
            cell_version(*final(self)) == cell_version(*old(self)) + 1,
    {
        watch_send(self, data)
    }

    /// Replaces the state in the cell as a whole, if the count of writes
    /// has room for one more, and says whether it did. A cell that was
    /// written as often as can be counted stays as it is.
    pub fn publish(&mut self, data: GlobalData) -> (done: bool)
        ensures
            done == (cell_version(*old(self)) < u64::MAX),
            done ==> cell_value(*final(self)) == Some(data) && cell_version(*final(self))
                == cell_version(*old(self)) + 1,
            !done ==> cell_value(*final(self)) == cell_value(*old(self)) && cell_version(
                *final(self),
            ) == cell_version(*old(self)),
    {
        if self.version() < u64::MAX {
            self.send(data);
            true
        } else {
            false
        }
    }
}

impl GlobalDataChannelRx {
    /// A reader that has seen nothing.
    pub fn new() -> (rx: Self)
        ensures
            rx.seen == 0,
    {
        GlobalDataChannelRx { seen: 0 }
    }

    /// The state in the cell if it was written since this reader last
    /// looked, and nothing otherwise. A look that finds news marks it as
    /// seen. It never waits.
    pub fn try_changed(&mut self, cell: &GlobalDataChannel) -> (r: Option<GlobalData>)
        ensures
            r == news(cell_value(*cell), cell_version(*cell), old(self).seen),
            final(self).seen == (if cell_version(*cell) > old(self).seen {
                cell_version(*cell) as u64
            } else {
                old(self).seen
            }),
    {
        let id = cell.version();
        if id > self.seen {
            self.seen = id;
            cell.try_get()
        } else {
            None
        }
    }
}

} // verus!
