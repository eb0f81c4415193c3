//! The host link: command bytes in, status packets out.
//!
//! The transport itself is not here. What is here is what the bytes mean:
//! byte 0 of a received packet is a command code, and an outgoing buffer is
//! written up to its first zero byte.
use vstd::prelude::*;

use crate::channels::delivery;
use crate::channels::offered;
use crate::channels::router_queue;
use crate::channels::usb_queue;
use crate::channels::Delivery;
use crate::channels::RouterChannel;
use crate::channels::UsbChannel;
use crate::channels::LED_DEPTH;
use crate::channels::ROUTER_DEPTH;
use crate::event_router::route_led;
use crate::event_router::route_publishes;
use crate::event_router::route_state;
use crate::event_router::GlobalData;
use crate::event_router::RouterEvent;
use crate::led::LedEvent;

verus! {

/// Number of bytes in one packet of the host link.
pub const PACKET_LEN: usize = 64;

/// The host link is gone; the caller waits for a new connection.
#[derive(Clone, Copy, Debug, PartialEq, Eq, Structural)]
pub struct Disconnected {}

/// Why an endpoint of the host link refused a transfer.
#[derive(Clone, Copy, Debug, PartialEq, Eq, Structural)]
pub enum EndpointFault {
    /// The packet did not fit the buffer.
    BufferOverflow,
    /// The endpoint is disabled: the host is gone.
    Disabled,
}

/// A buffer for the host and the number of its bytes that are written.
#[derive(Clone, Copy, Debug, PartialEq, Eq)]
pub struct Outbound {
    pub packet: [u8; 64],
    pub len: usize,
}

/// What one turn of the host link did.
#[derive(Clone, Copy, Debug, PartialEq, Eq)]
pub struct Turn {
    /// What became of the command in the received packet.
    pub delivery: Delivery,
    /// The next buffer to write to the host, if one waited.
    pub outbound: Option<Outbound>,
}

/// The code of every byte that is neither the character `1` nor the
/// character `2`. The router knows the codes 1 and 2 alone, and answers
/// this one, as any other, with a blink.
pub const OTHER_COMMAND: u8 = 3;

/// The event that a command byte stands for. Every byte is a command:
/// the character `1` is the host command 1, the character `2` the host
/// command 2, and every other byte the host command `OTHER_COMMAND`.
pub open spec fn decode_spec(byte: u8) -> Option<RouterEvent> {
    if byte == 0x31 {
        Some(RouterEvent::UsbCommand(1))
    } else if byte == 0x32 {
        Some(RouterEvent::UsbCommand(2))
    } else {
        Some(RouterEvent::UsbCommand(OTHER_COMMAND))
    }
}

/// The event in a received packet: that of its byte 0. An empty packet
/// holds none.
pub open spec fn packet_command(packet: Seq<u8>) -> Option<RouterEvent> {
    if packet.len() == 0 {
        None
    } else {
        decode_spec(packet[0])
    }
}

/// The event in what one turn received: that of the packet, if a packet
/// was received.
pub open spec fn inbound_command(inbound: Option<&[u8]>) -> Option<RouterEvent> {
    match inbound {
        Some(packet) => packet_command(packet@),
        None => None,
    }
}

/// `out` is the oldest buffer of `queue` with the number of its bytes
/// that are written, or nothing if the queue is empty.
pub open spec fn is_outbound(queue: Seq<[u8; 64]>, out: Option<Outbound>) -> bool {
    match out {
        Some(o) => queue.len() > 0 && o.packet == queue[0] && is_packet_len(
            o.packet@,
            o.len as int,
        ),
        None => queue.len() == 0,
    }
}

/// `n` is the number of bytes of `msg` that are written to the host: the
/// bytes before the first zero byte, or all of them if none is zero.
pub open spec fn is_packet_len(msg: Seq<u8>, n: int) -> bool {
    &&& 0 <= n <= msg.len()
    &&& forall|i: int| 0 <= i < n ==> msg[i] != 0
    &&& n < msg.len() ==> msg[n] == 0
}

/// What becomes of a command, given whether the router's mailbox was full
/// when asked and, if it was not, whether it then took the event.
pub open spec fn forward_spec(full: bool, accepted: bool) -> Result<Delivery, Disconnected> {
    if full {
        Ok(Delivery::Dropped)
    } else if accepted {
        Ok(Delivery::Sent)
    } else {
        Err(Disconnected {  })
    }
}

/// At most one number is the written length of a buffer.
pub proof fn lemma_packet_len_unique(msg: Seq<u8>, a: int, b: int)
    requires
        is_packet_len(msg, a),
        is_packet_len(msg, b),
    ensures
        a == b,
{
    if a < b {
        assert(msg[a] == 0);
    } else if b < a {
        assert(msg[b] == 0);
    }
}

/// From the host's byte to the LED. Every byte is a host command. The
/// character `1` leads to `On`, the character `2` to `Off`, and every
/// other byte to `Blink`.
pub proof fn lemma_host_byte_to_led(byte: u8)
    ensures
        decode_spec(byte) is Some,
        decode_spec(byte)->Some_0 is UsbCommand,
        byte == 0x31 ==> route_led(decode_spec(byte)->Some_0) == Some(LedEvent::On),
        byte == 0x32 ==> route_led(decode_spec(byte)->Some_0) == Some(LedEvent::Off),
        byte != 0x31 && byte != 0x32 ==> route_led(decode_spec(byte)->Some_0) == Some(
            LedEvent::Blink,
        ),
{
}

/// A packet holds a command if and only if it holds a byte, and then
/// exactly one: where the router's mailbox has room, a packet of any
/// length but zero puts one event there, and an empty packet none.
pub proof fn lemma_one_command_per_packet(events: Seq<RouterEvent>, packet: Seq<u8>)
    requires
        events.len() < ROUTER_DEPTH,
    ensures
        packet_command(packet) is Some <==> packet.len() > 0,
        packet.len() > 0 ==> offered(events, ROUTER_DEPTH as nat, packet_command(packet))
            == events.push(decode_spec(packet[0])->Some_0),
        packet.len() == 0 ==> offered(events, ROUTER_DEPTH as nat, packet_command(packet))
            == events,
{
}

/// A byte that is no known command becomes exactly one `Blink` in the
/// LED mailbox. Where the router's mailbox has room, the byte puts one
/// event there, a host command with a code other than 1 and 2; and where
/// the LED mailbox has room, that event puts one command there, `Blink`.
pub proof fn lemma_other_byte_reaches_led(
    byte: u8,
    events: Seq<RouterEvent>,
    commands: Seq<LedEvent>,
)
    requires
        byte != 0x31,
        byte != 0x32,
        events.len() < ROUTER_DEPTH,
        commands.len() < LED_DEPTH,
    ensures
        packet_command(seq![byte]) matches Some(RouterEvent::UsbCommand(code)) && code != 1
            && code != 2,
        offered(events, ROUTER_DEPTH as nat, packet_command(seq![byte])) == events.push(
            RouterEvent::UsbCommand(OTHER_COMMAND),
        ),
        offered(
            commands,
            LED_DEPTH as nat,
            route_led(RouterEvent::UsbCommand(OTHER_COMMAND)),
        ) == commands.push(LedEvent::Blink),
{
}

/// A host command code that the router does not know leads to `Blink`,
/// and no host command touches the device state.
pub proof fn lemma_unknown_code_blinks(data: GlobalData, code: u8)
    requires
        code != 1,
        code != 2,
    ensures
        route_led(RouterEvent::UsbCommand(code)) == Some(LedEvent::Blink),
        route_state(data, RouterEvent::UsbCommand(code)) == data,
        !route_publishes(RouterEvent::UsbCommand(code)),
{
}

/// The character `1` from the host becomes exactly one `On` in the LED
/// mailbox. Where the router's mailbox has room, the byte puts one
/// event there, the host command 1; and where the LED mailbox has room,
/// that event puts one command there, `On`.
pub proof fn lemma_host_one_reaches_led(events: Seq<RouterEvent>, commands: Seq<LedEvent>)
    requires
        events.len() < ROUTER_DEPTH,
        commands.len() < LED_DEPTH,
    ensures
        offered(events, ROUTER_DEPTH as nat, packet_command(seq![0x31u8])) == events.push(
            RouterEvent::UsbCommand(1),
        ),
        offered(commands, LED_DEPTH as nat, route_led(RouterEvent::UsbCommand(1)))
            == commands.push(LedEvent::On),
{
}

impl Disconnected {
    /// The disconnect that an endpoint fault stands for. A disabled
    /// endpoint means that the host is gone. An overflow of the buffer is
    /// no disconnect: it is a fault of the caller, which gets none.
    pub fn from_fault(val: EndpointFault) -> (d: Option<Disconnected>)
        ensures
            d is Some <==> val == EndpointFault::Disabled,
    {
        match val {
            EndpointFault::BufferOverflow => None,
            EndpointFault::Disabled => Some(Disconnected {  }),
        }
    }
}

/// Decodes one command byte. Every byte gives an event.
pub fn decode_command(byte: u8) -> (r: Option<RouterEvent>)
    ensures
        r == decode_spec(byte),
        r is Some,
{
    match byte {
        0x31 => Some(RouterEvent::UsbCommand(1)),
        0x32 => Some(RouterEvent::UsbCommand(2)),
        _ => Some(RouterEvent::UsbCommand(OTHER_COMMAND)),
    }
}

/// The event in a received packet, if it holds one.
pub fn parse_packet(packet: &[u8]) -> (r: Option<RouterEvent>)
    ensures
        r == packet_command(packet@),
{
    if packet.len() == 0 {
        None
    } else {
        decode_command(packet[0])
    }
}

/// The number of bytes of `msg` to write to the host.
pub fn packet_len(msg: &[u8; 64]) -> (n: usize)
    ensures
        is_packet_len(msg@, n as int),
{
    let mut i: usize = 0;
    while i < 64
        invariant
            i <= 64,
            forall|j: int| 0 <= j < i ==> msg@[j] != 0,
        decreases 64 - i,
    {
        if msg[i] == 0 {
            return i;
        }
        i += 1;
    }
    64
}

/// What becomes of a command for each answer of the router's mailbox.
/// `full` is what the mailbox said when asked whether it was full;
/// `accepted` is whether it then took the event, and counts only where it
/// was not full.
pub fn forward_outcome(full: bool, accepted: bool) -> (r: Result<Delivery, Disconnected>)
    ensures
        r == forward_spec(full, accepted),
{
    if full {
        Ok(Delivery::Dropped)
    } else if accepted {
        Ok(Delivery::Sent)
    } else {
        Err(Disconnected {  })
    }
}

/// Hands a command to the router. A full mailbox loses the command. A
/// mailbox that said it had room takes the command, so the connection
/// never ends here.
pub fn forward_command(router_tx: &mut RouterChannel, event: RouterEvent) -> (r: Result<
    Delivery,
    Disconnected,
>)
    ensures
        r == Ok::<Delivery, Disconnected>(
            delivery(router_queue(*old(router_tx)), ROUTER_DEPTH as nat, Some(event)),
        ),
        router_queue(*final(router_tx)) == offered(
            router_queue(*old(router_tx)),
            ROUTER_DEPTH as nat,
            Some(event),
        ),
{
    let full = router_tx.is_full();
    let accepted = if full {
        false
    } else {
        router_tx.offer(event) == Delivery::Sent
    };
    forward_outcome(full, accepted)
}

/// Takes the oldest buffer for the host out of its mailbox, if one waits
/// there, and says how many of its bytes are written.
pub fn next_outbound(rx: &mut UsbChannel) -> (r: Option<Outbound>)
    ensures
        is_outbound(usb_queue(*old(rx)), r),
        usb_queue(*final(rx)) == (if r is Some {
            usb_queue(*old(rx)).skip(1)
        } else {
            usb_queue(*old(rx))
        }),
{
    match rx.try_receive() {
        Some(packet) => {
            let len = packet_len(&packet);
            Some(Outbound { packet, len })
        },
        None => None,
    }
}

/// One turn of the host link. `inbound` holds the bytes of a packet that
/// was received in this turn, if one was. Its command is offered to the
/// router; then the oldest buffer for the host is taken out of `rx`. This
/// part of the link never ends the connection.
pub fn process_data(inbound: Option<&[u8]>, rx: &mut UsbChannel, router_tx: &mut RouterChannel) -> (r:
    Result<Turn, Disconnected>)
    ensures
        r matches Ok(turn) && {
            &&& turn.delivery == delivery(
                router_queue(*old(router_tx)),
                ROUTER_DEPTH as nat,
                inbound_command(inbound),
            )
            &&& is_outbound(usb_queue(*old(rx)), turn.outbound)
        },
        router_queue(*final(router_tx)) == offered(
            router_queue(*old(router_tx)),
            ROUTER_DEPTH as nat,
            inbound_command(inbound),
        ),
        usb_queue(*final(rx)) == (if usb_queue(*old(rx)).len() > 0 {
            usb_queue(*old(rx)).skip(1)
        } else {
            usb_queue(*old(rx))
        }),
{
    let command = match inbound {
        Some(packet) => parse_packet(packet),
        None => None,
    };
    let delivery = match command {
        Some(event) => {
            match forward_command(router_tx, event) {
                Ok(d) => d,
                Err(e) => {
                    return Err(e);
                },
            }
        },
        None => Delivery::Nothing,
    };
    let outbound = next_outbound(rx);
    Ok(Turn { delivery, outbound })
}

} // verus!
