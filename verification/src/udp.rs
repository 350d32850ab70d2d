//! The UDP command listener: requests of the form `command,argument`, the
//! replies to them, and the order of the listener's steps.
//!
//! The socket is outside this library. The driver receives and sends the
//! datagrams and reports to the functions here.

use crate::text::{
    after_first, before_first, contains_pattern, decode_text, lemma_find_from, next_field,
    parse_decimal, parse_unsigned, str_equal, to_chars, trim, trim_chars,
};
use crate::wol::{generate_wol_packet, magic_packet, parse_mac, WolError};
use vstd::prelude::*;
use vstd::string::StrSliceExecFns;
use vstd::string::StringSliceAdditionalSpecFns;
use vstd::utf8::{decode_utf8, valid_utf8};

verus! {

/// The port that the listener binds to if none is configured.
pub const UDP_LISTEN_PORT_FALLBACK: u16 = 9;

/// The pause before each receive, in milliseconds.
pub const RECEIVE_DELAY_MS: u64 = 1000;

/// The pause before the socket is closed for a new bind, in milliseconds.
pub const REBIND_DELAY_MS: u64 = 1000;

/// The size of the socket's buffers and of the receive buffer.
pub const UDP_BUFFER_SIZE: usize = 4096;

/// The length of every reply datagram.
pub const REPLY_LEN: usize = 128;

/// The only command that the listener knows.
pub const WOL_COMMAND: &'static str = "wol";

/// The port to bind to: the configured decimal number, or 9 if the text is
/// no number from 0 to 65535.
pub open spec fn listen_port(configured: Seq<char>) -> u16 {
    match parse_unsigned(configured, 10, 0xffff) {
        Some(port) => port as u16,
        None => UDP_LISTEN_PORT_FALLBACK,
    }
}

/// The port that the listener binds to.
pub fn udp_listen_port(configured: &str) -> (port: u16)
    ensures
        port == listen_port(configured@),
{
    match parse_decimal(configured, 0xffff) {
        Some(port) => port as u16,
        None => UDP_LISTEN_PORT_FALLBACK,
    }
}

/// The command of a request: what stands before the first comma, without
/// the whitespace around it.
pub open spec fn request_command(request: Seq<char>) -> Seq<char> {
    trim(before_first(request, seq![',']))
}

/// The argument of a request: what stands between the first comma and the
/// second, without the whitespace around it. A request without a comma has
/// no argument, and neither has one whose argument is empty or a single
/// line feed.
pub open spec fn request_argument(request: Seq<char>) -> Option<Seq<char>> {
    let raw = before_first(after_first(request, seq![',']), seq![',']);
    if !contains_pattern(request, seq![',']) || raw.len() == 0 || raw == seq!['\n'] {
        None
    } else {
        Some(trim(raw))
    }
}

/// Reads a request of the form `command,argument`.
pub fn parse_udp_request<'a>(request: &'a str) -> (r: (&'a str, Option<&'a str>))
    ensures
        r.0@ == request_command(request@),
        match r.1 {
            Some(argument) => request_argument(request@) == Some(argument@),
            None => request_argument(request@) is None,
        },
{
    let chars = to_chars(request);
    let mut comma: Vec<char> = Vec::new();
    comma.push(',');
    let (first, behind) = next_field(chars.as_slice(), comma.as_slice());
    proof {
        lemma_find_from(chars@, comma@, 0);
    }
    let (command, command_start) = trim_chars(first);
    let command_text = request.substring_char(command_start, command_start + command.len());
    let argument = match behind {
        None => None,
        Some(rest) => {
            let (raw, _) = next_field(rest, comma.as_slice());
            proof {
                lemma_find_from(rest@, comma@, 0);
            }
            if raw.len() == 0 || (raw.len() == 1 && raw[0] == '\n') {
                assert(raw@.len() == 1 && raw@[0] == '\n' ==> raw@ =~= seq!['\n']);
                None
            } else {
                let (trimmed, start) = trim_chars(raw);
                let from = first.len() + 1 + start;
                let text = request.substring_char(from, from + trimmed.len());
                Some(text)
            }
        },
    };
    (command_text, argument)
}

/// What a datagram asks the listener to do.
pub enum DatagramPlan<'a> {
    /// The datagram is not UTF-8 text.
    Invalid,
    /// The command is not known.
    Denied,
    /// Wake the device with this hardware address, or the configured one if
    /// the request names none.
    Wake { mac_addr: Option<&'a str> },
}

/// Reads a datagram and decides what it asks for.
pub fn plan_datagram<'a>(datagram: &'a [u8]) -> (plan: DatagramPlan<'a>)
    ensures
        match plan {
            DatagramPlan::Invalid => !valid_utf8(datagram@),
            DatagramPlan::Denied => valid_utf8(datagram@) && request_command(
                decode_utf8(datagram@),
            ) != WOL_COMMAND@,
            DatagramPlan::Wake { mac_addr } => {
                &&& valid_utf8(datagram@)
                &&& request_command(decode_utf8(datagram@)) == WOL_COMMAND@
                &&& match mac_addr {
                    Some(text) => request_argument(decode_utf8(datagram@)) == Some(text@),
                    None => request_argument(decode_utf8(datagram@)) is None,
                }
            },
        },
{
    let message = match decode_text(datagram) {
        Some(message) => message,
        None => {
            return DatagramPlan::Invalid;
        },
    };
    let (command, argument) = parse_udp_request(message);
    if str_equal(command, WOL_COMMAND) {
        DatagramPlan::Wake { mac_addr: argument }
    } else {
        DatagramPlan::Denied
    }
}

/// The hardware address to wake: the one that the request names, or the
/// configured one.
pub fn wake_address<'a>(mac_addr: Option<&'a str>, default_mac: &'a str) -> (address: &'a str)
    ensures
        address@ == match mac_addr {
            Some(text) => text@,
            None => default_mac@,
        },
{
    match mac_addr {
        Some(text) => text,
        None => default_mac,
    }
}

/// Builds the magic packet for a request: for the address that it names,
/// or for the configured one. The address is taken as it stands, with
/// colons.
pub fn packet_for_request(mac_addr: Option<&str>, default_mac: &str) -> (r: Result<
    [u8; 102],
    WolError,
>)
    ensures
        ({
            let address = match mac_addr {
                Some(text) => text@,
                None => default_mac@,
            };
            match r {
                Ok(packet) => parse_mac(address) is Ok && packet@ == magic_packet(
                    parse_mac(address).unwrap(),
                ),
                Err(e) => parse_mac(address) == Err::<Seq<u8>, WolError>(e),
            }
        }),
{
    generate_wol_packet(wake_address(mac_addr, default_mac))
}

/// The replies of the listener.
#[derive(Clone, Copy, Debug, PartialEq, Eq, Structural)]
pub enum UdpReply {
    /// The datagram is not UTF-8 text.
    InvalidRequest,
    /// A request to wake a device has arrived.
    Received,
    /// The magic packet has been sent.
    Submitted,
    /// The magic packet could not be made or sent.
    Failed,
    /// The command is not known.
    Denied,
}

impl UdpReply {
    /// The text of the reply.
    pub open spec fn text(self) -> &'static str {
        match self {
            UdpReply::InvalidRequest => "Invalid UDP request",
            UdpReply::Received => "WOL request received",
            UdpReply::Submitted => "WOL request submitted",
            UdpReply::Failed => "Failed to submit packet on target network",
            UdpReply::Denied => "UDP request denied",
        }
    }

    /// The text of the reply.
    pub fn message(self) -> (text: &'static str)
        ensures
            text == self.text(),
    {
        match self {
            UdpReply::InvalidRequest => "Invalid UDP request",
            UdpReply::Received => "WOL request received",
            UdpReply::Submitted => "WOL request submitted",
            UdpReply::Failed => "Failed to submit packet on target network",
            UdpReply::Denied => "UDP request denied",
        }
    }
}

/// The datagram that carries a reply: the message, a line feed, a zero
/// byte, and zero bytes up to the length of 128.
pub open spec fn reply_datagram(message: Seq<u8>) -> Seq<u8> {
    Seq::new(
        REPLY_LEN as nat,
        |i: int|
            if i < message.len() {
                message[i]
            } else if i == message.len() {
                0x0au8
            } else {
                0u8
            },
    )
}

/// Builds the datagram that carries `message`, which has at most 126 bytes.
pub fn write_udp_response(message: &[u8]) -> (datagram: [u8; 128])
    requires
        message@.len() + 2 <= REPLY_LEN,
    ensures
        datagram@ == reply_datagram(message@),
{
    let mut datagram = [0u8; 128];
    let mut i: usize = 0;
    while i < message.len()
        invariant
            i <= message@.len(),
            message@.len() + 2 <= REPLY_LEN,
            forall|j: int| 0 <= j < i ==> datagram@[j] == message@[j],
            forall|j: int| i <= j < REPLY_LEN ==> datagram@[j] == 0,
        decreases message@.len() - i,
    {
        datagram[i] = message[i];
        i += 1;
    }
    datagram[message.len()] = 0x0a;
    datagram[message.len() + 1] = 0;
    datagram
}

/// Builds the datagram that carries a reply of the listener.
pub fn reply_to_datagram(reply: UdpReply) -> (datagram: [u8; 128])
    ensures
        datagram@ == reply_datagram(reply.text().spec_bytes()),
{
    let text = reply.message();
    proof {
        reveal_strlit("Invalid UDP request");
        reveal_strlit("WOL request received");
        reveal_strlit("WOL request submitted");
        reveal_strlit("Failed to submit packet on target network");
        reveal_strlit("UDP request denied");
        vstd::string::is_ascii_spec_bytes(text);
    }
    write_udp_response(text.as_bytes())
}

/// What the listener does once a reply is sent.
#[derive(Clone, Copy, Debug, PartialEq, Eq, Structural)]
pub enum AfterReply {
    /// Pause for [`RECEIVE_DELAY_MS`] and receive the next datagram.
    Receive,
    /// Make and send the magic packet, then report to [`after_wake`].
    Wake,
    /// Pause for [`REBIND_DELAY_MS`], close the socket and start again with
    /// a new bind.
    Rebind,
}

/// A reply, and what follows it.
#[derive(Clone, Copy, Debug, PartialEq, Eq, Structural)]
pub struct ReplyStep {
    pub reply: UdpReply,
    pub then: AfterReply,
}

/// The first reply to a datagram. Every datagram gets one: a request to
/// wake is acknowledged before the packet is sent, an unknown command is
/// denied, and a datagram that is no text is called invalid and makes the
/// listener bind anew.
pub fn after_datagram(plan: &DatagramPlan<'_>) -> (step: ReplyStep)
    ensures
        step == match plan {
            DatagramPlan::Invalid => ReplyStep {
                reply: UdpReply::InvalidRequest,
                then: AfterReply::Rebind,
            },
            DatagramPlan::Denied => ReplyStep { reply: UdpReply::Denied, then: AfterReply::Receive },
            DatagramPlan::Wake { .. } => ReplyStep {
                reply: UdpReply::Received,
                then: AfterReply::Wake,
            },
        },
{
    match plan {
        DatagramPlan::Invalid => ReplyStep {
            reply: UdpReply::InvalidRequest,
            then: AfterReply::Rebind,
        },
        DatagramPlan::Denied => ReplyStep { reply: UdpReply::Denied, then: AfterReply::Receive },
        DatagramPlan::Wake { .. } => ReplyStep { reply: UdpReply::Received, then: AfterReply::Wake },
    }
}

/// The second reply to a request to wake: the packet was sent, or it was
/// not, and then the listener binds anew.
pub fn after_wake(sent: bool) -> (step: ReplyStep)
    ensures
        step == if sent {
            ReplyStep { reply: UdpReply::Submitted, then: AfterReply::Receive }
        } else {
            ReplyStep { reply: UdpReply::Failed, then: AfterReply::Rebind }
        },
{
    if sent {
        ReplyStep { reply: UdpReply::Submitted, then: AfterReply::Receive }
    } else {
        ReplyStep { reply: UdpReply::Failed, then: AfterReply::Rebind }
    }
}

/// What has just happened on the listener's socket.
#[derive(Clone, Copy, Debug, PartialEq, Eq, Structural)]
pub enum ListenerEvent {
    /// The socket is closed, or the listener has just started.
    Idle,
    /// The network is usable.
    NetworkReady,
    /// The bind has ended, well or not.
    Bound { ok: bool },
    /// A receive has ended: with a datagram, or with an error.
    Received { ok: bool },
    /// A datagram has had its replies; `rebind` tells whether the last of
    /// them asks for a new bind.
    Handled { rebind: bool },
}

/// What the driver of the listener has to do next.
#[derive(Clone, Copy, Debug, PartialEq, Eq, Structural)]
pub enum ListenerAction {
    /// Wait until the network is usable.
    WaitForNetwork,
    /// Open the socket and bind it.
    Bind,
    /// Pause for [`RECEIVE_DELAY_MS`], then receive one datagram.
    Receive,
    /// Plan the datagram, reply, and do what follows the reply.
    Handle,
    /// Close the socket; then the listener is idle again.
    Close,
    /// Pause for [`REBIND_DELAY_MS`], then close the socket; then the
    /// listener is idle again.
    PauseThenClose,
}

/// The step that follows an event: wait for the network, bind, then
/// receive and handle datagrams one at a time. A failed bind or receive
/// closes the socket, and so does, after a pause, a datagram whose reply
/// asks for a new bind; then the listener starts again.
pub open spec fn next_action(event: ListenerEvent) -> ListenerAction {
    match event {
        ListenerEvent::Idle => ListenerAction::WaitForNetwork,
        ListenerEvent::NetworkReady => ListenerAction::Bind,
        ListenerEvent::Bound { ok } => if ok {
            ListenerAction::Receive
        } else {
            ListenerAction::Close
        },
        ListenerEvent::Received { ok } => if ok {
            ListenerAction::Handle
        } else {
            ListenerAction::Close
        },
        ListenerEvent::Handled { rebind } => if rebind {
            ListenerAction::PauseThenClose
        } else {
            ListenerAction::Receive
        },
    }
}

/// The events with which a driver can answer an action.
pub open spec fn answers(action: ListenerAction, event: ListenerEvent) -> bool {
    match action {
        ListenerAction::WaitForNetwork => event == ListenerEvent::NetworkReady,
        ListenerAction::Bind => event is Bound,
        ListenerAction::Receive => event is Received,
        ListenerAction::Handle => event is Handled,
        ListenerAction::Close | ListenerAction::PauseThenClose => event == ListenerEvent::Idle,
    }
}

/// Whether the socket is open while the action is performed.
pub open spec fn socket_open(action: ListenerAction) -> bool {
    action != ListenerAction::WaitForNetwork
}

/// No socket is leaked: whatever answers an action, a socket that is open
/// stays in use or is closed next, and the listener binds only after it
/// has waited for the network, which it does only behind a close.
pub proof fn socket_is_closed_before_a_new_bind(action: ListenerAction, event: ListenerEvent)
    requires
        answers(action, event),
    ensures
        next_action(event) == ListenerAction::Bind ==> action == ListenerAction::WaitForNetwork,
        next_action(event) == ListenerAction::WaitForNetwork ==> action == ListenerAction::Close
            || action == ListenerAction::PauseThenClose,
        socket_open(action) ==> socket_open(next_action(event)) || action == ListenerAction::Close
            || action == ListenerAction::PauseThenClose,
{
}

/// Tells the driver of the listener what to do after `event`.
pub fn listener_step(event: ListenerEvent) -> (action: ListenerAction)
    ensures
        action == next_action(event),
{
    match event {
        ListenerEvent::Idle => ListenerAction::WaitForNetwork,
        ListenerEvent::NetworkReady => ListenerAction::Bind,
        ListenerEvent::Bound { ok: true } | ListenerEvent::Handled { rebind: false } => {
            ListenerAction::Receive
        },
        ListenerEvent::Received { ok: true } => ListenerAction::Handle,
        ListenerEvent::Handled { rebind: true } => ListenerAction::PauseThenClose,
        ListenerEvent::Bound { ok: false } | ListenerEvent::Received { ok: false } => {
            ListenerAction::Close
        },
    }
}

} // verus!
