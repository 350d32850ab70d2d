//! The HTTP command server: routing of a request, and the order of the
//! steps of one connection.
//!
//! The socket is outside this library. The driver performs each step and
//! reports how it went to [`server_step`].

use crate::html::Page;
use crate::query::{
    parse_http_query, query_args, query_dropped, request_target, target_path, target_query,
    HttpCommand,
};
use crate::response::ResponseError;
use crate::socket_io::IoError;
use crate::text::{parse_decimal, parse_unsigned, str_equal};
use vstd::prelude::*;

verus! {

/// The port that the server listens on if none is configured.
pub const HTTP_LISTEN_PORT_FALLBACK: u16 = 8080;

/// The idle timeout of the server's socket, in seconds.
pub const SOCKET_TIMEOUT_SECS: u64 = 10;

/// The pause between closing a connection and aborting it, in milliseconds.
pub const CLOSE_DELAY_MS: u64 = 50;

/// The path of the Wake-on-LAN service.
pub const WOL_PATH: &'static str = "/wol";

/// The argument that carries the hardware address to wake.
pub const MAC_ARGUMENT: &'static str = "mac_addr";

/// The port to listen on: the configured decimal number, or 8080 if the
/// text is no number from 0 to 65535.
pub open spec fn listen_port(configured: Seq<char>) -> u16 {
    match parse_unsigned(configured, 10, 0xffff) {
        Some(port) => port as u16,
        None => HTTP_LISTEN_PORT_FALLBACK,
    }
}

/// The port that the server listens on.
pub fn http_listen_port(configured: &str) -> (port: u16)
    ensures
        port == listen_port(configured@),
{
    match parse_decimal(configured, 0xffff) {
        Some(port) => port as u16,
        None => HTTP_LISTEN_PORT_FALLBACK,
    }
}

/// What a request asks the server to do.
pub enum Route<'a> {
    /// Answer with this page.
    Show(Page),
    /// Wake the device with this hardware address, then answer with the page
    /// that [`wake_page`] gives for the outcome.
    Wake(&'a str),
}

/// What a request asks the server to do, with the address as plain text.
pub enum RouteView {
    Show(Page),
    Wake(Seq<char>),
}

impl<'a> View for Route<'a> {
    type V = RouteView;

    open spec fn view(&self) -> RouteView {
        match self {
            Route::Show(page) => RouteView::Show(*page),
            Route::Wake(mac_addr) => RouteView::Wake(mac_addr@),
        }
    }
}

/// The route of a request with the given path and arguments.
///
/// Under `/wol`, a server whose Wake-on-LAN service is switched off says so
/// whatever the arguments are; one whose service is on wakes the device
/// named by the argument `mac_addr`, or shows the input form if that
/// argument is missing. Every other path shows the home page.
pub open spec fn route_of(
    path: Seq<char>,
    args: Map<Seq<char>, Seq<char>>,
    wol_enabled: bool,
) -> RouteView {
    if path != WOL_PATH@ {
        RouteView::Show(Page::Home)
    } else if !wol_enabled {
        RouteView::Show(Page::NotEnabled)
    } else if args.dom().contains(MAC_ARGUMENT@) {
        RouteView::Wake(args[MAC_ARGUMENT@])
    } else {
        RouteView::Show(Page::WolInput)
    }
}

/// With the Wake-on-LAN service switched off, a request for it is told so
/// whatever its arguments are.
pub proof fn switched_off_service_never_wakes(args: Map<Seq<char>, Seq<char>>)
    ensures
        route_of(WOL_PATH@, args, false) == RouteView::Show(Page::NotEnabled),
{
}

/// A device is woken only by a request for `/wol` that carries the argument
/// `mac_addr`, and only while the service is switched on.
pub proof fn wakes_only_on_request(
    path: Seq<char>,
    args: Map<Seq<char>, Seq<char>>,
    wol_enabled: bool,
)
    ensures
        route_of(path, args, wol_enabled) is Wake <==> path == WOL_PATH@ && wol_enabled
            && args.dom().contains(MAC_ARGUMENT@),
{
}

/// The route of a request whose line has been read.
pub fn route<'a>(command: &HttpCommand<'a>, wol_enabled: bool) -> (r: Route<'a>)
    ensures
        r@ == route_of(command.path@, command.args@, wol_enabled),
{
    if !str_equal(command.path, WOL_PATH) {
        Route::Show(Page::Home)
    } else if !wol_enabled {
        Route::Show(Page::NotEnabled)
    } else {
        match command.args.get(MAC_ARGUMENT) {
            Some(mac_addr) => Route::Wake(mac_addr),
            None => Route::Show(Page::WolInput),
        }
    }
}

/// Reads the request line of `query` and gives its route, and with it the
/// number of arguments that were dropped for want of room.
pub fn handle_http_query<'a>(query: &'a str, wol_enabled: bool) -> (r: (Route<'a>, usize))
    ensures
        r.0@ == route_of(
            target_path(request_target(query@)),
            query_args(target_query(request_target(query@))),
            wol_enabled,
        ),
        r.1 == query_dropped(target_query(request_target(query@))),
{
    let command = parse_http_query(query);
    (route(&command, wol_enabled), command.dropped)
}

/// The page that answers a request to wake a device: the success page if
/// the packet was sent, the error page for any failure.
pub fn wake_page(sent: bool) -> (page: Page)
    ensures
        page == if sent {
            Page::WolSuccess
        } else {
            Page::Error
        },
{
    if sent {
        Page::WolSuccess
    } else {
        Page::Error
    }
}

/// How a connection is ended.
#[derive(Clone, Copy, Debug, PartialEq, Eq, Structural)]
pub enum ConnectionEnd {
    /// Close the connection, pause for [`CLOSE_DELAY_MS`], then abort and
    /// drain it.
    CloseThenAbort,
    /// Abort and drain the connection at once.
    Abort,
}

/// What has just happened on the server's socket.
#[derive(Clone, Copy, Debug, PartialEq, Eq)]
pub enum ServerEvent {
    /// A connection has been ended, or the server has just started.
    Idle,
    /// The network is usable.
    NetworkReady,
    /// The wait for a connection has ended, well or not.
    Accepted { ok: bool },
    /// The peer of the connection has been looked up.
    PeerLookedUp { known: bool },
    /// The single read has ended: with a number of bytes, or with an error.
    ReadDone { read: Result<usize, ()> },
    /// The bytes read are not UTF-8 text.
    RequestNotText,
    /// The response has been assembled, or does not fit its buffer.
    ResponseBuilt { built: Result<usize, ResponseError> },
    /// The response has been written and flushed, or not.
    ResponseWritten { written: Result<(), IoError> },
}

/// What the driver of the server has to do next.
#[derive(Clone, Copy, Debug, PartialEq, Eq, Structural)]
pub enum ServerAction {
    /// Wait until the network is usable.
    WaitForNetwork,
    /// Wait for a connection.
    Accept,
    /// Look up the peer of the connection.
    LookUpPeer,
    /// Read once from the connection.
    Read,
    /// Decode the `len` bytes read, route the request and assemble the
    /// response.
    Respond { len: usize },
    /// Write the first `len` bytes of the response buffer.
    Write { len: usize },
    /// End the connection; then the server is idle again.
    End(ConnectionEnd),
}

/// The step that follows an event.
///
/// One connection is served at a time, in this order: wait for the network,
/// accept, look up the peer, read once, respond, close. A peer that closes
/// without sending, and a failed read, get no response and a clean close. Any
/// other failure aborts the connection. After either end the server comes
/// back to the start; it never stops.
pub open spec fn next_action(event: ServerEvent) -> ServerAction {
    match event {
        ServerEvent::Idle => ServerAction::WaitForNetwork,
        ServerEvent::NetworkReady => ServerAction::Accept,
        ServerEvent::Accepted { ok } => if ok {
            ServerAction::LookUpPeer
        } else {
            ServerAction::End(ConnectionEnd::Abort)
        },
        ServerEvent::PeerLookedUp { known } => if known {
            ServerAction::Read
        } else {
            ServerAction::End(ConnectionEnd::Abort)
        },
        ServerEvent::ReadDone { read } => match read {
            Ok(len) => if len == 0 {
                ServerAction::End(ConnectionEnd::CloseThenAbort)
            } else {
                ServerAction::Respond { len }
            },
            Err(_) => ServerAction::End(ConnectionEnd::CloseThenAbort),
        },
        ServerEvent::RequestNotText => ServerAction::End(ConnectionEnd::Abort),
        ServerEvent::ResponseBuilt { built } => match built {
            Ok(len) => ServerAction::Write { len },
            Err(_) => ServerAction::End(ConnectionEnd::Abort),
        },
        ServerEvent::ResponseWritten { written } => match written {
            Ok(_) => ServerAction::End(ConnectionEnd::CloseThenAbort),
            Err(_) => ServerAction::End(ConnectionEnd::Abort),
        },
    }
}

/// The events with which a driver can answer an action.
pub open spec fn answers(action: ServerAction, event: ServerEvent) -> bool {
    match action {
        ServerAction::WaitForNetwork => event == ServerEvent::NetworkReady,
        ServerAction::Accept => event is Accepted,
        ServerAction::LookUpPeer => event is PeerLookedUp,
        ServerAction::Read => event is ReadDone,
        ServerAction::Respond { .. } => event == ServerEvent::RequestNotText
            || event is ResponseBuilt,
        ServerAction::Write { .. } => event is ResponseWritten,
        ServerAction::End(_) => event == ServerEvent::Idle,
    }
}

/// How many actions a connection has at most before it, counting `action`.
pub open spec fn steps_left(action: ServerAction) -> nat {
    match action {
        ServerAction::WaitForNetwork => 7,
        ServerAction::Accept => 6,
        ServerAction::LookUpPeer => 5,
        ServerAction::Read => 4,
        ServerAction::Respond { .. } => 3,
        ServerAction::Write { .. } => 2,
        ServerAction::End(_) => 1,
    }
}

/// No client keeps the server busy for ever, and none stops it: whatever
/// answers an action, the next action is closer to the end of the
/// connection, and behind the end the server waits for the network again.
pub proof fn every_connection_ends(action: ServerAction, event: ServerEvent)
    requires
        answers(action, event),
    ensures
        action is End ==> next_action(event) == ServerAction::WaitForNetwork,
        !(action is End) ==> steps_left(next_action(event)) < steps_left(action),
{
}

/// A response is written only when it has been assembled, and then in its
/// full length.
pub proof fn writes_only_what_was_built(event: ServerEvent, len: usize)
    ensures
        next_action(event) == (ServerAction::Write { len }) <==> event == (ServerEvent::ResponseBuilt {
            built: Ok(len),
        }),
{
}

/// Tells the driver of the server what to do after `event`.
pub fn server_step(event: ServerEvent) -> (action: ServerAction)
    ensures
        action == next_action(event),
{
    match event {
        ServerEvent::Idle => ServerAction::WaitForNetwork,
        ServerEvent::NetworkReady => ServerAction::Accept,
        ServerEvent::Accepted { ok: true } => ServerAction::LookUpPeer,
        ServerEvent::PeerLookedUp { known: true } => ServerAction::Read,
        ServerEvent::ReadDone { read: Ok(len) } => if len == 0 {
            ServerAction::End(ConnectionEnd::CloseThenAbort)
        } else {
            ServerAction::Respond { len }
        },
        ServerEvent::ReadDone { read: Err(_) } => ServerAction::End(
            ConnectionEnd::CloseThenAbort,
        ),
        ServerEvent::ResponseBuilt { built: Ok(len) } => ServerAction::Write { len },
        ServerEvent::ResponseWritten { written: Ok(_) } => ServerAction::End(
            ConnectionEnd::CloseThenAbort,
        ),
        _ => ServerAction::End(ConnectionEnd::Abort),
    }
}

} // verus!
