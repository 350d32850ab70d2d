//! The dynamic-DNS updater: it learns the public address of the appliance
//! and tells the DNS provider whenever that address has changed.
//!
//! Network and timers are outside this library. The driver performs each
//! action and reports its outcome to the updater.

use crate::address::{parse_ip_chars, parse_ipv4, Endpoint, Ipv4Address};
use crate::text::{
    after_first, contains_pattern, decode_text, next_field, parse_decimal, parse_unsigned, to_chars,
};
use vstd::prelude::*;
use vstd::utf8::{decode_utf8, valid_utf8};

verus! {

/// The interval between two checks if none is configured, in seconds.
pub const DNS_CHECK_DELAY_FALLBACK: u64 = 60;

/// The host that reports the public address of the caller.
pub const PUBLIC_IP_PROVIDER_HOST: &'static str = "api.ipify.org";

/// The request that asks it.
pub const PUBLIC_IP_PROVIDER_REQUEST: &'static str =
    "GET / HTTP/1.1\r\nHost: api.ipify.org\r\nConnection: close\r\n\r\n";

/// The port of both HTTP services.
pub const HTTP_PORT: u16 = 80;

/// The idle timeout of the client socket, in seconds.
pub const SOCKET_TIMEOUT_SECS: u64 = 10;

/// The pause between closing a connection and aborting it, in milliseconds.
pub const CLOSE_DELAY_MS: u64 = 500;

/// The size of the buffers of the client socket and of a response.
pub const TCP_BUFFER_SIZE: usize = 1024;

/// The empty line that ends the header fields of a response.
pub const BLANK_LINE: &'static str = "\r\n\r\n";

/// The interval between two checks: the configured decimal number of
/// seconds, or 60 if the text is no number that fits 64 bits.
pub open spec fn check_delay(configured: Seq<char>) -> u64 {
    match parse_unsigned(configured, 10, u64::MAX as nat) {
        Some(seconds) => seconds as u64,
        None => DNS_CHECK_DELAY_FALLBACK,
    }
}

/// The interval between two checks, in seconds.
pub fn get_dns_check_delay(delay: &str) -> (seconds: u64)
    ensures
        seconds == check_delay(delay@),
{
    match parse_decimal(delay, u64::MAX) {
        Some(seconds) => seconds,
        None => DNS_CHECK_DELAY_FALLBACK,
    }
}

/// The body of a response: what follows the first empty line, or all of the
/// response if it has no empty line.
pub open spec fn response_body(response: Seq<char>) -> Seq<char> {
    if contains_pattern(response, BLANK_LINE@) {
        after_first(response, BLANK_LINE@)
    } else {
        response
    }
}

/// The address that a response of the public-address service reports, if
/// its body is a dotted quad.
pub open spec fn reported_address(response: Seq<char>) -> Option<Seq<u8>> {
    match parse_ipv4(response_body(response)) {
        Ok(ip) => Some(ip),
        Err(_) => None,
    }
}

/// Reads the public address out of a response.
pub fn read_public_ip(response: &str) -> (r: Option<Ipv4Address>)
    ensures
        match r {
            Some(ip) => reported_address(response@) == Some(ip@),
            None => reported_address(response@) is None,
        },
{
    let chars = to_chars(response);
    let blank = to_chars(BLANK_LINE);
    proof {
        reveal_strlit("\r\n\r\n");
    }
    let (_, behind) = next_field(chars.as_slice(), blank.as_slice());
    let body = match behind {
        Some(body) => body,
        None => chars.as_slice(),
    };
    match parse_ip_chars(body) {
        Ok(ip) => Some(ip),
        Err(_) => None,
    }
}

/// What an HTTP exchange with a provider gave.
pub enum Exchange<'a> {
    /// The exchange failed on the way: no address, no connection, a failed
    /// write or a failed read.
    Failed,
    /// A response came, but it is not UTF-8 text.
    NotText,
    /// A response came, with this text. It may be empty.
    Response(&'a str),
}

/// An address that the resolver gave for a host name.
#[derive(Clone, Copy, Debug, PartialEq, Eq)]
pub enum ResolvedAddress {
    /// An IPv4 address.
    V4(Ipv4Address),
    /// An address of another family.
    Other,
}

/// The position of the first IPv4 address in a resolver's answer, or the
/// length of the answer if it has none.
pub open spec fn first_v4(addresses: Seq<ResolvedAddress>) -> int
    decreases addresses.len(),
{
    if addresses.len() == 0 || addresses[0] is V4 {
        0
    } else {
        1 + first_v4(addresses.drop_first())
    }
}

/// The endpoint of a provider: port 80 at the first IPv4 address that the
/// resolver gave, if it gave one.
pub fn get_dns_address(addresses: &[ResolvedAddress]) -> (r: Option<Endpoint>)
    ensures
        0 <= first_v4(addresses@) <= addresses@.len(),
        r is Some <==> first_v4(addresses@) < addresses@.len(),
        r matches Some(endpoint) ==> {
            &&& addresses@[first_v4(addresses@)] == ResolvedAddress::V4(endpoint.addr)
            &&& endpoint.port == HTTP_PORT
        },
{
    let mut i: usize = 0;
    assert(addresses@.skip(0) =~= addresses@);
    while i < addresses.len()
        invariant
            i <= addresses@.len(),
            first_v4(addresses@) == i + first_v4(addresses@.skip(i as int)),
        decreases addresses@.len() - i,
    {
        match addresses[i] {
            ResolvedAddress::V4(addr) => {
                return Some(Endpoint { addr, port: HTTP_PORT });
            },
            ResolvedAddress::Other => {},
        }
        assert(addresses@.skip(i as int).drop_first() =~= addresses@.skip(i + 1));
        i += 1;
    }
    None
}

/// The stages of an HTTP exchange with a provider, in their order.
#[derive(Clone, Copy, Debug, PartialEq, Eq, Structural)]
pub enum ExchangeStage {
    /// Resolving the host name.
    Resolve,
    /// Connecting to the endpoint.
    Connect,
    /// Writing the request.
    Write,
    /// Reading the response, once.
    Read,
}

/// What the driver of an exchange has to do after a stage.
#[derive(Clone, Copy, Debug, PartialEq, Eq, Structural)]
pub enum ExchangeAction {
    /// Go on with this stage.
    Proceed(ExchangeStage),
    /// Hand the bytes read to [`finish_exchange`]; then close the
    /// connection, pause for [`CLOSE_DELAY_MS`], and abort and drain it.
    Finish,
    /// Give up: the exchange has failed. Once a socket exists it is aborted
    /// and drained first.
    Fail { abort: bool },
}

/// What follows a stage, by whether it went well.
///
/// The stages follow each other while they go well. The first one that
/// fails ends the exchange; the socket, which exists from the connect on, is
/// then aborted.
pub open spec fn after_stage(stage: ExchangeStage, ok: bool) -> ExchangeAction {
    match stage {
        ExchangeStage::Resolve => if ok {
            ExchangeAction::Proceed(ExchangeStage::Connect)
        } else {
            ExchangeAction::Fail { abort: false }
        },
        ExchangeStage::Connect => if ok {
            ExchangeAction::Proceed(ExchangeStage::Write)
        } else {
            ExchangeAction::Fail { abort: true }
        },
        ExchangeStage::Write => if ok {
            ExchangeAction::Proceed(ExchangeStage::Read)
        } else {
            ExchangeAction::Fail { abort: true }
        },
        ExchangeStage::Read => if ok {
            ExchangeAction::Finish
        } else {
            ExchangeAction::Fail { abort: true }
        },
    }
}

/// Tells the driver of an exchange what to do after a stage.
pub fn exchange_step(stage: ExchangeStage, ok: bool) -> (action: ExchangeAction)
    ensures
        action == after_stage(stage, ok),
{
    if !ok {
        match stage {
            ExchangeStage::Resolve => ExchangeAction::Fail { abort: false },
            _ => ExchangeAction::Fail { abort: true },
        }
    } else {
        match stage {
            ExchangeStage::Resolve => ExchangeAction::Proceed(ExchangeStage::Connect),
            ExchangeStage::Connect => ExchangeAction::Proceed(ExchangeStage::Write),
            ExchangeStage::Write => ExchangeAction::Proceed(ExchangeStage::Read),
            ExchangeStage::Read => ExchangeAction::Finish,
        }
    }
}

/// The outcome of an exchange whose read gave `response`: its text, if it
/// is UTF-8.
pub fn finish_exchange<'a>(response: &'a [u8]) -> (exchange: Exchange<'a>)
    ensures
        match exchange {
            Exchange::Response(text) => valid_utf8(response@) && text@ == decode_utf8(response@),
            Exchange::NotText => !valid_utf8(response@),
            Exchange::Failed => false,
        },
{
    match decode_text(response) {
        Some(text) => Exchange::Response(text),
        None => Exchange::NotText,
    }
}

/// Where the updater stands in its cycle.
#[derive(Clone, Copy, Debug, PartialEq, Eq)]
pub enum DnsPhase {
    /// Waiting until the network is usable.
    WaitingForNetwork,
    /// Asking for the public address.
    FetchingPublicIp,
    /// Telling the provider; `candidate` is the address just learnt.
    Updating { candidate: Ipv4Address },
    /// Sleeping until the next check.
    Sleeping,
}

/// What the driver of the updater has to do next.
#[derive(Clone, Copy, Debug, PartialEq, Eq, Structural)]
pub enum DnsAction {
    /// Wait until the network is usable, then call `network_ready`.
    WaitForNetwork,
    /// Ask the public-address service, then call `public_ip_fetched`.
    FetchPublicIp,
    /// Send the update request to the DNS provider, then call
    /// `update_sent`.
    UpdateRecord,
    /// Sleep that many seconds, then call `woke_up`.
    Sleep { seconds: u64 },
}

/// The state of the updater.
#[derive(Clone, Copy, Debug, PartialEq, Eq)]
pub struct DnsUpdater {
    /// Where the updater stands in its cycle.
    pub phase: DnsPhase,
    /// The address that the provider was last told, if any.
    pub last_ip: Option<Ipv4Address>,
    /// The interval between two checks, in seconds.
    pub delay_seconds: u64,
}

impl DnsUpdater {
    /// The action that the updater is waiting for in this state.
    pub open spec fn action(self) -> DnsAction {
        match self.phase {
            DnsPhase::WaitingForNetwork => DnsAction::WaitForNetwork,
            DnsPhase::FetchingPublicIp => DnsAction::FetchPublicIp,
            DnsPhase::Updating { .. } => DnsAction::UpdateRecord,
            DnsPhase::Sleeping => DnsAction::Sleep { seconds: self.delay_seconds },
        }
    }

    /// Whether the provider was last told the address `ip`.
    pub open spec fn knows(self, ip: Seq<u8>) -> bool {
        self.last_ip matches Some(known) && known@ == ip
    }

    /// An updater that has told the provider nothing yet and waits for the
    /// network.
    pub fn new(delay_seconds: u64) -> (updater: DnsUpdater)
        ensures
            updater.phase == DnsPhase::WaitingForNetwork,
            updater.last_ip is None,
            updater.delay_seconds == delay_seconds,
    {
        DnsUpdater { phase: DnsPhase::WaitingForNetwork, last_ip: None, delay_seconds }
    }

    /// What the driver has to do in this state.
    pub fn next_action(&self) -> (action: DnsAction)
        ensures
            action == self.action(),
    {
        match self.phase {
            DnsPhase::WaitingForNetwork => DnsAction::WaitForNetwork,
            DnsPhase::FetchingPublicIp => DnsAction::FetchPublicIp,
            DnsPhase::Updating { .. } => DnsAction::UpdateRecord,
            DnsPhase::Sleeping => DnsAction::Sleep { seconds: self.delay_seconds },
        }
    }

    /// The network is usable: the cycle starts by asking for the public
    /// address.
    pub fn network_ready(&mut self) -> (action: DnsAction)
        requires
            old(self).phase == DnsPhase::WaitingForNetwork,
        ensures
            final(self).phase == DnsPhase::FetchingPublicIp,
            final(self).last_ip == old(self).last_ip,
            final(self).delay_seconds == old(self).delay_seconds,
            action == DnsAction::FetchPublicIp,
    {
        self.phase = DnsPhase::FetchingPublicIp;
        DnsAction::FetchPublicIp
    }

    /// The exchange with the public-address service has ended.
    ///
    /// Without a response that reports an address the cycle starts again at
    /// once, with no sleep. An address that the provider was last told needs
    /// no update: the updater sleeps for the full interval. Any other
    /// address, and the first one ever, is sent to the provider.
    pub fn public_ip_fetched(&mut self, exchange: Exchange<'_>) -> (action: DnsAction)
        requires
            old(self).phase == DnsPhase::FetchingPublicIp,
        ensures
            final(self).last_ip == old(self).last_ip,
            final(self).delay_seconds == old(self).delay_seconds,
            action == final(self).action(),
            match exchange {
                Exchange::Response(text) => match reported_address(text@) {
                    Some(ip) => if old(self).knows(ip) {
                        final(self).phase == DnsPhase::Sleeping
                    } else {
                        final(self).phase matches DnsPhase::Updating { candidate } && candidate@
                            == ip
                    },
                    None => final(self).phase == DnsPhase::WaitingForNetwork,
                },
                _ => final(self).phase == DnsPhase::WaitingForNetwork,
            },
    {
        let fetched = match exchange {
            Exchange::Response(text) => read_public_ip(text),
            _ => None,
        };
        match fetched {
            None => {
                self.phase = DnsPhase::WaitingForNetwork;
            },
            Some(ip) => {
                let unchanged = match &self.last_ip {
                    Some(known) => known.same(&ip),
                    None => false,
                };
                if unchanged {
                    self.phase = DnsPhase::Sleeping;
                } else {
                    self.phase = DnsPhase::Updating { candidate: ip };
                }
            },
        }
        self.next_action()
    }

    /// The exchange with the DNS provider has ended.
    ///
    /// Any response means that the provider has been told, be it empty or
    /// not even text: the new address is kept and the updater sleeps for the
    /// interval. Only an exchange that failed on the way leaves the old
    /// address in place, and then the cycle starts again at once.
    pub fn update_sent(&mut self, exchange: Exchange<'_>) -> (action: DnsAction)
        requires
            old(self).phase is Updating,
        ensures
            final(self).delay_seconds == old(self).delay_seconds,
            action == final(self).action(),
            match exchange {
                Exchange::Response(_) | Exchange::NotText => {
                    &&& final(self).phase == DnsPhase::Sleeping
                    &&& old(self).phase matches DnsPhase::Updating { candidate }
                    &&& final(self).last_ip == Some(candidate)
                },
                Exchange::Failed => {
                    &&& final(self).phase == DnsPhase::WaitingForNetwork
                    &&& final(self).last_ip == old(self).last_ip
                },
            },
    {
        match exchange {
            Exchange::Response(_) | Exchange::NotText => {
                if let DnsPhase::Updating { candidate } = self.phase {
                    self.last_ip = Some(candidate);
                }
                self.phase = DnsPhase::Sleeping;
            },
            Exchange::Failed => {
                self.phase = DnsPhase::WaitingForNetwork;
            },
        }
        self.next_action()
    }

    /// The sleep is over: the next cycle starts.
    pub fn woke_up(&mut self) -> (action: DnsAction)
        requires
            old(self).phase == DnsPhase::Sleeping,
        ensures
            final(self).phase == DnsPhase::WaitingForNetwork,
            final(self).last_ip == old(self).last_ip,
            final(self).delay_seconds == old(self).delay_seconds,
            action == DnsAction::WaitForNetwork,
    {
        self.phase = DnsPhase::WaitingForNetwork;
        DnsAction::WaitForNetwork
    }
}

} // verus!
