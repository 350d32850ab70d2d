//! Waking a device: from the hardware address as a request carries it to
//! the magic packet and its destination.

use crate::address::{parse_ip_address, parse_ipv4, Endpoint, Ipv4Address};
use crate::mac::{convert_mac_address, mac_as_str, normalized_mac, utf8_len, MAC_LEN};
use crate::wol::{generate_wol_packet, magic_packet, parse_mac, WolError, WOL_PORT};
use vstd::prelude::*;

verus! {

/// The local port of the socket that sends magic packets.
pub const UDP_BIND_PORT: u16 = 9;

/// The size of the buffers of that socket.
pub const UDP_BUFFER_SIZE: usize = 128;

/// Why no magic packet could be made for a requested address.
#[derive(Clone, Copy, Debug, PartialEq, Eq, Structural)]
pub enum WakeError {
    /// The colon-separated form of the address is longer than 17 bytes.
    AddressTooLong,
    /// The colon-separated form is not a hardware address.
    BadAddress(WolError),
}

/// The magic packet for a hardware address as a request carries it, with
/// colons or with escaped colons.
pub open spec fn wake_packet(mac_addr: Seq<char>) -> Result<Seq<u8>, WakeError> {
    if utf8_len(normalized_mac(mac_addr)) > MAC_LEN {
        Err(WakeError::AddressTooLong)
    } else {
        match parse_mac(normalized_mac(mac_addr)) {
            Ok(mac) => Ok(magic_packet(mac)),
            Err(e) => Err(WakeError::BadAddress(e)),
        }
    }
}

/// Builds the magic packet for a hardware address as a request carries it.
pub fn prepare_wake(mac_addr: &str) -> (r: Result<[u8; 102], WakeError>)
    ensures
        match r {
            Ok(packet) => wake_packet(mac_addr@) == Ok::<Seq<u8>, WakeError>(packet@),
            Err(e) => wake_packet(mac_addr@) == Err::<Seq<u8>, WakeError>(e),
        },
{
    let mac = match convert_mac_address(mac_addr) {
        Ok(mac) => mac,
        Err(_) => {
            return Err(WakeError::AddressTooLong);
        },
    };
    match generate_wol_packet(mac_as_str(&mac)) {
        Ok(packet) => Ok(packet),
        Err(e) => Err(WakeError::BadAddress(e)),
    }
}

/// The address that magic packets go to: the configured one, or the limited
/// broadcast address if the configured text is no IPv4 address.
pub open spec fn broadcast_address(configured: Seq<char>) -> Seq<u8> {
    match parse_ipv4(configured) {
        Ok(ip) => ip,
        Err(_) => seq![255u8, 255u8, 255u8, 255u8],
    }
}

/// The destination of magic packets: port 9 at the configured broadcast
/// address, or at `255.255.255.255` if the configured text is no IPv4
/// address.
pub fn get_broadcast_addr(addr: &str) -> (target: Endpoint)
    ensures
        target.addr@ == broadcast_address(addr@),
        target.port == WOL_PORT,
{
    let ip = match parse_ip_address(addr) {
        Ok(ip) => ip,
        Err(_) => Ipv4Address::broadcast(),
    };
    Endpoint { addr: ip, port: WOL_PORT }
}

} // verus!
