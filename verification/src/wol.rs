//! The Wake-on-LAN magic packet.

use crate::fields::{
    byte_field, parse_byte_fields, parse_joined_fields, read_byte_fields, FieldKind, FieldsError,
};
use crate::text::{digit_char, digit_of, join};
use crate::text::to_chars;
use vstd::prelude::*;

verus! {

/// The length of a hardware address in bytes.
pub const MAC_BYTES: usize = 6;

/// How often the packet repeats the hardware address.
pub const MAC_REPEATS: usize = 16;

/// The length of a magic packet in bytes.
pub const WOL_PACKET_LEN: usize = 102;

/// The UDP port that magic packets are sent to.
pub const WOL_PORT: u16 = 9;

/// Why a text is not a hardware address.
#[derive(Clone, Copy, Debug, PartialEq, Eq, Structural)]
pub enum WolError {
    /// The text does not have exactly six parts.
    InvalidMacSize,
    /// A part is not a byte of two hexadecimal digits.
    InvalidMacFormat,
}

/// The six bytes that a colon-separated hardware address writes.
///
/// The text is cut at each `':'` into parts, and each part is read as a
/// byte of exactly two hexadecimal digits of either case. Reading goes from
/// left to right and stops at the first failure: a part that is no such
/// byte gives `InvalidMacFormat`, a missing or a seventh part gives
/// `InvalidMacSize`.
pub open spec fn parse_mac(text: Seq<char>) -> Result<Seq<u8>, WolError> {
    match parse_byte_fields(text, ':', MAC_BYTES as nat, FieldKind::HexPair) {
        Ok(mac) => Ok(mac),
        Err(FieldsError::WrongCount) => Err(WolError::InvalidMacSize),
        Err(FieldsError::BadField) => Err(WolError::InvalidMacFormat),
    }
}

/// The magic packet for a hardware address: six bytes `0xff`, then the
/// address sixteen times.
pub open spec fn magic_packet(mac: Seq<u8>) -> Seq<u8> {
    Seq::new(
        WOL_PACKET_LEN as nat,
        |i: int|
            if i < MAC_BYTES {
                0xffu8
            } else {
                mac[(i - MAC_BYTES) % (MAC_BYTES as int)]
            },
    )
}

/// The `k`-th of the sixteen address blocks of a packet.
pub open spec fn packet_block(packet: Seq<u8>, k: int) -> Seq<u8> {
    packet.subrange(MAC_BYTES + MAC_BYTES * k, MAC_BYTES + MAC_BYTES * (k + 1))
}

/// A magic packet has 102 bytes, starts with six bytes `0xff`, and each of
/// its sixteen blocks is the hardware address it was made for.
pub proof fn magic_packet_layout(mac: Seq<u8>)
    requires
        mac.len() == MAC_BYTES,
    ensures
        magic_packet(mac).len() == WOL_PACKET_LEN,
        forall|i: int| 0 <= i < MAC_BYTES ==> magic_packet(mac)[i] == 0xff,
        forall|k: int| 0 <= k < MAC_REPEATS ==> #[trigger] packet_block(magic_packet(mac), k) == mac,
{
    assert forall|k: int| 0 <= k < MAC_REPEATS implies #[trigger] packet_block(
        magic_packet(mac),
        k,
    ) == mac by {
        let block = packet_block(magic_packet(mac), k);
        assert forall|j: int| 0 <= j < mac.len() implies block[j] == mac[j] by {
            assert((6 * k + j) % 6 == j) by (nonlinear_arith)
                requires
                    0 <= j < 6,
                    0 <= k,
            ;
        }
    }
}

/// Six bytes of two hexadecimal digits each, with colons between them, are
/// read as the hardware address of exactly these six bytes.
pub proof fn parse_mac_reads_every_address(parts: Seq<Seq<char>>, mac: Seq<u8>)
    requires
        parts.len() == MAC_BYTES,
        mac.len() == MAC_BYTES,
        forall|i: int|
            0 <= i < MAC_BYTES ==> (#[trigger] byte_field(parts[i], FieldKind::HexPair)) == Some(mac[i] as nat),
    ensures
        parse_mac(join(parts, seq![':'])) == Ok::<Seq<u8>, WolError>(mac),
{
    parse_joined_fields(parts, mac, ':', MAC_BYTES as nat, FieldKind::HexPair);
}

/// The two lower-case hexadecimal digits of a byte.
pub open spec fn hex_pair(byte: u8) -> Seq<char> {
    seq![digit_char((byte / 16) as nat), digit_char((byte % 16) as nat)]
}

/// The colon-separated text of a hardware address: the two hexadecimal
/// digits of each byte, with colons between the bytes.
pub open spec fn colon_text(mac: Seq<u8>) -> Seq<char> {
    join(Seq::new(mac.len(), |i: int| hex_pair(mac[i])), seq![':'])
}

/// The colon-separated text of any six bytes is read as exactly these
/// bytes, and so the packet made for the text repeats them.
pub proof fn parse_mac_reads_colon_text(mac: Seq<u8>)
    requires
        mac.len() == MAC_BYTES,
    ensures
        parse_mac(colon_text(mac)) == Ok::<Seq<u8>, WolError>(mac),
{
    let parts = Seq::new(mac.len(), |i: int| hex_pair(mac[i]));
    assert forall|i: int| 0 <= i < MAC_BYTES implies (#[trigger] byte_field(
        parts[i],
        FieldKind::HexPair,
    )) == Some(mac[i] as nat) by {
        let byte = mac[i];
        let pair = hex_pair(byte);
    }
    parse_mac_reads_every_address(parts, mac);
}

/// The packet for any text that is a hardware address has 102 bytes, starts
/// with six bytes `0xff`, and each of its sixteen blocks, read back, is
/// the address that the text writes.
pub proof fn packet_repeats_the_address(text: Seq<char>)
    requires
        parse_mac(text) is Ok,
    ensures
        ({
            let mac = parse_mac(text).unwrap();
            let packet = magic_packet(mac);
            &&& mac.len() == MAC_BYTES
            &&& packet.len() == WOL_PACKET_LEN
            &&& forall|i: int| 0 <= i < MAC_BYTES ==> packet[i] == 0xff
            &&& forall|k: int| 0 <= k < MAC_REPEATS ==> #[trigger] packet_block(packet, k) == mac
        }),
{
    magic_packet_layout(parse_mac(text).unwrap());
}

/// Builds the magic packet for six address bytes.
pub fn build_packet(mac: &[u8]) -> (packet: [u8; 102])
    requires
        mac@.len() == MAC_BYTES,
    ensures
        packet@ == magic_packet(mac@),
{
    let mut packet = [0u8; 102];
    let mut i: usize = 0;
    while i < 6
        invariant
            i <= 6,
            forall|j: int| 0 <= j < i ==> packet@[j] == 0xff,
        decreases 6 - i,
    {
        packet[i] = 0xff;
        i += 1;
    }
    let mut k: usize = 0;
    while k < 16
        invariant
            k <= 16,
            mac@.len() == 6,
            forall|j: int| 0 <= j < 6 ==> packet@[j] == 0xff,
            forall|j: int| 6 <= j < 6 + 6 * k ==> packet@[j] == mac@[(j - 6) % 6],
        decreases 16 - k,
    {
        let start: usize = 6 + k * 6;
        let mut j: usize = 0;
        while j < 6
            invariant
                j <= 6,
                k < 16,
                start == 6 + k * 6,
                mac@.len() == 6,
                forall|n: int| 0 <= n < 6 ==> packet@[n] == 0xff,
                forall|n: int| 6 <= n < start + j ==> packet@[n] == mac@[(n - 6) % 6],
            decreases 6 - j,
        {
            assert((6 * k + j) % 6 == j) by (nonlinear_arith)
                requires
                    0 <= j < 6,
                    0 <= k,
            ;
            packet[start + j] = mac[j];
            j += 1;
        }
        k += 1;
    }
    packet
}

/// Builds the magic packet for a hardware address such as
/// `"00:11:22:33:44:55"`.
pub fn generate_wol_packet(mac_addr: &str) -> (r: Result<[u8; 102], WolError>)
    ensures
        match r {
            Ok(packet) => parse_mac(mac_addr@) is Ok && packet@ == magic_packet(
                parse_mac(mac_addr@).unwrap(),
            ),
            Err(e) => parse_mac(mac_addr@) == Err::<Seq<u8>, WolError>(e),
        },
{
    let chars = to_chars(mac_addr);
    match read_byte_fields(chars.as_slice(), ':', 6, FieldKind::HexPair) {
        Ok(mac) => Ok(build_packet(mac.as_slice())),
        Err(FieldsError::WrongCount) => Err(WolError::InvalidMacSize),
        Err(FieldsError::BadField) => Err(WolError::InvalidMacFormat),
    }
}

} // verus!
