//! Dotted-quad IPv4 literals.

use crate::fields::{
    byte_field, parse_byte_fields, parse_joined_fields, read_byte_fields, FieldKind, FieldsError,
};
use crate::text::{decimal_text, decimal_text_is_read, join};
use crate::text::to_chars;
use vstd::prelude::*;

verus! {

/// An IPv4 address: four bytes in network order.
#[derive(Clone, Copy, Debug, PartialEq, Eq)]
pub struct Ipv4Address {
    pub octets: [u8; 4],
}

impl View for Ipv4Address {
    type V = Seq<u8>;

    open spec fn view(&self) -> Seq<u8> {
        self.octets@
    }
}

/// An IPv4 address and a port.
#[derive(Clone, Copy, Debug, PartialEq, Eq)]
pub struct Endpoint {
    pub addr: Ipv4Address,
    pub port: u16,
}

/// Why a text is not an IPv4 address.
#[derive(Clone, Copy, Debug, PartialEq, Eq, Structural)]
pub enum IpParseError {
    /// The text does not have exactly four parts.
    InvalidSize,
    /// A part is not a decimal number from 0 to 255.
    InvalidFormat,
}

/// The four bytes that a dotted-quad text writes.
///
/// The text is cut at each `'.'` into parts, and each part is read as a decimal
/// number: an optional plus sign, then digits, with a value of at most 255.
/// Reading goes from left to right and stops at the first failure: a part
/// that is no such number gives `InvalidFormat`, a missing or a fifth part
/// gives `InvalidSize`.
pub open spec fn parse_ipv4(text: Seq<char>) -> Result<Seq<u8>, IpParseError> {
    match parse_byte_fields(text, '.', 4, FieldKind::Decimal) {
        Ok(octets) => Ok(octets),
        Err(FieldsError::WrongCount) => Err(IpParseError::InvalidSize),
        Err(FieldsError::BadField) => Err(IpParseError::InvalidFormat),
    }
}

/// Four decimal numbers from 0 to 255 with dots between them are read as
/// the address of exactly these four bytes.
pub proof fn parse_ipv4_reads_every_quad(parts: Seq<Seq<char>>, octets: Seq<u8>)
    requires
        parts.len() == 4,
        octets.len() == 4,
        forall|i: int|
            0 <= i < 4 ==> (#[trigger] byte_field(parts[i], FieldKind::Decimal)) == Some(octets[i] as nat),
    ensures
        parse_ipv4(join(parts, seq!['.'])) == Ok::<Seq<u8>, IpParseError>(octets),
{
    parse_joined_fields(parts, octets, '.', 4, FieldKind::Decimal);
}

/// The dotted-quad text of four bytes: their decimal numerals with dots
/// between them.
pub open spec fn dotted_quad(a: u8, b: u8, c: u8, d: u8) -> Seq<char> {
    join(
        seq![
            decimal_text(a as nat),
            decimal_text(b as nat),
            decimal_text(c as nat),
            decimal_text(d as nat),
        ],
        seq!['.'],
    )
}

/// The dotted-quad text of any four bytes is read as exactly these bytes.
pub proof fn parse_ipv4_reads_dotted_quad(a: u8, b: u8, c: u8, d: u8)
    ensures
        parse_ipv4(dotted_quad(a, b, c, d)) == Ok::<Seq<u8>, IpParseError>(seq![a, b, c, d]),
{
    decimal_text_is_read(a as nat, 255);
    decimal_text_is_read(b as nat, 255);
    decimal_text_is_read(c as nat, 255);
    decimal_text_is_read(d as nat, 255);
    let parts = seq![
        decimal_text(a as nat),
        decimal_text(b as nat),
        decimal_text(c as nat),
        decimal_text(d as nat),
    ];
    parse_ipv4_reads_every_quad(parts, seq![a, b, c, d]);
}

/// Decimal numbers from 0 to 255 with dots between them are refused for
/// their number if there are not four of them.
pub proof fn parse_ipv4_wants_four_parts(parts: Seq<Seq<char>>, octets: Seq<u8>)
    requires
        parts.len() > 0,
        parts.len() != 4,
        parts.len() == octets.len(),
        forall|i: int|
            0 <= i < parts.len() ==> (#[trigger] byte_field(parts[i], FieldKind::Decimal)) == Some(
                octets[i] as nat,
            ),
    ensures
        parse_ipv4(join(parts, seq!['.'])) == Err::<Seq<u8>, IpParseError>(
            IpParseError::InvalidSize,
        ),
{
    parse_joined_fields(parts, octets, '.', 4, FieldKind::Decimal);
}

impl Ipv4Address {
    /// The address with the given bytes.
    pub fn new(a: u8, b: u8, c: u8, d: u8) -> (ip: Ipv4Address)
        ensures
            ip@ == seq![a, b, c, d],
    {
        let ip = Ipv4Address { octets: [a, b, c, d] };
        ip
    }

    /// The limited broadcast address, `255.255.255.255`.
    pub fn broadcast() -> (ip: Ipv4Address)
        ensures
            ip@ == seq![255u8, 255u8, 255u8, 255u8],
    {
        Ipv4Address::new(255, 255, 255, 255)
    }

    /// Whether both addresses have the same bytes.
    pub fn same(&self, other: &Ipv4Address) -> (r: bool)
        ensures
            r == (self@ == other@),
    {
        let r = self.octets[0] == other.octets[0] && self.octets[1] == other.octets[1]
            && self.octets[2] == other.octets[2] && self.octets[3] == other.octets[3];
        assert(r ==> self@ =~= other@);
        r
    }
}

/// Reads the characters of a dotted-quad text.
pub fn parse_ip_chars(text: &[char]) -> (r: Result<Ipv4Address, IpParseError>)
    ensures
        match r {
            Ok(ip) => parse_ipv4(text@) == Ok::<Seq<u8>, IpParseError>(ip@),
            Err(e) => parse_ipv4(text@) == Err::<Seq<u8>, IpParseError>(e),
        },
{
    match read_byte_fields(text, '.', 4, FieldKind::Decimal) {
        Ok(bytes) => {
            let ip = Ipv4Address { octets: [bytes[0], bytes[1], bytes[2], bytes[3]] };
            assert(ip@ =~= bytes@);
            Ok(ip)
        },
        Err(FieldsError::WrongCount) => Err(IpParseError::InvalidSize),
        Err(FieldsError::BadField) => Err(IpParseError::InvalidFormat),
    }
}

/// Reads a dotted-quad text such as `"192.168.0.11"`.
pub fn parse_ip_address(ip_str: &str) -> (r: Result<Ipv4Address, IpParseError>)
    ensures
        match r {
            Ok(ip) => parse_ipv4(ip_str@) == Ok::<Seq<u8>, IpParseError>(ip@),
            Err(e) => parse_ipv4(ip_str@) == Err::<Seq<u8>, IpParseError>(e),
        },
{
    let chars = to_chars(ip_str);
    parse_ip_chars(chars.as_slice())
}

} // verus!
