//! Texts made of a fixed number of byte-sized numbers with a separator
//! between them: dotted-quad addresses and colon-separated hardware
//! addresses.

use crate::text::{
    digit_of, digit_of_char, join, lemma_number_is_free_of, lemma_split_join, next_field,
    parse_number, parse_unsigned, split_on,
};
use vstd::prelude::*;

verus! {

/// Why a text is not a list of numeric fields.
#[derive(Clone, Copy, Debug, PartialEq, Eq, Structural)]
pub enum FieldsError {
    /// The text does not have the required number of fields.
    WrongCount,
    /// A field is not a number that fits a byte.
    BadField,
}

/// How a field writes its byte.
#[derive(Clone, Copy, Debug, PartialEq, Eq, Structural)]
pub enum FieldKind {
    /// As a decimal number: an optional plus sign, then one or more digits,
    /// with a value of at most 255.
    Decimal,
    /// As exactly two hexadecimal digits of either case.
    HexPair,
}

/// The byte that `field` writes, if it writes one.
pub open spec fn byte_field(field: Seq<char>, kind: FieldKind) -> Option<nat> {
    match kind {
        FieldKind::Decimal => parse_unsigned(field, 10, 255),
        FieldKind::HexPair => if field.len() == 2 && digit_of(field[0], 16) is Some && digit_of(
            field[1],
            16,
        ) is Some {
            Some(digit_of(field[0], 16).unwrap() * 16 + digit_of(field[1], 16).unwrap())
        } else {
            None
        },
    }
}

/// Whether `c` can stand in a field of the given kind.
pub open spec fn field_char(c: char, kind: FieldKind) -> bool {
    match kind {
        FieldKind::Decimal => c == '+' || digit_of(c, 10) is Some,
        FieldKind::HexPair => digit_of(c, 16) is Some,
    }
}

/// Reads one field.
pub fn read_byte_field(field: &[char], kind: FieldKind) -> (r: Option<u8>)
    ensures
        r matches Some(byte) ==> byte_field(field@, kind) == Some(byte as nat),
        r is None ==> byte_field(field@, kind) is None,
{
    match kind {
        FieldKind::Decimal => match parse_number(field, 10, 255) {
            Some(value) => Some(value as u8),
            None => None,
        },
        FieldKind::HexPair => {
            if field.len() != 2 {
                return None;
            }
            match (digit_of_char(field[0], 16), digit_of_char(field[1], 16)) {
                (Some(high), Some(low)) => Some((high * 16 + low) as u8),
                _ => None,
            }
        },
    }
}

/// One of the first `count` fields is present and does not write a byte.
pub open spec fn has_bad_field(fields: Seq<Seq<char>>, count: nat, kind: FieldKind) -> bool {
    exists|i: int|
        0 <= i < fields.len() && i < count && (#[trigger] byte_field(fields[i], kind)) is None
}

/// The bytes written by a text of exactly `count` fields separated by `sep`.
///
/// The fields are read from left to right and the first failure decides: a
/// field that writes no byte is reported where it stands among the first
/// `count` fields, a wrong number of fields otherwise.
pub open spec fn parse_byte_fields(
    text: Seq<char>,
    sep: char,
    count: nat,
    kind: FieldKind,
) -> Result<Seq<u8>, FieldsError> {
    let fields = split_on(text, seq![sep]);
    if has_bad_field(fields, count, kind) {
        Err(FieldsError::BadField)
    } else if fields.len() != count {
        Err(FieldsError::WrongCount)
    } else {
        Ok(Seq::new(count, |i: int| byte_field(fields[i], kind).unwrap() as u8))
    }
}

/// No character of a field that writes a byte is foreign to its kind.
pub proof fn lemma_field_chars(field: Seq<char>, kind: FieldKind)
    requires
        byte_field(field, kind) is Some,
    ensures
        forall|i: int| 0 <= i < field.len() ==> field_char(#[trigger] field[i], kind),
{
    match kind {
        FieldKind::Decimal => {
            assert forall|i: int| 0 <= i < field.len() implies field_char(
                #[trigger] field[i],
                kind,
            ) by {
                let c = field[i];
                if c != '+' && digit_of(c, 10) is None {
                    lemma_number_is_free_of(field, 10, 255, c);
                }
            }
        },
        FieldKind::HexPair => {},
    }
}

/// Fields that each write a byte, joined with a separator that cannot stand
/// in a field, are read back as these bytes if their number is the one asked
/// for, and refused for their number if it is not.
pub proof fn parse_joined_fields(
    fields: Seq<Seq<char>>,
    bytes: Seq<u8>,
    sep: char,
    count: nat,
    kind: FieldKind,
)
    requires
        fields.len() > 0,
        fields.len() == bytes.len(),
        forall|i: int|
            0 <= i < fields.len() ==> (#[trigger] byte_field(fields[i], kind)) == Some(
                bytes[i] as nat,
            ),
        !field_char(sep, kind),
    ensures
        fields.len() == count ==> parse_byte_fields(join(fields, seq![sep]), sep, count, kind)
            == Ok::<Seq<u8>, FieldsError>(bytes),
        fields.len() != count ==> parse_byte_fields(join(fields, seq![sep]), sep, count, kind)
            == Err::<Seq<u8>, FieldsError>(FieldsError::WrongCount),
{
    assert forall|k: int, i: int| 0 <= k < fields.len() && 0 <= i < fields[k].len() implies (
    #[trigger] fields[k][i]) != sep by {
        lemma_field_chars(fields[k], kind);
    }
    lemma_split_join(fields, sep);
    if fields.len() == count {
        assert(Seq::new(count, |i: int| byte_field(fields[i], kind).unwrap() as u8) =~= bytes);
    }
}

/// Reads `text` as `count` byte-sized numbers separated by `sep`.
pub fn read_byte_fields(text: &[char], sep: char, count: usize, kind: FieldKind) -> (r: Result<
    Vec<u8>,
    FieldsError,
>)
    ensures
        match r {
            Ok(bytes) => parse_byte_fields(text@, sep, count as nat, kind) == Ok::<
                Seq<u8>,
                FieldsError,
            >(bytes@),
            Err(e) => parse_byte_fields(text@, sep, count as nat, kind) == Err::<
                Seq<u8>,
                FieldsError,
            >(e),
        },
{
    let mut pat: Vec<char> = Vec::new();
    pat.push(sep);
    let ghost fields = split_on(text@, pat@);
    let mut bytes: Vec<u8> = Vec::new();
    let mut rest: Option<&[char]> = Some(text);
    let mut i: usize = 0;
    while i < count
        invariant
            i <= count,
            pat@ == seq![sep],
            fields == split_on(text@, pat@),
            bytes@.len() == i,
            i <= fields.len(),
            match rest {
                Some(r) => fields.skip(i as int) == split_on(r@, pat@),
                None => fields.len() == i,
            },
            forall|j: int|
                0 <= j < i ==> (#[trigger] byte_field(fields[j], kind)) == Some(
                    bytes@[j] as nat,
                ),
        decreases count - i,
    {
        match rest {
            None => {
                return Err(FieldsError::WrongCount);
            },
            Some(r) => {
                let (field, next) = next_field(r, pat.as_slice());
                assert(fields[i as int] == fields.skip(i as int)[0]);
                assert(fields.skip(i + 1) =~= fields.skip(i as int).skip(1));
                match read_byte_field(field, kind) {
                    None => {
                        return Err(FieldsError::BadField);
                    },
                    Some(byte) => {
                        bytes.push(byte);
                    },
                }
                rest = next;
            },
        }
        i += 1;
    }
    match rest {
        Some(_) => Err(FieldsError::WrongCount),
        None => {
            assert(bytes@ =~= Seq::new(
                count as nat,
                |i: int| byte_field(fields[i], kind).unwrap() as u8,
            ));
            Ok(bytes)
        },
    }
}

} // verus!
