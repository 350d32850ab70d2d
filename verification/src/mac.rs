//! Hardware addresses as text: the colon-separated form and the escaped form
//! in which a query string carries it.

use crate::text::{
    contains_pattern, find, join, lemma_find_from, lemma_join_first, matches_at, next_field,
    split_on, to_chars,
};
use vstd::prelude::*;
use vstd::string::StrSliceExecFns;
use vstd::utf8::encode_utf8;

verus! {

/// 12 bytes for the digits and 5 bytes for the colons.
pub const MAC_LEN: usize = 17;

/// The escaped colon of a query string.
pub const ESCAPED_COLON: &'static str = "%3A";

/// `heapless::String`: a text in a buffer of `N` bytes.
#[verifier::external_type_specification]
#[verifier::external_body]
pub struct ExHeaplessString<const N: usize>(heapless::String<N>);

/// The text that a hardware-address buffer holds.
pub uninterp spec fn mac_text(buffer: heapless::String<MAC_LEN>) -> Seq<char>;

/// The number of bytes that `text` takes in UTF-8.
pub open spec fn utf8_len(text: Seq<char>) -> nat {
    encode_utf8(text).len()
}

/// `heapless::String::new`: the buffer starts out empty.
#[verifier::external_body]
fn mac_buffer_new() -> (buffer: heapless::String<MAC_LEN>)
    ensures
        mac_text(buffer) == Seq::<char>::empty(),
{
    heapless::String::new()
}

/// `heapless::String::push_str`: the text is appended if the buffer has room
/// for all of its bytes; otherwise the call fails and the buffer keeps what
/// it held.
#[verifier::external_body]
fn mac_buffer_push_str(buffer: &mut heapless::String<MAC_LEN>, part: &str) -> (r: Result<(), ()>)
    ensures
        r is Ok <==> utf8_len(mac_text(*old(buffer))) + utf8_len(part@) <= MAC_LEN,
        r is Ok ==> mac_text(*final(buffer)) == mac_text(*old(buffer)) + part@,
        r is Err ==> mac_text(*final(buffer)) == mac_text(*old(buffer)),
{
    buffer.push_str(part)
}

/// `heapless::String::push`: the character is appended if the buffer has room
/// for its bytes; otherwise the call fails and the buffer keeps what it held.
#[verifier::external_body]
fn mac_buffer_push(buffer: &mut heapless::String<MAC_LEN>, c: char) -> (r: Result<(), ()>)
    ensures
        r is Ok <==> utf8_len(mac_text(*old(buffer))) + utf8_len(seq![c]) <= MAC_LEN,
        r is Ok ==> mac_text(*final(buffer)) == mac_text(*old(buffer)).push(c),
        r is Err ==> mac_text(*final(buffer)) == mac_text(*old(buffer)),
{
    buffer.push(c)
}

/// `heapless::String::as_str`: the text that the buffer holds.
#[verifier::external_body]
pub(crate) fn mac_as_str(buffer: &heapless::String<MAC_LEN>) -> (text: &str)
    ensures
        text@ == mac_text(*buffer),
{
    buffer.as_str()
}

/// The colon-separated form of a hardware address: the text cut at each
/// escaped colon, the parts joined again with `':'`. A text without an
/// escaped colon is its own colon-separated form.
pub open spec fn normalized_mac(text: Seq<char>) -> Seq<char> {
    join(split_on(text, ESCAPED_COLON@), seq![':'])
}

/// The UTF-8 length of a text is the sum of the lengths of its pieces.
pub proof fn lemma_utf8_len_concat(a: Seq<char>, b: Seq<char>)
    ensures
        utf8_len(a + b) == utf8_len(a) + utf8_len(b),
    decreases a.len(),
{
    if a.len() > 0 {
        assert((a + b).drop_first() =~= a.drop_first() + b);
        lemma_utf8_len_concat(a.drop_first(), b);
    }
}

/// How the colon-separated form unfolds at the first escaped colon.
pub proof fn lemma_normalized_mac_unfold(text: Seq<char>)
    ensures
        !contains_pattern(text, ESCAPED_COLON@) ==> normalized_mac(text) == text,
        contains_pattern(text, ESCAPED_COLON@) ==> normalized_mac(text) == text.take(
            find(text, ESCAPED_COLON@),
        ) + seq![':'] + normalized_mac(
            text.skip(find(text, ESCAPED_COLON@) + ESCAPED_COLON@.len()),
        ),
{
    reveal_strlit("%3A");
    let pat = ESCAPED_COLON@;
    if contains_pattern(text, pat) {
        let i = find(text, pat);
        let rest = text.skip(i + pat.len());
        lemma_join_first(text.take(i), split_on(rest, pat), seq![':']);
    }
}

/// `text` holds no escaped colon at any position.
pub open spec fn free_of_escaped_colon(text: Seq<char>) -> bool {
    forall|i: int| !matches_at(text, ESCAPED_COLON@, i)
}

/// A text without an escaped colon is its own colon-separated form.
pub proof fn colon_form_is_kept(text: Seq<char>)
    requires
        !contains_pattern(text, ESCAPED_COLON@),
    ensures
        normalized_mac(text) == text,
{
    lemma_normalized_mac_unfold(text);
}

/// The colon-separated form holds no escaped colon.
pub proof fn colon_form_is_free_of_escapes(text: Seq<char>)
    ensures
        free_of_escaped_colon(normalized_mac(text)),
        !contains_pattern(normalized_mac(text), ESCAPED_COLON@),
    decreases text.len(),
{
    reveal_strlit("%3A");
    let pat = ESCAPED_COLON@;
    lemma_normalized_mac_unfold(text);
    lemma_find_from(text, pat, 0);
    let i = find(text, pat);
    let head = text.take(i);
    assert forall|j: int| !matches_at(head, pat, j) by {
        if matches_at(head, pat, j) {
            assert(head.subrange(j, j + 3) =~= text.subrange(j, j + 3));
            assert(matches_at(text, pat, j));
        }
    }
    if contains_pattern(text, pat) {
        let rest = text.skip(i + 3);
        colon_form_is_free_of_escapes(rest);
        let tail = normalized_mac(rest);
        let whole = head + seq![':'] + tail;
        assert forall|j: int| !matches_at(whole, pat, j) by {
            if matches_at(whole, pat, j) {
                let hit = whole.subrange(j, j + 3);
                assert(hit[0] == whole[j] && hit[1] == whole[j + 1] && hit[2] == whole[j + 2]);
                if j + 3 <= head.len() {
                    assert(head.subrange(j, j + 3) =~= hit);
                    assert(matches_at(head, pat, j));
                } else if j > head.len() {
                    let k = j - head.len() - 1;
                    assert(tail.subrange(k, k + 3) =~= hit);
                    assert(matches_at(tail, pat, k));
                }
            }
        }
    }
    let form = normalized_mac(text);
    lemma_find_from(form, pat, 0);
}

/// Converting a second time changes nothing: the colon-separated form is
/// its own colon-separated form.
pub proof fn colon_form_is_final(text: Seq<char>)
    ensures
        normalized_mac(normalized_mac(text)) == normalized_mac(text),
{
    colon_form_is_free_of_escapes(text);
    colon_form_is_kept(normalized_mac(text));
}

/// Turns a hardware address as a query string carries it into the
/// colon-separated form, e.g. `"00%3A11%3A22%3A33%3A44%3A55"` into
/// `"00:11:22:33:44:55"`. Fails if that form does not fit 17 bytes.
pub fn convert_mac_address(addr: &str) -> (r: Result<heapless::String<MAC_LEN>, ()>)
    ensures
        r is Ok <==> utf8_len(normalized_mac(addr@)) <= MAC_LEN,
        r matches Ok(mac) ==> mac_text(mac) == normalized_mac(addr@),
{
    let chars = to_chars(addr);
    let pat = to_chars(ESCAPED_COLON);
    proof {
        reveal_strlit("%3A");
    }
    let mut buffer = mac_buffer_new();
    let mut rest: &[char] = chars.as_slice();
    let mut pos: usize = 0;
    loop
        invariant
            chars@ == addr@,
            pat@ == ESCAPED_COLON@,
            pat@.len() == 3,
            pos <= chars@.len() <= usize::MAX,
            rest@ == chars@.skip(pos as int),
            utf8_len(mac_text(buffer)) <= MAC_LEN,
            normalized_mac(addr@) == mac_text(buffer) + normalized_mac(rest@),
        decreases rest@.len(),
    {
        let ghost held = mac_text(buffer);
        let (field, next) = next_field(rest, pat.as_slice());
        proof {
            lemma_find_from(rest@, pat@, 0);
            lemma_normalized_mac_unfold(rest@);
        }
        let part = addr.substring_char(pos, pos + field.len());
        assert(part@ =~= field@);
        match mac_buffer_push_str(&mut buffer, part) {
            Ok(()) => {
                proof {
                    lemma_utf8_len_concat(held, part@);
                }
            },
            Err(()) => {
                proof {
                    let tail = normalized_mac(rest@).skip(field@.len() as int);
                    assert(normalized_mac(addr@) =~= (held + field@) + tail);
                    lemma_utf8_len_concat(held + field@, tail);
                    lemma_utf8_len_concat(held, field@);
                }
                return Err(());
            },
        }
        match next {
            None => {
                return Ok(buffer);
            },
            Some(after) => {
                let ghost joined = held + field@;
                match mac_buffer_push(&mut buffer, ':') {
                    Ok(()) => {
                        proof {
                            lemma_utf8_len_concat(joined, seq![':']);
                            assert(joined.push(':') =~= joined + seq![':']);
                            assert(normalized_mac(addr@) =~= joined.push(':') + normalized_mac(
                                after@,
                            ));
                        }
                    },
                    Err(()) => {
                        proof {
                            let tail = normalized_mac(after@);
                            assert(normalized_mac(addr@) =~= (joined + seq![':']) + tail);
                            lemma_utf8_len_concat(joined + seq![':'], tail);
                            lemma_utf8_len_concat(joined, seq![':']);
                        }
                        return Err(());
                    },
                }
                pos = pos + field.len() + pat.len();
                rest = after;
            },
        }
    }
}

} // verus!
