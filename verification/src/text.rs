//! Text primitives shared by every parser of the appliance.
//!
//! All specifications are stated over `Seq<char>`, the view of `&str`. The
//! executable functions work on a `&[char]` obtained once from the text.

use vstd::prelude::*;
use vstd::slice::slice_subrange;
use vstd::string::StringSliceAdditionalSpecFns;
use vstd::utf8::{decode_utf8, encode_utf8_decode_utf8, valid_utf8};

verus! {

/// The characters of `s`, in order.
pub fn to_chars(s: &str) -> (chars: Vec<char>)
    ensures
        chars@ == s@,
        chars@.len() <= usize::MAX,
{
    let mut chars: Vec<char> = Vec::new();
    for c in it: s.chars()
        invariant
            it.seq() == s@,
            chars@ == it.seq().take(it.index() as int),
    {
        chars.push(c);
    }
    assert(chars@.len() == chars.len());
    chars
}

/// `core::str::from_utf8`: the bytes as text if they are valid UTF-8, and
/// nothing otherwise. The text has exactly these bytes.
#[verifier::external_body]
fn str_from_utf8<'a>(bytes: &'a [u8]) -> (r: Option<&'a str>)
    ensures
        r is Some <==> valid_utf8(bytes@),
        r matches Some(text) ==> text.spec_bytes() == bytes@,
{
    core::str::from_utf8(bytes).ok()
}

/// Reads `bytes` as UTF-8 text. Bytes that are not valid UTF-8 give `None`.
pub fn decode_text<'a>(bytes: &'a [u8]) -> (r: Option<&'a str>)
    ensures
        r is Some <==> valid_utf8(bytes@),
        r matches Some(text) ==> text@ == decode_utf8(bytes@),
{
    let r = str_from_utf8(bytes);
    proof {
        if let Some(text) = r {
            encode_utf8_decode_utf8(text@);
        }
    }
    r
}

/// `pat` occurs in `s` at position `i`.
pub open spec fn matches_at(s: Seq<char>, pat: Seq<char>, i: int) -> bool {
    &&& 0 <= i
    &&& i + pat.len() <= s.len()
    &&& s.subrange(i, i + pat.len()) == pat
}

/// The least position at or after `from` where `pat` occurs in `s`, or
/// `s.len()` if there is none.
pub open spec fn find_from(s: Seq<char>, pat: Seq<char>, from: int) -> int
    decreases s.len() - from,
{
    if from >= s.len() {
        s.len() as int
    } else if matches_at(s, pat, from) {
        from
    } else {
        find_from(s, pat, from + 1)
    }
}

/// The position of the first occurrence of `pat` in `s`, or `s.len()`.
pub open spec fn find(s: Seq<char>, pat: Seq<char>) -> int {
    find_from(s, pat, 0)
}

/// `pat` occurs somewhere in `s`.
pub open spec fn contains_pattern(s: Seq<char>, pat: Seq<char>) -> bool {
    find(s, pat) < s.len()
}

/// What `find_from` returns is the first match: no earlier position matches.
pub proof fn lemma_find_from(s: Seq<char>, pat: Seq<char>, from: int)
    requires
        0 <= from,
    ensures
        from <= find_from(s, pat, from) || find_from(s, pat, from) == s.len(),
        find_from(s, pat, from) <= s.len() || from > s.len(),
        find_from(s, pat, from) < s.len() ==> matches_at(s, pat, find_from(s, pat, from)),
        forall|j: int| from <= j < find_from(s, pat, from) ==> !matches_at(s, pat, j),
    decreases s.len() - from,
{
    if from < s.len() && !matches_at(s, pat, from) {
        lemma_find_from(s, pat, from + 1);
    }
}

/// A pattern does not occur where its first character does not.
pub proof fn lemma_find_absent(s: Seq<char>, pat: Seq<char>, from: int)
    requires
        pat.len() > 0,
        0 <= from <= s.len(),
        forall|i: int| from <= i < s.len() ==> s[i] != pat[0],
    ensures
        find_from(s, pat, from) == s.len(),
    decreases s.len() - from,
{
    if from < s.len() {
        if matches_at(s, pat, from) {
            assert(s.subrange(from, from + pat.len())[0] == s[from]);
        }
        lemma_find_absent(s, pat, from + 1);
    }
}

/// Whether `pat` occurs in `s` at position `i`.
pub fn has_pattern_at(s: &[char], pat: &[char], i: usize) -> (r: bool)
    requires
        i <= s@.len(),
    ensures
        r == matches_at(s@, pat@, i as int),
{
    if pat.len() > s.len() - i {
        return false;
    }
    let mut k: usize = 0;
    while k < pat.len()
        invariant
            k <= pat@.len(),
            i + pat@.len() <= s@.len() <= usize::MAX,
            forall|j: int| 0 <= j < k ==> s@[i + j] == pat@[j],
        decreases pat@.len() - k,
    {
        if s[i + k] != pat[k] {
            return false;
        }
        k += 1;
    }
    assert(s@.subrange(i as int, i + pat@.len()) =~= pat@);
    true
}

/// The position of the first occurrence of `pat` in `s`, or `s.len()`.
pub fn find_pattern(s: &[char], pat: &[char]) -> (i: usize)
    ensures
        i == find(s@, pat@),
        i <= s@.len(),
{
    let mut i: usize = 0;
    while i < s.len()
        invariant
            i <= s@.len(),
            find(s@, pat@) == find_from(s@, pat@, i as int),
        decreases s@.len() - i,
    {
        if has_pattern_at(s, pat, i) {
            return i;
        }
        i += 1;
    }
    i
}

/// What stands in `s` before the first occurrence of `pat`: all of `s` if
/// there is none.
pub open spec fn before_first(s: Seq<char>, pat: Seq<char>) -> Seq<char> {
    s.take(find(s, pat))
}

/// What stands in `s` behind the first occurrence of `pat`: nothing if
/// there is none.
pub open spec fn after_first(s: Seq<char>, pat: Seq<char>) -> Seq<char> {
    if contains_pattern(s, pat) {
        s.skip(find(s, pat) + pat.len())
    } else {
        Seq::empty()
    }
}

/// The fields of `s` that lie between the occurrences of `pat`, found from
/// left to right without overlap. There is always at least one field; a text
/// without `pat` is its own single field.
pub open spec fn split_on(s: Seq<char>, pat: Seq<char>) -> Seq<Seq<char>>
    decreases s.len(),
{
    let i = find(s, pat);
    if pat.len() == 0 || i >= s.len() {
        seq![s]
    } else {
        proof {
            lemma_find_from(s, pat, 0);
        }
        seq![s.take(i)] + split_on(s.skip(i + pat.len()), pat)
    }
}

/// The texts of `parts` with `sep` between each two neighbours.
pub open spec fn join(parts: Seq<Seq<char>>, sep: Seq<char>) -> Seq<char>
    decreases parts.len(),
{
    if parts.len() == 0 {
        Seq::empty()
    } else if parts.len() == 1 {
        parts[0]
    } else {
        join(parts.drop_last(), sep) + sep + parts.last()
    }
}

/// A text that starts with a part free of `c`, followed by `c`, has this
/// part as its first field; a text free of `c` is its own single field.
pub proof fn lemma_split_first(head: Seq<char>, c: char, tail: Seq<char>)
    requires
        forall|i: int| 0 <= i < head.len() ==> head[i] != c,
    ensures
        split_on(head, seq![c]) == seq![head],
        split_on(head + seq![c] + tail, seq![c]) == seq![head] + split_on(tail, seq![c]),
{
    let pat = seq![c];
    lemma_find_absent(head, pat, 0);
    let s = head + pat + tail;
    let at = head.len() as int;
    assert(s.subrange(at, at + 1) =~= pat);
    assert(matches_at(s, pat, at));
    lemma_find_from(s, pat, 0);
    if find(s, pat) < at {
        let j = find(s, pat);
        assert(s.subrange(j, j + 1)[0] == s[j]);
    }
    assert(s.take(at) =~= head);
    assert(s.skip(at + 1) =~= tail);
}

/// Cutting a text that was joined from parts free of `c`, with `c` between
/// them, gives the parts back.
pub proof fn lemma_split_join(parts: Seq<Seq<char>>, c: char)
    requires
        parts.len() > 0,
        forall|k: int, i: int|
            0 <= k < parts.len() && 0 <= i < parts[k].len() ==> (#[trigger] parts[k][i]) != c,
    ensures
        split_on(join(parts, seq![c]), seq![c]) == parts,
    decreases parts.len(),
{
    let sep = seq![c];
    if parts.len() == 1 {
        lemma_split_first(parts[0], c, Seq::empty());
    } else {
        let head = parts[0];
        let tail = parts.drop_first();
        assert(parts =~= seq![head] + tail);
        assert forall|k: int, i: int|
            0 <= k < tail.len() && 0 <= i < tail[k].len() implies (#[trigger] tail[k][i]) != c by {
            assert(tail[k][i] == parts[k + 1][i]);
        }
        lemma_split_join(tail, c);
        lemma_join_first(head, tail, sep);
        lemma_split_first(head, c, join(tail, sep));
    }
}

/// Joining a list of parts that starts with `head` puts `head` and a
/// separator in front of the rest joined.
pub proof fn lemma_join_first(head: Seq<char>, tail: Seq<Seq<char>>, sep: Seq<char>)
    requires
        tail.len() > 0,
    ensures
        join(seq![head] + tail, sep) == head + sep + join(tail, sep),
    decreases tail.len(),
{
    let all = seq![head] + tail;
    if tail.len() == 1 {
        assert(join(all.drop_last(), sep) == head);
    } else {
        assert(all.drop_last() =~= seq![head] + tail.drop_last());
        lemma_join_first(head, tail.drop_last(), sep);
        assert(head + sep + join(tail.drop_last(), sep) + sep + tail.last() =~= head + sep + (join(
            tail.drop_last(),
            sep,
        ) + sep + tail.last()));
    }
}

/// A text that writes a number holds no character that is neither a digit
/// nor the plus sign.
pub proof fn lemma_number_is_free_of(s: Seq<char>, radix: nat, max: nat, c: char)
    requires
        parse_unsigned(s, radix, max) is Some,
        digit_of(c, radix) is None,
        c != '+',
    ensures
        forall|i: int| 0 <= i < s.len() ==> s[i] != c,
{
    let digits = without_plus(s);
    assert forall|i: int| 0 <= i < s.len() implies s[i] != c by {
        if s[0] == '+' {
            if i > 0 {
                assert(digit_of(digits[i - 1], radix) is Some);
            }
        } else {
            assert(digit_of(digits[i], radix) is Some);
        }
    }
}

/// Splits the first field off `s`: the field, and what follows the separator
/// behind it if there is one.
pub fn next_field<'a>(s: &'a [char], pat: &[char]) -> (r: (&'a [char], Option<&'a [char]>))
    requires
        pat@.len() > 0,
    ensures
        r.0@ == s@.take(find(s@, pat@)),
        r.1 is Some <==> contains_pattern(s@, pat@),
        r.1 matches Some(rest) ==> rest@ == s@.skip(find(s@, pat@) + pat@.len()),
        match r.1 {
            Some(rest) => split_on(s@, pat@) == seq![r.0@] + split_on(rest@, pat@),
            None => split_on(s@, pat@) == seq![r.0@],
        },
{
    let i = find_pattern(s, pat);
    proof {
        lemma_find_from(s@, pat@, 0);
    }
    if i < s.len() {
        let field = slice_subrange(s, 0, i);
        let rest = slice_subrange(s, i + pat.len(), s.len());
        (field, Some(rest))
    } else {
        (s, None)
    }
}

/// The value of `c` as a digit of the given radix: `0`-`9`, then the letters
/// of either case from ten on.
pub open spec fn digit_of(c: char, radix: nat) -> Option<nat> {
    let v: int = if '0' <= c <= '9' {
        c as int - '0' as int
    } else if 'a' <= c <= 'z' {
        c as int - 'a' as int + 10
    } else if 'A' <= c <= 'Z' {
        c as int - 'A' as int + 10
    } else {
        radix as int
    };
    if v < radix {
        Some(v as nat)
    } else {
        None
    }
}

/// Every character of `s` is a digit of the given radix.
pub open spec fn all_digits(s: Seq<char>, radix: nat) -> bool {
    forall|i: int| 0 <= i < s.len() ==> (#[trigger] digit_of(s[i], radix)) is Some
}

/// The number that the digits of `s` write in the given radix.
pub open spec fn digits_value(s: Seq<char>, radix: nat) -> nat
    decreases s.len(),
{
    if s.len() == 0 {
        0
    } else {
        digits_value(s.drop_last(), radix) * radix + digit_of(s.last(), radix).unwrap_or(0)
    }
}

/// `s` without one leading plus sign.
pub open spec fn without_plus(s: Seq<char>) -> Seq<char> {
    if s.len() > 0 && s[0] == '+' {
        s.drop_first()
    } else {
        s
    }
}

/// The unsigned number that `s` writes: an optional plus sign, then one or
/// more digits and nothing else, with a value of at most `max`.
pub open spec fn parse_unsigned(s: Seq<char>, radix: nat, max: nat) -> Option<nat> {
    let digits = without_plus(s);
    if digits.len() > 0 && all_digits(digits, radix) && digits_value(digits, radix) <= max {
        Some(digits_value(digits, radix))
    } else {
        None
    }
}

/// A prefix of a digit string never writes a larger number than the whole.
pub proof fn lemma_digits_value_prefix(s: Seq<char>, radix: nat, k: int)
    requires
        0 <= k <= s.len(),
        radix >= 1,
    ensures
        digits_value(s.take(k), radix) <= digits_value(s, radix),
    decreases s.len() - k,
{
    if k == s.len() {
        assert(s.take(k) =~= s);
    } else {
        lemma_digits_value_prefix(s.drop_last(), radix, k);
        assert(s.drop_last().take(k) =~= s.take(k));
        assert(digits_value(s.drop_last(), radix) <= digits_value(s.drop_last(), radix) * radix)
            by (nonlinear_arith)
            requires
                radix >= 1,
        ;
    }
}

/// The character that writes the digit `d`: `0`-`9`, then `a`-`z`.
pub open spec fn digit_char(d: nat) -> char {
    if d < 10 {
        ((48 + d) as u8) as char
    } else {
        ((87 + d) as u8) as char
    }
}

/// The decimal numeral of `n`, without leading zeros.
pub open spec fn decimal_text(n: nat) -> Seq<char>
    decreases n,
{
    if n < 10 {
        seq![digit_char(n)]
    } else {
        decimal_text(n / 10).push(digit_char(n % 10))
    }
}

/// The decimal numeral of a number is read back as that number.
pub proof fn decimal_text_is_read(n: nat, max: nat)
    requires
        n <= max,
    ensures
        parse_unsigned(decimal_text(n), 10, max) == Some(n),
    decreases n,
{
    lemma_decimal_text(n);
}

/// The decimal numeral of `n` is made of digits only and writes `n`.
proof fn lemma_decimal_text(n: nat)
    ensures
        decimal_text(n).len() > 0,
        decimal_text(n)[0] != '+',
        all_digits(decimal_text(n), 10),
        digits_value(decimal_text(n), 10) == n,
    decreases n,
{
    let text = decimal_text(n);
    if n < 10 {
        assert(digits_value(text.drop_last(), 10) == 0);
    } else {
        let front = decimal_text(n / 10);
        lemma_decimal_text(n / 10);
        assert(text.drop_last() =~= front);
        assert forall|i: int| 0 <= i < text.len() implies (#[trigger] digit_of(text[i], 10)) is Some by {
            if i < front.len() {
                assert(text[i] == front[i]);
            }
        }
    }
}

/// The value of `c` as a digit of the given radix.
pub fn digit_of_char(c: char, radix: u32) -> (r: Option<u32>)
    requires
        radix <= 36,
    ensures
        r matches Some(v) ==> digit_of(c, radix as nat) == Some(v as nat),
        r is None ==> digit_of(c, radix as nat) is None,
{
    let v: u32 = if '0' <= c && c <= '9' {
        c as u32 - '0' as u32
    } else if 'a' <= c && c <= 'z' {
        c as u32 - 'a' as u32 + 10
    } else if 'A' <= c && c <= 'Z' {
        c as u32 - 'A' as u32 + 10
    } else {
        radix
    };
    if v < radix {
        Some(v)
    } else {
        None
    }
}

/// Reads `s` as an unsigned number of at most `max`.
pub fn parse_number(s: &[char], radix: u32, max: u64) -> (r: Option<u64>)
    requires
        2 <= radix <= 36,
    ensures
        r matches Some(v) ==> parse_unsigned(s@, radix as nat, max as nat) == Some(v as nat),
        r is None ==> parse_unsigned(s@, radix as nat, max as nat) is None,
{
    let start: usize = if s.len() > 0 && s[0] == '+' {
        1
    } else {
        0
    };
    let digits = slice_subrange(s, start, s.len());
    if digits.len() == 0 {
        return None;
    }
    let mut acc: u64 = 0;
    let mut i: usize = 0;
    while i < digits.len()
        invariant
            i <= digits@.len(),
            2 <= radix <= 36,
            digits@ == without_plus(s@),
            acc <= max,
            all_digits(digits@.take(i as int), radix as nat),
            digits_value(digits@.take(i as int), radix as nat) == acc,
        decreases digits@.len() - i,
    {
        let ghost before = digits@.take(i as int);
        let ghost now = digits@.take(i + 1);
        assert(now.drop_last() =~= before);
        match digit_of_char(digits[i], radix) {
            None => {
                return None;
            },
            Some(d) => {
                assert(acc as u128 * radix as u128 <= 0xffff_ffff_ffff_ffffu128 * 36)
                    by (nonlinear_arith)
                    requires
                        acc <= 0xffff_ffff_ffff_ffffu128,
                        radix <= 36,
                ;
                let next: u128 = acc as u128 * radix as u128 + d as u128;
                assert(next == digits_value(now, radix as nat)) by (nonlinear_arith)
                    requires
                        next == acc as int * radix as int + d as int,
                        digits_value(now, radix as nat) == digits_value(before, radix as nat)
                            * (radix as nat) + d as nat,
                        digits_value(before, radix as nat) == acc,
                ;
                if next > max as u128 {
                    proof {
                        if all_digits(digits@, radix as nat) {
                            lemma_digits_value_prefix(digits@, radix as nat, i + 1);
                        }
                    }
                    return None;
                }
                acc = next as u64;
            },
        }
        i += 1;
    }
    assert(digits@.take(i as int) =~= digits@);
    Some(acc)
}

/// Whether `c` has the Unicode property White_Space.
pub open spec fn is_whitespace(c: char) -> bool {
    let u = c as u32;
    ||| 0x09 <= u <= 0x0d
    ||| u == 0x20
    ||| u == 0x85
    ||| u == 0xa0
    ||| u == 0x1680
    ||| 0x2000 <= u <= 0x200a
    ||| u == 0x2028
    ||| u == 0x2029
    ||| u == 0x202f
    ||| u == 0x205f
    ||| u == 0x3000
}

/// How many characters at the start of `s` are whitespace.
pub open spec fn leading_whitespace(s: Seq<char>) -> nat
    decreases s.len(),
{
    if s.len() > 0 && is_whitespace(s[0]) {
        1 + leading_whitespace(s.drop_first())
    } else {
        0
    }
}

/// How many characters at the end of `s` are whitespace.
pub open spec fn trailing_whitespace(s: Seq<char>) -> nat
    decreases s.len(),
{
    if s.len() > 0 && is_whitespace(s.last()) {
        1 + trailing_whitespace(s.drop_last())
    } else {
        0
    }
}

/// How many characters at the start of `s` are not whitespace.
pub open spec fn leading_word(s: Seq<char>) -> nat
    decreases s.len(),
{
    if s.len() > 0 && !is_whitespace(s[0]) {
        1 + leading_word(s.drop_first())
    } else {
        0
    }
}

/// `s` without the whitespace at its start.
pub open spec fn trim_start(s: Seq<char>) -> Seq<char> {
    s.skip(leading_whitespace(s) as int)
}

/// `s` without the whitespace at its end.
pub open spec fn trim_end(s: Seq<char>) -> Seq<char> {
    s.take(s.len() - trailing_whitespace(s))
}

/// `s` without the whitespace at either end.
pub open spec fn trim(s: Seq<char>) -> Seq<char> {
    trim_end(trim_start(s))
}

/// Whether `c` has the Unicode property White_Space.
pub fn char_is_whitespace(c: char) -> (r: bool)
    ensures
        r == is_whitespace(c),
{
    let u: u32 = c as u32;
    (0x09 <= u && u <= 0x0d) || u == 0x20 || u == 0x85 || u == 0xa0 || u == 0x1680 || (0x2000 <= u
        && u <= 0x200a) || u == 0x2028 || u == 0x2029 || u == 0x202f || u == 0x205f || u == 0x3000
}

/// Counts the whitespace at the start of `s`.
pub fn count_leading_whitespace(s: &[char]) -> (n: usize)
    ensures
        n == leading_whitespace(s@),
        n <= s@.len(),
{
    let mut n: usize = 0;
    assert(s@.skip(0) =~= s@);
    while n < s.len() && char_is_whitespace(s[n])
        invariant
            n <= s@.len(),
            leading_whitespace(s@) == n + leading_whitespace(s@.skip(n as int)),
        decreases s@.len() - n,
    {
        assert(s@.skip(n as int).drop_first() =~= s@.skip(n + 1));
        n += 1;
    }
    n
}

/// Counts the whitespace at the end of `s`.
pub fn count_trailing_whitespace(s: &[char]) -> (n: usize)
    ensures
        n == trailing_whitespace(s@),
        n <= s@.len(),
{
    let mut n: usize = 0;
    assert(s@.take(s@.len() as int) =~= s@);
    while n < s.len() && char_is_whitespace(s[s.len() - 1 - n])
        invariant
            n <= s@.len(),
            trailing_whitespace(s@) == n + trailing_whitespace(s@.take(s@.len() - n)),
        decreases s@.len() - n,
    {
        assert(s@.take(s@.len() - n).drop_last() =~= s@.take(s@.len() - (n + 1)));
        n += 1;
    }
    n
}

/// Counts the characters at the start of `s` that are not whitespace.
pub fn count_leading_word(s: &[char]) -> (n: usize)
    ensures
        n == leading_word(s@),
        n <= s@.len(),
{
    let mut n: usize = 0;
    assert(s@.skip(0) =~= s@);
    while n < s.len() && !char_is_whitespace(s[n])
        invariant
            n <= s@.len(),
            leading_word(s@) == n + leading_word(s@.skip(n as int)),
        decreases s@.len() - n,
    {
        assert(s@.skip(n as int).drop_first() =~= s@.skip(n + 1));
        n += 1;
    }
    n
}

/// The part of `s` that is left when the whitespace at both ends is taken
/// away, and the position in `s` where that part starts.
pub fn trim_chars<'a>(s: &'a [char]) -> (r: (&'a [char], usize))
    ensures
        r.0@ == trim(s@),
        r.1 == leading_whitespace(s@),
        r.1 + r.0@.len() <= s@.len(),
        r.0@ == s@.subrange(r.1 as int, r.1 + r.0@.len()),
{
    let start = count_leading_whitespace(s);
    let tail = slice_subrange(s, start, s.len());
    let end = tail.len() - count_trailing_whitespace(tail);
    let body = slice_subrange(tail, 0, end);
    (body, start)
}

/// Whether the two texts are the same.
pub fn chars_equal(a: &[char], b: &[char]) -> (r: bool)
    ensures
        r == (a@ == b@),
{
    if a.len() != b.len() {
        return false;
    }
    assert(a@.subrange(0, b@.len() as int) =~= a@);
    has_pattern_at(a, b, 0)
}

/// Whether the two texts are the same.
pub fn str_equal(a: &str, b: &str) -> (r: bool)
    ensures
        r == (a@ == b@),
{
    let a_chars = to_chars(a);
    let b_chars = to_chars(b);
    chars_equal(a_chars.as_slice(), b_chars.as_slice())
}

/// Reads a text as a decimal number of at most `max`.
pub fn parse_decimal(text: &str, max: u64) -> (r: Option<u64>)
    ensures
        r matches Some(v) ==> parse_unsigned(text@, 10, max as nat) == Some(v as nat),
        r is None ==> parse_unsigned(text@, 10, max as nat) is None,
{
    let chars = to_chars(text);
    parse_number(chars.as_slice(), 10, max)
}

} // verus!
