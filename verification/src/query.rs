//! The request line of an HTTP request: its target, the path of the target
//! and the arguments of its query string.

use crate::text::{
    after_first, before_first, count_leading_whitespace, count_leading_word, find_pattern,
    leading_word, lemma_find_absent, lemma_find_from, next_field, split_on, to_chars, trim_start,
};
use vstd::prelude::*;
use vstd::slice::slice_subrange;
use vstd::string::StrSliceExecFns;

verus! {

/// How many arguments of a query string are kept.
pub const MAX_QUERY_ARGS: usize = 4;

/// The target of a request line that names none.
pub const DEFAULT_TARGET: &'static str = "/";

/// The arguments of a query string: at most four values, each under its
/// key. They are held in a `heapless::FnvIndexMap` of capacity four.
#[verifier::external_body]
pub struct QueryArgs<'a> {
    map: heapless::FnvIndexMap<&'a str, &'a str, MAX_QUERY_ARGS>,
}

/// The values that the arguments hold, by key.
pub uninterp spec fn query_entries(args: QueryArgs) -> Map<Seq<char>, Seq<char>>;

impl<'a> View for QueryArgs<'a> {
    type V = Map<Seq<char>, Seq<char>>;

    open spec fn view(&self) -> Map<Seq<char>, Seq<char>> {
        query_entries(*self)
    }
}

/// The map after an insertion: a key that is present gets the new value; a
/// new key is taken in while there are fewer than four; otherwise the map
/// stays as it is.
pub open spec fn with_arg(
    entries: Map<Seq<char>, Seq<char>>,
    key: Seq<char>,
    value: Seq<char>,
) -> Map<Seq<char>, Seq<char>> {
    if entries.dom().contains(key) || entries.len() < MAX_QUERY_ARGS {
        entries.insert(key, value)
    } else {
        entries
    }
}

impl<'a> QueryArgs<'a> {
    /// `heapless::IndexMap::new`: a map without entries.
    #[verifier::external_body]
    fn new() -> (args: QueryArgs<'a>)
        ensures
            query_entries(args) =~= Map::empty(),
            query_entries(args).dom().finite(),
    {
        QueryArgs { map: heapless::FnvIndexMap::new() }
    }

    /// `heapless::IndexMap::insert`: the value replaces the one under an
    /// equal key; a new key is added if the map holds fewer than four
    /// entries; a new key for a full map is refused and changes nothing.
    /// Returns whether the entry was taken.
    #[verifier::external_body]
    fn insert(&mut self, key: &'a str, value: &'a str) -> (taken: bool)
        ensures
            query_entries(*final(self)) == with_arg(query_entries(*old(self)), key@, value@),
            query_entries(*final(self)).dom().finite(),
            taken <==> query_entries(*old(self)).dom().contains(key@) || query_entries(
                *old(self),
            ).len() < MAX_QUERY_ARGS,
    {
        self.map.insert(key, value).is_ok()
    }

    /// `heapless::IndexMap::get`: the value under an equal key, if there is
    /// one.
    #[verifier::external_body]
    fn lookup(&self, key: &str) -> (value: Option<&'a str>)
        ensures
            value is Some <==> query_entries(*self).dom().contains(key@),
            value matches Some(v) ==> v@ == query_entries(*self)[key@],
    {
        self.map.get(key).copied()
    }

    /// The value of the argument `key`, if the query string had it.
    pub fn get(&self, key: &str) -> (value: Option<&'a str>)
        ensures
            value is Some <==> self@.dom().contains(key@),
            value matches Some(v) ==> v@ == self@[key@],
    {
        self.lookup(key)
    }
}

/// The target of a request: the second of the words that its whitespace
/// separates, or `"/"` if it has fewer than two words.
pub open spec fn request_target(request: Seq<char>) -> Seq<char> {
    let from_first = trim_start(request);
    let behind_first = trim_start(from_first.skip(leading_word(from_first) as int));
    if leading_word(behind_first) == 0 {
        DEFAULT_TARGET@
    } else {
        behind_first.take(leading_word(behind_first) as int)
    }
}

/// The path of a target: what stands before its first `'?'`.
pub open spec fn target_path(target: Seq<char>) -> Seq<char> {
    before_first(target, seq!['?'])
}

/// The query string of a target: what stands behind its first `'?'`.
pub open spec fn target_query(target: Seq<char>) -> Seq<char> {
    after_first(target, seq!['?'])
}

/// The arguments that a list of `key=value` pairs gives when they are
/// inserted one after the other. A pair without `'='` is a key with an empty
/// value.
pub open spec fn collect_args(pairs: Seq<Seq<char>>) -> Map<Seq<char>, Seq<char>>
    decreases pairs.len(),
{
    if pairs.len() == 0 {
        Map::empty()
    } else {
        with_arg(
            collect_args(pairs.drop_last()),
            before_first(pairs.last(), seq!['=']),
            after_first(pairs.last(), seq!['=']),
        )
    }
}

/// The arguments of a query string: its pairs are separated by `'&'`; an
/// empty query string has none.
pub open spec fn query_args(query: Seq<char>) -> Map<Seq<char>, Seq<char>> {
    if query.len() == 0 {
        Map::empty()
    } else {
        collect_args(split_on(query, seq!['&']))
    }
}

/// How many pairs of a list are dropped when they are inserted one after the
/// other: those that bring a fifth key.
pub open spec fn dropped_pairs(pairs: Seq<Seq<char>>) -> nat
    decreases pairs.len(),
{
    if pairs.len() == 0 {
        0
    } else {
        let held = collect_args(pairs.drop_last());
        let key = before_first(pairs.last(), seq!['=']);
        dropped_pairs(pairs.drop_last()) + if held.dom().contains(key) || held.len()
            < MAX_QUERY_ARGS {
            0nat
        } else {
            1nat
        }
    }
}

/// How many pairs of a query string are dropped.
pub open spec fn query_dropped(query: Seq<char>) -> nat {
    if query.len() == 0 {
        0
    } else {
        dropped_pairs(split_on(query, seq!['&']))
    }
}

/// What a request asks for: the path of its target and the arguments of its
/// query string.
pub struct HttpCommand<'a> {
    /// The path of the target.
    pub path: &'a str,
    /// The arguments that were kept.
    pub args: QueryArgs<'a>,
    /// How many pairs of the query string were dropped for want of room.
    pub dropped: usize,
}

/// A text of the single character `c`.
fn one_char(c: char) -> (pat: Vec<char>)
    ensures
        pat@ == seq![c],
{
    let mut pat: Vec<char> = Vec::new();
    pat.push(c);
    pat
}

/// Inserts the pairs of a query string that is not empty, and returns how
/// many of them were dropped. `chars` are the characters of `text`, and the
/// query string is `chars[start..end]`, behind the question mark.
fn insert_pairs<'a>(
    args: &mut QueryArgs<'a>,
    text: &'a str,
    chars: &[char],
    start: usize,
    end: usize,
) -> (dropped: usize)
    requires
        chars@ == text@,
        1 <= start <= end <= chars@.len(),
        old(args)@ =~= Map::empty(),
    ensures
        final(args)@ == collect_args(split_on(chars@.subrange(start as int, end as int), seq!['&'])),
        dropped == dropped_pairs(
            split_on(chars@.subrange(start as int, end as int), seq!['&']),
        ),
{
    let amp = one_char('&');
    let eq = one_char('=');
    let ghost pairs = split_on(chars@.subrange(start as int, end as int), amp@);
    let ghost mut done: int = 0;
    let mut rest: &[char] = slice_subrange(chars, start, end);
    let mut pos: usize = start;
    let mut dropped: usize = 0;
    loop
        invariant
            chars@ == text@,
            amp@ == seq!['&'],
            eq@ == seq!['='],
            pairs == split_on(chars@.subrange(start as int, end as int), amp@),
            1 <= start <= pos <= end <= chars@.len(),
            dropped <= done <= pos - start,
            dropped == dropped_pairs(pairs.take(done)),
            rest@ == chars@.subrange(pos as int, end as int),
            0 <= done < pairs.len(),
            pairs.skip(done) == split_on(rest@, amp@),
            args@ == collect_args(pairs.take(done)),
        decreases rest@.len(),
    {
        let (pair, next) = next_field(rest, amp.as_slice());
        proof {
            lemma_find_from(rest@, amp@, 0);
            lemma_find_from(pair@, eq@, 0);
            assert(pairs[done] == pairs.skip(done)[0]);
            assert(pairs.take(done + 1).drop_last() =~= pairs.take(done));
            assert(pairs.skip(done + 1) =~= pairs.skip(done).skip(1));
        }
        let cut = find_pattern(pair, eq.as_slice());
        let key = text.substring_char(pos, pos + cut);
        let value = if cut < pair.len() {
            text.substring_char(pos + cut + 1, pos + pair.len())
        } else {
            text.substring_char(pos, pos)
        };
        assert(key@ =~= before_first(pair@, eq@));
        assert(value@ =~= after_first(pair@, eq@));
        if !args.insert(key, value) {
            dropped = dropped + 1;
        }
        proof {
            done = done + 1;
        }
        match next {
            None => {
                return dropped;
            },
            Some(behind) => {
                pos = pos + pair.len() + 1;
                rest = behind;
            },
        }
    }
}

/// Reads the request line: the path of the target, and the arguments of its
/// query string. Of more than four different keys only the first four are
/// kept.
pub fn parse_http_query<'a>(query: &'a str) -> (command: HttpCommand<'a>)
    ensures
        command.path@ == target_path(request_target(query@)),
        command.args@ == query_args(target_query(request_target(query@))),
        command.dropped == query_dropped(target_query(request_target(query@))),
{
    let chars = to_chars(query);
    let all = chars.as_slice();
    let question = one_char('?');
    let mut args = QueryArgs::new();
    let space_1 = count_leading_whitespace(all);
    let from_first = slice_subrange(all, space_1, all.len());
    let word_1 = count_leading_word(from_first);
    let behind = slice_subrange(from_first, word_1, from_first.len());
    let space_2 = count_leading_whitespace(behind);
    let behind_first = slice_subrange(behind, space_2, behind.len());
    let word_2 = count_leading_word(behind_first);
    if word_2 == 0 {
        proof {
            reveal_strlit("/");
            let target = DEFAULT_TARGET@;
            lemma_find_absent(target, seq!['?'], 0);
        }
        return HttpCommand { path: DEFAULT_TARGET, args, dropped: 0 };
    }
    let start = space_1 + word_1 + space_2;
    let target = slice_subrange(behind_first, 0, word_2);
    let cut = find_pattern(target, question.as_slice());
    proof {
        lemma_find_from(target@, question@, 0);
    }
    let path = query.substring_char(start, start + cut);
    let dropped = if cut < word_2 && cut + 1 < word_2 {
        assert(target_query(target@) =~= chars@.subrange(start + cut + 1, start + word_2));
        insert_pairs(&mut args, query, all, start + cut + 1, start + word_2)
    } else {
        0
    };
    HttpCommand { path, args, dropped }
}

} // verus!
