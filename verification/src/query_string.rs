//! The query part of a request URI and the parameters that it holds.

use vstd::prelude::*;
use vstd::string::*;

use crate::string_map::StringMap;

verus! {

/// `i` is the first position of `c` in `s`.
pub open spec fn first_at(s: Seq<char>, c: char, i: int) -> bool {
    &&& 0 <= i < s.len()
    &&& s[i] == c
    &&& forall|j: int| 0 <= j < i ==> s[j] != c
}

/// The first position of `c` in `s`, if `c` occurs in `s`.
pub open spec fn index_of_char(s: Seq<char>, c: char) -> Option<int> {
    if exists|i: int| first_at(s, c, i) {
        Some(choose|i: int| first_at(s, c, i))
    } else {
        None
    }
}

/// `index_of_char` gives the first position, and `None` exactly when `c` does
/// not occur.
pub proof fn lemma_index_of_char(s: Seq<char>, c: char)
    ensures
        index_of_char(s, c) matches Some(i) ==> first_at(s, c, i),
        index_of_char(s, c) is None ==> forall|j: int| 0 <= j < s.len() ==> s[j] != c,
{
    if index_of_char(s, c) is None {
        assert forall|j: int| 0 <= j < s.len() implies s[j] != c by {
            if s[j] == c {
                // the smallest position holding `c` would be a first position
                let k = choose_first(s, c, j);
                assert(first_at(s, c, k));
            }
        }
    }
}

/// A first position of `c`, given that `c` occurs at `j`.
proof fn choose_first(s: Seq<char>, c: char, j: int) -> (k: int)
    requires
        0 <= j < s.len(),
        s[j] == c,
    ensures
        first_at(s, c, k),
    decreases j,
{
    if exists|m: int| 0 <= m < j && s[m] == c {
        let m = choose|m: int| 0 <= m < j && s[m] == c;
        choose_first(s, c, m)
    } else {
        j
    }
}

/// The query of a URI text: what follows its first `?`, if it has one.
pub open spec fn uri_query(uri: Seq<char>) -> Option<Seq<char>> {
    match index_of_char(uri, '?') {
        Some(i) => Some(uri.subrange(i + 1, uri.len() as int)),
        None => None,
    }
}

/// The pieces of `s` between occurrences of `sep`, in order, as `str::split`
/// gives them (an empty `s` gives one empty piece).
pub open spec fn split_pieces(s: Seq<char>, sep: char) -> Seq<Seq<char>>
    decreases s.len(),
{
    if exists|i: int| first_at(s, sep, i) {
        let i = choose|i: int| first_at(s, sep, i);
        seq![s.subrange(0, i)] + split_pieces(s.subrange(i + 1, s.len() as int), sep)
    } else {
        seq![s]
    }
}

/// `s` split at its first `sep`, as `str::split_once` gives it.
pub open spec fn split_once(s: Seq<char>, sep: char) -> Option<(Seq<char>, Seq<char>)> {
    match index_of_char(s, sep) {
        Some(i) => Some((s.subrange(0, i), s.subrange(i + 1, s.len() as int))),
        None => None,
    }
}

/// The parameters of the query pieces, inserted in order: a piece `key=value`
/// sets `key` to `value` (a later piece wins), a piece without `=` is skipped.
pub open spec fn pieces_map(pieces: Seq<Seq<char>>) -> Map<Seq<char>, Seq<char>>
    decreases pieces.len(),
{
    if pieces.len() == 0 {
        Map::empty()
    } else {
        let m = pieces_map(pieces.drop_last());
        match split_once(pieces.last(), '=') {
            Some((k, v)) => m.insert(k, v),
            None => m,
        }
    }
}

/// The parameters of a query: its `&`-separated pieces, each split at its
/// first `=`.
pub open spec fn parse_query_spec(q: Seq<char>) -> Map<Seq<char>, Seq<char>> {
    pieces_map(split_pieces(q, '&'))
}

/// The first position at or after `from` and before `n` that holds `c`, or `n`.
fn find_char_from(s: &str, n: usize, c: char, from: usize) -> (r: usize)
    requires
        n == s@.len(),
        from <= n,
    ensures
        from <= r <= n,
        forall|j: int| from <= j < r ==> s@[j] != c,
        r < n ==> s@[r as int] == c,
{
    let mut i = from;
    while i < n
        invariant
            n == s@.len(),
            from <= i <= n,
            forall|j: int| from <= j < i ==> s@[j] != c,
        decreases n - i,
    {
        if s.get_char(i) == c {
            return i;
        }
        i = i + 1;
    }
    i
}

/// The query of a URI text: what follows its first `?`, if it has one.
pub fn query_of_uri(uri: &str) -> (r: Option<String>)
    ensures
        match r {
            Some(q) => uri_query(uri@) == Some(q@),
            None => uri_query(uri@) is None,
        },
{
    let n = uri.unicode_len();
    let i = find_char_from(uri, n, '?', 0);
    proof {
        lemma_index_of_char(uri@, '?');
    }
    if i < n {
        assert(first_at(uri@, '?', i as int));
        let q = uri.substring_char(i + 1, n).to_owned();
        Some(q)
    } else {
        None
    }
}

/// Splits `s` at its first `=` into key and value, as `str::split_once` does.
fn split_at_equals(s: &str) -> (r: Option<(String, String)>)
    ensures
        match r {
            Some(kv) => split_once(s@, '=') == Some((kv.0@, kv.1@)),
            None => split_once(s@, '=') is None,
        },
{
    let n = s.unicode_len();
    let i = find_char_from(s, n, '=', 0);
    proof {
        lemma_index_of_char(s@, '=');
    }
    if i < n {
        assert(first_at(s@, '=', i as int));
        let k = s.substring_char(0, i).to_owned();
        let v = s.substring_char(i + 1, n).to_owned();
        Some((k, v))
    } else {
        None
    }
}

/// The parameters of a query string: its `&`-separated pieces that hold a
/// `=`, each split at its first `=` into key and value, a later piece with
/// the same key replacing the earlier value.
pub fn parse_query(q: &str) -> (r: StringMap)
    ensures
        r@ == parse_query_spec(q@),
{
    let n = q.unicode_len();
    let mut map = StringMap::new();
    let mut start: usize = 0;
    let ghost mut done: Seq<Seq<char>> = seq![];
    assert(q@.subrange(0, n as int) =~= q@);
    loop
        invariant_except_break
            done + split_pieces(q@.subrange(start as int, n as int), '&') == split_pieces(
                q@,
                '&',
            ),
            map@ == pieces_map(done),
        invariant
            n == q@.len(),
            start <= n,
        ensures
            map@ == parse_query_spec(q@),
        decreases n - start,
    {
        let j = find_char_from(q, n, '&', start);
        let ghost rest = q@.subrange(start as int, n as int);
        let ghost piece = q@.subrange(start as int, j as int);
        let part = q.substring_char(start, j);
        if let Some((k, v)) = split_at_equals(part) {
            map.insert(k, v);
        }
        proof {
            assert(done.push(piece).drop_last() =~= done);
            assert(map@ == pieces_map(done.push(piece)));
        }
        if j < n {
            proof {
                assert(first_at(rest, '&', j - start));
                assert(rest.subrange(0, j - start) =~= piece);
                assert(rest.subrange(j - start + 1, rest.len() as int) =~= q@.subrange(
                    j + 1,
                    n as int,
                ));
                assert(split_pieces(rest, '&') =~= seq![piece] + split_pieces(
                    q@.subrange(j + 1, n as int),
                    '&',
                ));
                assert(done.push(piece) + split_pieces(q@.subrange(j + 1, n as int), '&')
                    =~= done + split_pieces(rest, '&'));
                done = done.push(piece);
            }
            start = j + 1;
        } else {
            proof {
                assert(piece =~= rest);
                assert forall|i: int| !first_at(rest, '&', i) by {}
                assert(split_pieces(rest, '&') =~= seq![piece]);
                assert(done + split_pieces(rest, '&') =~= done.push(piece));
                done = done.push(piece);
                assert(done == split_pieces(q@, '&'));
            }
            break;
        }
    }
    map
}

} // verus!
