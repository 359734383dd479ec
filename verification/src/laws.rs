//! Properties of the library that span several of its functions.

use vstd::prelude::*;

use crate::bindings::{ascii_lower, header_name_valid};
use crate::http_types::{method_from_name, method_name, HttpMethod};
use crate::matchers::{
    basic_credentials, value_text, all_accept, any_accepts, header_of, lemma_all_accept, lemma_any_accepts, match_type,
    matcher_matches, MatchType, MatcherSpec,
};
use crate::config::{EasyHttpMockConfig, ServerAdapter};
use crate::mock::{headers_with, Request, RequestView};
use crate::http_types::HttpVersion;
use crate::query_string::{
    first_at, index_of_char, lemma_index_of_char, parse_query_spec, pieces_map, split_once,
    split_pieces,
};
use crate::base64::{base64_encode, lemma_base64_visible};
use crate::text::{lemma_visible_text, visible_char, visible_text};
use vstd::utf8::encode_utf8;

verus! {

/// `a.and(b)` accepts a request exactly when both `a` and `b` accept it.
pub proof fn law_and_accepts_when_both_accept(a: MatcherSpec, b: MatcherSpec, r: RequestView)
    ensures
        matcher_matches(MatcherSpec::All(seq![a, b]), r) <==> (matcher_matches(a, r)
            && matcher_matches(b, r)),
{
    let ms = seq![a, b];
    lemma_all_accept(ms, r);
    assert(ms[0] == a && ms[1] == b);
}

/// `a.or(b)` accepts a request exactly when `a` or `b` accepts it.
pub proof fn law_or_accepts_when_either_accepts(a: MatcherSpec, b: MatcherSpec, r: RequestView)
    ensures
        matcher_matches(MatcherSpec::Any(seq![a, b]), r) <==> (matcher_matches(a, r)
            || matcher_matches(b, r)),
{
    let ms = seq![a, b];
    lemma_any_accepts(ms, r);
    assert(ms[0] == a && ms[1] == b);
}

/// A conjunction of no matchers accepts every request, a disjunction of no
/// matchers accepts none, and both express a `To` expectation.
pub proof fn law_empty_combinations(r: RequestView)
    ensures
        matcher_matches(MatcherSpec::All(Seq::empty()), r),
        !matcher_matches(MatcherSpec::Any(Seq::empty()), r),
        match_type(MatcherSpec::All(Seq::empty())) == MatchType::To,
        match_type(MatcherSpec::Any(Seq::empty())) == MatchType::To,
{
}

/// A combination expresses the kind of expectation of its first matcher.
pub proof fn law_combination_takes_first_match_type(ms: Seq<MatcherSpec>)
    requires
        ms.len() > 0,
    ensures
        match_type(MatcherSpec::All(ms)) == match_type(ms[0]),
        match_type(MatcherSpec::Any(ms)) == match_type(ms[0]),
{
}

/// Adding a matcher to a conjunction narrows what it accepts to the requests
/// that the new matcher accepts too.
pub proof fn law_and_extends(ms: Seq<MatcherSpec>, m: MatcherSpec, r: RequestView)
    ensures
        matcher_matches(MatcherSpec::All(ms.push(m)), r) <==> (matcher_matches(
            MatcherSpec::All(ms),
            r,
        ) && matcher_matches(m, r)),
{
    assert(ms.push(m).subrange(0, ms.len() as int) =~= ms);
}

/// A header set on a request (under any spelling of a valid name) is found
/// by the header matcher for its small-case name, and the header-value
/// matchers read back the value that was set where it is a tab or visible
/// ASCII.
pub proof fn law_set_header_is_found(r: RequestView, name: Seq<char>, value: Seq<char>)
    requires
        header_name_valid(name),
    ensures
        ({
            let set = RequestView {
                headers: r.headers.insert(ascii_lower(name), seq![encode_utf8(value)]),
                ..r
            };
            &&& matcher_matches(MatcherSpec::Header(ascii_lower(name)), set)
            &&& header_of(set, ascii_lower(name)) == Some(value_text(encode_utf8(value)))
            &&& visible_text(value) ==> header_of(set, ascii_lower(name)) == Some(value)
        }),
{
    if visible_text(value) {
        lemma_visible_text(value);
    }
}

/// A request whose authorization header is `Bearer ` and a token is accepted
/// by the JWT matcher of that token and by none of another token; one whose
/// header is `Basic ` and the encoded credentials of a user and password is
/// accepted by the basic-auth matcher of them, and by none whose encoded
/// credentials differ.
pub proof fn law_authorization_schemes(
    r: RequestView,
    token: Seq<char>,
    other_token: Seq<char>,
    user: Seq<char>,
    password: Seq<char>,
    other_user: Seq<char>,
    other_password: Seq<char>,
)
    requires
        visible_text(token),
    ensures
        ({
            let bearer = RequestView {
                headers: r.headers.insert(
                    "authorization"@,
                    seq![encode_utf8("Bearer "@ + token)],
                ),
                ..r
            };
            &&& matcher_matches(MatcherSpec::Jwt(token), bearer)
            &&& other_token != token ==> !matcher_matches(MatcherSpec::Jwt(other_token), bearer)
        }),
        ({
            let basic = RequestView {
                headers: r.headers.insert(
                    "authorization"@,
                    seq![encode_utf8("Basic "@ + basic_credentials(user, password))],
                ),
                ..r
            };
            &&& matcher_matches(MatcherSpec::BasicAuth(user, password), basic)
            &&& basic_credentials(other_user, other_password) != basic_credentials(user, password)
                ==> !matcher_matches(MatcherSpec::BasicAuth(other_user, other_password), basic)
        }),
{
    reveal_strlit("Bearer ");
    reveal_strlit("Basic ");
    let bearer = "Bearer "@ + token;
    assert(visible_text(bearer)) by {
        assert forall|i: int| 0 <= i < bearer.len() implies visible_char(#[trigger] bearer[i]) by {
            if i >= 7 {
                assert(bearer[i] == token[i - 7]);
            }
        }
    }
    lemma_visible_text(bearer);
    let creds = basic_credentials(user, password);
    lemma_base64_visible(encode_utf8(user + ":"@ + password));
    let basic = "Basic "@ + creds;
    assert(visible_text(basic)) by {
        assert forall|i: int| 0 <= i < basic.len() implies visible_char(#[trigger] basic[i]) by {
            if i >= 6 {
                assert(basic[i] == creds[i - 6]);
            }
        }
    }
    lemma_visible_text(basic);
    if other_token != token {
        if "Bearer "@ + other_token == bearer {
            assert(other_token =~= bearer.subrange(7, bearer.len() as int));
            assert(token =~= bearer.subrange(7, bearer.len() as int));
        }
    }
    let other = basic_credentials(other_user, other_password);
    if other != creds {
        if "Basic "@ + other == basic {
            assert(other =~= basic.subrange(6, basic.len() as int));
            assert(creds =~= basic.subrange(6, basic.len() as int));
        }
    }
}

/// The upper and the lower case spelling of a method name name the same
/// method, and it is the method of that name.
pub proof fn law_method_names(upper: Seq<char>, lower: Seq<char>)
    requires
        upper == "GET"@ && lower == "get"@ || upper == "POST"@ && lower == "post"@ || upper
            == "QUERY"@ && lower == "query"@ || upper == "PUT"@ && lower == "put"@ || upper
            == "DELETE"@ && lower == "delete"@ || upper == "PATCH"@ && lower == "patch"@ || upper
            == "HEAD"@ && lower == "head"@ || upper == "OPTIONS"@ && lower == "options"@,
    ensures
        method_from_name(upper) is Some,
        method_from_name(upper) == method_from_name(lower),
        method_name(method_from_name(upper)->Some_0) == upper,
{
    broadcast use vstd::string::group_string_axioms;

    reveal_strlit("GET");
    reveal_strlit("get");
    reveal_strlit("POST");
    reveal_strlit("post");
    reveal_strlit("QUERY");
    reveal_strlit("query");
    reveal_strlit("PUT");
    reveal_strlit("put");
    reveal_strlit("DELETE");
    reveal_strlit("delete");
    reveal_strlit("PATCH");
    reveal_strlit("patch");
    reveal_strlit("HEAD");
    reveal_strlit("head");
    reveal_strlit("OPTIONS");
    reveal_strlit("options");
    assert("GET"@.len() == 3);
    assert("get"@.len() == 3);
    assert("POST"@.len() == 4);
    assert("post"@.len() == 4);
    assert("QUERY"@.len() == 5);
    assert("query"@.len() == 5);
    assert("PUT"@.len() == 3);
    assert("put"@.len() == 3);
    assert("DELETE"@.len() == 6);
    assert("delete"@.len() == 6);
    assert("PATCH"@.len() == 5);
    assert("patch"@.len() == 5);
    assert("HEAD"@.len() == 4);
    assert("head"@.len() == 4);
    assert("OPTIONS"@.len() == 7);
    assert("options"@.len() == 7);
    assert("GET"@ != "get"@) by {
        assert("GET"@[0] != "get"@[0]);
    }
    assert("GET"@ != "PUT"@) by {
        assert("GET"@[0] != "PUT"@[0]);
    }
    assert("GET"@ != "put"@) by {
        assert("GET"@[0] != "put"@[0]);
    }
    assert("get"@ != "PUT"@) by {
        assert("get"@[0] != "PUT"@[0]);
    }
    assert("get"@ != "put"@) by {
        assert("get"@[0] != "put"@[0]);
    }
    assert("PUT"@ != "put"@) by {
        assert("PUT"@[0] != "put"@[0]);
    }
    assert("POST"@ != "post"@) by {
        assert("POST"@[0] != "post"@[0]);
    }
    assert("POST"@ != "HEAD"@) by {
        assert("POST"@[0] != "HEAD"@[0]);
    }
    assert("POST"@ != "head"@) by {
        assert("POST"@[0] != "head"@[0]);
    }
    assert("post"@ != "HEAD"@) by {
        assert("post"@[0] != "HEAD"@[0]);
    }
    assert("post"@ != "head"@) by {
        assert("post"@[0] != "head"@[0]);
    }
    assert("HEAD"@ != "head"@) by {
        assert("HEAD"@[0] != "head"@[0]);
    }
    assert("QUERY"@ != "query"@) by {
        assert("QUERY"@[0] != "query"@[0]);
    }
    assert("QUERY"@ != "PATCH"@) by {
        assert("QUERY"@[0] != "PATCH"@[0]);
    }
    assert("QUERY"@ != "patch"@) by {
        assert("QUERY"@[0] != "patch"@[0]);
    }
    assert("query"@ != "PATCH"@) by {
        assert("query"@[0] != "PATCH"@[0]);
    }
    assert("query"@ != "patch"@) by {
        assert("query"@[0] != "patch"@[0]);
    }
    assert("PATCH"@ != "patch"@) by {
        assert("PATCH"@[0] != "patch"@[0]);
    }
    assert("DELETE"@ != "delete"@) by {
        assert("DELETE"@[0] != "delete"@[0]);
    }
    assert("OPTIONS"@ != "options"@) by {
        assert("OPTIONS"@[0] != "options"@[0]);
    }
}

/// Splitting at a separator that is followed by a piece without separators
/// gives the pieces of the front and then that piece.
proof fn lemma_split_append(s: Seq<char>, sep: char, p: Seq<char>)
    requires
        forall|i: int| 0 <= i < p.len() ==> p[i] != sep,
    ensures
        split_pieces(s + seq![sep] + p, sep) == split_pieces(s, sep).push(p),
    decreases s.len(),
{
    let t = s + seq![sep] + p;
    lemma_index_of_char(s, sep);
    lemma_index_of_char(t, sep);
    if exists|i: int| first_at(s, sep, i) {
        let i = choose|i: int| first_at(s, sep, i);
        assert(first_at(t, sep, i));
        let j = choose|j: int| first_at(t, sep, j);
        assert(j == i);
        let rest = s.subrange(i + 1, s.len() as int);
        assert(t.subrange(i + 1, t.len() as int) =~= rest + seq![sep] + p);
        assert(t.subrange(0, i) =~= s.subrange(0, i));
        lemma_split_append(rest, sep, p);
        assert(split_pieces(t, sep) =~= split_pieces(s, sep).push(p));
    } else {
        assert forall|k: int| 0 <= k < s.len() implies s[k] != sep by {
            if s[k] == sep {
                lemma_index_of_char(s, sep);
            }
        }
        assert(first_at(t, sep, s.len() as int));
        let j = choose|j: int| first_at(t, sep, j);
        assert(j == s.len());
        assert(t.subrange(0, s.len() as int) =~= s);
        assert(t.subrange(s.len() as int + 1, t.len() as int) =~= p);
        assert forall|k: int| !first_at(p, sep, k) by {}
        assert(split_pieces(p, sep) =~= seq![p]);
        assert(split_pieces(t, sep) =~= split_pieces(s, sep).push(p));
    }
}

/// `key=value` split at its first `=` gives the key and the value, where the
/// key holds no `=`.
proof fn lemma_split_pair(key: Seq<char>, value: Seq<char>)
    requires
        forall|i: int| 0 <= i < key.len() ==> key[i] != '=',
    ensures
        split_once(key + seq!['='] + value, '=') == Some((key, value)),
{
    let piece = key + seq!['='] + value;
    assert(first_at(piece, '=', key.len() as int));
    lemma_index_of_char(piece, '=');
    let j = index_of_char(piece, '=')->Some_0;
    assert(j == key.len());
    assert(piece.subrange(0, key.len() as int) =~= key);
    assert(piece.subrange(key.len() as int + 1, piece.len() as int) =~= value);
}

/// Appending `&key=value` to a query sets the parameter `key` to `value`,
/// whatever the query held before (a later parameter wins).
pub proof fn law_appended_parameter_wins(query: Seq<char>, key: Seq<char>, value: Seq<char>)
    requires
        forall|i: int| 0 <= i < key.len() ==> key[i] != '=' && key[i] != '&',
        forall|i: int| 0 <= i < value.len() ==> value[i] != '&',
    ensures
        parse_query_spec(query + seq!['&'] + key + seq!['='] + value) == parse_query_spec(
            query,
        ).insert(key, value),
{
    let piece = key + seq!['='] + value;
    assert forall|i: int| 0 <= i < piece.len() implies piece[i] != '&' by {
        if i < key.len() {
        } else if i > key.len() {
            assert(piece[i] == value[i - key.len() - 1]);
        }
    }
    assert(query + seq!['&'] + key + seq!['='] + value =~= query + seq!['&'] + piece);
    lemma_split_append(query, '&', piece);
    lemma_split_pair(key, value);
    let pieces = split_pieces(query, '&').push(piece);
    assert(pieces.drop_last() =~= split_pieces(query, '&'));
}

/// An exact-body matcher accepts a request exactly when the body is the
/// UTF-8 encoding of its text; so a request whose body was set to that text
/// is accepted, and one without a body is not.
pub proof fn law_exact_body_is_its_text(r: RequestView, text: Seq<char>)
    ensures
        matcher_matches(MatcherSpec::ExactJson(text), r) <==> r.body == Some(
            vstd::utf8::encode_utf8(text),
        ),
        matcher_matches(MatcherSpec::ExactXml(text), r) <==> r.body == Some(
            vstd::utf8::encode_utf8(text),
        ),
        matcher_matches(
            MatcherSpec::ExactJson(text),
            RequestView { body: Some(vstd::utf8::encode_utf8(text)), ..r },
        ),
        !matcher_matches(MatcherSpec::ExactXml(text), RequestView { body: None, ..r }),
{
}

/// A request that a builder makes for a method is accepted by the method
/// matcher of that method's name and by no matcher of another name.
pub proof fn law_builder_request_has_its_method(m: HttpMethod, uri: Seq<char>, other: Seq<char>)
    ensures
        matcher_matches(
            MatcherSpec::Method(method_name(m)),
            Request::builder_view(method_name(m), uri),
        ),
        other != method_name(m) ==> !matcher_matches(
            MatcherSpec::Method(other),
            Request::builder_view(method_name(m), uri),
        ),
{
}

/// Whatever a header-value matcher accepts, the header matcher of the same
/// name accepts too.
pub proof fn law_header_value_implies_header(name: Seq<char>, p: Seq<char>, r: RequestView)
    ensures
        matcher_matches(MatcherSpec::HeaderValue(name, p), r) ==> matcher_matches(
            MatcherSpec::Header(name),
            r,
        ),
{
}

/// The default configuration and the one that a fresh builder builds agree:
/// neither has a base URL, and both hold the server settings that
/// `S::Config::default()` gives, wherever that call has one possible result.
pub proof fn law_default_is_a_fresh_build<S: ServerAdapter>(
    d: EasyHttpMockConfig<S>,
    b: EasyHttpMockConfig<S>,
) where S::Config: Default
    requires
        d.spec_base_url() is None,
        call_ensures(<S::Config as Default>::default, (), d.spec_server_config()),
        b.spec_base_url() is None,
        call_ensures(<S::Config as Default>::default, (), b.spec_server_config()),
        forall|x: S::Config, y: S::Config|
            #![trigger call_ensures(<S::Config as Default>::default, (), x), call_ensures(<S::Config as Default>::default, (), y)]
            call_ensures(<S::Config as Default>::default, (), x) && call_ensures(
                <S::Config as Default>::default,
                (),
                y,
            ) ==> x == y,
    ensures
        d.spec_base_url() == b.spec_base_url(),
        d.spec_server_config() == b.spec_server_config(),
{
}

/// A piece without `=` has no split at `=`.
proof fn lemma_no_equals(p: Seq<char>)
    requires
        forall|i: int| 0 <= i < p.len() ==> p[i] != '=',
    ensures
        split_once(p, '=') is None,
{
    lemma_index_of_char(p, '=');
    if index_of_char(p, '=') is Some {
        let i = index_of_char(p, '=')->Some_0;
        assert(first_at(p, '=', i));
    }
}

/// A leading piece without a split at `=` adds no parameter.
proof fn lemma_pieces_skip_first(p: Seq<char>, rest: Seq<Seq<char>>)
    requires
        split_once(p, '=') is None,
    ensures
        pieces_map(seq![p] + rest) == pieces_map(rest),
    decreases rest.len(),
{
    let all = seq![p] + rest;
    if rest.len() == 0 {
        assert(all =~= seq![p]);
        assert(all.drop_last() =~= Seq::<Seq<char>>::empty());
        assert(all.last() == p);
        assert(pieces_map(all) == pieces_map(all.drop_last()));
        assert(pieces_map(all.drop_last()) =~= Map::<Seq<char>, Seq<char>>::empty());
    } else {
        assert(all.drop_last() =~= seq![p] + rest.drop_last());
        assert(all.last() == rest.last());
        lemma_pieces_skip_first(p, rest.drop_last());
        assert(pieces_map(all.drop_last()) == pieces_map(rest.drop_last()));
    }
}

/// Splitting `p`, the separator and `s`, where `p` holds no separator, gives
/// `p` and then the pieces of `s`.
proof fn lemma_split_prepend(p: Seq<char>, sep: char, s: Seq<char>)
    requires
        forall|i: int| 0 <= i < p.len() ==> p[i] != sep,
    ensures
        split_pieces(p + seq![sep] + s, sep) == seq![p] + split_pieces(s, sep),
{
    let t = p + seq![sep] + s;
    assert(first_at(t, sep, p.len() as int));
    let j = choose|j: int| first_at(t, sep, j);
    assert(j == p.len()) by {
        if j < p.len() {
            assert(t[j] == p[j]);
        }
        if j > p.len() {
            assert(t[p.len() as int] == sep);
        }
    }
    assert(t.subrange(0, p.len() as int) =~= p);
    assert(t.subrange(p.len() as int + 1, t.len() as int) =~= s);
}

/// A query piece without `=` is skipped, wherever it stands: the parameters
/// before and after it are kept, and it adds none.
pub proof fn law_piece_without_equals_is_skipped(query: Seq<char>, piece: Seq<char>)
    requires
        forall|i: int| 0 <= i < piece.len() ==> piece[i] != '=' && piece[i] != '&',
    ensures
        parse_query_spec(query + seq!['&'] + piece) == parse_query_spec(query),
        parse_query_spec(piece + seq!['&'] + query) == parse_query_spec(query),
        parse_query_spec(piece) == Map::<Seq<char>, Seq<char>>::empty(),
{
    lemma_no_equals(piece);
    lemma_split_append(query, '&', piece);
    let ps = split_pieces(query, '&').push(piece);
    assert(ps.drop_last() =~= split_pieces(query, '&'));
    lemma_split_prepend(piece, '&', query);
    lemma_pieces_skip_first(piece, split_pieces(query, '&'));
    assert forall|k: int| !first_at(piece, '&', k) by {
        if 0 <= k < piece.len() {
            assert(piece[k] != '&');
        }
    }
    assert(split_pieces(piece, '&') =~= seq![piece]);
    lemma_pieces_skip_first(piece, Seq::<Seq<char>>::empty());
    assert(seq![piece] + Seq::<Seq<char>>::empty() =~= seq![piece]);
    assert(pieces_map(Seq::<Seq<char>>::empty()) =~= Map::<Seq<char>, Seq<char>>::empty());
}

/// Setting headers in turn: every key of the entries ends up with the value
/// of its last entry, and every other header keeps what it had.
pub proof fn law_with_headers_sets_each_entry(
    base: Map<Seq<char>, Seq<char>>,
    pairs: Seq<(Seq<char>, Seq<char>)>,
)
    ensures
        forall|i: int|
            0 <= i < pairs.len() && (forall|j: int| i < j < pairs.len() ==> pairs[j].0 != pairs[i].0)
                ==> headers_with(base, pairs).contains_key(#[trigger] pairs[i].0)
                && headers_with(base, pairs)[pairs[i].0] == pairs[i].1,
        forall|k: Seq<char>|
            (forall|j: int| 0 <= j < pairs.len() ==> pairs[j].0 != k) ==> (#[trigger] headers_with(
                base,
                pairs,
            ).contains_key(k) == base.contains_key(k) && (base.contains_key(k) ==> headers_with(
                base,
                pairs,
            )[k] == base[k])),
        pairs.len() == 1 ==> headers_with(base, pairs) == base.insert(pairs[0].0, pairs[0].1),
    decreases pairs.len(),
{
    if pairs.len() > 0 {
        let init = pairs.drop_last();
        law_with_headers_sets_each_entry(base, init);
        let h = headers_with(base, init);
        assert(headers_with(base, pairs) == h.insert(pairs.last().0, pairs.last().1));
        assert forall|i: int|
            0 <= i < pairs.len() && (forall|j: int| i < j < pairs.len() ==> pairs[j].0 != pairs[i].0)
                implies headers_with(base, pairs).contains_key(#[trigger] pairs[i].0)
                && headers_with(base, pairs)[pairs[i].0] == pairs[i].1 by {
            if i < pairs.len() - 1 {
                assert(pairs[pairs.len() - 1].0 != pairs[i].0);
                assert(init[i] == pairs[i]);
                assert forall|j: int| i < j < init.len() implies init[j].0 != init[i].0 by {
                    assert(init[j] == pairs[j]);
                }
            }
        }
        assert forall|k: Seq<char>|
            (forall|j: int| 0 <= j < pairs.len() ==> pairs[j].0 != k) implies (
            #[trigger] headers_with(base, pairs).contains_key(k) == base.contains_key(k) && (
            base.contains_key(k) ==> headers_with(base, pairs)[k] == base[k])) by {
            assert(pairs[pairs.len() - 1].0 != k);
            assert forall|j: int| 0 <= j < init.len() implies init[j].0 != k by {
                assert(init[j] == pairs[j]);
            }
        }
        if pairs.len() == 1 {
            assert(init =~= Seq::<(Seq<char>, Seq<char>)>::empty());
        }
    }
}

/// A base64 encoding has four characters for every group of three bytes,
/// a final group of one or two bytes included.
pub proof fn law_base64_length(s: Seq<u8>)
    ensures
        base64_encode(s).len() == 4 * ((s.len() + 2) / 3),
    decreases s.len(),
{
    if s.len() >= 3 {
        law_base64_length(s.subrange(3, s.len() as int));
        assert((s.len() + 2) / 3 == (s.len() - 3 + 2) / 3 + 1);
    }
}

/// Encoding a text whose first part has a length divisible by three encodes
/// the parts separately: padding only ever appears at the end.
pub proof fn law_base64_concat(a: Seq<u8>, b: Seq<u8>)
    requires
        a.len() % 3 == 0,
    ensures
        base64_encode(a + b) == base64_encode(a) + base64_encode(b),
    decreases a.len(),
{
    if a.len() == 0 {
        assert(a + b =~= b);
        assert(base64_encode(a) =~= Seq::<char>::empty());
        assert(base64_encode(a) + base64_encode(b) =~= base64_encode(b));
    } else {
        let ab = a + b;
        let a3 = a.subrange(3, a.len() as int);
        assert(ab.subrange(3, ab.len() as int) =~= a3 + b);
        assert(ab[0] == a[0] && ab[1] == a[1] && ab[2] == a[2]);
        law_base64_concat(a3, b);
        let head = base64_encode(a).subrange(0, 4);
        assert(base64_encode(a) =~= head + base64_encode(a3));
        assert(base64_encode(ab) =~= head + base64_encode(a3 + b));
        assert(base64_encode(ab) =~= base64_encode(a) + base64_encode(b));
    }
}

/// The path matcher runs its regex on the request's URI text itself: a
/// request built for URI `u` is accepted exactly when the regex matches `u`.
pub proof fn law_path_matches_the_uri(p: Seq<char>, r: RequestView, m: Seq<char>, u: Seq<char>)
    ensures
        matcher_matches(MatcherSpec::Path(p), r) == crate::bindings::spec_regex_is_match(p, r.uri),
        matcher_matches(MatcherSpec::Path(p), Request::builder_view(m, u))
            == crate::bindings::spec_regex_is_match(p, u),
{
}

/// A fresh builder makes an HTTP/1.1 request with the given method and URI,
/// no headers and no body.
pub proof fn law_fresh_builder_request(m: Seq<char>, u: Seq<char>)
    ensures
        Request::builder_view(m, u).version == HttpVersion::Http11,
        Request::builder_view(m, u).method == m,
        Request::builder_view(m, u).uri == u,
        Request::builder_view(m, u).headers == Map::<Seq<char>, Seq<Seq<u8>>>::empty(),
        Request::builder_view(m, u).body is None,
{
}

} // verus!
