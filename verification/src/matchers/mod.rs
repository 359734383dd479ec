//! Matchers that decide whether a request is the one a mock answers.
//!
//! Every matcher stands for a [`MatcherSpec`]; [`matcher_matches`] says which
//! requests it accepts, [`matcher_description`] how it describes itself and
//! [`match_type`] what kind of expectation it expresses.

use vstd::prelude::*;
use vstd::string::*;

use crate::mock::{IntoRequestMatcher, Request, RequestView};

pub mod and;
pub mod body;
pub mod header;
pub mod method;
pub mod or;
pub mod path;
pub mod query;

pub use self::and::{and, And};
pub use self::body::{
    body, exact_json_body, exact_xml_body, partial_json_body, partial_xml_body, try_body, Body,
    BodyWithExactJson, BodyWithExactXml, BodyWithPartialJson, BodyWithPartialXml,
};
pub use self::header::{
    basic_auth, header, header_value, jwt, try_header, try_header_value, AsHeaderName, BasicAuth,
    Header, HeaderValueMatcher, Jwt,
};
pub use self::method::{method, AsMethod, Method};
pub use self::or::{or, Or};
pub use self::path::{path, try_path, Path};
pub use self::query::{query_param, query_value, try_query_param, try_query_value, QueryParam, QueryValue};

verus! {

/// The kind of expectation that a matcher expresses.
#[derive(Debug, Clone, Copy, PartialEq, Eq, Structural)]
pub enum MatchType {
    To,
    ToBe,
    ToHave,
}

/// What a matcher checks, as plain values.
pub enum MatcherSpec {
    /// The request's method has this name.
    Method(Seq<char>),
    /// The regex matches the request's URI text.
    Path(Seq<char>),
    /// The regex matches the name of some query parameter.
    QueryParam(Seq<char>),
    /// The regex matches the value of some query parameter.
    QueryValue(Seq<char>),
    /// The request has a header of this small-case name.
    Header(Seq<char>),
    /// The request has a header of this name whose text the regex matches.
    HeaderValue(Seq<char>, Seq<char>),
    /// The authorization header is `Bearer ` and this token.
    Jwt(Seq<char>),
    /// The authorization header is `Basic ` and the base64 encoding of
    /// `user:password`.
    BasicAuth(Seq<char>, Seq<char>),
    /// The regex matches the body read as UTF-8 (lossily).
    Body(Seq<char>),
    /// The body is exactly the UTF-8 encoding of this JSON text.
    ExactJson(Seq<char>),
    /// The JSONPath query has a result in the body.
    PartialJson(Seq<char>),
    /// The body is exactly the UTF-8 encoding of this XML text.
    ExactXml(Seq<char>),
    /// The XPath query has a result in the body.
    PartialXml(Seq<char>),
    /// Every one of the matchers matches.
    All(Seq<MatcherSpec>),
    /// Some one of the matchers matches.
    Any(Seq<MatcherSpec>),
}

/// A header value as the matchers read it: the text that
/// `http::HeaderValue::to_str` gives, or the empty text where it fails.
pub open spec fn value_text(b: Seq<u8>) -> Seq<char> {
    match crate::bindings::to_str_outcome(b) {
        Some(t) => t,
        None => Seq::empty(),
    }
}

/// The value of header `name` as the matchers read it, if the request has it.
pub open spec fn header_of(r: RequestView, name: Seq<char>) -> Option<Seq<char>> {
    match crate::bindings::first_value(r.headers, name) {
        Some(b) => Some(value_text(b)),
        None => None,
    }
}

/// The regex `p` matches some key of `q`.
pub open spec fn some_key_matches(q: Map<Seq<char>, Seq<char>>, p: Seq<char>) -> bool {
    exists|k: Seq<char>| #[trigger] q.contains_key(k) && crate::bindings::spec_regex_is_match(p, k)
}

/// The regex `p` matches the value of some key of `q`.
pub open spec fn some_value_matches(q: Map<Seq<char>, Seq<char>>, p: Seq<char>) -> bool {
    exists|k: Seq<char>| #[trigger] q.contains_key(k) && crate::bindings::spec_regex_is_match(p, q[k])
}

/// The authorization header reads `Bearer ` followed by `token`.
pub open spec fn bearer_authorization(r: RequestView, token: Seq<char>) -> bool {
    header_of(r, "authorization"@) == Some("Bearer "@ + token)
}

/// The credentials `user:password` as the `Basic` scheme sends them: the
/// base64 encoding of their UTF-8 bytes.
pub open spec fn basic_credentials(user: Seq<char>, password: Seq<char>) -> Seq<char> {
    crate::base64::base64_encode(vstd::utf8::encode_utf8(user + ":"@ + password))
}

/// The authorization header reads `Basic ` followed by the encoded
/// credentials of `user` and `password`.
pub open spec fn basic_authorization(r: RequestView, user: Seq<char>, password: Seq<char>) -> bool {
    header_of(r, "authorization"@) == Some("Basic "@ + basic_credentials(user, password))
}

/// Whether the matcher `m` accepts the request `r`.
pub open spec fn matcher_matches(m: MatcherSpec, r: RequestView) -> bool
    decreases m,
{
    match m {
        MatcherSpec::Method(name) => r.method == name,
        MatcherSpec::Path(p) => crate::bindings::spec_regex_is_match(p, r.uri),
        MatcherSpec::QueryParam(p) => r.query_params matches Some(q) && some_key_matches(q, p),
        MatcherSpec::QueryValue(p) => r.query_params matches Some(q) && some_value_matches(q, p),
        MatcherSpec::Header(name) => crate::bindings::first_value(r.headers, name) is Some,
        MatcherSpec::HeaderValue(name, p) => header_of(r, name) matches Some(v)
            && crate::bindings::spec_regex_is_match(p, v),
        MatcherSpec::Jwt(token) => bearer_authorization(r, token),
        MatcherSpec::BasicAuth(user, password) => basic_authorization(r, user, password),
        MatcherSpec::Body(p) => r.body matches Some(b) && crate::bindings::spec_regex_is_match(
            p,
            crate::bindings::spec_utf8_lossy(b),
        ),
        MatcherSpec::ExactJson(text) => r.body == Some(vstd::utf8::encode_utf8(text)),
        MatcherSpec::PartialJson(query) => r.body matches Some(b)
            && crate::bindings::spec_json_query_count(crate::bindings::spec_utf8_lossy(b), query)
            matches Some(n) && n > 0,
        MatcherSpec::ExactXml(text) => r.body == Some(vstd::utf8::encode_utf8(text)),
        MatcherSpec::PartialXml(query) => r.body matches Some(b)
            && crate::bindings::spec_xpath_count(b, query) matches Some(Some(n)) && n > 0,
        MatcherSpec::All(ms) => all_accept(ms, r),
        MatcherSpec::Any(ms) => any_accepts(ms, r),
    }
}

/// Every one of the matchers accepts the request.
pub open spec fn all_accept(ms: Seq<MatcherSpec>, r: RequestView) -> bool
    decreases ms,
{
    if ms.len() == 0 {
        true
    } else {
        all_accept(ms.subrange(0, ms.len() - 1), r) && matcher_matches(ms[ms.len() - 1], r)
    }
}

/// Some one of the matchers accepts the request.
pub open spec fn any_accepts(ms: Seq<MatcherSpec>, r: RequestView) -> bool
    decreases ms,
{
    if ms.len() == 0 {
        false
    } else {
        any_accepts(ms.subrange(0, ms.len() - 1), r) || matcher_matches(ms[ms.len() - 1], r)
    }
}

/// Whether checking the matcher `m` against the request `r` returns: every
/// outside call that the check makes returns. Only the XML query may not
/// (`simdxml::parse` panics on some malformed documents); a combination makes the calls of its matchers up to the first
/// that decides it.
pub open spec fn evaluates(m: MatcherSpec, r: RequestView) -> bool
    decreases m,
{
    match m {
        MatcherSpec::PartialXml(query) => r.body matches Some(b)
            ==> crate::bindings::spec_xpath_count(b, query) is Some,
        MatcherSpec::All(ms) => all_evaluate(ms, r),
        MatcherSpec::Any(ms) => any_evaluate(ms, r),
        _ => true,
    }
}

/// Checking the matchers in turn, up to the first that rejects, returns.
pub open spec fn all_evaluate(ms: Seq<MatcherSpec>, r: RequestView) -> bool
    decreases ms,
{
    if ms.len() == 0 {
        true
    } else {
        let init = ms.subrange(0, ms.len() - 1);
        all_evaluate(init, r) && (all_accept(init, r) ==> evaluates(ms[ms.len() - 1], r))
    }
}

/// Checking the matchers in turn, up to the first that accepts, returns.
pub open spec fn any_evaluate(ms: Seq<MatcherSpec>, r: RequestView) -> bool
    decreases ms,
{
    if ms.len() == 0 {
        true
    } else {
        let init = ms.subrange(0, ms.len() - 1);
        any_evaluate(init, r) && (!any_accepts(init, r) ==> evaluates(ms[ms.len() - 1], r))
    }
}

/// Where checking matchers in turn returns and the first `i` accept, checking
/// the next one returns.
pub proof fn lemma_all_evaluate(ms: Seq<MatcherSpec>, r: RequestView, i: int)
    requires
        all_evaluate(ms, r),
        0 <= i < ms.len(),
        all_accept(ms.subrange(0, i), r),
    ensures
        evaluates(ms[i], r),
    decreases ms.len(),
{
    let init = ms.subrange(0, ms.len() - 1);
    if i < ms.len() - 1 {
        assert(init.subrange(0, i) =~= ms.subrange(0, i));
        lemma_all_evaluate(init, r, i);
    } else {
        assert(ms.subrange(0, i) =~= init);
    }
}

/// Where checking matchers in turn returns and the first `i` reject, checking
/// the next one returns.
pub proof fn lemma_any_evaluate(ms: Seq<MatcherSpec>, r: RequestView, i: int)
    requires
        any_evaluate(ms, r),
        0 <= i < ms.len(),
        !any_accepts(ms.subrange(0, i), r),
    ensures
        evaluates(ms[i], r),
    decreases ms.len(),
{
    let init = ms.subrange(0, ms.len() - 1);
    if i < ms.len() - 1 {
        assert(init.subrange(0, i) =~= ms.subrange(0, i));
        lemma_any_evaluate(init, r, i);
    } else {
        assert(ms.subrange(0, i) =~= init);
    }
}

/// `all_accept` holds exactly when each matcher accepts the request.
pub proof fn lemma_all_accept(ms: Seq<MatcherSpec>, r: RequestView)
    ensures
        all_accept(ms, r) <==> forall|i: int| 0 <= i < ms.len() ==> #[trigger] matcher_matches(ms[i], r),
    decreases ms.len(),
{
    if ms.len() > 0 {
        let sub = ms.subrange(0, ms.len() - 1);
        lemma_all_accept(sub, r);
        if all_accept(ms, r) {
            assert forall|i: int| 0 <= i < ms.len() implies #[trigger] matcher_matches(ms[i], r) by {
                if i < ms.len() - 1 {
                    assert(sub[i] == ms[i]);
                }
            }
        }
        if forall|i: int| 0 <= i < ms.len() ==> #[trigger] matcher_matches(ms[i], r) {
            assert(matcher_matches(ms[ms.len() - 1], r));
            assert forall|i: int| 0 <= i < sub.len() implies #[trigger] matcher_matches(sub[i], r) by {
                assert(sub[i] == ms[i]);
            }
        }
    }
}

/// `any_accepts` holds exactly when some matcher accepts the request.
pub proof fn lemma_any_accepts(ms: Seq<MatcherSpec>, r: RequestView)
    ensures
        any_accepts(ms, r) <==> exists|i: int| 0 <= i < ms.len() && #[trigger] matcher_matches(ms[i], r),
    decreases ms.len(),
{
    if ms.len() > 0 {
        let sub = ms.subrange(0, ms.len() - 1);
        lemma_any_accepts(sub, r);
        if any_accepts(sub, r) {
            let i = choose|i: int| 0 <= i < sub.len() && #[trigger] matcher_matches(sub[i], r);
            assert(sub[i] == ms[i]);
            assert(matcher_matches(ms[i], r));
        }
        if matcher_matches(ms[ms.len() - 1], r) {
            assert(matcher_matches(ms[ms.len() - 1], r));
        }
        if exists|i: int| 0 <= i < ms.len() && #[trigger] matcher_matches(ms[i], r) {
            let i = choose|i: int| 0 <= i < ms.len() && #[trigger] matcher_matches(ms[i], r);
            if i < ms.len() - 1 {
                assert(sub[i] == ms[i]);
                assert(matcher_matches(sub[i], r));
            }
        }
    }
}

/// How `regex::Regex` formats itself with `{:?}`: `Regex(` and the pattern as
/// `str` formats itself, then `)`.
pub open spec fn regex_debug(p: Seq<char>) -> Seq<char> {
    "Regex("@ + crate::text::debug_str(p) + ")"@
}

/// The description of a matcher, as it appears in a failed expectation.
pub open spec fn matcher_description(m: MatcherSpec) -> Seq<char>
    decreases m,
{
    match m {
        MatcherSpec::Method(name) => "method matching "@ + name,
        MatcherSpec::Path(p) => "path matching "@ + regex_debug(p),
        MatcherSpec::QueryParam(p) => "query param matching "@ + regex_debug(p),
        MatcherSpec::QueryValue(p) => "query value matching "@ + regex_debug(p),
        MatcherSpec::Header(name) => "header matching "@ + name,
        MatcherSpec::HeaderValue(name, p) => "header "@ + name + " with value matching "@
            + regex_debug(p),
        MatcherSpec::Jwt(token) => "JWT token matching "@ + token,
        MatcherSpec::BasicAuth(user, password) => "Basic auth with username "@ + user
            + " and password "@ + password,
        MatcherSpec::Body(p) => "body contents matching "@ + regex_debug(p),
        MatcherSpec::ExactJson(text) => "body contents matching "@ + text,
        MatcherSpec::PartialJson(query) => "body contents containing "@ + query,
        MatcherSpec::ExactXml(text) => "body contents matching "@ + text,
        MatcherSpec::PartialXml(query) => "body contents containing "@ + query,
        MatcherSpec::All(ms) => joined_descriptions(ms, " and "@),
        MatcherSpec::Any(ms) => joined_descriptions(ms, " or "@),
    }
}

/// The descriptions of the matchers, joined by `sep`.
pub open spec fn joined_descriptions(ms: Seq<MatcherSpec>, sep: Seq<char>) -> Seq<char>
    decreases ms,
{
    if ms.len() == 0 {
        Seq::empty()
    } else if ms.len() == 1 {
        matcher_description(ms[0])
    } else {
        joined_descriptions(ms.subrange(0, ms.len() - 1), sep) + sep + matcher_description(
            ms[ms.len() - 1],
        )
    }
}

/// The kind of expectation of a matcher: a combination takes that of its
/// first matcher (`To` when it has none), every other matcher is `ToHave`.
pub open spec fn match_type(m: MatcherSpec) -> MatchType
    decreases m,
{
    match m {
        MatcherSpec::All(ms) => if ms.len() == 0 {
            MatchType::To
        } else {
            match_type(ms[0])
        },
        MatcherSpec::Any(ms) => if ms.len() == 0 {
            MatchType::To
        } else {
            match_type(ms[0])
        },
        _ => MatchType::ToHave,
    }
}

/// A matcher of requests.
pub enum RequestMatcher {
    Method(Method),
    Path(Path),
    QueryParam(QueryParam),
    QueryValue(QueryValue),
    Header(Header),
    HeaderValue(HeaderValueMatcher),
    Jwt(Jwt),
    BasicAuth(BasicAuth),
    Body(Body),
    ExactJson(BodyWithExactJson),
    PartialJson(BodyWithPartialJson),
    ExactXml(BodyWithExactXml),
    PartialXml(BodyWithPartialXml),
    And(And),
    Or(Or),
}

/// The specs of a sequence of matchers.
pub closed spec fn matcher_views(ms: Seq<RequestMatcher>) -> Seq<MatcherSpec>
    decreases ms,
{
    if ms.len() == 0 {
        Seq::empty()
    } else {
        matcher_views(ms.subrange(0, ms.len() - 1)).push(ms[ms.len() - 1].view())
    }
}

/// `matcher_views` maps each matcher to its spec.
pub proof fn lemma_matcher_views(ms: Seq<RequestMatcher>)
    ensures
        matcher_views(ms) == ms.map_values(|m: RequestMatcher| m@),
    decreases ms.len(),
{
    if ms.len() > 0 {
        let sub = ms.subrange(0, ms.len() - 1);
        lemma_matcher_views(sub);
        assert(matcher_views(ms) == matcher_views(sub).push(ms[ms.len() - 1]@));
        assert forall|i: int| 0 <= i < ms.len() implies #[trigger] matcher_views(ms)[i] == ms[i]@ by {
            if i < ms.len() - 1 {
                assert(sub[i] == ms[i]);
                assert(sub.map_values(|m: RequestMatcher| m@)[i] == sub[i]@);
            }
        }
    }
    assert(matcher_views(ms) =~= ms.map_values(|m: RequestMatcher| m@));
}

impl View for RequestMatcher {
    type V = MatcherSpec;

    closed spec fn view(&self) -> MatcherSpec
        decreases self,
    {
        match self {
            RequestMatcher::Method(m) => m@,
            RequestMatcher::Path(m) => m@,
            RequestMatcher::QueryParam(m) => m@,
            RequestMatcher::QueryValue(m) => m@,
            RequestMatcher::Header(m) => m@,
            RequestMatcher::HeaderValue(m) => m@,
            RequestMatcher::Jwt(m) => m@,
            RequestMatcher::BasicAuth(m) => m@,
            RequestMatcher::Body(m) => m@,
            RequestMatcher::ExactJson(m) => m@,
            RequestMatcher::PartialJson(m) => m@,
            RequestMatcher::ExactXml(m) => m@,
            RequestMatcher::PartialXml(m) => m@,
            RequestMatcher::And(m) => m@,
            RequestMatcher::Or(m) => m@,
        }
    }
}

impl View for And {
    type V = MatcherSpec;

    closed spec fn view(&self) -> MatcherSpec
        decreases self,
    {
        MatcherSpec::All(matcher_views(self.matchers@))
    }
}

impl View for Or {
    type V = MatcherSpec;

    closed spec fn view(&self) -> MatcherSpec
        decreases self,
    {
        MatcherSpec::Any(matcher_views(self.matchers@))
    }
}

/// An `And` stands for all of its matchers.
pub(crate) proof fn lemma_and_view(a: &And)
    ensures
        a@ == MatcherSpec::All(a.matchers@.map_values(|m: RequestMatcher| m@)),
{
    lemma_matcher_views(a.matchers@);
}

/// An `Or` stands for any one of its matchers.
pub(crate) proof fn lemma_or_view(a: &Or)
    ensures
        a@ == MatcherSpec::Any(a.matchers@.map_values(|m: RequestMatcher| m@)),
{
    lemma_matcher_views(a.matchers@);
}

impl RequestMatcher {
    /// Whether the matcher accepts the request. The XML queries that the
    /// check runs must return (see `evaluates`).
    pub fn matches(&self, value: &Request) -> (r: bool)
        requires
            evaluates(self@, value@),
        ensures
            r == matcher_matches(self@, value@),
        decreases self,
    {
        match self {
            RequestMatcher::Method(m) => m.matches(value),
            RequestMatcher::Path(m) => m.matches(value),
            RequestMatcher::QueryParam(m) => m.matches(value),
            RequestMatcher::QueryValue(m) => m.matches(value),
            RequestMatcher::Header(m) => m.matches(value),
            RequestMatcher::HeaderValue(m) => m.matches(value),
            RequestMatcher::Jwt(m) => m.matches(value),
            RequestMatcher::BasicAuth(m) => m.matches(value),
            RequestMatcher::Body(m) => m.matches(value),
            RequestMatcher::ExactJson(m) => m.matches(value),
            RequestMatcher::PartialJson(m) => m.matches(value),
            RequestMatcher::ExactXml(m) => m.matches(value),
            RequestMatcher::PartialXml(m) => m.matches(value),
            RequestMatcher::And(m) => m.matches(value),
            RequestMatcher::Or(m) => m.matches(value),
        }
    }

    /// The description of the matcher.
    pub fn description(&self) -> (r: String)
        ensures
            r@ == matcher_description(self@),
        decreases self,
    {
        match self {
            RequestMatcher::Method(m) => m.description(),
            RequestMatcher::Path(m) => m.description(),
            RequestMatcher::QueryParam(m) => m.description(),
            RequestMatcher::QueryValue(m) => m.description(),
            RequestMatcher::Header(m) => m.description(),
            RequestMatcher::HeaderValue(m) => m.description(),
            RequestMatcher::Jwt(m) => m.description(),
            RequestMatcher::BasicAuth(m) => m.description(),
            RequestMatcher::Body(m) => m.description(),
            RequestMatcher::ExactJson(m) => m.description(),
            RequestMatcher::PartialJson(m) => m.description(),
            RequestMatcher::ExactXml(m) => m.description(),
            RequestMatcher::PartialXml(m) => m.description(),
            RequestMatcher::And(m) => m.description(),
            RequestMatcher::Or(m) => m.description(),
        }
    }

    /// The kind of expectation that the matcher expresses.
    pub fn matcher_type(&self) -> (r: MatchType)
        ensures
            r == match_type(self@),
        decreases self,
    {
        match self {
            RequestMatcher::Method(m) => m.matcher_type(),
            RequestMatcher::Path(m) => m.matcher_type(),
            RequestMatcher::QueryParam(m) => m.matcher_type(),
            RequestMatcher::QueryValue(m) => m.matcher_type(),
            RequestMatcher::Header(m) => m.matcher_type(),
            RequestMatcher::HeaderValue(m) => m.matcher_type(),
            RequestMatcher::Jwt(m) => m.matcher_type(),
            RequestMatcher::BasicAuth(m) => m.matcher_type(),
            RequestMatcher::Body(m) => m.matcher_type(),
            RequestMatcher::ExactJson(m) => m.matcher_type(),
            RequestMatcher::PartialJson(m) => m.matcher_type(),
            RequestMatcher::ExactXml(m) => m.matcher_type(),
            RequestMatcher::PartialXml(m) => m.matcher_type(),
            RequestMatcher::And(m) => m.matcher_type(),
            RequestMatcher::Or(m) => m.matcher_type(),
        }
    }
}

/// Whether every matcher of `ms` accepts the request.
pub(crate) fn all_match(ms: &Vec<RequestMatcher>, value: &Request) -> (r: bool)
    requires
        all_evaluate(ms@.map_values(|m: RequestMatcher| m@), value@),
    ensures
        r == matcher_matches(MatcherSpec::All(ms@.map_values(|m: RequestMatcher| m@)), value@),
    decreases ms,
{
    let ghost views = ms@.map_values(|m: RequestMatcher| m@);
    let n = ms.len();
    let mut i: usize = 0;
    while i < n
        invariant
            n == ms@.len(),
            i <= n,
            views == ms@.map_values(|m: RequestMatcher| m@),
            all_accept(views.subrange(0, i as int), value@),
            all_evaluate(views, value@),
        decreases n - i,
    {
        proof {
            lemma_all_evaluate(views, value@, i as int);
        }
        let ok = ms[i].matches(value);
        proof {
            assert(views.subrange(0, i + 1).subrange(0, i as int) =~= views.subrange(0, i as int));
            lemma_all_accept(views.subrange(0, i + 1), value@);
            lemma_all_accept(views, value@);
        }
        if !ok {
            assert(!matcher_matches(views[i as int], value@));
            return false;
        }
        i = i + 1;
    }
    assert(views.subrange(0, n as int) =~= views);
    true
}

/// Whether some matcher of `ms` accepts the request.
pub(crate) fn any_match(ms: &Vec<RequestMatcher>, value: &Request) -> (r: bool)
    requires
        any_evaluate(ms@.map_values(|m: RequestMatcher| m@), value@),
    ensures
        r == matcher_matches(MatcherSpec::Any(ms@.map_values(|m: RequestMatcher| m@)), value@),
    decreases ms,
{
    let ghost views = ms@.map_values(|m: RequestMatcher| m@);
    let n = ms.len();
    let mut i: usize = 0;
    while i < n
        invariant
            n == ms@.len(),
            i <= n,
            views == ms@.map_values(|m: RequestMatcher| m@),
            !any_accepts(views.subrange(0, i as int), value@),
            any_evaluate(views, value@),
        decreases n - i,
    {
        proof {
            lemma_any_evaluate(views, value@, i as int);
        }
        let ok = ms[i].matches(value);
        proof {
            assert(views.subrange(0, i + 1).subrange(0, i as int) =~= views.subrange(0, i as int));
            lemma_any_accepts(views, value@);
        }
        if ok {
            assert(matcher_matches(views[i as int], value@));
            return true;
        }
        i = i + 1;
    }
    assert(views.subrange(0, n as int) =~= views);
    false
}

/// The descriptions of the matchers of `ms`, joined by `sep`.
pub(crate) fn join_descriptions(ms: &Vec<RequestMatcher>, sep: &str) -> (r: String)
    ensures
        r@ == joined_descriptions(ms@.map_values(|m: RequestMatcher| m@), sep@),
    decreases ms,
{
    let ghost views = ms@.map_values(|m: RequestMatcher| m@);
    let n = ms.len();
    let mut r = String::new();
    let mut i: usize = 0;
    while i < n
        invariant
            n == ms@.len(),
            views == ms@.map_values(|m: RequestMatcher| m@),
            i <= n,
            r@ == joined_descriptions(views.subrange(0, i as int), sep@),
        decreases n - i,
    {
        let d = ms[i].description();
        if i > 0 {
            r.append(sep);
        }
        r.append(d.as_str());
        proof {
            let next = views.subrange(0, i + 1);
            assert(next.subrange(0, i as int) =~= views.subrange(0, i as int));
            assert(next[i as int] == views[i as int]);
            if i == 0 {
                assert(joined_descriptions(views.subrange(0, 0), sep@) =~= Seq::<char>::empty());
            }
        }
        i = i + 1;
    }
    assert(views.subrange(0, n as int) =~= views);
    r
}

/// The text `Regex("...")` that `regex::Regex` gives for `{:?}`.
pub(crate) fn regex_debug_text(p: &str) -> (r: String)
    ensures
        r@ == regex_debug(p@),
{
    let quoted = crate::text::debug_str_of(p);
    let mut r = crate::text::concat("Regex(", quoted.as_str());
    r.append(")");
    r
}

impl IntoRequestMatcher for RequestMatcher {
    open spec fn matcher_spec(&self) -> MatcherSpec {
        self@
    }

    fn into_matcher(self) -> (r: RequestMatcher) {
        self
    }
}

impl IntoRequestMatcher for Method {
    open spec fn matcher_spec(&self) -> MatcherSpec {
        self@
    }

    fn into_matcher(self) -> (r: RequestMatcher) {
        RequestMatcher::Method(self)
    }
}

impl IntoRequestMatcher for Path {
    open spec fn matcher_spec(&self) -> MatcherSpec {
        self@
    }

    fn into_matcher(self) -> (r: RequestMatcher) {
        RequestMatcher::Path(self)
    }
}

impl IntoRequestMatcher for QueryParam {
    open spec fn matcher_spec(&self) -> MatcherSpec {
        self@
    }

    fn into_matcher(self) -> (r: RequestMatcher) {
        RequestMatcher::QueryParam(self)
    }
}

impl IntoRequestMatcher for QueryValue {
    open spec fn matcher_spec(&self) -> MatcherSpec {
        self@
    }

    fn into_matcher(self) -> (r: RequestMatcher) {
        RequestMatcher::QueryValue(self)
    }
}

impl IntoRequestMatcher for Header {
    open spec fn matcher_spec(&self) -> MatcherSpec {
        self@
    }

    fn into_matcher(self) -> (r: RequestMatcher) {
        RequestMatcher::Header(self)
    }
}

impl IntoRequestMatcher for HeaderValueMatcher {
    open spec fn matcher_spec(&self) -> MatcherSpec {
        self@
    }

    fn into_matcher(self) -> (r: RequestMatcher) {
        RequestMatcher::HeaderValue(self)
    }
}

impl IntoRequestMatcher for Jwt {
    open spec fn matcher_spec(&self) -> MatcherSpec {
        self@
    }

    fn into_matcher(self) -> (r: RequestMatcher) {
        RequestMatcher::Jwt(self)
    }
}

impl IntoRequestMatcher for BasicAuth {
    open spec fn matcher_spec(&self) -> MatcherSpec {
        self@
    }

    fn into_matcher(self) -> (r: RequestMatcher) {
        RequestMatcher::BasicAuth(self)
    }
}

impl IntoRequestMatcher for Body {
    open spec fn matcher_spec(&self) -> MatcherSpec {
        self@
    }

    fn into_matcher(self) -> (r: RequestMatcher) {
        RequestMatcher::Body(self)
    }
}

impl IntoRequestMatcher for BodyWithExactJson {
    open spec fn matcher_spec(&self) -> MatcherSpec {
        self@
    }

    fn into_matcher(self) -> (r: RequestMatcher) {
        RequestMatcher::ExactJson(self)
    }
}

impl IntoRequestMatcher for BodyWithPartialJson {
    open spec fn matcher_spec(&self) -> MatcherSpec {
        self@
    }

    fn into_matcher(self) -> (r: RequestMatcher) {
        RequestMatcher::PartialJson(self)
    }
}

impl IntoRequestMatcher for BodyWithExactXml {
    open spec fn matcher_spec(&self) -> MatcherSpec {
        self@
    }

    fn into_matcher(self) -> (r: RequestMatcher) {
        RequestMatcher::ExactXml(self)
    }
}

impl IntoRequestMatcher for BodyWithPartialXml {
    open spec fn matcher_spec(&self) -> MatcherSpec {
        self@
    }

    fn into_matcher(self) -> (r: RequestMatcher) {
        RequestMatcher::PartialXml(self)
    }
}

impl IntoRequestMatcher for And {
    open spec fn matcher_spec(&self) -> MatcherSpec {
        self@
    }

    fn into_matcher(self) -> (r: RequestMatcher) {
        RequestMatcher::And(self)
    }
}

impl IntoRequestMatcher for Or {
    open spec fn matcher_spec(&self) -> MatcherSpec {
        self@
    }

    fn into_matcher(self) -> (r: RequestMatcher) {
        RequestMatcher::Or(self)
    }
}

} // verus!
