use vstd::prelude::*;
use vstd::string::*;

use super::{regex_debug_text, MatchType, MatcherSpec};
use crate::bindings::{
    ascii_lower, ascii_upper, header_name_valid, regex_compiles, regex_is_match, spec_regex_valid,
    spec_to_uppercase, to_uppercase,
};
use crate::http_types::HeaderName;
use crate::mock::Request;
use crate::base64::encode;
use crate::bindings::header_map_get_str;
use crate::text::{concat, text_eq, text_is};

verus! {

/// Values that name an HTTP header.
pub trait AsHeaderName: Sized {
    /// Whether the value names a header.
    spec fn names_header(&self) -> bool;

    /// The small-case name of the header that the value names.
    spec fn header_name_of(&self) -> Seq<char>;

    /// The header name that the value names.
    fn into_header_name(self) -> (r: HeaderName)
        requires
            self.names_header(),
        ensures
            r@ == self.header_name_of(),
    ;
}

impl AsHeaderName for HeaderName {
    open spec fn names_header(&self) -> bool {
        true
    }

    open spec fn header_name_of(&self) -> Seq<char> {
        self@
    }

    fn into_header_name(self) -> (r: HeaderName) {
        self
    }
}

/// A text in upper case as `str::to_uppercase` gives it: for ASCII text, its
/// ASCII letters in capitals.
pub open spec fn upper_case(s: Seq<char>) -> Seq<char> {
    if vstd::utf8::is_ascii_chars(s) {
        ascii_upper(s)
    } else {
        spec_to_uppercase(s)
    }
}

/// Turning an ASCII text into capitals and then into small letters gives the
/// text in small letters: a header matcher built from an ASCII name looks up
/// that name in small case.
pub proof fn lemma_ascii_upper_then_lower(s: Seq<char>)
    requires
        vstd::utf8::is_ascii_chars(s),
    ensures
        ascii_lower(upper_case(s)) == ascii_lower(s),
{
    assert(ascii_lower(ascii_upper(s)) =~= ascii_lower(s));
}

impl AsHeaderName for String {
    /// The text, turned into upper case by `str::to_uppercase`, is a valid
    /// header name.
    open spec fn names_header(&self) -> bool {
        header_name_valid(upper_case(self@))
    }

    open spec fn header_name_of(&self) -> Seq<char> {
        ascii_lower(upper_case(self@))
    }

    fn into_header_name(self) -> (r: HeaderName) {
        let upper = to_uppercase(self.as_str());
        match HeaderName::parse(upper.as_str()) {
            Some(name) => name,
            None => {
                assert(false);
                HeaderName::from_static("x")
            },
        }
    }
}

impl AsHeaderName for &str {
    open spec fn names_header(&self) -> bool {
        header_name_valid(upper_case((*self)@))
    }

    open spec fn header_name_of(&self) -> Seq<char> {
        ascii_lower(upper_case((*self)@))
    }

    fn into_header_name(self) -> (r: HeaderName) {
        self.to_owned().into_header_name()
    }
}

/// A matcher for requests that have the header that `value` names.
pub fn header<H: AsHeaderName>(value: H) -> (r: Header)
    requires
        value.names_header(),
    ensures
        r@ == MatcherSpec::Header(value.header_name_of()),
{
    Header(value.into_header_name())
}

/// `header(value)` where `value` names a header; `None` otherwise.
pub fn try_header(value: &str) -> (r: Option<Header>)
    ensures
        r is Some <==> value.names_header(),
        r matches Some(m) ==> m@ == MatcherSpec::Header(value.header_name_of()),
{
    let upper = to_uppercase(value);
    if HeaderName::parse(upper.as_str()).is_some() {
        Some(header(value))
    } else {
        None
    }
}

/// A matcher that accepts requests that have a header.
pub struct Header(pub(crate) HeaderName);

impl View for Header {
    type V = MatcherSpec;

    closed spec fn view(&self) -> MatcherSpec {
        MatcherSpec::Header(self.0@)
    }
}

impl Header {
    /// Whether the request has the header.
    pub fn matches(&self, value: &Request) -> (r: bool)
        ensures
            r == super::matcher_matches(self@, value@),
    {
        header_text(value, self.0.as_str()).is_some()
    }

    /// `header matching` and the header's name.
    pub fn description(&self) -> (r: String)
        ensures
            r@ == super::matcher_description(self@),
    {
        concat("header matching ", self.0.as_str())
    }

    /// `ToHave`.
    pub fn matcher_type(&self) -> (r: MatchType)
        ensures
            r == super::match_type(self@),
    {
        MatchType::ToHave
    }
}

/// A matcher for requests whose header `name` has a value that the regex
/// `value` matches; `value` must be a pattern that `regex` compiles.
pub fn header_value<N: AsHeaderName>(name: N, value: &str) -> (r: HeaderValueMatcher)
    requires
        name.names_header(),
        spec_regex_valid(value@),
    ensures
        r@ == MatcherSpec::HeaderValue(name.header_name_of(), value@),
{
    HeaderValueMatcher { name: name.into_header_name(), regex: value.to_owned() }
}

/// `header_value(name, value)` where `name` names a header and `regex`
/// compiles `value`; `None` otherwise.
pub fn try_header_value(name: &str, value: &str) -> (r: Option<HeaderValueMatcher>)
    ensures
        r is Some <==> name.names_header() && spec_regex_valid(value@),
        r matches Some(m) ==> m@ == MatcherSpec::HeaderValue(name.header_name_of(), value@),
{
    let upper = to_uppercase(name);
    if HeaderName::parse(upper.as_str()).is_some() && regex_compiles(value) {
        Some(header_value(name, value))
    } else {
        None
    }
}

/// A matcher that accepts requests whose header value a regex matches.
pub struct HeaderValueMatcher {
    pub(crate) name: HeaderName,
    pub(crate) regex: String,
}

impl View for HeaderValueMatcher {
    type V = MatcherSpec;

    closed spec fn view(&self) -> MatcherSpec {
        MatcherSpec::HeaderValue(self.name@, self.regex@)
    }
}

impl HeaderValueMatcher {
    #[verifier::type_invariant]
    closed spec fn inv(self) -> bool {
        spec_regex_valid(self.regex@)
    }

    /// Whether the request has the header and the regex matches its text.
    pub fn matches(&self, value: &Request) -> (r: bool)
        ensures
            r == super::matcher_matches(self@, value@),
    {
        proof {
            use_type_invariant(self);
        }
        match header_text(value, self.name.as_str()) {
            Some(v) => regex_is_match(self.regex.as_str(), v.as_str()),
            None => false,
        }
    }

    /// `header <name> with value matching Regex("...")`.
    pub fn description(&self) -> (r: String)
        ensures
            r@ == super::matcher_description(self@),
    {
        let mut r = concat("header ", self.name.as_str());
        r.append(" with value matching ");
        r.append(regex_debug_text(self.regex.as_str()).as_str());
        r
    }

    /// `ToHave`.
    pub fn matcher_type(&self) -> (r: MatchType)
        ensures
            r == super::match_type(self@),
    {
        MatchType::ToHave
    }
}

/// The value of header `name` as the matchers read it: the text that
/// `http::HeaderValue::to_str` gives, or the empty text where it fails.
fn header_text(value: &Request, name: &str) -> (r: Option<String>)
    requires
        header_name_valid(name@),
        ascii_lower(name@) == name@,
    ensures
        match super::header_of(value@, name@) {
            Some(t) => r matches Some(s) && s@ == t,
            None => r is None,
        },
{
    match header_map_get_str(value.headers(), name) {
        Some(Some(t)) => Some(t),
        Some(None) => Some(String::new()),
        None => None,
    }
}

/// The authorization header of the request as the matchers read it.
fn authorization_text(value: &Request) -> (r: Option<String>)
    ensures
        match super::header_of(value@, "authorization"@) {
            Some(t) => r matches Some(s) && s@ == t,
            None => r is None,
        },
{
    proof {
        reveal_strlit("authorization");
        assert(ascii_lower("authorization"@) =~= "authorization"@);
    }
    header_text(value, "authorization")
}

/// A matcher for requests whose authorization header is `Bearer ` followed
/// by `token`.
pub fn jwt(token: &str) -> (r: Jwt)
    ensures
        r@ == MatcherSpec::Jwt(token@),
{
    Jwt { token: token.to_owned() }
}

/// A matcher that accepts requests that carry a given bearer token.
pub struct Jwt {
    pub(crate) token: String,
}

impl View for Jwt {
    type V = MatcherSpec;

    closed spec fn view(&self) -> MatcherSpec {
        MatcherSpec::Jwt(self.token@)
    }
}

impl Jwt {
    /// Whether the request's authorization header is `Bearer ` and the token.
    pub fn matches(&self, value: &Request) -> (r: bool)
        ensures
            r == super::matcher_matches(self@, value@),
    {
        match authorization_text(value) {
            Some(t) => text_eq(t.as_str(), concat("Bearer ", self.token.as_str()).as_str()),
            None => false,
        }
    }

    /// `JWT token matching` and the token.
    pub fn description(&self) -> (r: String)
        ensures
            r@ == super::matcher_description(self@),
    {
        concat("JWT token matching ", self.token.as_str())
    }

    /// `ToHave`.
    pub fn matcher_type(&self) -> (r: MatchType)
        ensures
            r == super::match_type(self@),
    {
        MatchType::ToHave
    }
}

/// A matcher for requests whose authorization header is `Basic ` followed by
/// the base64 encoding of `username:password`.
pub fn basic_auth(username: &str, password: &str) -> (r: BasicAuth)
    ensures
        r@ == MatcherSpec::BasicAuth(username@, password@),
{
    BasicAuth { username: username.to_owned(), password: password.to_owned() }
}

/// A matcher that accepts requests that carry given basic credentials.
pub struct BasicAuth {
    pub(crate) username: String,
    pub(crate) password: String,
}

impl View for BasicAuth {
    type V = MatcherSpec;

    closed spec fn view(&self) -> MatcherSpec {
        MatcherSpec::BasicAuth(self.username@, self.password@)
    }
}

impl BasicAuth {
    /// Whether the request's authorization header is `Basic ` and the
    /// encoded credentials.
    pub fn matches(&self, value: &Request) -> (r: bool)
        ensures
            r == super::matcher_matches(self@, value@),
    {
        let mut credentials = concat(self.username.as_str(), ":");
        credentials.append(self.password.as_str());
        let encoded = encode(credentials.as_str().as_bytes());
        match authorization_text(value) {
            Some(t) => text_is(t.as_str(), "Basic ", &encoded),
            None => false,
        }
    }

    /// `Basic auth with username <user> and password <password>`.
    pub fn description(&self) -> (r: String)
        ensures
            r@ == super::matcher_description(self@),
    {
        let mut r = concat("Basic auth with username ", self.username.as_str());
        r.append(" and password ");
        r.append(self.password.as_str());
        r
    }

    /// `ToHave`.
    pub fn matcher_type(&self) -> (r: MatchType)
        ensures
            r == super::match_type(self@),
    {
        MatchType::ToHave
    }
}

} // verus!
