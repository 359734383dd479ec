use vstd::prelude::*;

use super::{regex_debug_text, MatchType, MatcherSpec, RequestMatcher};
use crate::bindings::{
    json_query_count, regex_compiles, regex_is_match, spec_regex_valid, utf8_lossy, xpath_count,
};
use crate::mock::Request;
use crate::text::{bytes_eq, concat};

verus! {

/// A matcher for request bodies that the regex `value` matches, reading the
/// body as UTF-8 (lossily); `value` must be a pattern that `regex` compiles.
pub fn body(value: &str) -> (r: RequestMatcher)
    requires
        spec_regex_valid(value@),
    ensures
        r@ == MatcherSpec::Body(value@),
{
    RequestMatcher::Body(Body(value.to_owned()))
}

/// `body(value)` where `regex` compiles `value`; `None` otherwise.
pub fn try_body(value: &str) -> (r: Option<RequestMatcher>)
    ensures
        r is Some <==> spec_regex_valid(value@),
        r matches Some(m) ==> m@ == MatcherSpec::Body(value@),
{
    if regex_compiles(value) {
        Some(body(value))
    } else {
        None
    }
}

/// A matcher that accepts requests whose body a regex matches.
pub struct Body(pub(crate) String);

impl View for Body {
    type V = MatcherSpec;

    closed spec fn view(&self) -> MatcherSpec {
        MatcherSpec::Body(self.0@)
    }
}

impl Body {
    #[verifier::type_invariant]
    closed spec fn inv(self) -> bool {
        spec_regex_valid(self.0@)
    }

    /// Whether the request has a body that the regex matches.
    pub fn matches(&self, value: &Request) -> (r: bool)
        ensures
            r == super::matcher_matches(self@, value@),
    {
        proof {
            use_type_invariant(self);
        }
        match value.body() {
            Some(b) => {
                let text = utf8_lossy(b.as_slice());
                regex_is_match(self.0.as_str(), text.as_str())
            },
            None => false,
        }
    }

    /// `body contents matching Regex("...")`.
    pub fn description(&self) -> (r: String)
        ensures
            r@ == super::matcher_description(self@),
    {
        concat("body contents matching ", regex_debug_text(self.0.as_str()).as_str())
    }

    /// `ToHave`.
    pub fn matcher_type(&self) -> (r: MatchType)
        ensures
            r == super::match_type(self@),
    {
        MatchType::ToHave
    }
}

/// Whether the request's body is exactly the UTF-8 encoding of `text`.
fn body_is_text(value: &Request, text: &str) -> (r: bool)
    ensures
        r == (value@.body == Some(vstd::utf8::encode_utf8(text@))),
{
    match value.body() {
        Some(b) => bytes_eq(b.as_slice(), text.as_bytes()),
        None => false,
    }
}

/// A matcher for request bodies that are exactly the JSON text `json`
/// (the serialized form of the expected value).
pub fn exact_json_body(json: &str) -> (r: RequestMatcher)
    ensures
        r@ == MatcherSpec::ExactJson(json@),
{
    RequestMatcher::ExactJson(BodyWithExactJson(json.to_owned()))
}

/// A matcher that accepts requests whose body is exactly a JSON text.
pub struct BodyWithExactJson(pub(crate) String);

impl View for BodyWithExactJson {
    type V = MatcherSpec;

    closed spec fn view(&self) -> MatcherSpec {
        MatcherSpec::ExactJson(self.0@)
    }
}

impl BodyWithExactJson {
    /// Whether the request's body is exactly the JSON text.
    pub fn matches(&self, value: &Request) -> (r: bool)
        ensures
            r == super::matcher_matches(self@, value@),
    {
        body_is_text(value, self.0.as_str())
    }

    /// `body contents matching` and the JSON text.
    pub fn description(&self) -> (r: String)
        ensures
            r@ == super::matcher_description(self@),
    {
        concat("body contents matching ", self.0.as_str())
    }

    /// `ToHave`.
    pub fn matcher_type(&self) -> (r: MatchType)
        ensures
            r == super::match_type(self@),
    {
        MatchType::ToHave
    }
}

/// A matcher for request bodies in which the JSONPath query `value` finds
/// something.
pub fn partial_json_body(value: &str) -> (r: RequestMatcher)
    ensures
        r@ == MatcherSpec::PartialJson(value@),
{
    RequestMatcher::PartialJson(BodyWithPartialJson(value.to_owned()))
}

/// A matcher that accepts requests whose body a JSONPath query finds
/// something in.
pub struct BodyWithPartialJson(pub(crate) String);

impl View for BodyWithPartialJson {
    type V = MatcherSpec;

    closed spec fn view(&self) -> MatcherSpec {
        MatcherSpec::PartialJson(self.0@)
    }
}

impl BodyWithPartialJson {
    /// Whether the request's body, read as UTF-8 (lossily), is JSON in which
    /// the query finds at least one result.
    pub fn matches(&self, value: &Request) -> (r: bool)
        ensures
            r == super::matcher_matches(self@, value@),
    {
        match value.body() {
            Some(b) => {
                let text = utf8_lossy(b.as_slice());
                match json_query_count(text.as_str(), self.0.as_str()) {
                    Some(n) => n > 0,
                    None => false,
                }
            },
            None => false,
        }
    }

    /// `body contents containing` and the query.
    pub fn description(&self) -> (r: String)
        ensures
            r@ == super::matcher_description(self@),
    {
        concat("body contents containing ", self.0.as_str())
    }

    /// `ToHave`.
    pub fn matcher_type(&self) -> (r: MatchType)
        ensures
            r == super::match_type(self@),
    {
        MatchType::ToHave
    }
}

/// A matcher for request bodies that are exactly the XML text `xml` (the
/// serialized form of the expected value).
pub fn exact_xml_body(xml: &str) -> (r: RequestMatcher)
    ensures
        r@ == MatcherSpec::ExactXml(xml@),
{
    RequestMatcher::ExactXml(BodyWithExactXml(xml.to_owned()))
}

/// A matcher that accepts requests whose body is exactly an XML text.
pub struct BodyWithExactXml(pub(crate) String);

impl View for BodyWithExactXml {
    type V = MatcherSpec;

    closed spec fn view(&self) -> MatcherSpec {
        MatcherSpec::ExactXml(self.0@)
    }
}

impl BodyWithExactXml {
    /// Whether the request's body is exactly the XML text.
    pub fn matches(&self, value: &Request) -> (r: bool)
        ensures
            r == super::matcher_matches(self@, value@),
    {
        body_is_text(value, self.0.as_str())
    }

    /// `body contents matching` and the XML text.
    pub fn description(&self) -> (r: String)
        ensures
            r@ == super::matcher_description(self@),
    {
        concat("body contents matching ", self.0.as_str())
    }

    /// `ToHave`.
    pub fn matcher_type(&self) -> (r: MatchType)
        ensures
            r == super::match_type(self@),
    {
        MatchType::ToHave
    }
}

/// A matcher for request bodies in which the XPath query `value` finds
/// something.
pub fn partial_xml_body(value: &str) -> (r: RequestMatcher)
    ensures
        r@ == MatcherSpec::PartialXml(value@),
{
    RequestMatcher::PartialXml(BodyWithPartialXml(value.to_owned()))
}

/// A matcher that accepts requests whose body an XPath query finds
/// something in.
pub struct BodyWithPartialXml(pub(crate) String);

impl View for BodyWithPartialXml {
    type V = MatcherSpec;

    closed spec fn view(&self) -> MatcherSpec {
        MatcherSpec::PartialXml(self.0@)
    }
}

impl BodyWithPartialXml {
    /// Whether the request's body is XML in which the query finds at least
    /// one string. The query must return on the body.
    pub fn matches(&self, value: &Request) -> (r: bool)
        requires
            super::evaluates(self@, value@),
        ensures
            r == super::matcher_matches(self@, value@),
    {
        match value.body() {
            Some(b) => match xpath_count(b.as_slice(), self.0.as_str()) {
                Some(n) => n > 0,
                None => false,
            },
            None => false,
        }
    }

    /// `body contents containing` and the query.
    pub fn description(&self) -> (r: String)
        ensures
            r@ == super::matcher_description(self@),
    {
        concat("body contents containing ", self.0.as_str())
    }

    /// `ToHave`.
    pub fn matcher_type(&self) -> (r: MatchType)
        ensures
            r == super::match_type(self@),
    {
        MatchType::ToHave
    }
}

} // verus!
