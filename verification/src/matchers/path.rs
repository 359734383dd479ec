use vstd::prelude::*;

use super::{regex_debug_text, MatcherSpec, RequestMatcher, MatchType};
use crate::bindings::{regex_compiles, regex_is_match, spec_regex_valid};
use crate::mock::Request;
use crate::text::concat;

verus! {

/// A matcher that accepts requests whose URI text the regex matches.
pub struct Path(pub(crate) String);

impl View for Path {
    type V = MatcherSpec;

    closed spec fn view(&self) -> MatcherSpec {
        MatcherSpec::Path(self.0@)
    }
}

/// A matcher for request URIs that the regex `value` matches; `value` must
/// be a pattern that `regex` compiles.
pub fn path(value: &str) -> (r: RequestMatcher)
    requires
        spec_regex_valid(value@),
    ensures
        r@ == MatcherSpec::Path(value@),
{
    RequestMatcher::Path(Path(value.to_owned()))
}

/// `path(value)` where `regex` compiles `value`; `None` otherwise.
pub fn try_path(value: &str) -> (r: Option<RequestMatcher>)
    ensures
        r is Some <==> spec_regex_valid(value@),
        r matches Some(m) ==> m@ == MatcherSpec::Path(value@),
{
    if regex_compiles(value) {
        Some(path(value))
    } else {
        None
    }
}

impl Path {
    #[verifier::type_invariant]
    closed spec fn inv(self) -> bool {
        spec_regex_valid(self.0@)
    }

    /// Whether the regex matches the request's URI text.
    pub fn matches(&self, value: &Request) -> (r: bool)
        ensures
            r == super::matcher_matches(self@, value@),
    {
        proof {
            use_type_invariant(self);
        }
        regex_is_match(self.0.as_str(), value.path().as_str())
    }

    /// `path matching Regex("...")`.
    pub fn description(&self) -> (r: String)
        ensures
            r@ == super::matcher_description(self@),
    {
        concat("path matching ", regex_debug_text(self.0.as_str()).as_str())
    }

    /// `ToHave`.
    pub fn matcher_type(&self) -> (r: MatchType)
        ensures
            r == super::match_type(self@),
    {
        MatchType::ToHave
    }
}

} // verus!
