use vstd::prelude::*;

use super::{
    any_match, join_descriptions, lemma_or_view, lemma_matcher_views, MatchType, MatcherSpec, RequestMatcher,
};
use crate::mock::Request;

verus! {

/// A matcher for requests that some one of `matchers` accepts.
pub fn or(matchers: Vec<RequestMatcher>) -> (r: RequestMatcher)
    ensures
        r@ == MatcherSpec::Any(matchers@.map_values(|m: RequestMatcher| m@)),
{
    RequestMatcher::Or(Or::new(matchers))
}

/// A matcher that accepts the requests that any one of its matchers accepts.
pub struct Or {
    pub(crate) matchers: Vec<RequestMatcher>,
}

impl Or {
    /// A matcher for requests that some one of `matchers` accepts.
    pub fn new(matchers: Vec<RequestMatcher>) -> (r: Or)
        ensures
            r@ == MatcherSpec::Any(matchers@.map_values(|m: RequestMatcher| m@)),
    {
        proof {
            lemma_matcher_views(matchers@);
        }
        Or { matchers }
    }

    /// Whether some matcher accepts the request.
    pub fn matches(&self, value: &Request) -> (r: bool)
        requires
            super::evaluates(self@, value@),
        ensures
            r == super::matcher_matches(self@, value@),
        decreases self,
    {
        proof {
            lemma_or_view(self);
        }
        any_match(&self.matchers, value)
    }

    /// The descriptions of the matchers, joined by ` or `.
    pub fn description(&self) -> (r: String)
        ensures
            r@ == super::matcher_description(self@),
        decreases self,
    {
        proof {
            lemma_or_view(self);
        }
        join_descriptions(&self.matchers, " or ")
    }

    /// The kind of expectation of the first matcher, `To` when there is none.
    pub fn matcher_type(&self) -> (r: MatchType)
        ensures
            r == super::match_type(self@),
        decreases self,
    {
        proof {
            lemma_or_view(self);
        }
        if self.matchers.len() == 0 {
            MatchType::To
        } else {
            self.matchers[0].matcher_type()
        }
    }
}

} // verus!
