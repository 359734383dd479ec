use vstd::prelude::*;

use super::{
    all_match, join_descriptions, lemma_and_view, lemma_matcher_views, MatchType, MatcherSpec, RequestMatcher,
};
use crate::mock::Request;

verus! {

/// A matcher for requests that every one of `matchers` accepts.
pub fn and(matchers: Vec<RequestMatcher>) -> (r: RequestMatcher)
    ensures
        r@ == MatcherSpec::All(matchers@.map_values(|m: RequestMatcher| m@)),
{
    RequestMatcher::And(And::new(matchers))
}

/// A matcher that accepts the requests that all of its matchers accept.
pub struct And {
    pub(crate) matchers: Vec<RequestMatcher>,
}

impl And {
    /// A matcher for requests that every one of `matchers` accepts.
    pub fn new(matchers: Vec<RequestMatcher>) -> (r: And)
        ensures
            r@ == MatcherSpec::All(matchers@.map_values(|m: RequestMatcher| m@)),
    {
        proof {
            lemma_matcher_views(matchers@);
        }
        And { matchers }
    }

    /// Whether every matcher accepts the request.
    pub fn matches(&self, value: &Request) -> (r: bool)
        requires
            super::evaluates(self@, value@),
        ensures
            r == super::matcher_matches(self@, value@),
        decreases self,
    {
        proof {
            lemma_and_view(self);
        }
        all_match(&self.matchers, value)
    }

    /// The descriptions of the matchers, joined by ` and `.
    pub fn description(&self) -> (r: String)
        ensures
            r@ == super::matcher_description(self@),
        decreases self,
    {
        proof {
            lemma_and_view(self);
        }
        join_descriptions(&self.matchers, " and ")
    }

    /// The kind of expectation of the first matcher, `To` when there is none.
    pub fn matcher_type(&self) -> (r: MatchType)
        ensures
            r == super::match_type(self@),
        decreases self,
    {
        proof {
            lemma_and_view(self);
        }
        if self.matchers.len() == 0 {
            MatchType::To
        } else {
            self.matchers[0].matcher_type()
        }
    }
}

} // verus!
