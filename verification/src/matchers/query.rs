use vstd::prelude::*;

use super::{regex_debug_text, MatchType, MatcherSpec};
use crate::bindings::{regex_compiles, regex_is_match, spec_regex_is_match, spec_regex_valid};
use crate::mock::Request;
use crate::string_map::{entries_map, has_key, lemma_entries_map_at, StringMap};
use crate::text::concat;

verus! {

/// A matcher for requests with a query parameter whose name the regex
/// `value` matches; `value` must be a pattern that `regex` compiles.
pub fn query_param(value: &str) -> (r: QueryParam)
    requires
        spec_regex_valid(value@),
    ensures
        r@ == MatcherSpec::QueryParam(value@),
{
    QueryParam(value.to_owned())
}

/// `query_param(value)` where `regex` compiles `value`; `None` otherwise.
pub fn try_query_param(value: &str) -> (r: Option<QueryParam>)
    ensures
        r is Some <==> spec_regex_valid(value@),
        r matches Some(m) ==> m@ == MatcherSpec::QueryParam(value@),
{
    if regex_compiles(value) {
        Some(query_param(value))
    } else {
        None
    }
}

/// A matcher that accepts requests with a query parameter whose name the
/// regex matches.
pub struct QueryParam(pub(crate) String);

impl View for QueryParam {
    type V = MatcherSpec;

    closed spec fn view(&self) -> MatcherSpec {
        MatcherSpec::QueryParam(self.0@)
    }
}

/// Whether the regex matches some key (when `keys`) or some value of `q`.
fn any_entry_matches(pattern: &str, q: &StringMap, keys: bool) -> (r: bool)
    requires
        spec_regex_valid(pattern@),
    ensures
        keys ==> r == super::some_key_matches(q@, pattern@),
        !keys ==> r == super::some_value_matches(q@, pattern@),
{
    let n = q.len();
    let ghost s = q.entries_view();
    let mut i: usize = 0;
    while i < n
        invariant
            n == s.len(),
            s == q.entries_view(),
            q@ == entries_map(s),
            crate::string_map::keys_distinct(s),
            spec_regex_valid(pattern@),
            i <= n,
            forall|j: int|
                0 <= j < i ==> !spec_regex_is_match(
                    pattern@,
                    if keys {
                        #[trigger] s[j].0
                    } else {
                        s[j].1
                    },
                ),
        decreases n - i,
    {
        let (k, v) = q.entry(i);
        let text = if keys {
            k
        } else {
            v
        };
        if regex_is_match(pattern, text.as_str()) {
            proof {
                lemma_entries_map_at(s, i as int);
            }
            return true;
        }
        i = i + 1;
    }
    proof {
        assert forall|k: Seq<char>| #[trigger] q@.contains_key(k) implies !spec_regex_is_match(
            pattern@,
            if keys {
                k
            } else {
                q@[k]
            },
        ) by {
            assert(has_key(s, k));
            let j = choose|j: int| 0 <= j < s.len() && s[j].0 == k;
            lemma_entries_map_at(s, j);
        }
    }
    false
}

impl QueryParam {
    #[verifier::type_invariant]
    closed spec fn inv(self) -> bool {
        spec_regex_valid(self.0@)
    }

    /// Whether the request has a query parameter whose name the regex matches.
    pub fn matches(&self, value: &Request) -> (r: bool)
        ensures
            r == super::matcher_matches(self@, value@),
    {
        proof {
            use_type_invariant(self);
        }
        match value.query_params() {
            Some(q) => {
any_entry_matches(self.0.as_str(), q, true)
            },
            None => false,
        }
    }

    /// `query param matching Regex("...")`.
    pub fn description(&self) -> (r: String)
        ensures
            r@ == super::matcher_description(self@),
    {
        concat("query param matching ", regex_debug_text(self.0.as_str()).as_str())
    }

    /// `ToHave`.
    pub fn matcher_type(&self) -> (r: MatchType)
        ensures
            r == super::match_type(self@),
    {
        MatchType::ToHave
    }
}

/// A matcher for requests with a query parameter whose value the regex
/// `value` matches; `value` must be a pattern that `regex` compiles.
pub fn query_value(value: &str) -> (r: QueryValue)
    requires
        spec_regex_valid(value@),
    ensures
        r@ == MatcherSpec::QueryValue(value@),
{
    QueryValue(value.to_owned())
}

/// `query_value(value)` where `regex` compiles `value`; `None` otherwise.
pub fn try_query_value(value: &str) -> (r: Option<QueryValue>)
    ensures
        r is Some <==> spec_regex_valid(value@),
        r matches Some(m) ==> m@ == MatcherSpec::QueryValue(value@),
{
    if regex_compiles(value) {
        Some(query_value(value))
    } else {
        None
    }
}

/// A matcher that accepts requests with a query parameter whose value the
/// regex matches.
pub struct QueryValue(pub(crate) String);

impl View for QueryValue {
    type V = MatcherSpec;

    closed spec fn view(&self) -> MatcherSpec {
        MatcherSpec::QueryValue(self.0@)
    }
}

impl QueryValue {
    #[verifier::type_invariant]
    closed spec fn inv(self) -> bool {
        spec_regex_valid(self.0@)
    }

    /// Whether the request has a query parameter whose value the regex matches.
    pub fn matches(&self, value: &Request) -> (r: bool)
        ensures
            r == super::matcher_matches(self@, value@),
    {
        proof {
            use_type_invariant(self);
        }
        match value.query_params() {
            Some(q) => any_entry_matches(self.0.as_str(), q, false),
            None => false,
        }
    }

    /// `query value matching Regex("...")`.
    pub fn description(&self) -> (r: String)
        ensures
            r@ == super::matcher_description(self@),
    {
        concat("query value matching ", regex_debug_text(self.0.as_str()).as_str())
    }

    /// `ToHave`.
    pub fn matcher_type(&self) -> (r: MatchType)
        ensures
            r == super::match_type(self@),
    {
        MatchType::ToHave
    }
}

} // verus!
