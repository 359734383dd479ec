use vstd::prelude::*;

use super::{MatchType, MatcherSpec, RequestMatcher};
use crate::http_types::{method_from_name, method_name, HttpMethod};
use crate::mock::Request;
use crate::text::concat;

verus! {

/// Values that name an HTTP method.
pub trait AsMethod: Sized {
    /// Whether the value names a method.
    spec fn names_method(&self) -> bool;

    /// The name of the method that the value names.
    spec fn method_of(&self) -> Seq<char>;

    /// The method that the value names.
    fn into_method(self) -> (r: HttpMethod)
        requires
            self.names_method(),
        ensures
            method_name(r) == self.method_of(),
    ;
}

impl AsMethod for HttpMethod {
    open spec fn names_method(&self) -> bool {
        true
    }

    open spec fn method_of(&self) -> Seq<char> {
        method_name(*self)
    }

    fn into_method(self) -> (r: HttpMethod) {
        self
    }
}

impl AsMethod for String {
    open spec fn names_method(&self) -> bool {
        method_from_name(self@) is Some
    }

    open spec fn method_of(&self) -> Seq<char> {
        method_name(method_from_name(self@)->Some_0)
    }

    fn into_method(self) -> (r: HttpMethod) {
        self.as_str().into_method()
    }
}

impl AsMethod for &str {
    /// The upper or lower case spelling of GET, POST, QUERY, PUT, DELETE,
    /// PATCH, HEAD or OPTIONS.
    open spec fn names_method(&self) -> bool {
        method_from_name((*self)@) is Some
    }

    open spec fn method_of(&self) -> Seq<char> {
        method_name(method_from_name((*self)@)->Some_0)
    }

    fn into_method(self) -> (r: HttpMethod) {
        match HttpMethod::from_name(self) {
            Some(m) => m,
            None => {
                assert(false);
                HttpMethod::Get
            },
        }
    }
}

/// A matcher for requests with the method that `value` names.
pub fn method<M: AsMethod>(value: M) -> (r: RequestMatcher)
    requires
        value.names_method(),
    ensures
        r@ == MatcherSpec::Method(value.method_of()),
{
    RequestMatcher::Method(Method(value.into_method()))
}

/// A matcher that accepts requests with a given method.
pub struct Method(pub(crate) HttpMethod);

impl View for Method {
    type V = MatcherSpec;

    closed spec fn view(&self) -> MatcherSpec {
        MatcherSpec::Method(method_name(self.0))
    }
}

impl Method {
    /// Whether the request's method is this one.
    pub fn matches(&self, value: &Request) -> (r: bool)
        ensures
            r == super::matcher_matches(self@, value@),
    {
        self.0.same_as(value.method())
    }

    /// `method matching` and the method's name.
    pub fn description(&self) -> (r: String)
        ensures
            r@ == super::matcher_description(self@),
    {
        concat("method matching ", self.0.as_str())
    }

    /// `ToHave`.
    pub fn matcher_type(&self) -> (r: MatchType)
        ensures
            r == super::match_type(self@),
    {
        MatchType::ToHave
    }
}

} // verus!
