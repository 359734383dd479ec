//! Plain-value forms of the HTTP method, version and header name that the
//! requests of this crate carry.

use vstd::prelude::*;
use vstd::string::*;

use crate::bindings::{ascii_lower, header_name_valid, parse_header_name};
use crate::text::text_eq;

verus! {

/// An HTTP request method.
#[derive(Debug)]
pub enum HttpMethod {
    Options,
    Get,
    Post,
    Put,
    Delete,
    Head,
    Trace,
    Connect,
    Patch,
    Query,
    /// Any other method, by its name.
    Extension(String),
}

/// The name of a method, as it is written in a request line.
pub open spec fn method_name(m: HttpMethod) -> Seq<char> {
    match m {
        HttpMethod::Options => "OPTIONS"@,
        HttpMethod::Get => "GET"@,
        HttpMethod::Post => "POST"@,
        HttpMethod::Put => "PUT"@,
        HttpMethod::Delete => "DELETE"@,
        HttpMethod::Head => "HEAD"@,
        HttpMethod::Trace => "TRACE"@,
        HttpMethod::Connect => "CONNECT"@,
        HttpMethod::Patch => "PATCH"@,
        HttpMethod::Query => "QUERY"@,
        HttpMethod::Extension(name) => name@,
    }
}

/// The method that `AsMethod` gives for a name: the upper or lower case
/// spelling of GET, POST, QUERY, PUT, DELETE, PATCH, HEAD or OPTIONS.
pub open spec fn method_from_name(s: Seq<char>) -> Option<HttpMethod> {
    if s == "GET"@ || s == "get"@ {
        Some(HttpMethod::Get)
    } else if s == "POST"@ || s == "post"@ {
        Some(HttpMethod::Post)
    } else if s == "QUERY"@ || s == "query"@ {
        Some(HttpMethod::Query)
    } else if s == "PUT"@ || s == "put"@ {
        Some(HttpMethod::Put)
    } else if s == "DELETE"@ || s == "delete"@ {
        Some(HttpMethod::Delete)
    } else if s == "PATCH"@ || s == "patch"@ {
        Some(HttpMethod::Patch)
    } else if s == "HEAD"@ || s == "head"@ {
        Some(HttpMethod::Head)
    } else if s == "OPTIONS"@ || s == "options"@ {
        Some(HttpMethod::Options)
    } else {
        None
    }
}

impl HttpMethod {
    /// The name of the method.
    pub fn as_str(&self) -> (r: &str)
        ensures
            r@ == method_name(*self),
    {
        match self {
            HttpMethod::Options => "OPTIONS",
            HttpMethod::Get => "GET",
            HttpMethod::Post => "POST",
            HttpMethod::Put => "PUT",
            HttpMethod::Delete => "DELETE",
            HttpMethod::Head => "HEAD",
            HttpMethod::Trace => "TRACE",
            HttpMethod::Connect => "CONNECT",
            HttpMethod::Patch => "PATCH",
            HttpMethod::Query => "QUERY",
            HttpMethod::Extension(name) => name.as_str(),
        }
    }

    /// Whether two methods have the same name.
    pub fn same_as(&self, other: &HttpMethod) -> (r: bool)
        ensures
            r == (method_name(*self) == method_name(*other)),
    {
        text_eq(self.as_str(), other.as_str())
    }

    /// A copy of the method.
    pub fn copy(&self) -> (r: HttpMethod)
        ensures
            method_name(r) == method_name(*self),
    {
        match self {
            HttpMethod::Options => HttpMethod::Options,
            HttpMethod::Get => HttpMethod::Get,
            HttpMethod::Post => HttpMethod::Post,
            HttpMethod::Put => HttpMethod::Put,
            HttpMethod::Delete => HttpMethod::Delete,
            HttpMethod::Head => HttpMethod::Head,
            HttpMethod::Trace => HttpMethod::Trace,
            HttpMethod::Connect => HttpMethod::Connect,
            HttpMethod::Patch => HttpMethod::Patch,
            HttpMethod::Query => HttpMethod::Query,
            HttpMethod::Extension(name) => HttpMethod::Extension(name.clone()),
        }
    }

    /// The method named by `s`, for the names that `AsMethod` knows.
    pub fn from_name(s: &str) -> (r: Option<HttpMethod>)
        ensures
            r == method_from_name(s@),
    {
        if text_eq(s, "GET") || text_eq(s, "get") {
            Some(HttpMethod::Get)
        } else if text_eq(s, "POST") || text_eq(s, "post") {
            Some(HttpMethod::Post)
        } else if text_eq(s, "QUERY") || text_eq(s, "query") {
            Some(HttpMethod::Query)
        } else if text_eq(s, "PUT") || text_eq(s, "put") {
            Some(HttpMethod::Put)
        } else if text_eq(s, "DELETE") || text_eq(s, "delete") {
            Some(HttpMethod::Delete)
        } else if text_eq(s, "PATCH") || text_eq(s, "patch") {
            Some(HttpMethod::Patch)
        } else if text_eq(s, "HEAD") || text_eq(s, "head") {
            Some(HttpMethod::Head)
        } else if text_eq(s, "OPTIONS") || text_eq(s, "options") {
            Some(HttpMethod::Options)
        } else {
            None
        }
    }
}

/// An HTTP protocol version.
#[derive(Debug, Clone, Copy, PartialEq, Eq, Structural)]
pub enum HttpVersion {
    Http09,
    Http10,
    Http11,
    Http2,
    Http3,
}

/// An HTTP status code: a number from 100 to 999, the codes that
/// `http::StatusCode` holds.
#[derive(Debug, Clone, Copy, PartialEq, Eq, Structural)]
pub struct StatusCode {
    code: u16,
}

impl View for StatusCode {
    type V = u16;

    closed spec fn view(&self) -> u16 {
        self.code
    }
}

impl StatusCode {
    #[verifier::type_invariant]
    closed spec fn inv(self) -> bool {
        100 <= self.code <= 999
    }

    /// The status code `code`, where it lies between 100 and 999 (as
    /// `http::StatusCode::from_u16` accepts); `None` otherwise.
    pub fn from_u16(code: u16) -> (r: Option<StatusCode>)
        ensures
            r is Some <==> 100 <= code <= 999,
            r matches Some(s) ==> s@ == code,
    {
        if 100 <= code && code <= 999 {
            Some(StatusCode { code })
        } else {
            None
        }
    }

    /// The number of the status code.
    pub fn as_u16(&self) -> (r: u16)
        ensures
            r == self@,
            100 <= r <= 999,
    {
        proof {
            use_type_invariant(self);
        }
        self.code
    }
}

/// A valid HTTP header name, held in small case as `http::HeaderName` holds it.
#[derive(Debug)]
pub struct HeaderName {
    name: String,
}

impl View for HeaderName {
    type V = Seq<char>;

    closed spec fn view(&self) -> Seq<char> {
        self.name@
    }
}

/// A header name as `http::HeaderName` stores it: valid and in small case.
pub open spec fn normalized_header_name(s: Seq<char>) -> bool {
    header_name_valid(s) && ascii_lower(s) == s
}

impl HeaderName {
    #[verifier::type_invariant]
    closed spec fn inv(self) -> bool {
        normalized_header_name(self.name@)
    }

    /// The name `s` with its ASCII letters in small case, where `s` is a valid
    /// header name (as `http::HeaderName::from_bytes` parses it).
    pub fn parse(s: &str) -> (r: Option<HeaderName>)
        ensures
            r is Some <==> header_name_valid(s@),
            r matches Some(n) ==> n@ == ascii_lower(s@),
    {
        match parse_header_name(s) {
            Some(name) => {
                proof {
                    lemma_ascii_lower_normalized(s@);
                }
                Some(HeaderName { name })
            },
            None => None,
        }
    }

    /// The name `s`, which must already be valid and in small case (as
    /// `http::HeaderName::from_static` demands).
    pub fn from_static(s: &str) -> (r: HeaderName)
        requires
            normalized_header_name(s@),
        ensures
            r@ == s@,
    {
        HeaderName { name: s.to_owned() }
    }

    /// The name as text.
    pub fn as_str(&self) -> (r: &str)
        ensures
            r@ == self@,
            normalized_header_name(self@),
    {
        proof {
            use_type_invariant(self);
        }
        self.name.as_str()
    }

    /// A copy of the name.
    pub fn copy(&self) -> (r: HeaderName)
        ensures
            r@ == self@,
    {
        proof {
            use_type_invariant(self);
        }
        HeaderName { name: self.name.clone() }
    }
}

/// Lowering a valid name gives a valid name that lowering leaves unchanged.
pub proof fn lemma_ascii_lower_normalized(s: Seq<char>)
    requires
        header_name_valid(s),
    ensures
        normalized_header_name(ascii_lower(s)),
{
    let l = ascii_lower(s);
    assert forall|i: int| 0 <= i < l.len() implies crate::bindings::is_token_char(
        #[trigger] l[i],
    ) by {
        assert(crate::bindings::is_token_char(s[i]));
    }
    assert(ascii_lower(l) =~= l);
}

} // verus!
