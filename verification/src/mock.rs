//! Requests, responses and the mocks that tie a request matcher to a response.

use std::sync::Arc;
use vstd::prelude::*;
use vstd::string::*;

use crate::bindings::{
    arc_clone, ascii_lower, has_room_for_a_name, header_fields, header_map_insert, header_map_new, header_name_valid,
    header_value_accepted, header_value_valid, parse_header_name,
};
use crate::matchers::{and, or, MatcherSpec, RequestMatcher};
use crate::http_types::{method_name, HttpMethod, HttpVersion, StatusCode};

use crate::query_string::{parse_query, parse_query_spec, query_of_uri, uri_query};
use crate::string_map::StringMap;
use vstd::slice::slice_to_vec;

verus! {

/// What a request holds, as plain values.
pub struct RequestView {
    /// The name of the method.
    pub method: Seq<char>,
    /// The URI text.
    pub uri: Seq<char>,
    pub version: HttpVersion,
    /// The headers: each small-case name with the bytes of its values.
    pub headers: Map<Seq<char>, Seq<Seq<u8>>>,
    /// The query parameters, where the request has a query.
    pub query_params: Option<Map<Seq<char>, Seq<char>>>,
    pub body: Option<Seq<u8>>,
}

/// The head of an HTTP request, as `from_parts` takes it.
pub struct RequestParts {
    pub method: HttpMethod,
    /// The URI text, as `http::Uri` displays it.
    pub uri: String,
    pub version: HttpVersion,
    /// The header fields; a name may have several values.
    pub headers: http::HeaderMap,
}

/// A mock HTTP request.
#[derive(Debug)]
pub struct Request {
    method: HttpMethod,
    uri: String,
    version: HttpVersion,
    headers: http::HeaderMap,
    query_params: Option<StringMap>,
    body: Option<Vec<u8>>,
}

impl View for Request {
    type V = RequestView;

    closed spec fn view(&self) -> RequestView {
        RequestView {
            method: method_name(self.method),
            uri: self.uri@,
            version: self.version,
            headers: header_fields(self.headers),
            query_params: match self.query_params {
                Some(q) => Some(q@),
                None => None,
            },
            body: match self.body {
                Some(b) => Some(b@),
                None => None,
            },
        }
    }
}

/// A builder for requests.
#[derive(Debug)]
pub struct RequestBuilder {
    uri: String,
    query_params: Option<StringMap>,
    method: HttpMethod,
    version: HttpVersion,
    headers: http::HeaderMap,
}

impl View for RequestBuilder {
    type V = RequestView;

    /// The request that the builder would build without a body.
    closed spec fn view(&self) -> RequestView {
        RequestView {
            method: method_name(self.method),
            uri: self.uri@,
            version: self.version,
            headers: header_fields(self.headers),
            query_params: match self.query_params {
                Some(q) => Some(q@),
                None => None,
            },
            body: None,
        }
    }
}

impl Request {
    /// The request that request parts and a body make: the method, URI,
    /// version and headers of the parts (every value of every header),
    /// the parameters of the URI's query, and the body.
    pub fn from_parts(parts: RequestParts, body: Vec<u8>) -> (r: Request)
        ensures
            r@.method == method_name(parts.method),
            r@.uri == parts.uri@,
            r@.version == parts.version,
            r@.headers == header_fields(parts.headers),
            r@.query_params == query_params_of(parts.uri@),
            r@.body == Some(body@),
    {
        let query_params = query_params_of_uri(parts.uri.as_str());
        Request {
            method: parts.method,
            uri: parts.uri,
            version: parts.version,
            headers: parts.headers,
            query_params,
            body: Some(body),
        }
    }

    /// A builder for a request with this method and URI, HTTP/1.1, no
    /// headers, the parameters of the URI's query and no body.
    pub fn builder(method: HttpMethod, uri: String) -> (r: RequestBuilder)
        ensures
            r@ == Request::builder_view(method_name(method), uri@),
    {
        let headers = header_map_new();
        let query_params = query_params_of_uri(uri.as_str());
        RequestBuilder { method, version: HttpVersion::Http11, uri, headers, query_params }
    }

    /// A builder for a GET request.
    pub fn get(uri: String) -> (r: RequestBuilder)
        ensures
            r@ == Request::builder_view("GET"@, uri@),
    {
        Request::builder(HttpMethod::Get, uri)
    }

    /// A builder for a POST request.
    pub fn post(uri: String) -> (r: RequestBuilder)
        ensures
            r@ == Request::builder_view("POST"@, uri@),
    {
        Request::builder(HttpMethod::Post, uri)
    }

    /// A builder for a PUT request.
    pub fn put(uri: String) -> (r: RequestBuilder)
        ensures
            r@ == Request::builder_view("PUT"@, uri@),
    {
        Request::builder(HttpMethod::Put, uri)
    }

    /// A builder for a DELETE request.
    pub fn delete(uri: String) -> (r: RequestBuilder)
        ensures
            r@ == Request::builder_view("DELETE"@, uri@),
    {
        Request::builder(HttpMethod::Delete, uri)
    }

    /// A builder for a PATCH request.
    pub fn patch(uri: String) -> (r: RequestBuilder)
        ensures
            r@ == Request::builder_view("PATCH"@, uri@),
    {
        Request::builder(HttpMethod::Patch, uri)
    }

    /// A builder for a HEAD request.
    pub fn head(uri: String) -> (r: RequestBuilder)
        ensures
            r@ == Request::builder_view("HEAD"@, uri@),
    {
        Request::builder(HttpMethod::Head, uri)
    }

    /// A builder for an OPTIONS request.
    pub fn options(uri: String) -> (r: RequestBuilder)
        ensures
            r@ == Request::builder_view("OPTIONS"@, uri@),
    {
        Request::builder(HttpMethod::Options, uri)
    }

    /// A builder for a TRACE request.
    pub fn trace(uri: String) -> (r: RequestBuilder)
        ensures
            r@ == Request::builder_view("TRACE"@, uri@),
    {
        Request::builder(HttpMethod::Trace, uri)
    }

    /// A builder for a CONNECT request.
    pub fn connect(uri: String) -> (r: RequestBuilder)
        ensures
            r@ == Request::builder_view("CONNECT"@, uri@),
    {
        Request::builder(HttpMethod::Connect, uri)
    }

    /// What a fresh builder for a method name and URI holds.
    pub open spec fn builder_view(method: Seq<char>, uri: Seq<char>) -> RequestView {
        RequestView {
            method,
            uri,
            version: HttpVersion::Http11,
            headers: Map::empty(),
            query_params: query_params_of(uri),
            body: None,
        }
    }

    /// The URI.
    pub fn path(&self) -> (r: &String)
        ensures
            r@ == self@.uri,
    {
        &self.uri
    }

    /// The method.
    pub fn method(&self) -> (r: &HttpMethod)
        ensures
            method_name(*r) == self@.method,
    {
        &self.method
    }

    /// The headers.
    pub fn headers(&self) -> (r: &http::HeaderMap)
        ensures
            header_fields(*r) == self@.headers,
    {
        &self.headers
    }

    /// The version.
    pub fn version(&self) -> (r: &HttpVersion)
        ensures
            *r == self@.version,
    {
        &self.version
    }

    /// The query parameters.
    pub fn query_params(&self) -> (r: &Option<StringMap>)
        ensures
            match *r {
                Some(q) => self@.query_params == Some(q@),
                None => self@.query_params is None,
            },
    {
        &self.query_params
    }

    /// The body.
    pub fn body(&self) -> (r: &Option<Vec<u8>>)
        ensures
            match *r {
                Some(b) => self@.body == Some(b@),
                None => self@.body is None,
            },
    {
        &self.body
    }
}

/// The query parameters of a URI text, where it has a query.
pub open spec fn query_params_of(uri: Seq<char>) -> Option<Map<Seq<char>, Seq<char>>> {
    match uri_query(uri) {
        Some(q) => Some(parse_query_spec(q)),
        None => None,
    }
}

/// The query parameters of a URI text, where it has a query.
fn query_params_of_uri(uri: &str) -> (r: Option<StringMap>)
    ensures
        match r {
            Some(q) => query_params_of(uri@) == Some(q@),
            None => query_params_of(uri@) is None,
        },
{
    match query_of_uri(uri) {
        Some(q) => Some(parse_query(q.as_str())),
        None => None,
    }
}

impl RequestBuilder {
    /// Sets the URI.
    pub fn uri(self, uri: String) -> (r: RequestBuilder)
        ensures
            r@ == (RequestView { uri: uri@, ..self@ }),
    {
        RequestBuilder { uri, ..self }
    }

    /// Sets the query parameters.
    pub fn query_params(self, query_params: StringMap) -> (r: RequestBuilder)
        ensures
            r@ == (RequestView { query_params: Some(query_params@), ..self@ }),
    {
        RequestBuilder { query_params: Some(query_params), ..self }
    }

    /// Sets the method.
    pub fn method(self, method: HttpMethod) -> (r: RequestBuilder)
        ensures
            r@ == (RequestView { method: method_name(method), ..self@ }),
    {
        RequestBuilder { method, ..self }
    }

    /// Sets the version.
    pub fn version(self, version: HttpVersion) -> (r: RequestBuilder)
        ensures
            r@ == (RequestView { version, ..self@ }),
    {
        RequestBuilder { version, ..self }
    }

    /// Sets header `name` to `value`, replacing any value it had. The name is
    /// stored in small case; name and value must be ones that `http` accepts,
    /// and the headers must have room for another name (`http` panics on a
    /// full map).
    pub fn header(self, name: &str, value: &str) -> (r: RequestBuilder)
        requires
            header_name_valid(name@),
            header_value_valid(value@),
            has_room_for_a_name(self@.headers),
        ensures
            r@ == (RequestView {
                headers: self@.headers.insert(
                    ascii_lower(name@),
                    seq![vstd::utf8::encode_utf8(value@)],
                ),
                ..self@
            }),
    {
        let RequestBuilder { uri, query_params, method, version, headers } = self;
        let mut headers = headers;
        header_map_insert(&mut headers, name, value);
        RequestBuilder { uri, query_params, method, version, headers }
    }

    /// Sets header `name` to `value` where `http` accepts both and the header
    /// map takes the name; `None` otherwise. Success is certain for a valid
    /// name and value while the headers have room for another name.
    pub fn try_header(self, name: &str, value: &str) -> (r: Option<RequestBuilder>)
        ensures
            r is Some ==> header_name_valid(name@) && header_value_valid(value@),
            header_name_valid(name@) && header_value_valid(value@) && has_room_for_a_name(
                self@.headers,
            ) ==> r is Some,
            r matches Some(b) ==> b@ == (RequestView {
                headers: self@.headers.insert(
                    ascii_lower(name@),
                    seq![vstd::utf8::encode_utf8(value@)],
                ),
                ..self@
            }),
    {
        let name_ok = parse_header_name(name).is_some();
        if name_ok && header_value_accepted(value) {
            let RequestBuilder { uri, query_params, method, version, headers } = self;
            let mut headers = headers;
            if header_map_insert(&mut headers, name, value) {
                Some(RequestBuilder { uri, query_params, method, version, headers })
            } else {
                None
            }
        } else {
            None
        }
    }

    /// The request without a body.
    pub fn empty(self) -> (r: Result<Request, http::Error>)
        ensures
            r matches Ok(req) && req@ == self@,
    {
        Ok(
            Request {
                method: self.method,
                version: self.version,
                query_params: self.query_params,
                uri: self.uri,
                headers: self.headers,
                body: None,
            },
        )
    }

    /// The request with this body.
    pub fn body(self, bytes: Vec<u8>) -> (r: Result<Request, http::Error>)
        ensures
            r matches Ok(req) && req@ == (RequestView { body: Some(bytes@), ..self@ }),
    {
        Ok(
            Request {
                method: self.method,
                version: self.version,
                query_params: self.query_params,
                uri: self.uri,
                headers: self.headers,
                body: Some(bytes),
            },
        )
    }
}


/// What a response holds, as plain values.
pub struct RespondView {
    pub status_code: u16,
    pub headers: Map<Seq<char>, Seq<char>>,
    pub body: Seq<u8>,
}

/// A builder for responses.
pub struct RespondBuilder {
    status_code: StatusCode,
    headers: StringMap,
}

impl View for RespondBuilder {
    type V = RespondView;

    /// The response that the builder would build without a body.
    closed spec fn view(&self) -> RespondView {
        RespondView { status_code: self.status_code@, headers: self.headers@, body: Seq::empty() }
    }
}

/// How to respond to a request.
pub struct Respond {
    status_code: StatusCode,
    headers: StringMap,
    body: Vec<u8>,
}

impl View for Respond {
    type V = RespondView;

    closed spec fn view(&self) -> RespondView {
        RespondView { status_code: self.status_code@, headers: self.headers@, body: self.body@ }
    }
}

/// Status codes that start a response.
pub trait StatusCodeExt: Sized {
    /// The number of the status code.
    spec fn code_of(&self) -> u16;

    /// A response builder with this status code and no headers.
    fn respond(self) -> (r: RespondBuilder)
        ensures
            r@.status_code == self.code_of(),
            r@.headers == Map::<Seq<char>, Seq<char>>::empty(),
    ;
}

impl StatusCodeExt for StatusCode {
    open spec fn code_of(&self) -> u16 {
        self@
    }

    fn respond(self) -> (r: RespondBuilder) {
        RespondBuilder { status_code: self, headers: StringMap::new() }
    }
}

impl RespondBuilder {
    /// Sets the status code.
    pub fn with_status(self, status: StatusCode) -> (r: RespondBuilder)
        ensures
            r@ == (RespondView { status_code: status@, ..self@ }),
    {
        RespondBuilder { status_code: status, headers: self.headers }
    }

    /// Sets header `key` to `value`, replacing any value it had.
    pub fn with_header(self, key: &str, value: &str) -> (r: RespondBuilder)
        ensures
            r@ == (RespondView { headers: self@.headers.insert(key@, value@), ..self@ }),
    {
        let mut headers = self.headers;
        headers.insert(key.to_owned(), value.to_owned());
        RespondBuilder { status_code: self.status_code, headers }
    }

    /// Sets each header of `entries` in turn, a later entry for a key
    /// replacing an earlier one.
    pub fn with_headers(self, entries: &[(&str, &str)]) -> (r: RespondBuilder)
        ensures
            r@ == (RespondView {
                headers: headers_with(self@.headers, entries@.map_values(|e: (&str, &str)| (e.0@, e.1@))),
                ..self@
            }),
    {
        let ghost pairs = entries@.map_values(|e: (&str, &str)| (e.0@, e.1@));
        let mut headers = self.headers;
        let n = entries.len();
        let mut i: usize = 0;
        while i < n
            invariant
                n == entries@.len(),
                pairs == entries@.map_values(|e: (&str, &str)| (e.0@, e.1@)),
                i <= n,
                headers@ == headers_with(self@.headers, pairs.subrange(0, i as int)),
            decreases n - i,
        {
            let (key, value) = entries[i];
            headers.insert(key.to_owned(), value.to_owned());
            proof {
                assert(pairs.subrange(0, i + 1).drop_last() =~= pairs.subrange(0, i as int));
            }
            i = i + 1;
        }
        assert(pairs.subrange(0, n as int) =~= pairs);
        RespondBuilder { status_code: self.status_code, headers }
    }

    /// The response with an empty body.
    pub fn empty(self) -> (r: Respond)
        ensures
            r@ == self@,
    {
        self.no_body()
    }

    /// The response with an empty body.
    pub fn no_body(self) -> (r: Respond)
        ensures
            r@ == self@,
    {
        Respond { status_code: self.status_code, headers: self.headers, body: Vec::new() }
    }

    /// The response with this body.
    pub fn with_body(self, body: &[u8]) -> (r: Respond)
        ensures
            r@ == (RespondView { body: body@, ..self@ }),
    {
        Respond { status_code: self.status_code, headers: self.headers, body: slice_to_vec(body) }
    }
}

/// The headers `base` with each pair of `pairs` set in turn.
pub open spec fn headers_with(
    base: Map<Seq<char>, Seq<char>>,
    pairs: Seq<(Seq<char>, Seq<char>)>,
) -> Map<Seq<char>, Seq<char>>
    decreases pairs.len(),
{
    if pairs.len() == 0 {
        base
    } else {
        headers_with(base, pairs.drop_last()).insert(pairs.last().0, pairs.last().1)
    }
}

impl Respond {
    /// A response builder with status 200 (OK) and no headers.
    pub fn builder() -> (r: RespondBuilder)
        ensures
            r@.status_code == 200,
            r@.headers == Map::<Seq<char>, Seq<char>>::empty(),
    {
        RespondBuilder { status_code: StatusCode::from_u16(200).unwrap(), headers: StringMap::new() }
    }

    /// The status code.
    pub fn status_code(&self) -> (r: StatusCode)
        ensures
            r@ == self@.status_code,
    {
        self.status_code
    }

    /// A copy of the headers.
    pub fn headers(&self) -> (r: StringMap)
        ensures
            r@ == self@.headers,
    {
        self.headers.copy()
    }

    /// A copy of the body.
    pub fn body(&self) -> (r: Vec<u8>)
        ensures
            r@ == self@.body,
    {
        slice_to_vec(self.body.as_slice())
    }
}

/// Matchers of requests.
pub trait IntoRequestMatcher: Sized {
    /// What the matcher checks.
    spec fn matcher_spec(&self) -> MatcherSpec;

    /// The matcher as a `RequestMatcher`.
    fn into_matcher(self) -> (r: RequestMatcher)
        ensures
            r@ == self.matcher_spec(),
    ;
}

/// Combinations of matchers.
pub trait AsyncMatcherExt: IntoRequestMatcher {
    /// A matcher for requests that both this matcher and `matcher` accept.
    fn and<M: IntoRequestMatcher>(self, matcher: M) -> (r: RequestMatcher)
        ensures
            r@ == MatcherSpec::All(seq![self.matcher_spec(), matcher.matcher_spec()]),
    ;

    /// A matcher for requests that this matcher or `matcher` accepts.
    fn or<M: IntoRequestMatcher>(self, matcher: M) -> (r: RequestMatcher)
        ensures
            r@ == MatcherSpec::Any(seq![self.matcher_spec(), matcher.matcher_spec()]),
    ;
}

/// A matcher for requests that both `first` and `second` accept.
fn both(first: RequestMatcher, second: RequestMatcher) -> (r: RequestMatcher)
    ensures
        r@ == MatcherSpec::All(seq![first@, second@]),
{
    let ghost views = seq![first@, second@];
    let mut matchers: Vec<RequestMatcher> = Vec::new();
    matchers.push(first);
    matchers.push(second);
    assert(matchers@.map_values(|m: RequestMatcher| m@) =~= views);
    and(matchers)
}

/// A matcher for requests that `first` or `second` accepts.
fn either(first: RequestMatcher, second: RequestMatcher) -> (r: RequestMatcher)
    ensures
        r@ == MatcherSpec::Any(seq![first@, second@]),
{
    let ghost views = seq![first@, second@];
    let mut matchers: Vec<RequestMatcher> = Vec::new();
    matchers.push(first);
    matchers.push(second);
    assert(matchers@.map_values(|m: RequestMatcher| m@) =~= views);
    or(matchers)
}

impl<T: IntoRequestMatcher> AsyncMatcherExt for T {
    fn and<M: IntoRequestMatcher>(self, matcher: M) -> (r: RequestMatcher) {
        both(self.into_matcher(), matcher.into_matcher())
    }

    fn or<M: IntoRequestMatcher>(self, matcher: M) -> (r: RequestMatcher) {
        either(self.into_matcher(), matcher.into_matcher())
    }
}

/// What a request mock holds: what it checks and how it answers.
pub struct RequestMockView {
    pub matcher: MatcherSpec,
    pub respond: Option<RespondView>,
}

/// A mock of a request: a matcher and, once set, the response to give.
pub struct RequestMock {
    matcher: RequestMatcher,
    respond: Option<Respond>,
}

impl View for RequestMock {
    type V = RequestMockView;

    closed spec fn view(&self) -> RequestMockView {
        RequestMockView {
            matcher: self.matcher@,
            respond: match self.respond {
                Some(r) => Some(r@),
                None => None,
            },
        }
    }
}

/// A request mock that `matcher` checks, without a response yet.
pub fn given<M: IntoRequestMatcher>(matcher: M) -> (r: RequestMock)
    ensures
        r@ == (RequestMockView { matcher: matcher.matcher_spec(), respond: None }),
{
    RequestMock { matcher: matcher.into_matcher(), respond: None }
}

impl RequestMock {
    /// The matcher.
    pub fn matcher(&self) -> (r: &RequestMatcher)
        ensures
            r@ == self@.matcher,
    {
        &self.matcher
    }

    /// The response, if one was set.
    pub fn respond(&self) -> (r: Option<&Respond>)
        ensures
            match r {
                Some(resp) => self@.respond == Some(resp@),
                None => self@.respond is None,
            },
    {
        match &self.respond {
            Some(resp) => Some(resp),
            None => None,
        }
    }

    /// The mock with `respond` as its response.
    pub fn will_return(self, respond: Respond) -> (r: RequestMock)
        ensures
            r@ == (RequestMockView { respond: Some(respond@), ..self@ }),
    {
        RequestMock { matcher: self.matcher, respond: Some(respond) }
    }
}

/// A mock.
pub struct Mock {
    request: RequestMock,
}

impl View for Mock {
    type V = RequestMockView;

    closed spec fn view(&self) -> RequestMockView {
        self.request@
    }
}

impl Mock {
    /// The state of a new mock for `request`.
    pub fn of(request: RequestMock) -> (r: MockState)
        ensures
            r@ == request@,
    {
        MockState::new(Mock { request })
    }

    /// The request mock.
    pub fn request(&self) -> (r: &RequestMock)
        ensures
            r@ == self@,
    {
        &self.request
    }
}

/// The shared state of a mock.
pub struct MockState {
    inner: Arc<Mock>,
}

impl View for MockState {
    type V = RequestMockView;

    closed spec fn view(&self) -> RequestMockView {
        self.inner@
    }
}

impl MockState {
    /// The state of `mock`.
    pub fn new(mock: Mock) -> (r: MockState)
        ensures
            r@ == mock@,
    {
        MockState { inner: Arc::new(mock) }
    }

    /// Another pointer to the mock.
    pub fn inner(&self) -> (r: Arc<Mock>)
        ensures
            r@ == self@,
    {
        arc_clone(&self.inner)
    }
}

} // verus!
