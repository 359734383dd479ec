use easyhttpmock::http_types::{HttpMethod, HttpVersion, StatusCode};
use easyhttpmock::matchers::{method, path, MatchType};
use easyhttpmock::mock::{given, AsyncMatcherExt, Mock, Request, RequestParts, Respond, StatusCodeExt};
use easyhttpmock::string_map::StringMap;

fn ok() -> StatusCode {
    StatusCode::from_u16(200).unwrap()
}

fn post_parts(uri: &str) -> RequestParts {
    RequestParts {
        method: HttpMethod::Post,
        uri: uri.to_string(),
        version: HttpVersion::Http11,
        headers: http::HeaderMap::new(),
    }
}

#[test]
fn test_given() {
    let request = Request::from_parts(post_parts("/"), Vec::new());
    let mock = given(method(HttpMethod::Post)).will_return(ok().respond().no_body());
    assert!(mock.matcher().matches(&request));
}

#[test]
fn test_given_or() {
    let request = Request::from_parts(post_parts("/"), Vec::new());
    let mock = given(method(HttpMethod::Post).or(method(HttpMethod::Put)))
        .will_return(ok().respond().no_body());
    assert!(mock.matcher().matches(&request));
    assert_eq!(mock.matcher().matcher_type(), MatchType::ToHave);
}

#[test]
fn test_given_and() {
    let request = Request::from_parts(post_parts("/query"), Vec::new());
    let mock = given(method(HttpMethod::Post).and(path("/query")))
        .will_return(ok().respond().no_body());
    assert!(mock.matcher().matches(&request));
    assert_eq!(mock.matcher().matcher_type(), MatchType::ToHave);
}

#[test]
fn test_mock_of() {
    let request = Request::from_parts(post_parts("/"), Vec::new());
    let mock = Mock::of(
        given(method(HttpMethod::Post)).will_return(ok().respond().no_body()),
    );
    assert!(mock.inner().request().matcher().matches(&request));
}

#[test]
fn test_respond_builder() {
    let respond = Respond::builder()
        .with_status(ok())
        .with_header("content-type", "application/json")
        .with_headers(&[("x-frame", "yes"), ("x-settings-yo", "again")])
        .empty();
    assert_eq!(respond.status_code(), ok());
    assert_eq!(respond.status_code().as_u16(), 200);
    assert_eq!(
        respond.headers().get("content-type").unwrap().as_str(),
        "application/json"
    );
}

#[test]
fn test_request_builder() {
    let mut query = StringMap::new();
    query.insert("q".to_string(), "search".to_string());
    let request = Request::builder(HttpMethod::Get, "/users".to_string())
        .query_params(query)
        .body(b"test".to_vec())
        .unwrap();
    assert!(request.query_params().as_ref().unwrap().contains_key("q"));
}

#[test]
fn test_respond_builder_with_body() {
    let respond = Respond::builder()
        .with_status(ok())
        .with_header("content-type", "application/json")
        .with_headers(&[("x-frame", "yes"), ("x-settings-yo", "again")])
        .with_body(b"test");
    assert_eq!(respond.status_code(), ok());
    assert_eq!(respond.status_code().as_u16(), 200);
    assert_eq!(
        respond.headers().get("content-type").unwrap().as_str(),
        "application/json"
    );
    assert_eq!(respond.body(), b"test".to_vec());
}
