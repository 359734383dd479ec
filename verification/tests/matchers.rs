use easyhttpmock::http_types::{HeaderName, HttpMethod, HttpVersion};
use easyhttpmock::matchers::{
    basic_auth, body, exact_json_body, exact_xml_body, header, header_value, jwt, method,
    partial_json_body, partial_xml_body, path, query_param, query_value, And, AsMethod,
    MatchType, Or,
};
use easyhttpmock::mock::{AsyncMatcherExt, Request};

fn users_uri() -> String {
    "/api/users".to_string()
}

fn json_payload(code: u64) -> String {
    let mut object = serde_json::Map::new();
    object.insert("code".to_string(), serde_json::Value::from(code));
    object.insert(
        "message".to_string(),
        serde_json::Value::from("Something went wrong"),
    );
    serde_json::Value::Object(object).to_string()
}

#[test]
fn matchers_test_path_matcher() {
    let request = Request::get(users_uri()).empty().unwrap();
    let matcher = path(r"^/api/.*$").and(method("GET"));
    assert!(matcher.matches(&request));
}

#[test]
fn test_query_matcher() {
    let request = Request::get("/api/users?name=mark&age=31".to_string())
        .empty()
        .unwrap();
    let matcher = path(r"^/api/.*$")
        .and(method("GET"))
        .and(query_param(r"^name$"))
        .and(query_value(r"^mark$"));
    assert!(matcher.matches(&request));
}

#[test]
fn test_as_method_str() {
    let methods = ["POST", "DELETE", "PUT", "OPTIONS", "QUERY", "HEAD", "PATCH"];
    for method_name in methods {
        let request = Request::builder(method_name.into_method(), users_uri())
            .empty()
            .unwrap();
        assert!(method(method_name).matches(&request));
    }
}

#[test]
fn test_as_method_string() {
    let methods = ["POST".to_owned()];
    for method_name in methods {
        let request = Request::builder(method_name.clone().into_method(), users_uri())
            .empty()
            .unwrap();
        assert!(method(method_name).matches(&request));
    }
}

#[test]
fn test_new_or_matcher() {
    let or_matcher = Or::new(vec![method(HttpMethod::Get)]);
    assert_eq!(or_matcher.matcher_type(), MatchType::ToHave);
}

#[test]
fn test_new_and_matcher() {
    let and_matcher = And::new(vec![method(HttpMethod::Get)]);
    assert_eq!(and_matcher.matcher_type(), MatchType::ToHave);
}

#[test]
fn matchers_test_method_get_matcher() {
    let request = Request::get(users_uri()).empty().unwrap();
    assert!(method(HttpMethod::Get).matches(&request));
}

#[test]
fn matchers_test_method_post_matcher() {
    let request = Request::post(users_uri()).empty().unwrap();
    assert!(method(HttpMethod::Post).matches(&request));
}

#[test]
fn matchers_test_method_put_matcher() {
    let request = Request::put(users_uri()).empty().unwrap();
    assert!(method(HttpMethod::Put).matches(&request));
}

#[test]
fn matchers_test_method_delete_matcher() {
    let request = Request::delete(users_uri()).empty().unwrap();
    assert!(method(HttpMethod::Delete).matches(&request));
}

#[test]
fn matchers_test_method_patch_matcher() {
    let request = Request::patch(users_uri()).empty().unwrap();
    assert!(method(HttpMethod::Patch).matches(&request));
}

#[test]
fn matchers_test_method_options_matcher() {
    let request = Request::options(users_uri()).empty().unwrap();
    assert!(method(HttpMethod::Options).matches(&request));
}

#[test]
fn matchers_test_method_trace_matcher() {
    let request = Request::trace(users_uri()).empty().unwrap();
    assert!(method(HttpMethod::Trace).matches(&request));
}

#[test]
fn matchers_test_method_connect_matcher() {
    let request = Request::connect(users_uri()).empty().unwrap();
    assert!(method(HttpMethod::Connect).matches(&request));
}

#[test]
fn matchers_test_header_matcher() {
    let request = Request::get(users_uri())
        .header("content-type", "application/json")
        .empty()
        .unwrap();
    assert!(header(HeaderName::from_static("content-type")).matches(&request));
}

#[test]
fn test_header_jwt_matcher() {
    let request = Request::get(users_uri())
        .header("authorization", "Bearer 123456")
        .empty()
        .unwrap();
    assert!(jwt("123456").matches(&request));
}

#[test]
fn test_header_basic_auth_matcher() {
    let request = Request::get(users_uri())
        .header("authorization", "Basic bWFyazpqb2huc29u")
        .empty()
        .unwrap();
    assert!(basic_auth("mark", "johnson").matches(&request));
}

#[test]
fn matchers_test_version_matcher() {
    let request = Request::get(users_uri())
        .version(HttpVersion::Http11)
        .empty()
        .unwrap();
    assert_eq!(*request.version(), HttpVersion::Http11);
}

#[test]
fn matchers_test_req_method_matcher() {
    let request = Request::get(users_uri())
        .method(HttpMethod::Get)
        .empty()
        .unwrap();
    assert_eq!(request.method().as_str(), "GET");
}

#[test]
fn matchers_test_header_value_regex() {
    let request = Request::get(users_uri())
        .header("content-type", "application/json")
        .empty()
        .unwrap();
    assert!(header_value("content-type", r"^application/.*").matches(&request));
}

#[test]
fn test_body() {
    let request = Request::get(users_uri())
        .header("content-type", "application/json")
        .body(b"Hello world!".to_vec())
        .unwrap();
    assert!(body(r".*wor.*d!").matches(&request));
}

#[test]
fn matchers_test_partial_json() {
    let request = Request::get(users_uri())
        .header("content-type", "application/json")
        .body(json_payload(200).into_bytes())
        .unwrap();
    assert!(partial_json_body("$.code").matches(&request));
}

#[test]
fn test_exact_json() {
    let request = Request::get(users_uri())
        .header("content-type", "application/json")
        .body(json_payload(200).into_bytes())
        .unwrap();
    let payload = r#"{"code":200,"message":"Something went wrong"}"#;
    assert!(exact_json_body(payload).matches(&request));
}

#[test]
fn matchers_test_partial_xml() {
    let data = "<response><code>200</code><message>Something went wrong</message></response>";
    let request = Request::get(users_uri())
        .header("content-type", "application/xml")
        .body(data.as_bytes().to_vec())
        .unwrap();
    assert!(partial_xml_body("//response/code").matches(&request));
}

#[test]
fn test_exact_xml() {
    let data = "<?xml version=\"1.0\" encoding=\"UTF-8\"?><Person><id>12</id><name>take easy</name></Person>";
    let request = Request::get(users_uri())
        .header("content-type", "application/xml")
        .body(data.as_bytes().to_vec())
        .unwrap();
    let person = "<?xml version=\"1.0\" encoding=\"UTF-8\"?><Person><id>12</id><name>take easy</name></Person>";
    assert!(exact_xml_body(person).matches(&request));
}
