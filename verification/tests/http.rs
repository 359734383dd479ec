use easyhttpmock::http_types::{HeaderName, HttpMethod, HttpVersion};
use easyhttpmock::matchers::{header, header_value, method, partial_json_body, partial_xml_body, path};
use easyhttpmock::mock::{AsyncMatcherExt, Request};

fn api_users() -> String {
    "/api/users".to_string()
}

#[test]
fn http_test_path_matcher() {
    let request = Request::get(api_users()).empty().unwrap();
    assert!(path(r"^/api/.*$").and(method("GET")).matches(&request));
}

#[test]
fn http_test_method_get_matcher() {
    let request = Request::get(api_users()).empty().unwrap();
    assert!(method(HttpMethod::Get).matches(&request));
}

#[test]
fn http_test_method_post_matcher() {
    let request = Request::post(api_users()).empty().unwrap();
    assert!(method(HttpMethod::Post).matches(&request));
}

#[test]
fn http_test_method_put_matcher() {
    let request = Request::put(api_users()).empty().unwrap();
    assert!(method(HttpMethod::Put).matches(&request));
}

#[test]
fn http_test_method_delete_matcher() {
    let request = Request::delete(api_users()).empty().unwrap();
    assert!(method(HttpMethod::Delete).matches(&request));
}

#[test]
fn http_test_method_patch_matcher() {
    let request = Request::patch(api_users()).empty().unwrap();
    assert!(method(HttpMethod::Patch).matches(&request));
}

#[test]
fn http_test_method_options_matcher() {
    let request = Request::options(api_users()).empty().unwrap();
    assert!(method(HttpMethod::Options).matches(&request));
}

#[test]
fn http_test_method_trace_matcher() {
    let request = Request::trace(api_users()).empty().unwrap();
    assert!(method(HttpMethod::Trace).matches(&request));
}

#[test]
fn http_test_method_connect_matcher() {
    let request = Request::connect(api_users()).empty().unwrap();
    assert!(method(HttpMethod::Connect).matches(&request));
}

#[test]
fn http_test_header_matcher() {
    let request = Request::get(api_users())
        .header("content-type", "application/json")
        .empty()
        .unwrap();
    assert!(header(HeaderName::from_static("content-type")).matches(&request));
}

#[test]
fn http_test_version_matcher() {
    let request = Request::get(api_users())
        .version(HttpVersion::Http11)
        .empty()
        .unwrap();
    assert_eq!(*request.version(), HttpVersion::Http11);
}

#[test]
fn http_test_req_method_matcher() {
    let request = Request::get(api_users())
        .method(HttpMethod::Get)
        .empty()
        .unwrap();
    assert_eq!(request.method().as_str(), "GET");
}

#[test]
fn http_test_header_value_regex() {
    let request = Request::get(api_users())
        .header("content-type", "application/json")
        .empty()
        .unwrap();
    assert!(header_value("content-type", r"^application/.*").matches(&request));
}

#[test]
fn http_test_partial_json() {
    let mut object = serde_json::Map::new();
    object.insert("code".to_string(), serde_json::Value::from(200));
    object.insert(
        "message".to_string(),
        serde_json::Value::from("Something went wrong"),
    );
    let data = serde_json::Value::Object(object);
    let request = Request::get(api_users())
        .header("content-type", "application/json")
        .body(data.to_string().into_bytes())
        .unwrap();
    assert!(partial_json_body("$.code").matches(&request));
}

#[test]
fn http_test_partial_xml() {
    let data = "<response><code>200</code><message>Something went wrong</message></response>";
    let request = Request::get(api_users())
        .header("content-type", "application/xml")
        .body(data.as_bytes().to_vec())
        .unwrap();
    assert!(partial_xml_body("//response/code").matches(&request));
}
