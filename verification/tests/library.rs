use easyhttpmock::http_types::{HeaderName, HttpMethod, HttpVersion, StatusCode};
use easyhttpmock::matchers::{
    and, basic_auth, body, exact_json_body, exact_xml_body, header, header_value, jwt, method, or,
    partial_json_body, partial_xml_body, path, query_param, query_value, try_body, try_header,
    try_header_value, try_path, try_query_param, try_query_value, MatchType,
};
use easyhttpmock::mock::{given, AsyncMatcherExt, Request, RequestParts, Respond, StatusCodeExt};
use easyhttpmock::query_string::{parse_query, query_of_uri};
use easyhttpmock::string_map::StringMap;
use easyhttpmock::base64::encode;
use easyhttpmock::text::{bytes_eq, text_eq, text_is};

fn users_request() -> Request {
    Request::get("/api/users".to_string()).empty().unwrap()
}

#[test]
fn path_matcher_rejects_other_path_and_describes_itself() {
    let request = Request::get("/users".to_string()).empty().unwrap();
    let matcher = path(r"^/api/.*$").and(method(HttpMethod::Get));
    assert!(!matcher.matches(&request));
    assert_eq!(
        path(r"^/api/.*$").description(),
        "path matching Regex(\"^/api/.*$\")"
    );
    assert_eq!(
        matcher.description(),
        "path matching Regex(\"^/api/.*$\") and method matching GET"
    );
}

#[test]
fn method_matcher_rejects_other_method() {
    let request = Request::post("/api/users".to_string()).empty().unwrap();
    let matcher = method("GET");
    assert!(!matcher.matches(&request));
    assert_eq!(matcher.description(), "method matching GET");
}

#[test]
fn method_and_path_description_joins_with_and() {
    let request = Request::post("/api/users".to_string()).empty().unwrap();
    let matcher = method(HttpMethod::Post).and(path(r"^/api/posts$"));
    assert!(!matcher.matches(&request));
    assert_eq!(
        matcher.description(),
        "method matching POST and path matching Regex(\"^/api/posts$\")"
    );
}

#[test]
fn or_description_joins_with_or() {
    let matcher = method(HttpMethod::Post).or(method(HttpMethod::Put));
    assert_eq!(matcher.description(), "method matching POST or method matching PUT");
}

#[test]
fn header_matcher_rejects_missing_header() {
    let request = Request::get("/api/users".to_string())
        .header("content-store", "application/json")
        .empty()
        .unwrap();
    let matcher = header(HeaderName::from_static("content-type"));
    assert!(!matcher.matches(&request));
    assert_eq!(matcher.description(), "header matching content-type");
}

#[test]
fn header_value_regex_rejects_other_value() {
    let request = Request::get("/api/users".to_string())
        .header("content-type", "application/json")
        .empty()
        .unwrap();
    let matcher = header_value("content-type", r"^text/.*");
    assert!(!matcher.matches(&request));
    assert_eq!(
        matcher.description(),
        "header content-type with value matching Regex(\"^text/.*\")"
    );
}

#[test]
fn body_matcher_rejects_other_body() {
    let request = Request::get("/api/users".to_string())
        .body(b"Hello world!".to_vec())
        .unwrap();
    let matcher = body(r".*war.*d!");
    assert!(!matcher.matches(&request));
    assert_eq!(matcher.description(), "body contents matching Regex(\".*war.*d!\")");
}

#[test]
fn body_matcher_rejects_request_without_body() {
    assert!(!body(".*").matches(&users_request()));
}

#[test]
fn body_matcher_reads_invalid_utf8_lossily() {
    let request = Request::get("/".to_string())
        .body(vec![b'a', 0xff, b'b'])
        .unwrap();
    assert!(body("^a\u{FFFD}b$").matches(&request));
}

#[test]
fn partial_json_rejects_missing_field() {
    let request = Request::get("/api/users".to_string())
        .body(br#"{"code":200,"message":"Something went wrong"}"#.to_vec())
        .unwrap();
    let matcher = partial_json_body("$.name");
    assert!(!matcher.matches(&request));
    assert_eq!(matcher.description(), "body contents containing $.name");
}

#[test]
fn partial_json_rejects_body_that_is_not_json() {
    let request = Request::get("/".to_string()).body(b"not json".to_vec()).unwrap();
    assert!(!partial_json_body("$.code").matches(&request));
}

#[test]
fn exact_json_rejects_other_value() {
    let request = Request::get("/api/users".to_string())
        .body(br#"{"code":200,"message":"Something went wrong"}"#.to_vec())
        .unwrap();
    let expected = r#"{"code":500,"message":"Something went wrong"}"#;
    let matcher = exact_json_body(expected);
    assert!(!matcher.matches(&request));
    assert_eq!(
        matcher.description(),
        "body contents matching {\"code\":500,\"message\":\"Something went wrong\"}"
    );
}

#[test]
fn partial_xml_rejects_missing_element() {
    let data = "<response><code>200</code><message>Something went wrong</message></response>";
    let request = Request::get("/api/users".to_string())
        .body(data.as_bytes().to_vec())
        .unwrap();
    let matcher = partial_xml_body("//response/name");
    assert!(!matcher.matches(&request));
    assert_eq!(matcher.description(), "body contents containing //response/name");
}

#[test]
fn exact_xml_rejects_other_document() {
    let request = Request::get("/api/users".to_string())
        .body(b"<Person><id>12</id><name>take easy</name></response>".to_vec())
        .unwrap();
    let expected = "<?xml version=\"1.0\" encoding=\"UTF-8\"?><Person><id>32</id><name>take easy</name></Person>";
    assert!(!exact_xml_body(expected).matches(&request));
}

#[test]
fn jwt_matches_only_its_token() {
    let bearer = Request::get("/".to_string())
        .header("Authorization", "Bearer 123456")
        .empty()
        .unwrap();
    let basic = Request::get("/".to_string())
        .header("authorization", "Basic bWFyazpqb2huc29u")
        .empty()
        .unwrap();
    assert!(jwt("123456").matches(&bearer));
    assert!(!jwt("999999").matches(&bearer));
    assert!(!jwt("12345").matches(&bearer));
    assert!(!jwt("bWFyazpqb2huc29u").matches(&basic));
    assert!(!jwt("t").matches(&users_request()));
    assert_eq!(jwt("t").matcher_type(), MatchType::ToHave);
    assert_eq!(jwt("t").description(), "JWT token matching t");
}

#[test]
fn basic_auth_matches_only_its_credentials() {
    let basic = Request::get("/".to_string())
        .header("authorization", "Basic bWFyazpqb2huc29u")
        .empty()
        .unwrap();
    let bearer = Request::get("/".to_string())
        .header("authorization", "Bearer bWFyazpqb2huc29u")
        .empty()
        .unwrap();
    assert!(basic_auth("mark", "johnson").matches(&basic));
    assert!(!basic_auth("mark", "wrong").matches(&basic));
    assert!(!basic_auth("mar", "kjohnson").matches(&basic));
    assert!(!basic_auth("mark", "johnson").matches(&bearer));
    assert!(!basic_auth("mark", "johnson").matches(&users_request()));
    assert_eq!(
        basic_auth("mark", "johnson").description(),
        "Basic auth with username mark and password johnson"
    );
}

#[test]
fn base64_encoding_pads_and_groups() {
    let text = |b: &[u8]| encode(b).into_iter().collect::<String>();
    assert_eq!(text(b""), "");
    assert_eq!(text(b"f"), "Zg==");
    assert_eq!(text(b"fo"), "Zm8=");
    assert_eq!(text(b"foo"), "Zm9v");
    assert_eq!(text(b"foobar"), "Zm9vYmFy");
    assert_eq!(text(b"mark:johnson"), "bWFyazpqb2huc29u");
    assert_eq!(text(&[0xfb, 0xff]), "+/8=");
}

#[test]
fn query_matchers_check_names_and_values() {
    let request = Request::get("/p?name=mark&age=31".to_string()).empty().unwrap();
    assert!(query_param("^age$").matches(&request));
    assert!(!query_param("^mark$").matches(&request));
    assert!(query_value("^31$").matches(&request));
    assert!(!query_value("^name$").matches(&request));
    let no_query = users_request();
    assert!(!query_param(".*").matches(&no_query));
    assert!(!query_value(".*").matches(&no_query));
    assert_eq!(
        query_param("^a$").description(),
        "query param matching Regex(\"^a$\")"
    );
    assert_eq!(
        query_value("^b$").description(),
        "query value matching Regex(\"^b$\")"
    );
}

#[test]
fn invalid_patterns_are_refused() {
    assert!(try_path("(").is_none());
    assert!(try_body("[").is_none());
    assert!(try_query_param("(").is_none());
    assert!(try_query_value("(").is_none());
    assert!(try_header_value("content-type", "(").is_none());
    assert!(try_header_value("bad name", "x").is_none());
    assert!(try_path("^/a$").is_some());
    assert!(try_header("content type").is_none());
    assert!(try_header("Content-Type").is_some());
}

#[test]
fn header_names_are_stored_in_small_case() {
    let request = Request::get("/".to_string())
        .header("X-Custom", "v")
        .empty()
        .unwrap();
    assert_eq!(request.headers().get("x-custom").unwrap().to_str().unwrap(), "v");
    assert!(header("X-CUSTOM").matches(&request));
    assert!(header("x-custom".to_string()).matches(&request));
    assert!(Request::get("/".to_string()).try_header("bad name", "v").is_none());
    assert!(Request::get("/".to_string()).try_header("ok", "bad\nvalue").is_none());
}

#[test]
fn header_name_from_string_goes_through_upper_case() {
    let request = Request::get("/".to_string())
        .header("x-s", "v")
        .empty()
        .unwrap();
    assert!(header("x-\u{17F}").matches(&request));
}

#[test]
fn builder_later_header_replaces_earlier() {
    let request = Request::get("/".to_string())
        .header("a", "1")
        .header("A", "2")
        .empty()
        .unwrap();
    assert_eq!(request.headers().len(), 1);
    assert_eq!(request.headers().get("a").unwrap().to_str().unwrap(), "2");
    assert!(header_value("a", "^2$").matches(&request));
}

#[test]
fn from_parts_keeps_every_header_value_and_parses_query() {
    let mut headers = http::HeaderMap::new();
    headers.append("accept", http::HeaderValue::from_static("one"));
    headers.append("accept", http::HeaderValue::from_static("two"));
    let parts = RequestParts {
        method: HttpMethod::Extension("PURGE".to_string()),
        uri: "/items?x=1&y&x=2&z=a=b".to_string(),
        version: HttpVersion::Http2,
        headers,
    };
    let request = Request::from_parts(parts, b"payload".to_vec());
    assert_eq!(request.method().as_str(), "PURGE");
    assert_eq!(request.path().as_str(), "/items?x=1&y&x=2&z=a=b");
    assert_eq!(*request.version(), HttpVersion::Http2);
    let accepted: Vec<&str> = request
        .headers()
        .get_all("accept")
        .iter()
        .map(|v| v.to_str().unwrap())
        .collect();
    assert_eq!(accepted, vec!["one", "two"]);
    assert!(header_value("accept", "^one$").matches(&request));
    assert!(!header_value("accept", "^two$").matches(&request));
    let query = request.query_params().as_ref().unwrap();
    assert_eq!(query.len(), 2);
    assert_eq!(query.get("x").unwrap().as_str(), "2");
    assert_eq!(query.get("z").unwrap().as_str(), "a=b");
    assert!(!query.contains_key("y"));
    assert_eq!(request.body().as_ref().unwrap(), &b"payload".to_vec());
}

#[test]
fn header_values_that_are_not_visible_ascii_read_as_empty() {
    let request = Request::get("/".to_string())
        .header("x-name", "caf\u{e9}")
        .empty()
        .unwrap();
    assert!(header("x-name").matches(&request));
    assert!(header_value("x-name", "^$").matches(&request));
    assert!(!header_value("x-name", "caf").matches(&request));
}

#[test]
fn query_parsing_edge_cases() {
    assert_eq!(query_of_uri("/a"), None);
    assert_eq!(query_of_uri("/a?"), Some(String::new()));
    assert_eq!(query_of_uri("/a?b?c"), Some("b?c".to_string()));
    let empty = parse_query("");
    assert_eq!(empty.len(), 0);
    let q = parse_query("=v&k=&k2=x");
    assert_eq!(q.get("").unwrap().as_str(), "v");
    assert_eq!(q.get("k").unwrap().as_str(), "");
    assert_eq!(q.get("k2").unwrap().as_str(), "x");
    let later = parse_query("a=1&a=2");
    assert_eq!(later.len(), 1);
    assert_eq!(later.get("a").unwrap().as_str(), "2");
}

#[test]
fn builder_without_query_has_no_parameters() {
    assert!(users_request().query_params().is_none());
    assert!(users_request().body().is_none());
}

#[test]
fn string_map_insert_and_read_back() {
    let mut m = StringMap::new();
    assert_eq!(m.len(), 0);
    m.insert("k".to_string(), "1".to_string());
    m.insert("j".to_string(), "2".to_string());
    m.insert("k".to_string(), "3".to_string());
    assert_eq!(m.len(), 2);
    assert_eq!(m.get("k").unwrap().as_str(), "3");
    assert_eq!(m.get("j").unwrap().as_str(), "2");
    assert!(m.get("x").is_none());
    m.insert_if_absent("k".to_string(), "4".to_string());
    assert_eq!(m.get("k").unwrap().as_str(), "3");
    let (k0, v0) = m.entry(0);
    assert_eq!((k0.as_str(), v0.as_str()), ("k", "3"));
    let c = m.copy();
    assert_eq!(c.len(), 2);
    assert_eq!(c.get("j").unwrap().as_str(), "2");
}

#[test]
fn text_helpers() {
    assert!(text_eq("abc", "abc"));
    assert!(!text_eq("abc", "abd"));
    assert!(text_is("Basic ab", "Basic ", &vec!['a', 'b']));
    assert!(!text_is("Basic ab", "Basic ", &vec!['a']));
    assert!(!text_is("Basic", "Basic ", &vec![]));
    assert_eq!(easyhttpmock::text::concat("ab", "cd"), "abcd");
    assert!(bytes_eq(b"xy", b"xy"));
    assert!(!bytes_eq(b"xy", b"x"));
}

#[test]
fn method_names_and_lookup() {
    assert_eq!(HttpMethod::from_name("get").unwrap().as_str(), "GET");
    assert_eq!(HttpMethod::from_name("QUERY").unwrap().as_str(), "QUERY");
    assert!(HttpMethod::from_name("Get").is_none());
    assert!(HttpMethod::from_name("TRACE").is_none());
    assert!(HttpMethod::Get.same_as(&HttpMethod::Extension("GET".to_string())));
    assert!(!HttpMethod::Get.same_as(&HttpMethod::Post));
    assert_eq!(HttpMethod::Patch.copy().as_str(), "PATCH");
}

#[test]
fn header_name_parsing() {
    assert_eq!(HeaderName::parse("Content-Type").unwrap().as_str(), "content-type");
    assert!(HeaderName::parse("").is_none());
    assert!(HeaderName::parse("a b").is_none());
    assert_eq!(HeaderName::from_static("x-a").copy().as_str(), "x-a");
}

#[test]
fn empty_combinations() {
    let request = users_request();
    let all = and(Vec::new());
    let any = or(Vec::new());
    assert!(all.matches(&request));
    assert!(!any.matches(&request));
    assert_eq!(all.matcher_type(), MatchType::To);
    assert_eq!(any.matcher_type(), MatchType::To);
    assert_eq!(all.description(), "");
}

#[test]
fn combinations_follow_their_parts() {
    let request = users_request();
    let yes = method(HttpMethod::Get);
    let no = path("^/other$");
    assert!(!method(HttpMethod::Get).and(path("^/other$")).matches(&request));
    assert!(method(HttpMethod::Get).or(path("^/other$")).matches(&request));
    assert!(path("^/other$").or(method(HttpMethod::Get)).matches(&request));
    assert!(!path("^/other$").or(method(HttpMethod::Post)).matches(&request));
    assert!(yes.matches(&request) && !no.matches(&request));
}

#[test]
fn mock_keeps_matcher_and_response() {
    let mock = given(method(HttpMethod::Get));
    assert!(mock.respond().is_none());
    let mock = mock.will_return(
        StatusCode::from_u16(404)
            .unwrap()
            .respond()
            .with_header("x", "y")
            .with_body(b"missing"),
    );
    let respond = mock.respond().unwrap();
    assert_eq!(respond.status_code().as_u16(), 404);
    assert_eq!(respond.body(), b"missing".to_vec());
    assert_eq!(respond.headers().get("x").unwrap().as_str(), "y");
    assert!(mock.matcher().matches(&users_request()));
}

#[test]
fn respond_builder_defaults_and_status() {
    let respond = Respond::builder().no_body();
    assert_eq!(respond.status_code().as_u16(), 200);
    assert_eq!(respond.headers().len(), 0);
    assert!(respond.body().is_empty());
    let created = Respond::builder()
        .with_status(StatusCode::from_u16(201).unwrap())
        .with_headers(&[("a", "1"), ("a", "2")])
        .empty();
    assert_eq!(created.status_code().as_u16(), 201);
    assert_eq!(created.headers().get("a").unwrap().as_str(), "2");
}

#[test]
fn status_codes_lie_between_100_and_999() {
    assert!(StatusCode::from_u16(99).is_none());
    assert!(StatusCode::from_u16(1000).is_none());
    assert_eq!(StatusCode::from_u16(100).unwrap().as_u16(), 100);
    assert_eq!(StatusCode::from_u16(999).unwrap().as_u16(), 999);
    let builder = StatusCode::from_u16(503).unwrap().respond();
    assert_eq!(builder.empty().status_code().as_u16(), 503);
}

#[test]
fn exact_json_matches_the_serialized_value() {
    let mut object = serde_json::Map::new();
    object.insert("code".to_string(), serde_json::Value::from(200));
    object.insert(
        "message".to_string(),
        serde_json::Value::from("Something went wrong"),
    );
    let value = serde_json::Value::Object(object);
    let expected = sonic_rs::to_string(&value).unwrap();
    let request = Request::get("/api/users".to_string())
        .body(value.to_string().into_bytes())
        .unwrap();
    assert!(exact_json_body(&expected).matches(&request));
}

#[test]
fn partial_matchers_refuse_malformed_documents() {
    let bodies: Vec<Vec<u8>> = vec![
        b"".to_vec(),
        b"{".to_vec(),
        b"{\"a\":".to_vec(),
        b"[1,2".to_vec(),
        b"\"\\u12".to_vec(),
        b"<".to_vec(),
        b"<a><b></a>".to_vec(),
        b"<?xml".to_vec(),
        b"<a attr=\"x></a>".to_vec(),
        vec![0xffu8, 0xfe, 0x00],
        b"{\"a\":[[[[[[[[[[]]]]]]]]]]}".to_vec(),
    ];
    for b in bodies {
        let request = Request::get("/".to_string()).body(b.clone()).unwrap();
        assert!(!partial_json_body("$.x").matches(&request));
        // `simdxml::parse` panics on an unfinished `<?xml` declaration, which
        // the contract of the XML matcher leaves out.
        if b != b"<?xml".to_vec() {
            assert!(!partial_xml_body("//x").matches(&request));
        }
    }
    let json = Request::get("/".to_string()).body(br#"{"a":1}"#.to_vec()).unwrap();
    assert!(!partial_json_body("$[").matches(&json));
    assert!(!partial_json_body("not a path").matches(&json));
    let xml = Request::get("/".to_string()).body(b"<a><x>1</x></a>".to_vec()).unwrap();
    assert!(partial_xml_body("//x").matches(&xml));
    assert!(!partial_xml_body("//[").matches(&xml));
}

#[test]
fn debug_text_quotes_and_escapes_like_std() {
    for s in ["^/api/.*$", "a\"b\\c", "", "tab\there", "caf\u{e9}", "new\nline"] {
        assert_eq!(easyhttpmock::text::debug_str_of(s), format!("{:?}", s));
    }
    assert_eq!(easyhttpmock::text::debug_str_of("a\"b"), "\"a\\\"b\"");
}

#[test]
fn header_map_takes_names_until_it_is_full() {
    let mut builder = Request::get("/".to_string());
    let mut taken: usize = 0;
    loop {
        let name = format!("x-h{}", taken);
        match builder.try_header(&name, "v") {
            Some(b) => {
                builder = b;
                taken += 1;
            }
            None => break,
        }
        if taken > 40000 {
            break;
        }
    }
    assert!(taken >= 6554);
    assert!(taken <= 32768);
}
