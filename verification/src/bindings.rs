//! The calls that this crate makes into `regex`, `http`, `sonic_rs`,
//! `jsonpath_rust`, `simdxml` and the standard library, each with the contract
//! that the rest of the crate relies on. Nothing here is proved: each contract
//! restates what the called function's source or documentation shows.

use http::HeaderMap;
use std::sync::Arc;
use vstd::prelude::*;
use vstd::utf8::decode_utf8;

verus! {

// ---------------------------------------------------------------------------
// Outside types that values of this crate carry.
// ---------------------------------------------------------------------------

/// `http::HeaderMap`, the header fields of a request.
#[verifier::external_type_specification]
#[verifier::external_body]
#[verifier::reject_recursive_types(T)]
pub struct ExHeaderMap<T>(http::HeaderMap<T>);

/// `http::HeaderValue`, the value of a header field.
#[verifier::external_type_specification]
#[verifier::external_body]
pub struct ExHeaderValue(http::HeaderValue);

/// `http::Error`, the error type of the request builders.
#[verifier::external_type_specification]
#[verifier::external_body]
pub struct ExHttpError(http::Error);

// ---------------------------------------------------------------------------
// Names for results that take pages to state.
// ---------------------------------------------------------------------------

/// What a header map holds: each small-case header name with the bytes of
/// its values, in the order the map keeps them.
pub uninterp spec fn header_fields(m: http::HeaderMap) -> Map<Seq<char>, Seq<Seq<u8>>>;

/// Whether `regex::Regex::new` accepts `pattern`.
pub uninterp spec fn spec_regex_valid(pattern: Seq<char>) -> bool;

/// Whether the regex compiled from `pattern` matches somewhere in `haystack`.
pub uninterp spec fn spec_regex_is_match(pattern: Seq<char>, haystack: Seq<char>) -> bool;

/// The text that `format!("{:?}", s)` gives for a string slice `s`.
pub uninterp spec fn spec_debug_str(s: Seq<char>) -> Seq<char>;

/// The text that `String::from_utf8_lossy` gives for `bytes`.
pub uninterp spec fn spec_utf8_lossy(bytes: Seq<u8>) -> Seq<char>;

/// The text that `str::to_uppercase` gives for `s`.
pub uninterp spec fn spec_to_uppercase(s: Seq<char>) -> Seq<char>;

/// The number of results of the JSONPath query `path` on the JSON document
/// `text`, or `None` where `text` is not JSON or `path` is not a JSONPath query.
pub uninterp spec fn spec_json_query_count(text: Seq<char>, path: Seq<char>) -> Option<nat>;

/// What running the XPath query `path` on the XML document `doc` gives:
/// `Some(Some(n))` for `n` strings, `Some(None)` where `doc` is not XML or
/// `path` is not an XPath query, and `None` where the calls do not return
/// (`simdxml::parse` panics on some malformed documents, such as `<?xml`).
pub uninterp spec fn spec_xpath_count(doc: Seq<u8>, path: Seq<char>) -> Option<Option<nat>>;

// ---------------------------------------------------------------------------
// Facts that the sources state in a few lines.
// ---------------------------------------------------------------------------

/// A `tchar` of RFC 7230, the characters that `http::HeaderName` accepts.
pub open spec fn is_token_char(c: char) -> bool {
    ||| 'a' <= c <= 'z'
    ||| 'A' <= c <= 'Z'
    ||| '0' <= c <= '9'
    ||| c == '!' || c == '#' || c == '$' || c == '%' || c == '&' || c == '\''
    ||| c == '*' || c == '+' || c == '-' || c == '.' || c == '^' || c == '_'
    ||| c == '`' || c == '|' || c == '~'
}

/// The names that `http::HeaderName::from_bytes` accepts: between one and
/// 65535 token characters.
pub open spec fn header_name_valid(s: Seq<char>) -> bool {
    &&& 1 <= s.len() <= 65535
    &&& forall|i: int| 0 <= i < s.len() ==> is_token_char(#[trigger] s[i])
}

/// `c` with an ASCII capital letter replaced by its small letter.
pub open spec fn ascii_lower_char(c: char) -> char {
    if 'A' <= c <= 'Z' {
        ((c as u32) + 32) as char
    } else {
        c
    }
}

/// `s` with every ASCII capital letter replaced by its small letter.
pub open spec fn ascii_lower(s: Seq<char>) -> Seq<char> {
    s.map_values(|c: char| ascii_lower_char(c))
}

/// `c` with an ASCII small letter replaced by its capital letter.
pub open spec fn ascii_upper_char(c: char) -> char {
    if 'a' <= c <= 'z' {
        ((c as u32) - 32) as char
    } else {
        c
    }
}

/// `s` with every ASCII small letter replaced by its capital letter.
pub open spec fn ascii_upper(s: Seq<char>) -> Seq<char> {
    s.map_values(|c: char| ascii_upper_char(c))
}

/// A character that `http::HeaderValue::from_str` accepts: a tab, or any
/// character but the ASCII control characters.
pub open spec fn header_value_char(c: char) -> bool {
    c == '\t' || (c as u32 >= 32 && c as u32 != 127)
}

/// The texts that `http::HeaderValue::from_str` accepts.
pub open spec fn header_value_valid(s: Seq<char>) -> bool {
    forall|i: int| 0 <= i < s.len() ==> header_value_char(#[trigger] s[i])
}

/// Header fields without any header.
pub open spec fn no_headers() -> Map<Seq<char>, Seq<Seq<u8>>> {
    Map::empty()
}

/// The first value of header `name` among header fields, if it has one.
pub open spec fn first_value(fields: Map<Seq<char>, Seq<Seq<u8>>>, name: Seq<char>) -> Option<
    Seq<u8>,
> {
    if fields.contains_key(name) && fields[name].len() > 0 {
        Some(fields[name][0])
    } else {
        None
    }
}

/// A tab or a visible ASCII byte, the bytes that `http::HeaderValue::to_str` accepts.
pub open spec fn visible_ascii_byte(b: u8) -> bool {
    b == 9 || (32 <= b && b < 127)
}

/// What `http::HeaderValue::to_str` gives for a value with bytes `b`: the
/// bytes as characters where each is a tab or visible ASCII, an error
/// (`None`) otherwise.
pub open spec fn to_str_outcome(b: Seq<u8>) -> Option<Seq<char>> {
    if forall|i: int| 0 <= i < b.len() ==> visible_ascii_byte(#[trigger] b[i]) {
        Some(b.map_values(|x: u8| x as char))
    } else {
        None
    }
}

/// Header maps with room for one more name: `HeaderMap` holds at most 32768
/// index slots and, as `try_reserve_one` and `try_grow` show, inserting can
/// only fail once the map holds at least 6554 names.
pub open spec fn has_room_for_a_name(fields: Map<Seq<char>, Seq<Seq<u8>>>) -> bool {
    fields.dom().len() < 6554
}

// ---------------------------------------------------------------------------
// Wrappers.
// ---------------------------------------------------------------------------

/// Calls `regex::Regex::new(pattern)` and reports whether it succeeded.
/// The contract only names the outcome (`spec_regex_valid`).
#[verifier::external_body]
pub(crate) fn regex_compiles(pattern: &str) -> (r: bool)
    ensures
        r == spec_regex_valid(pattern@),
{
    regex::Regex::new(pattern).is_ok()
}

/// Compiles `pattern` with `regex::Regex::new` and calls `Regex::is_match` on
/// `haystack`. The contract names the outcome (`spec_regex_is_match`); the
/// pattern must compile, which the callers establish.
#[verifier::external_body]
pub(crate) fn regex_is_match(pattern: &str, haystack: &str) -> (r: bool)
    requires
        spec_regex_valid(pattern@),
    ensures
        r == spec_regex_is_match(pattern@, haystack@),
{
    match regex::Regex::new(pattern) {
        Ok(re) => re.is_match(haystack),
        Err(_) => false,
    }
}

/// Formats a string slice with `{:?}` (std's `Debug` for `str`, which quotes
/// and escapes it). The contract names the text (`spec_debug_str`).
#[verifier::external_body]
pub(crate) fn debug_text(s: &str) -> (r: String)
    ensures
        r@ == spec_debug_str(s@),
{
    format!("{:?}", s)
}

/// Calls `String::from_utf8_lossy`. Its documentation states that valid UTF-8
/// comes back as the text it encodes; for other input the contract only names
/// the result (`spec_utf8_lossy`).
#[verifier::external_body]
pub(crate) fn utf8_lossy(bytes: &[u8]) -> (r: String)
    ensures
        r@ == spec_utf8_lossy(bytes@),
        vstd::utf8::valid_utf8(bytes@) ==> r@ == decode_utf8(bytes@),
{
    String::from_utf8_lossy(bytes).into_owned()
}

/// Calls `str::to_uppercase`. The contract names the result
/// (`spec_to_uppercase`); the Unicode case tables are not restated, but an
/// ASCII text, whose characters Unicode maps to ASCII capitals, gets its ASCII
/// letters in capitals.
#[verifier::external_body]
pub(crate) fn to_uppercase(s: &str) -> (r: String)
    ensures
        r@ == spec_to_uppercase(s@),
        vstd::utf8::is_ascii_chars(s@) ==> r@ == ascii_upper(s@),
{
    s.to_uppercase()
}

/// Calls `http::HeaderName::from_bytes` on the bytes of `s` and returns the
/// name's text. As its source shows, it accepts exactly the texts of one to
/// 65535 token characters and stores them with ASCII letters in small case.
#[verifier::external_body]
pub(crate) fn parse_header_name(s: &str) -> (r: Option<String>)
    ensures
        r is Some <==> header_name_valid(s@),
        r matches Some(n) ==> n@ == ascii_lower(s@),
{
    match http::HeaderName::from_bytes(s.as_bytes()) {
        Ok(name) => Some(name.as_str().to_string()),
        Err(_) => None,
    }
}

/// Calls `http::HeaderValue::from_str` and reports whether it succeeded. As
/// its source shows, it accepts exactly the texts without ASCII control
/// characters other than the tab.
#[verifier::external_body]
pub(crate) fn header_value_accepted(s: &str) -> (r: bool)
    ensures
        r == header_value_valid(s@),
{
    http::HeaderValue::from_str(s).is_ok()
}

/// Calls `http::HeaderMap::new`, which makes an empty map.
#[verifier::external_body]
pub(crate) fn header_map_new() -> (r: HeaderMap)
    ensures
        header_fields(r) == no_headers(),
{
    http::HeaderMap::new()
}

/// Calls `http::HeaderMap::try_insert` with the header name that
/// `HeaderName::from_bytes` makes of `name` and the value that
/// `HeaderValue::from_str` makes of `value`, and reports whether it
/// succeeded. As the sources show, on success the name is stored in small
/// case, the value keeps the UTF-8 bytes of `value`, and every earlier value
/// of the name is removed; on failure (`MaxSizeReached`) the contents are
/// unchanged; and it cannot fail while the map holds fewer than 6554 names.
#[verifier::external_body]
pub(crate) fn header_map_insert(m: &mut http::HeaderMap, name: &str, value: &str) -> (r: bool)
    requires
        header_name_valid(name@),
        header_value_valid(value@),
    ensures
        r ==> header_fields(*final(m)) == header_fields(*old(m)).insert(
            ascii_lower(name@),
            seq![vstd::utf8::encode_utf8(value@)],
        ),
        !r ==> header_fields(*final(m)) == header_fields(*old(m)),
        has_room_for_a_name(header_fields(*old(m))) ==> r,
{
    match (http::HeaderName::from_bytes(name.as_bytes()), http::HeaderValue::from_str(value)) {
        (Ok(n), Ok(v)) => m.try_insert(n, v).is_ok(),
        _ => false,
    }
}

/// Calls `http::HeaderMap::get` with the small-case name `name`, which gives
/// the first value of the header, and `HeaderValue::to_str` on it: `None`
/// where the header is absent, `Some(None)` where `to_str` fails.
#[verifier::external_body]
pub(crate) fn header_map_get_str(m: &http::HeaderMap, name: &str) -> (r: Option<Option<String>>)
    requires
        header_name_valid(name@),
        ascii_lower(name@) == name@,
    ensures
        match first_value(header_fields(*m), name@) {
            Some(b) => r matches Some(t) && match t {
                Some(s) => to_str_outcome(b) == Some(s@),
                None => to_str_outcome(b) is None,
            },
            None => r is None,
        },
{
    match m.get(name) {
        Some(v) => match v.to_str() {
            Ok(t) => Some(Some(t.to_owned())),
            Err(_) => Some(None),
        },
        None => None,
    }
}

/// Calls `Arc::clone`, which gives another pointer to the same value.
#[verifier::external_body]
pub(crate) fn arc_clone<T>(a: &Arc<T>) -> (r: Arc<T>)
    ensures
        r == *a,
{
    Arc::clone(a)
}

/// Parses `text` with `sonic_rs::from_str` into a `serde_json::Value` and runs
/// the JSONPath query `path` on it with `jsonpath_rust::JsonPath::query_with_path`,
/// returning the number of results; `None` where either call fails. The
/// contract names the outcome (`spec_json_query_count`). The parsed document
/// is a `serde_json::Value`, opaque here, so the two calls are named together.
/// Both calls report failure as an `Err`.
#[verifier::external_body]
pub(crate) fn json_query_count(text: &str, path: &str) -> (r: Option<usize>)
    ensures
        match r {
            Some(n) => spec_json_query_count(text@, path@) == Some(n as nat),
            None => spec_json_query_count(text@, path@) is None,
        },
{
    match sonic_rs::from_str::<serde_json::Value>(text) {
        Ok(json) => match jsonpath_rust::JsonPath::query_with_path(&json, path) {
            Ok(results) => Some(results.len()),
            Err(_) => None,
        },
        Err(_) => None,
    }
}

/// Indexes `doc` with `simdxml::parse` and evaluates the XPath query `path`
/// with `XmlIndex::xpath_string`, returning the number of strings; `None`
/// where either call fails. The contract names the outcome (`spec_xpath_count`).
/// The index is an `XmlIndex`, opaque here, so the two calls are named
/// together. The inputs on which the calls would not return are left out.
#[verifier::external_body]
pub(crate) fn xpath_count(doc: &[u8], path: &str) -> (r: Option<usize>)
    requires
        spec_xpath_count(doc@, path@) is Some,
    ensures
        match r {
            Some(n) => spec_xpath_count(doc@, path@) == Some(Some(n as nat)),
            None => spec_xpath_count(doc@, path@) == Some(None::<nat>),
        },
{
    match simdxml::parse(doc) {
        Ok(xml) => match xml.xpath_string(path) {
            Ok(results) => Some(results.len()),
            Err(_) => None,
        },
        Err(_) => None,
    }
}

} // verus!
