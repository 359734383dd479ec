# easyhttpmock

Request matchers, request and response models and configuration for an HTTP
mock server, written in Verus with their behaviour stated as contracts.

- `src/matchers/` — the matchers (method, path, query, header, body, JSON and
  XML bodies, `and`/`or`); `MatcherSpec` and `matcher_matches` say which
  requests each one accepts, `matcher_description` how it describes itself.
- `src/mock.rs` — requests and their builder, responses and their builder,
  request mocks.
- `src/query_string.rs`, `src/string_map.rs`, `src/text.rs` — query parsing,
  the insertion-ordered string map behind headers and parameters, text helpers.
- `src/http_types.rs` — methods, versions, status codes and header names as
  plain values.
- `src/base64.rs` — the base64 encoding that `Basic` credentials use.
- `src/config.rs` — the mock server configuration and its builder.
- `src/bindings.rs` — `http::HeaderMap` and the calls into `regex`, `http`, `sonic_rs`,
  `jsonpath_rust`, `simdxml` and std, with the contracts that are trusted.
- `src/laws.rs` — properties that span several functions, proved.
- `app/lib.rs` — conversions from and to the `http` crate's types, the
  `caramelo` matcher traits, and serde-based exact-body matchers.
