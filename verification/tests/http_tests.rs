use pageinfo_rs::http::{
    headers_from_pairs, headers_to_hashmap, HttpRequestInfo, HttpResponseInfo, HttpTransaction,
    HttpTransactionBuilder,
};
use pageinfo_rs::table::StringMap;

fn headers(pairs: &[(&str, &str)]) -> StringMap<String> {
    let mut map = StringMap::new();
    for (name, value) in pairs {
        map.insert(name.to_string(), value.to_string());
    }
    map
}

fn sample() -> HttpTransaction {
    HttpTransaction {
        request: HttpRequestInfo {
            method: "GET".to_string(),
            url: "https://example.net/".to_string(),
            headers: headers(&[("accept", "*/*"), ("user-agent", "probe")]),
            body: None,
        },
        response: HttpResponseInfo {
            status: 200,
            headers: headers(&[("content-type", "text/html")]),
            body: "<html></html>".to_string(),
            body_length: 13,
        },
        duration_ms: 42,
    }
}

#[test]
fn transaction_text_is_laid_out_line_by_line() {
    let expected = "=== HTTP TRANSACTION ===\n\
REQUEST:\n  Method: GET\n  URL: https://example.net/\n  Headers: (2 headers)\n    accept: */*\n    user-agent: probe\n  Body: (empty)\n\n\
RESPONSE:\n  Status: 200\n  Headers: (1 headers)\n    content-type: text/html\n  Body Length: 13 bytes\n  Duration: 42ms\n\n\
RESPONSE BODY:\n<html></html>\n========================";
    assert_eq!(sample().format_for_llm(), expected);
}

#[test]
fn transaction_text_without_headers_and_with_body() {
    let transaction = HttpTransaction {
        request: HttpRequestInfo {
            method: "POST".to_string(),
            url: "https://example.net/form".to_string(),
            headers: StringMap::new(),
            body: Some("a=1".to_string()),
        },
        response: HttpResponseInfo {
            status: 404,
            headers: StringMap::new(),
            body: String::new(),
            body_length: 0,
        },
        duration_ms: 0,
    };
    let expected = "=== HTTP TRANSACTION ===\n\
REQUEST:\n  Method: POST\n  URL: https://example.net/form\n  Headers: (0 headers)\n    (no headers)\n  Body: a=1\n\n\
RESPONSE:\n  Status: 404\n  Headers: (0 headers)\n    (no headers)\n  Body Length: 0 bytes\n  Duration: 0ms\n\n\
RESPONSE BODY:\n\n========================";
    assert_eq!(transaction.format_for_llm(), expected);
}

#[test]
fn headers_text_has_one_indented_line_per_header() {
    let transaction = sample();
    assert_eq!(transaction.format_headers(&StringMap::new()), "    (no headers)");
    assert_eq!(transaction.format_headers(&headers(&[("a", "1")])), "    a: 1");
    assert_eq!(
        transaction.format_headers(&headers(&[("a", "1"), ("b", "2"), ("c", "")])),
        "    a: 1\n    b: 2\n    c: "
    );
}

#[test]
fn header_map_is_read_name_by_name() {
    let mut map = ::http::HeaderMap::new();
    map.insert(::http::header::HeaderName::from_static("accept"), ::http::header::HeaderValue::from_static("text/html"));
    map.append(::http::header::HeaderName::from_static("x-tag"), ::http::header::HeaderValue::from_static("one"));
    map.append(::http::header::HeaderName::from_static("x-tag"), ::http::header::HeaderValue::from_static("two"));
    map.insert(
        ::http::header::HeaderName::from_bytes(b"Content-Type").unwrap(),
        ::http::header::HeaderValue::from_static("application/json"),
    );
    let read = headers_to_hashmap(&map);
    assert_eq!(read.len(), 3);
    assert_eq!(read.get("accept"), Some(&"text/html".to_string()));
    assert_eq!(read.get("x-tag"), Some(&"two".to_string()));
    assert_eq!(read.get("content-type"), Some(&"application/json".to_string()));
    assert_eq!(read.get("Content-Type"), None);
}

#[test]
fn header_value_that_is_not_text_is_shown_as_invalid() {
    let mut map = ::http::HeaderMap::new();
    map.insert(::http::header::HeaderName::from_static("x-raw"), ::http::header::HeaderValue::from_bytes(b"\xfa\xfb").unwrap());
    let read = headers_to_hashmap(&map);
    assert_eq!(read.get("x-raw"), Some(&"<invalid>".to_string()));
}

#[test]
fn pairs_are_stored_one_after_another() {
    let pairs = vec![
        ("b".to_string(), Some("1".to_string())),
        ("a".to_string(), None),
        ("b".to_string(), Some("2".to_string())),
    ];
    let map = headers_from_pairs(&pairs);
    assert_eq!(map.len(), 2);
    assert_eq!(map.key_at(0), "b");
    assert_eq!(map.value_at(0), "2");
    assert_eq!(map.key_at(1), "a");
    assert_eq!(map.value_at(1), "<invalid>");
}

#[test]
fn builder_gathers_the_parts() {
    let mut request_headers = ::http::HeaderMap::new();
    request_headers.insert(::http::header::HeaderName::from_static("accept"), ::http::header::HeaderValue::from_static("*/*"));
    let mut response_headers = ::http::HeaderMap::new();
    response_headers
        .insert(::http::header::HeaderName::from_static("server"), ::http::header::HeaderValue::from_static("unit"));
    let transaction = HttpTransactionBuilder::new("PUT", "https://example.net/x")
        .request_headers(&request_headers)
        .request_body(Some("payload".to_string()))
        .finish_with_parts(::http::StatusCode::NOT_FOUND, response_headers, "h\u{e9}llo".to_string());
    assert_eq!(transaction.request.method, "PUT");
    assert_eq!(transaction.request.url, "https://example.net/x");
    assert_eq!(transaction.request.headers.len(), 1);
    assert_eq!(transaction.request.headers.get("accept"), Some(&"*/*".to_string()));
    assert_eq!(transaction.request.body, Some("payload".to_string()));
    assert_eq!(transaction.response.status, 404);
    assert_eq!(transaction.response.headers.get("server"), Some(&"unit".to_string()));
    assert_eq!(transaction.response.body, "h\u{e9}llo");
    assert_eq!(transaction.response.body_length, 6);
    assert!(transaction.duration_ms < 60_000);
}

#[test]
fn builder_without_headers_or_body() {
    let transaction = HttpTransactionBuilder::new("GET", "https://example.net/")
        .finish_with_duration(204, StringMap::new(), String::new(), 17);
    assert_eq!(transaction.request.method, "GET");
    assert!(transaction.request.headers.is_empty());
    assert_eq!(transaction.request.body, None);
    assert_eq!(transaction.response.status, 204);
    assert_eq!(transaction.response.body_length, 0);
    assert_eq!(transaction.duration_ms, 17);
}

#[test]
fn later_request_headers_replace_earlier_ones() {
    let mut first = ::http::HeaderMap::new();
    first.insert(::http::header::HeaderName::from_static("a"), ::http::header::HeaderValue::from_static("1"));
    let mut second = ::http::HeaderMap::new();
    second.insert(::http::header::HeaderName::from_static("b"), ::http::header::HeaderValue::from_static("2"));
    let transaction = HttpTransactionBuilder::new("GET", "u")
        .request_headers(&first)
        .request_body(Some("x".to_string()))
        .request_headers(&second)
        .request_body(None)
        .finish_with_duration(200, StringMap::new(), "ok".to_string(), 1);
    assert_eq!(transaction.request.headers.len(), 1);
    assert_eq!(transaction.request.headers.get("b"), Some(&"2".to_string()));
    assert_eq!(transaction.request.headers.get("a"), None);
    assert_eq!(transaction.request.body, None);
    assert_eq!(transaction.response.body_length, 2);
}
