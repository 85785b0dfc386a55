use pageinfo_rs::httpreq::{
    default_method, method_from_upper, parse_method, plan_body, plan_request, BodySection,
    HttpMethod, HttpReqError, HttpRequestConfig, RequestBody, RequestSection,
};
use pageinfo_rs::table::StringMap;

fn config(url: &str, method: &str) -> HttpRequestConfig {
    let mut headers = StringMap::new();
    headers.insert("Accept".to_string(), "application/json".to_string());
    headers.insert("Custom-Header".to_string(), "test-value".to_string());
    HttpRequestConfig {
        request: RequestSection { url: url.to_string(), method: method.to_string() },
        headers,
        body: None,
    }
}

#[test]
fn method_defaults_to_get() {
    assert_eq!(default_method(), "GET");
}

#[test]
fn configured_get_request_is_planned() {
    let plan = plan_request(config("https://httpbin.org/get", "GET")).unwrap();
    assert_eq!(plan.method, HttpMethod::Get);
    assert_eq!(plan.method_name, "GET");
    assert_eq!(plan.url.as_str(), "https://httpbin.org/get");
    assert_eq!(plan.headers.len(), 2);
    assert_eq!(plan.headers.get("Accept"), Some(&"application/json".to_string()));
    assert_eq!(plan.headers.get("Custom-Header"), Some(&"test-value".to_string()));
    assert!(matches!(plan.body, RequestBody::Absent));
}

#[test]
fn url_is_kept_as_parsed() {
    let plan = plan_request(config("HTTPS://Example.NET", "get")).unwrap();
    assert_eq!(plan.url.as_str(), "https://example.net/");
    assert_eq!(plan.method, HttpMethod::Get);
    assert_eq!(plan.method_name, "get");
    let transaction = plan.start_transaction().finish_with_duration(
        200,
        StringMap::new(),
        String::new(),
        3,
    );
    assert_eq!(transaction.request.method, "get");
    assert_eq!(transaction.request.url, "https://example.net/");
}

#[test]
fn invalid_url_is_reported_first() {
    let result = plan_request(config("invalid-url", "GET"));
    assert!(result.is_err());
    assert!(matches!(result.unwrap_err(), HttpReqError::Url(_)));
    let result = plan_request(config("invalid-url", "BREW"));
    assert!(matches!(result.unwrap_err(), HttpReqError::Url(_)));
}

#[test]
fn unsupported_method_is_reported_in_upper_case() {
    let result = plan_request(config("https://httpbin.org/get", "brew"));
    match result.unwrap_err() {
        HttpReqError::UnsupportedMethod(name) => assert_eq!(name, "BREW"),
        other => panic!("unexpected error: {:?}", other),
    }
    match parse_method("options").unwrap_err() {
        HttpReqError::UnsupportedMethod(name) => assert_eq!(name, "OPTIONS"),
        other => panic!("unexpected error: {:?}", other),
    }
    match method_from_upper("get").unwrap_err() {
        HttpReqError::UnsupportedMethod(name) => assert_eq!(name, "get"),
        other => panic!("unexpected error: {:?}", other),
    }
    assert!(matches!(parse_method(""), Err(HttpReqError::UnsupportedMethod(_))));
}

#[test]
fn methods_are_recognised_whatever_their_case() {
    assert_eq!(parse_method("GET").unwrap(), HttpMethod::Get);
    assert_eq!(parse_method("post").unwrap(), HttpMethod::Post);
    assert_eq!(parse_method("Put").unwrap(), HttpMethod::Put);
    assert_eq!(parse_method("dElEtE").unwrap(), HttpMethod::Delete);
    assert_eq!(parse_method("patch").unwrap(), HttpMethod::Patch);
    assert_eq!(parse_method("head").unwrap(), HttpMethod::Head);
    assert_eq!(parse_method("po\u{17f}t").unwrap(), HttpMethod::Post);
    assert_eq!(method_from_upper("HEAD").unwrap(), HttpMethod::Head);
    assert_eq!(method_from_upper("PATCH").unwrap(), HttpMethod::Patch);
}

#[test]
fn bodies_are_sent_as_text_or_as_form() {
    match plan_body(Some(BodySection::Text { text: "{\"a\": 1}".to_string() })) {
        RequestBody::Raw(text) => assert_eq!(text, "{\"a\": 1}"),
        other => panic!("unexpected body: {:?}", other),
    }
    match plan_body(Some(BodySection::Plain("plain".to_string()))) {
        RequestBody::Raw(text) => assert_eq!(text, "plain"),
        other => panic!("unexpected body: {:?}", other),
    }
    let mut fields = StringMap::new();
    fields.insert("key1".to_string(), "value1".to_string());
    fields.insert("key2".to_string(), "value2".to_string());
    match plan_body(Some(BodySection::Form(fields))) {
        RequestBody::Form(form) => {
            assert_eq!(form.len(), 2);
            assert_eq!(form.get("key1"), Some(&"value1".to_string()));
            assert_eq!(form.get("key2"), Some(&"value2".to_string()));
        },
        other => panic!("unexpected body: {:?}", other),
    }
    assert!(matches!(plan_body(None), RequestBody::Absent));
}

#[test]
fn configured_post_request_is_planned_with_its_body() {
    let mut request = config("https://httpbin.org/post", "POST");
    request.body = Some(BodySection::Text { text: "Hello from pageinfo-rs!".to_string() });
    let plan = plan_request(request).unwrap();
    assert_eq!(plan.method, HttpMethod::Post);
    assert_eq!(plan.url.as_str(), "https://httpbin.org/post");
    match plan.body {
        RequestBody::Raw(text) => assert_eq!(text, "Hello from pageinfo-rs!"),
        other => panic!("unexpected body: {:?}", other),
    }
}
