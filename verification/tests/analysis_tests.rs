use pageinfo_rs::session::EventCategory;
use pageinfo_rs::table::StringMap;
use pageinfo_rs::browser::{
    analyze_network_events, classify_resource_type, failure_description,
    try_analyze_network_events, CaptureBuffer, FailedEvent, FinishedEvent, NetworkEvent,
    NetworkRequest, NetworkResponse, RequestEvent, ResponseEvent, Timestamp,
};

fn stamp(seconds: f64) -> Timestamp {
    Timestamp::from_bits(seconds.to_bits())
}

fn request(id: &str, kind: Option<&str>) -> NetworkEvent {
    NetworkEvent::Request(RequestEvent {
        request_id: id.to_string(),
        url: format!("https://example.net/{}", id),
        method: "GET".to_string(),
        headers: StringMap::new(),
        resource_type: kind.map(|k| k.to_string()),
        timestamp: stamp(1.5),
    })
}

fn response(id: &str, status: u16, length: Option<u64>) -> NetworkEvent {
    NetworkEvent::Response(ResponseEvent {
        request_id: id.to_string(),
        status,
        headers: StringMap::new(),
        mime_type: "text/html".to_string(),
        encoded_data_length: length,
        timestamp: stamp(2.25),
    })
}

fn finished(id: &str) -> NetworkEvent {
    NetworkEvent::Finished(FinishedEvent { request_id: id.to_string(), timestamp: stamp(3.0) })
}

fn failed(id: &str, text: &str) -> NetworkEvent {
    NetworkEvent::Failed(FailedEvent {
        request_id: id.to_string(),
        error_text: text.to_string(),
        timestamp: stamp(4.0),
    })
}

fn buffer_of(events: Vec<NetworkEvent>) -> CaptureBuffer {
    let mut buffer = CaptureBuffer::new();
    for event in events {
        buffer.append(event);
    }
    buffer
}

#[test]
fn report_of_two_requests_one_response_one_failure() {
    let buffer = buffer_of(vec![
        request("1", Some("document")),
        request("2", Some("script")),
        response("1", 200, Some(1024)),
        failed("2", "net::ERR_ABORTED"),
    ]);
    let report = analyze_network_events(&buffer, 120);
    assert_eq!(report.total_requests, 2);
    assert_eq!(report.requests_by_type.len(), 2);
    assert_eq!(report.requests_by_type.get("document"), Some(&1));
    assert_eq!(report.requests_by_type.get("script"), Some(&1));
    assert_eq!(report.total_size, 1024);
    assert_eq!(report.load_time, 120);
    assert_eq!(report.responses.len(), 1);
    assert_eq!(report.responses[0].request_id, "1");
    assert_eq!(report.responses[0].status, 200);
    assert_eq!(report.failed_requests, vec!["Request 2 failed: net::ERR_ABORTED".to_string()]);
    assert_eq!(report.requests.len(), 2);
    assert_eq!(report.requests[0].request_id, "1");
    assert_eq!(report.requests[0].resource_type, "document");
    assert_eq!(report.requests[1].request_id, "2");
    assert_eq!(report.requests[1].resource_type, "script");
}

#[test]
fn report_of_empty_buffer() {
    let buffer = CaptureBuffer::new();
    assert!(buffer.is_empty());
    let report = analyze_network_events(&buffer, 50);
    assert_eq!(report.total_requests, 0);
    assert!(report.requests_by_type.is_empty());
    assert_eq!(report.requests_by_type.len(), 0);
    assert_eq!(report.total_size, 0);
    assert_eq!(report.load_time, 50);
    assert!(report.requests.is_empty());
    assert!(report.responses.is_empty());
    assert!(report.failed_requests.is_empty());
}

#[test]
fn declared_type_is_counted_in_lower_case() {
    let buffer = buffer_of(vec![
        request("a", Some("Document")),
        request("b", Some("XHR")),
        request("c", Some("document")),
    ]);
    let report = analyze_network_events(&buffer, 1);
    assert_eq!(report.requests_by_type.get("document"), Some(&2));
    assert_eq!(report.requests_by_type.get("xhr"), Some(&1));
    assert_eq!(report.requests_by_type.get("Document"), None);
    assert_eq!(report.requests[0].resource_type, "document");
    assert_eq!(report.requests[1].resource_type, "xhr");
}

#[test]
fn missing_type_is_counted_as_unknown() {
    let buffer = buffer_of(vec![request("a", None), request("b", None), request("c", Some("font"))]);
    let report = analyze_network_events(&buffer, 1);
    assert_eq!(report.requests_by_type.get("unknown"), Some(&2));
    assert_eq!(report.requests_by_type.get("font"), Some(&1));
    assert_eq!(report.requests[0].resource_type, "unknown");
    assert_eq!(classify_resource_type(&None), "unknown");
    assert_eq!(classify_resource_type(&Some("Image".to_string())), "image");
}

#[test]
fn total_size_sums_present_lengths_only() {
    let with_gaps = buffer_of(vec![
        response("1", 200, Some(100)),
        response("2", 204, None),
        response("3", 200, Some(23)),
        finished("1"),
    ]);
    let without = buffer_of(vec![response("1", 200, Some(100)), response("3", 200, Some(23))]);
    assert_eq!(analyze_network_events(&with_gaps, 0).total_size, 123);
    assert_eq!(analyze_network_events(&without, 0).total_size, 123);
    assert_eq!(analyze_network_events(&with_gaps, 0).responses.len(), 3);
    assert_eq!(analyze_network_events(&with_gaps, 0).responses[1].encoded_data_length, None);
}

#[test]
fn total_size_beyond_the_field_gives_no_report() {
    let fits = buffer_of(vec![response("1", 200, Some(u64::MAX - 1)), response("2", 200, Some(1))]);
    let report = try_analyze_network_events(&fits, 7).unwrap();
    assert_eq!(report.total_size, u64::MAX);
    let too_much =
        buffer_of(vec![response("1", 200, Some(u64::MAX)), response("2", 200, Some(1))]);
    assert!(try_analyze_network_events(&too_much, 7).is_none());
}

#[test]
fn analysis_twice_gives_equal_reports() {
    let buffer = buffer_of(vec![
        request("1", Some("document")),
        response("1", 200, Some(10)),
        finished("1"),
        request("2", None),
        failed("2", "net::ERR_FAILED"),
    ]);
    let first = analyze_network_events(&buffer, 33);
    let second = analyze_network_events(&buffer, 33);
    assert_eq!(format!("{:?}", first), format!("{:?}", second));
}

#[test]
fn interleaving_of_categories_does_not_change_the_report() {
    let one = buffer_of(vec![
        request("1", Some("document")),
        request("2", Some("script")),
        response("1", 200, Some(1024)),
        response("2", 404, Some(7)),
        failed("3", "net::ERR_ABORTED"),
        finished("1"),
    ]);
    let other = buffer_of(vec![
        failed("3", "net::ERR_ABORTED"),
        request("1", Some("document")),
        response("1", 200, Some(1024)),
        finished("1"),
        request("2", Some("script")),
        response("2", 404, Some(7)),
    ]);
    let a = analyze_network_events(&one, 5);
    let b = analyze_network_events(&other, 5);
    assert_eq!(format!("{:?}", a), format!("{:?}", b));
}

#[test]
fn orphan_records_are_reported() {
    let buffer = buffer_of(vec![response("9", 500, Some(3)), failed("8", "net::ERR_TIMED_OUT")]);
    let report = analyze_network_events(&buffer, 1);
    assert_eq!(report.total_requests, 0);
    assert_eq!(report.responses.len(), 1);
    assert_eq!(report.responses[0].request_id, "9");
    assert_eq!(report.failed_requests, vec!["Request 8 failed: net::ERR_TIMED_OUT".to_string()]);
}

#[test]
fn response_and_failure_keep_the_id_of_their_request() {
    let buffer = buffer_of(vec![
        response("b", 200, Some(1)),
        request("a", Some("image")),
        request("b", Some("script")),
        failed("a", "net::ERR_BLOCKED_BY_CLIENT"),
    ]);
    let report = analyze_network_events(&buffer, 1);
    let script = report.requests.iter().find(|r| r.request_id == "b").unwrap();
    assert_eq!(script.resource_type, "script");
    assert_eq!(report.responses[0].request_id, script.request_id);
    let image = report.requests.iter().find(|r| r.request_id == "a").unwrap();
    assert_eq!(image.resource_type, "image");
    assert_eq!(report.failed_requests[0], "Request a failed: net::ERR_BLOCKED_BY_CLIENT");
    assert_eq!(report.requests_by_type.get("image"), Some(&1));
    assert_eq!(report.requests_by_type.get("script"), Some(&1));
}

#[test]
fn finished_records_add_nothing() {
    let buffer = buffer_of(vec![finished("1"), finished("2")]);
    let report = analyze_network_events(&buffer, 9);
    assert_eq!(report.total_requests, 0);
    assert_eq!(report.total_size, 0);
    assert!(report.requests.is_empty());
    assert!(report.responses.is_empty());
    assert!(report.failed_requests.is_empty());
}

#[test]
fn entries_copy_the_record() {
    let mut sent = StringMap::new();
    sent.insert("Accept".to_string(), "*/*".to_string());
    sent.insert("Referer".to_string(), "https://example.net/".to_string());
    let event = RequestEvent {
        request_id: "42".to_string(),
        url: "https://example.net/a.js".to_string(),
        method: "POST".to_string(),
        headers: sent,
        resource_type: Some("Script".to_string()),
        timestamp: stamp(12.75),
    };
    let entry = NetworkRequest::from_event(&event, "script".to_string());
    assert_eq!(entry.request_id, "42");
    assert_eq!(entry.url, "https://example.net/a.js");
    assert_eq!(entry.method, "POST");
    assert_eq!(entry.resource_type, "script");
    assert_eq!(f64::from_bits(entry.timestamp.to_bits()), 12.75);
    assert_eq!(entry.headers.len(), 2);
    assert_eq!(entry.headers.key_at(0), "Accept");
    assert_eq!(entry.headers.get("Accept"), Some(&"*/*".to_string()));
    assert_eq!(entry.headers.get("Referer"), Some(&"https://example.net/".to_string()));
    let mut received = StringMap::new();
    received.insert("content-type".to_string(), "text/plain".to_string());
    let event = ResponseEvent {
        request_id: "42".to_string(),
        status: 301,
        headers: received,
        mime_type: "text/plain".to_string(),
        encoded_data_length: Some(77),
        timestamp: stamp(13.0),
    };
    let entry = NetworkResponse::from_event(&event);
    assert_eq!(entry.request_id, "42");
    assert_eq!(entry.status, 301);
    assert_eq!(entry.mime_type, "text/plain");
    assert_eq!(entry.encoded_data_length, Some(77));
    assert_eq!(entry.timestamp, stamp(13.0));
    assert_eq!(entry.headers.len(), 1);
    assert_eq!(entry.headers.get("content-type"), Some(&"text/plain".to_string()));
}

#[test]
fn failure_description_names_id_and_error() {
    let event = FailedEvent {
        request_id: "7.1".to_string(),
        error_text: "net::ERR_NAME_NOT_RESOLVED".to_string(),
        timestamp: stamp(0.0),
    };
    assert_eq!(failure_description(&event), "Request 7.1 failed: net::ERR_NAME_NOT_RESOLVED");
}

#[test]
fn appends_of_several_collectors_lose_nothing() {
    let collectors = 4usize;
    let per_collector = 25usize;
    let mut buffer = CaptureBuffer::new();
    for round in 0..per_collector {
        for collector in 0..collectors {
            let id = format!("{}-{}", collector, round);
            let event = match collector {
                0 => request(&id, Some("document")),
                1 => response(&id, 200, Some(1)),
                2 => finished(&id),
                _ => failed(&id, "net::ERR_ABORTED"),
            };
            buffer.append(event);
        }
    }
    assert_eq!(buffer.len(), collectors * per_collector);
    let mut ids: Vec<String> = Vec::new();
    for i in 0..buffer.len() {
        ids.push(buffer.get(i).resource_id().clone());
    }
    let mut unique = ids.clone();
    unique.sort();
    unique.dedup();
    assert_eq!(unique.len(), collectors * per_collector);
    for collector in 0..collectors {
        let prefix = format!("{}-", collector);
        let own: Vec<&String> = ids.iter().filter(|id| id.starts_with(&prefix)).collect();
        assert_eq!(own.len(), per_collector);
        for (round, id) in own.iter().enumerate() {
            assert_eq!(**id, format!("{}-{}", collector, round));
        }
    }
    let report = analyze_network_events(&buffer, 1);
    assert_eq!(report.total_requests, per_collector);
    assert_eq!(report.responses.len(), per_collector);
    assert_eq!(report.failed_requests.len(), per_collector);
    assert_eq!(report.total_size, per_collector as u64);
}

#[test]
fn append_keeps_what_the_buffer_holds() {
    let mut buffer = CaptureBuffer::new();
    buffer.append(request("1", None));
    buffer.append(finished("1"));
    assert_eq!(buffer.len(), 2);
    assert!(!buffer.is_empty());
    assert!(matches!(buffer.get(0), NetworkEvent::Request(_)));
    assert!(matches!(buffer.get(1), NetworkEvent::Finished(_)));
    buffer.append(failed("2", "x"));
    assert_eq!(buffer.len(), 3);
    assert!(matches!(buffer.get(0), NetworkEvent::Request(_)));
    assert!(matches!(buffer.get(1), NetworkEvent::Finished(_)));
    assert_eq!(buffer.get(2).resource_id(), "2");
}

#[test]
fn records_know_their_category() {
    assert_eq!(request("1", None).category(), EventCategory::Request);
    assert_eq!(response("1", 200, None).category(), EventCategory::Response);
    assert_eq!(finished("1").category(), EventCategory::Finished);
    assert_eq!(failed("1", "x").category(), EventCategory::Failed);
    assert_eq!(response("abc", 200, None).resource_id(), "abc");
}

#[test]
fn summary_lists_counts_and_failures() {
    let buffer = buffer_of(vec![
        request("1", Some("document")),
        request("2", Some("script")),
        request("3", Some("Script")),
        response("1", 200, Some(1536)),
        failed("2", "net::ERR_ABORTED"),
        failed("3", "net::ERR_FAILED"),
    ]);
    let report = analyze_network_events(&buffer, 1234);
    let expected = "\n=== NETWORK ANALYSIS ===\nTotal Requests: 3\nLoad Time: 1234ms\n\
Total Size: 1.50KB\n\nRequest Types:\n  document: 1\n  script: 2\n\
\nFailed Requests:\n  - Request 2 failed: net::ERR_ABORTED\n  - Request 3 failed: net::ERR_FAILED\n\
=========================\n";
    assert_eq!(report.summary("1.50"), expected);
}

#[test]
fn summary_without_failures_has_no_failure_section() {
    let report = analyze_network_events(&CaptureBuffer::new(), 50);
    let expected = "\n=== NETWORK ANALYSIS ===\nTotal Requests: 0\nLoad Time: 50ms\n\
Total Size: 0.00KB\n\nRequest Types:\n=========================\n";
    assert_eq!(report.summary("0.00"), expected);
}
