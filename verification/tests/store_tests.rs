use webhook_recorder::store::build_notification;
use webhook_recorder::store::ingest;
use webhook_recorder::store::ingest_raw;
use webhook_recorder::store::CapturedNotification;
use webhook_recorder::store::IngestError;
use webhook_recorder::store::Store;

fn no_headers() -> Vec<(String, String)> {
    Vec::new()
}

fn same_record(a: &CapturedNotification, b: &CapturedNotification) -> bool {
    a.timestamp == b.timestamp && a.headers == b.headers && a.body == b.body
}

#[test]
fn empty_initial_state() {
    let store = Store::new();
    assert_eq!(store.len(), 0);
    assert!(store.list().is_empty());
}

#[test]
fn body_round_trips_through_capture() {
    let raw = br#"{"issue": {"key": "JIRA-1"}, "event": "created"}"#;
    let mut store = Store::new();
    let r = ingest_raw(&mut store, 100, no_headers(), raw);
    assert!(r.is_ok());
    assert_eq!(store.len(), 1);
    let expected: serde_json::Value = serde_json::from_slice(raw).unwrap();
    assert_eq!(store.get(0).body, expected);
}

#[test]
fn scalar_and_array_bodies_are_accepted() {
    let mut store = Store::new();
    assert!(ingest_raw(&mut store, 1, no_headers(), b"1").is_ok());
    assert!(ingest_raw(&mut store, 2, no_headers(), b"\"text\"").is_ok());
    assert!(ingest_raw(&mut store, 3, no_headers(), b" [1, 2, 3] ").is_ok());
    assert!(ingest_raw(&mut store, 4, no_headers(), b"null").is_ok());
    assert_eq!(store.len(), 4);
    let expected: serde_json::Value = serde_json::from_slice(b"[1,2,3]").unwrap();
    assert_eq!(store.get(2).body, expected);
}

#[test]
fn insertion_order_is_kept() {
    let mut store = Store::new();
    assert!(ingest_raw(&mut store, 10, no_headers(), b"1").is_ok());
    assert!(ingest_raw(&mut store, 10, no_headers(), b"2").is_ok());
    assert!(ingest_raw(&mut store, 11, no_headers(), b"3").is_ok());
    let all = store.list();
    assert_eq!(all.len(), 3);
    for (i, expected) in ["1", "2", "3"].iter().enumerate() {
        let v: serde_json::Value = serde_json::from_str(expected).unwrap();
        assert_eq!(all[i].body, v);
    }
}

#[test]
fn headers_are_preserved_in_order_without_merging() {
    let headers = vec![
        ("X-Test".to_string(), "a".to_string()),
        ("X-Test".to_string(), "b".to_string()),
    ];
    let mut store = Store::new();
    let r = ingest_raw(&mut store, 5, headers.clone(), b"{}");
    assert!(r.is_ok());
    assert_eq!(store.get(0).headers, headers);
}

#[test]
fn listing_is_idempotent() {
    let mut store = Store::new();
    assert!(ingest_raw(&mut store, 7, no_headers(), b"{\"k\": true}").is_ok());
    assert!(ingest_raw(&mut store, 8, no_headers(), b"2").is_ok());
    let first: Vec<_> = store.list().iter().collect();
    let second: Vec<_> = store.list().iter().collect();
    assert_eq!(first.len(), second.len());
    for (a, b) in first.iter().zip(second.iter()) {
        assert!(same_record(a, b));
    }
}

#[test]
fn timestamps_are_weakly_monotonic() {
    let mut store = Store::new();
    assert!(ingest_raw(&mut store, 5, no_headers(), b"1").is_ok());
    assert!(ingest_raw(&mut store, 5, no_headers(), b"2").is_ok());
    assert!(ingest_raw(&mut store, 7, no_headers(), b"3").is_ok());
    assert_eq!(store.get(0).timestamp, "5");
    assert_eq!(store.get(1).timestamp, "5");
    assert_eq!(store.get(2).timestamp, "7");
    let all = store.list();
    for pair in all.windows(2) {
        let a: u64 = pair[0].timestamp.parse().unwrap();
        let b: u64 = pair[1].timestamp.parse().unwrap();
        assert!(a <= b);
    }
}

#[test]
fn malformed_body_is_rejected_and_not_recorded() {
    let mut store = Store::new();
    let r = ingest_raw(&mut store, 9, no_headers(), b"not json");
    assert_eq!(r, Err(IngestError::MalformedBody));
    assert_eq!(store.len(), 0);
    assert!(store.list().is_empty());
}

#[test]
fn truncated_json_is_rejected() {
    let mut store = Store::new();
    assert_eq!(
        ingest_raw(&mut store, 9, no_headers(), b"{\"open\": "),
        Err(IngestError::MalformedBody)
    );
    assert_eq!(
        ingest_raw(&mut store, 9, no_headers(), b""),
        Err(IngestError::MalformedBody)
    );
    assert_eq!(store.len(), 0);
}

#[test]
fn rejection_leaves_earlier_records_alone() {
    let mut store = Store::new();
    assert!(ingest_raw(&mut store, 3, no_headers(), b"true").is_ok());
    assert!(ingest_raw(&mut store, 4, no_headers(), b"}{").is_err());
    assert_eq!(store.len(), 1);
    assert_eq!(store.get(0).body, serde_json::Value::Bool(true));
}

#[test]
fn build_notification_renders_the_capture_second() {
    let body: serde_json::Value = serde_json::from_str("42").unwrap();
    let n = build_notification(1700000000, no_headers(), body.clone());
    assert_eq!(n.timestamp, "1700000000");
    assert!(n.headers.is_empty());
    assert_eq!(n.body, body);
}

#[test]
fn ingest_records_the_given_parsed_body() {
    let body: serde_json::Value = serde_json::from_str(r#"{"a": [null, false]}"#).unwrap();
    let headers = vec![("Content-Type".to_string(), "application/json".to_string())];
    let mut store = Store::new();
    ingest(&mut store, 0, headers.clone(), body.clone());
    assert_eq!(store.len(), 1);
    assert_eq!(store.get(0).timestamp, "0");
    assert_eq!(store.get(0).headers, headers);
    assert_eq!(store.get(0).body, body);
}
