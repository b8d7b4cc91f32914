use std::sync::mpsc;

use sqlite_native_runtime::ingest::{extract_json_fields, fields_from, handle_publish, PublishOutcome};
use sqlite_native_runtime::inserter::{Channels, IngestMsg, SendOutcome};
use sqlite_native_runtime::metrics::Metrics;
use sqlite_native_runtime::spike::inserter::{spike_message, SubscriberCounts};
use sqlite_native_runtime::topic::Priority;

fn channels(cap: usize) -> (Channels, [mpsc::Receiver<IngestMsg>; 3]) {
    let (high, rh) = mpsc::sync_channel(cap);
    let (normal, rn) = mpsc::sync_channel(cap);
    let (low, rl) = mpsc::sync_channel(cap);
    (Channels::new(high, normal, low), [rh, rn, rl])
}

#[test]
fn fields_from_prefers_a_non_empty_id() {
    let f = fields_from(Some((Some("e-1".into()), Some("v2".into()), Some("{\"k\":1}".into()))), "fresh".into());
    assert_eq!(f, ("e-1".to_string(), Some("v2".to_string()), Some("{\"k\":1}".to_string())));
    let f = fields_from(Some((Some(String::new()), None, None)), "fresh".into());
    assert_eq!(f, ("fresh".to_string(), None, None));
    let f = fields_from(Some((None, Some("s".into()), None)), "fresh".into());
    assert_eq!(f, ("fresh".to_string(), Some("s".to_string()), None));
    let f = fields_from(None, "fresh".into());
    assert_eq!(f, ("fresh".to_string(), None, None));
}

#[test]
fn extract_json_fields_reads_the_payload() {
    let (id, schema, meta) = extract_json_fields(r#"{"id":"abc","schema":"contact.v1","metadata":{"src":"crm","n":2}}"#);
    assert_eq!(id, "abc");
    assert_eq!(schema.as_deref(), Some("contact.v1"));
    assert_eq!(meta.as_deref(), Some(r#"{"n":2,"src":"crm"}"#));
    let (id, schema, meta) = extract_json_fields(r#"{"id":"","schema":7}"#);
    assert_eq!(id.len(), 36);
    assert_eq!(id.matches('-').count(), 4);
    assert_eq!((schema, meta), (None, None));
    let (id, schema, meta) = extract_json_fields("not json");
    assert_eq!(id.len(), 36);
    assert_eq!((schema, meta), (None, None));
    let (a, _, _) = extract_json_fields("{}");
    let (b, _, _) = extract_json_fields("{}");
    assert_ne!(a, b, "each missing id gets a fresh UUID");
}

#[test]
fn handle_publish_dispatches_valid_messages() {
    let (mut ch, rx) = channels(4);
    let mut m = Metrics::new();
    let out = handle_publish("db/high/acme/crm/contact/upsert".into(), br#"{"id":"x1","schema":"s"}"#, &mut ch, &mut m);
    assert!(matches!(out, PublishOutcome::Dispatched(Priority::High, SendOutcome::Sent, _)));
    let msg = rx[0].try_recv().unwrap();
    assert_eq!(msg.id, "x1");
    assert_eq!(msg.tenant, "acme");
    assert_eq!(msg.database_name, "crm");
    assert_eq!(msg.entity, "contact");
    assert_eq!(msg.operation, "upsert");
    assert_eq!(msg.priority, "high");
    assert_eq!(msg.raw_topic, "db/high/acme/crm/contact/upsert");
    assert_eq!(msg.schema_name.as_deref(), Some("s"));
    assert_eq!(msg.payload_json, r#"{"id":"x1","schema":"s"}"#);
    assert_eq!(msg.received_at.len(), 24, "{}", msg.received_at);
    assert!(msg.received_at.ends_with('Z'));
    assert_eq!(m.snapshot().received_high, 1);
    assert_eq!(m.snapshot().received_invalid, 0);
}

#[test]
fn handle_publish_counts_invalid_and_dropped() {
    let (mut ch, rx) = channels(1);
    let mut m = Metrics::new();
    let out = handle_publish("db/low/acme/crm/contact/insert".into(), &[0x7b, 0xff], &mut ch, &mut m);
    assert!(matches!(out, PublishOutcome::PayloadNotUtf8));
    let out = handle_publish("dc/low/acme/crm/contact/insert".into(), b"{}", &mut ch, &mut m);
    match out {
        PublishOutcome::InvalidTopic(e) => assert!(e.contains("dc"), "{e}"),
        _ => panic!("the topic must be refused"),
    }
    assert_eq!(m.snapshot().received_invalid, 2);
    let first = handle_publish("db/low/acme/crm/contact/insert".into(), b"{}", &mut ch, &mut m);
    assert!(matches!(first, PublishOutcome::Dispatched(Priority::Low, SendOutcome::Sent, _)));
    let second = handle_publish("db/low/acme/crm/contact/insert".into(), b"{}", &mut ch, &mut m);
    assert!(matches!(second, PublishOutcome::Dispatched(Priority::Low, SendOutcome::Full, _)));
    assert_eq!(m.snapshot().dropped_low, 1);
    assert_eq!(m.snapshot().received_low, 2);
    drop(rx);
    let gone = handle_publish("db/low/acme/crm/contact/insert".into(), b"{}", &mut ch, &mut m);
    assert!(matches!(gone, PublishOutcome::Dispatched(Priority::Low, SendOutcome::Disconnected, _)));
    assert_eq!(m.snapshot().dropped_low, 1);
}

#[test]
fn spike_message_replaces_invalid_utf8() {
    let m = spike_message("bench/1".into(), &[b'o', b'k', 0xff], 42);
    assert_eq!(m.topic, "bench/1");
    assert_eq!(m.payload, "ok\u{FFFD}");
    assert_eq!(m.received_ms, 42);
    let m = spike_message("bench/2".into(), "año".as_bytes(), -1);
    assert_eq!(m.payload, "año");
}

#[test]
fn subscriber_counts_report_every_ten_thousand() {
    let mut c = SubscriberCounts::new();
    let mut reports = 0;
    for i in 0..20_000u32 {
        if c.count(i % 4 != 0) {
            reports += 1;
        }
    }
    assert_eq!(reports, 2);
    assert_eq!(c.received, 20_000);
    assert_eq!(c.dropped, 5_000);
}
