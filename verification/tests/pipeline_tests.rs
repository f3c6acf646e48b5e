use pica_core::connection::Throughput;
use pica_core::connection_definition::{ConnectionDefinitionType, ConnectionType, Paths, Settings};
use pica_core::event::{event_name, Event};
use pica_core::headers::Headers;
use pica_core::ids::{Id, IdPrefix};
use pica_core::metrics::Metric;
use pica_core::pipeline::{EventBuffer, TrackerBuffer};
use pica_core::record::{Environment, Ownership, RecordMetadata};

fn sample_event(tag: &str) -> Event {
    Event::new("enc-key", tag, Headers::new(), "{}".to_string())
}

#[test]
fn buffer_flushes_once_at_capacity_then_once_on_timeout() {
    let mut buffer = EventBuffer::new(4);
    // Filling the buffer in time yields exactly one batch of that size.
    assert!(buffer.offer(sample_event("a")).is_none());
    assert!(buffer.offer(sample_event("b")).is_none());
    assert!(buffer.offer(sample_event("c")).is_none());
    let batch = buffer.offer(sample_event("d")).expect("full buffer must flush");
    assert_eq!(batch.len(), 4);
    // One more event, then the inactivity timeout: a second batch of one.
    assert!(buffer.offer(sample_event("e")).is_none());
    let late = buffer.on_timeout().expect("timeout with content must flush");
    assert_eq!(late.len(), 1);
    assert_eq!(late[0].name.as_str(), "e");
    // Nothing left: the timeout flushes nothing.
    assert!(buffer.on_timeout().is_none());
}

#[test]
fn close_drains_remaining_events() {
    let mut buffer = EventBuffer::new(8);
    assert!(buffer.offer(sample_event("a")).is_none());
    assert!(buffer.offer(sample_event("b")).is_none());
    let last = buffer.on_close().expect("close with content must flush");
    assert_eq!(last.len(), 2);
}

fn sample_connection() -> pica_core::connection::Connection {
    pica_core::connection::Connection {
        id: Id::now(IdPrefix::Connection),
        platform_version: "v1".to_string(),
        connection_definition_id: Id::now(IdPrefix::ConnectionDefinition),
        kind: ConnectionType::Api,
        key: "test::stripe::default::abc".to_string(),
        group: "default".to_string(),
        name: None,
        environment: Environment::Test,
        platform: "stripe".to_string(),
        secrets_service_id: "secret".to_string(),
        event_access_id: None,
        access_key: None,
        identity: None,
        identity_type: None,
        settings: Settings { oauth: false },
        throughput: Throughput { key: "test::stripe::default::abc".to_string(), limit: 100 },
        ownership: Ownership::new("tenant"),
        oauth: None,
        has_error: false,
        error: None,
        record_metadata: RecordMetadata::default(),
    }
}

fn sample_event_access() -> pica_core::event_access::EventAccess {
    pica_core::event_access::EventAccess {
        id: Id::now(IdPrefix::EventAccess),
        name: "name".to_string(),
        key: "key".to_string(),
        namespace: "default".to_string(),
        platform: "stripe".to_string(),
        kind: ConnectionDefinitionType::Api,
        group: "group".to_string(),
        ownership: Ownership::new("tenant"),
        paths: Paths::default(),
        access_key: "ak".to_string(),
        environment: Environment::Test,
        record_metadata: RecordMetadata::default(),
        throughput: 1,
    }
}

#[test]
fn tracker_buffer_skips_passthrough_metrics() {
    let conn = std::sync::Arc::new(sample_connection());
    let mut buffer = TrackerBuffer::new(2);
    // Passthrough metrics never reach the tracker.
    assert!(buffer.observe(Metric::passthrough(conn.clone())).is_none());
    assert!(buffer.observe(Metric::passthrough(conn.clone())).is_none());
    // Two non-passthrough metrics flush at the threshold.
    let ea = std::sync::Arc::new(sample_event_access());
    assert!(buffer.observe(Metric::rate_limited(ea.clone(), None)).is_none());
    let batch = buffer
        .observe(Metric::rate_limited(ea, None))
        .expect("full tracker buffer must flush");
    assert_eq!(batch.len(), 2);
}

#[test]
fn event_names_follow_the_status() {
    let ok = event_name("stripe", "v1", "customers", "getMany", 200);
    assert_eq!(ok.as_str(), "stripe::v1::customers::getMany::request-succeeded");
    let failed = event_name("stripe", "v1", "customers", "getMany", 502);
    assert_eq!(failed.as_str(), "stripe::v1::customers::getMany::request-failed");
}
