use std::sync::Arc;
use pica_core::connection::{Connection, Throughput};
use pica_core::connection_definition::{ConnectionDefinitionType, ConnectionType, Paths, Settings};
use pica_core::destination::{Action, CrudAction};
use pica_core::external::UtcInstant;
use pica_core::ids::{Id, IdPrefix};
use pica_core::metrics::Metric;
use pica_core::record::{Environment, Ownership, RecordMetadata};
use pica_core::text::{parse_u64, sanitize_identity, string_to_vec, u64_to_string};
use pica_core::tracker::PropValue;

fn stripe_connection() -> Connection {
    Connection {
        id: Id::from_string("conn::A".to_string()),
        platform_version: "v1".to_string(),
        connection_definition_id: Id::from_string("conn_def::B".to_string()),
        kind: ConnectionType::Api,
        key: "test::stripe::default::abc".to_string(),
        group: "default".to_string(),
        name: None,
        environment: Environment::Test,
        platform: "stripe".to_string(),
        secrets_service_id: "secret".to_string(),
        event_access_id: None,
        access_key: None,
        identity: None,
        identity_type: None,
        settings: Settings { oauth: false },
        throughput: Throughput { key: "test::stripe::default::abc".to_string(), limit: 100 },
        ownership: Ownership::new("tenant"),
        oauth: None,
        has_error: false,
        error: None,
        record_metadata: RecordMetadata::default(),
    }
}

#[test]
fn update_doc_touches_exactly_the_six_counters() {
    let mut metric = Metric::passthrough(Arc::new(stripe_connection()));
    metric.date = UtcInstant { millis: 1_700_000_000_000, year: 2023, month: 11, day: 4 };
    let doc = metric.update_doc();
    let keys: Vec<&str> = doc.inc_keys.iter().map(|k| k.as_str()).collect();
    assert_eq!(
        keys,
        vec![
            "passthrough.total",
            "passthrough.platforms.stripe.total",
            "passthrough.daily.2023-11-04",
            "passthrough.platforms.stripe.daily.2023-11-04",
            "passthrough.monthly.2023-11",
            "passthrough.platforms.stripe.monthly.2023-11",
        ]
    );
    assert_eq!(doc.created_at, 1_700_000_000_000);
}

#[test]
fn tracked_metric_takes_the_user_or_the_tenant() {
    let conn = stripe_connection();
    let mut with_user = conn.clone();
    with_user.ownership.user_id = Some("user-1".to_string());
    let event = Metric::passthrough(Arc::new(with_user)).track();
    assert_eq!(event.distinct_id.as_str(), "user-1");
    assert_eq!(event.name.as_str(), "Called Passthrough API");

    let event = Metric::passthrough(Arc::new(conn)).track();
    assert_eq!(event.distinct_id.as_str(), "tenant");
    let platform = event
        .props
        .iter()
        .find(|(k, _)| k == "platform")
        .map(|(_, v)| v);
    match platform.unwrap() {
        PropValue::Text(t) => assert_eq!(t.as_str(), "stripe"),
        other => panic!("unexpected platform property: {:?}", other),
    }
}

#[test]
fn unified_metrics_name_what_they_acted_on() {
    let action = Action::Unified {
        name: "customers".to_string(),
        action: CrudAction::GetMany,
        id: None,
    };
    let event = Metric::unified(Arc::new(stripe_connection()), action).track();
    assert_eq!(event.name.as_str(), "Called Unified API");
    let lookup = |key: &str| {
        event
            .props
            .iter()
            .find(|(k, _)| k == key)
            .map(|(_, v)| match v {
                PropValue::Text(t) => t.clone(),
                other => panic!("unexpected property value: {:?}", other),
            })
            .unwrap()
    };
    assert_eq!(lookup("commonModel").as_str(), "customers");
    assert_eq!(lookup("action").as_str(), "getMany");
}

fn rate_limit_credential() -> pica_core::event_access::EventAccess {
    pica_core::event_access::EventAccess {
        id: Id::now(IdPrefix::EventAccess),
        name: "name".to_string(),
        key: "key".to_string(),
        namespace: "default".to_string(),
        platform: "stripe".to_string(),
        kind: ConnectionDefinitionType::Api,
        group: "group".to_string(),
        ownership: Ownership::new("tenant"),
        paths: Paths::default(),
        access_key: "ak".to_string(),
        environment: Environment::Test,
        record_metadata: RecordMetadata::default(),
        throughput: 1,
    }
}

#[test]
fn rate_limited_metrics_carry_the_key() {
    let ea = Arc::new(rate_limit_credential());
    let with_key = Metric::rate_limited(ea.clone(), Some("test::stripe::default::abc".to_string()));
    let event = with_key.track();
    assert_eq!(event.name.as_str(), "Reached Rate Limit");
    let lookup = |event: &pica_core::tracker::TrackEvent, key: &str| {
        event
            .props
            .iter()
            .find(|(k, _)| k == key)
            .map(|(_, v)| match v {
                PropValue::Text(t) => t.clone(),
                other => panic!("unexpected property value: {:?}", other),
            })
            .unwrap()
    };
    assert_eq!(lookup(&event, "key").as_str(), "test::stripe::default::abc");
    // Without a connection header the key property is present and empty.
    let without = Metric::rate_limited(ea, None).track();
    assert_eq!(lookup(&without, "key").as_str(), "");
}

#[test]
fn decimal_rendering_and_parsing_round_trip() {
    assert_eq!(u64_to_string(0).as_str(), "0");
    assert_eq!(u64_to_string(907).as_str(), "907");
    assert_eq!(parse_u64("907"), Some(907));
    assert_eq!(parse_u64(""), None);
    assert_eq!(parse_u64("12a"), None);
    assert_eq!(parse_u64("18446744073709551615"), Some(u64::MAX));
    assert_eq!(parse_u64("18446744073709551616"), None);
}

#[test]
fn splitting_keeps_every_segment() {
    let pieces = string_to_vec("a,b,,c");
    let views: Vec<&str> = pieces.iter().map(|p| p.as_str()).collect();
    assert_eq!(views, vec!["a", "b", "", "c"]);
    let single = string_to_vec("");
    assert_eq!(single.len(), 1);
    assert_eq!(single[0].as_str(), "");
}

#[test]
fn sanitizing_replaces_spaces_and_colons() {
    assert_eq!(sanitize_identity("Acme Corp:EU").as_str(), "Acme-Corp-EU");
    assert_eq!(sanitize_identity("plain").as_str(), "plain");
}
