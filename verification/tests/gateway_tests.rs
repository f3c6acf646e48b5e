use pica_core::auth::{authenticate, increment_and_check, resolve_connection};
use pica_core::cache::{CacheLookup, LruTtlCache};
use pica_core::callback::database_connection_lost_callback;
use pica_core::connection::{Connection, Throughput};
use pica_core::connection_definition::{
    ConnectionDefinitionType, ConnectionType, Paths, Settings,
};
use pica_core::errors::ErrorKind;
use pica_core::event_access::EventAccess;
use pica_core::headers::Headers;
use pica_core::ids::{Id, IdPrefix};
use pica_core::passthrough::{cmd_cache_key, cmd_lookup_query, pass_response_headers, CmdQuery};
use pica_core::record::{Environment, Ownership, RecordMetadata};

fn credential(deleted: bool) -> EventAccess {
    let mut record_metadata = RecordMetadata::default();
    record_metadata.deleted = deleted;
    EventAccess {
        id: Id::now(IdPrefix::EventAccess),
        name: "name".to_string(),
        key: "key".to_string(),
        namespace: "default".to_string(),
        platform: "stripe".to_string(),
        kind: ConnectionDefinitionType::Api,
        group: "group".to_string(),
        ownership: Ownership::new("tenant"),
        paths: Paths::default(),
        access_key: "sk_live_token".to_string(),
        environment: Environment::Test,
        record_metadata,
        throughput: 1,
    }
}

fn connection(key: &str) -> Connection {
    Connection {
        id: Id::now(IdPrefix::Connection),
        platform_version: "v1".to_string(),
        connection_definition_id: Id::now(IdPrefix::ConnectionDefinition),
        kind: ConnectionType::Api,
        key: key.to_string(),
        group: "default".to_string(),
        name: None,
        environment: Environment::Test,
        platform: "stripe".to_string(),
        secrets_service_id: "secret".to_string(),
        event_access_id: None,
        access_key: None,
        identity: None,
        identity_type: None,
        settings: Settings { oauth: false },
        throughput: Throughput { key: key.to_string(), limit: 100 },
        ownership: Ownership::new("tenant"),
        oauth: None,
        has_error: false,
        error: None,
        record_metadata: RecordMetadata::default(),
    }
}

#[test]
fn auth_attaches_only_live_credentials() {
    let header = "sk_live_token".to_string();
    // A present header with a live record attaches it.
    let ok = authenticate(Some(&header), Some(credential(false)));
    assert!(ok.is_ok());
    // A missing header is the caller's mistake.
    let missing = authenticate(None, None);
    assert_eq!(missing.unwrap_err().status_code(), 400);
    // An unknown or deleted credential is unauthorized.
    let unknown = authenticate(Some(&header), None);
    assert_eq!(unknown.unwrap_err().status_code(), 401);
    let header2 = "sk_live_token".to_string();
    let dead = authenticate(Some(&header2), Some(credential(true)));
    assert_eq!(dead.unwrap_err().status_code(), 401);
}

#[test]
fn unknown_connection_is_not_found_not_unauthorized() {
    let header = "test::stripe::default::missing".to_string();
    let err = resolve_connection(Some(&header), None).unwrap_err();
    assert_eq!(err.kind, ErrorKind::NotFound);
    assert_eq!(err.status_code(), 404);
    let found = connection("test::stripe::default::abc");
    let header2 = "test::stripe::default::abc".to_string();
    assert!(resolve_connection(Some(&header2), Some(found)).is_ok());
}

#[test]
fn second_request_in_the_window_is_limited() {
    // Two requests within one second against a budget of one.
    let throughput = 1;
    let mut window_counter = 0u64;
    let first = increment_and_check(&mut window_counter, throughput);
    let second = increment_and_check(&mut window_counter, throughput);
    assert!(first);
    assert!(!second);
}

#[test]
fn connection_lost_callback_is_idempotent() {
    let conn = connection("conn-key");
    let first = database_connection_lost_callback(Some(conn), 100).unwrap();
    assert!(first.record_metadata.deprecated);
    assert!(!first.record_metadata.active);
    let second = database_connection_lost_callback(Some(first), 200).unwrap();
    assert!(second.record_metadata.deprecated);
    assert!(!second.record_metadata.active);
    // The second pass did not restamp the record: nothing was active to change.
    assert_eq!(second.record_metadata.updated_at, 100);
}

#[test]
fn connection_lost_callback_unknown_id_is_not_found() {
    let err = database_connection_lost_callback(None, 100).unwrap_err();
    assert_eq!(err.kind, ErrorKind::NotFound);
}

#[test]
fn concurrent_misses_load_once() {
    let mut cache: LruTtlCache<u64> = LruTtlCache::new(4, 1000);
    // The first miss is told to load; every concurrent miss waits.
    assert_eq!(cache.lookup_or_begin("k", 0), CacheLookup::MustLoad);
    assert_eq!(cache.lookup_or_begin("k", 0), CacheLookup::Wait);
    assert_eq!(cache.lookup_or_begin("k", 0), CacheLookup::Wait);
    cache.complete_load("k", Some(7), 0);
    assert_eq!(cache.lookup_or_begin("k", 1), CacheLookup::Hit);
    assert_eq!(*cache.peek("k").unwrap(), 7);
}

#[test]
fn loader_failures_are_not_cached() {
    let mut cache: LruTtlCache<u64> = LruTtlCache::new(4, 1000);
    assert_eq!(cache.lookup_or_begin("k", 0), CacheLookup::MustLoad);
    cache.complete_load("k", None, 0);
    // The next lookup runs the loader again.
    assert_eq!(cache.lookup_or_begin("k", 1), CacheLookup::MustLoad);
}

#[test]
fn entries_expire_after_their_ttl() {
    let mut cache: LruTtlCache<u64> = LruTtlCache::new(4, 1000);
    assert_eq!(cache.lookup_or_begin("k", 0), CacheLookup::MustLoad);
    cache.complete_load("k", Some(7), 0);
    assert_eq!(cache.lookup_or_begin("k", 999), CacheLookup::Hit);
    assert_eq!(cache.lookup_or_begin("k", 1000), CacheLookup::MustLoad);
}

#[test]
fn upstream_headers_come_back_prefixed() {
    let mut upstream = Headers::new();
    upstream.push("content-length".to_string(), "42".to_string());
    upstream.push("x-request-id".to_string(), "abc".to_string());
    let passed = pass_response_headers(&upstream);
    assert_eq!(passed.len(), 2);
    assert_eq!(passed.get("content-length").unwrap().as_str(), "42");
    assert_eq!(
        passed.get("x-pica-passthrough-x-request-id").unwrap().as_str(),
        "abc"
    );
    assert!(passed.get("x-request-id").is_none());
}

#[test]
fn route_cache_keys_name_the_route() {
    let pinned = "cmd::fixed".to_string();
    assert_eq!(
        cmd_cache_key(Some(&pinned), "stripe", "/v1/customers", "get").as_str(),
        "cmd::fixed"
    );
    assert_eq!(
        cmd_cache_key(None, "stripe", "/v1/customers", "get").as_str(),
        "stripe::/v1/customers::GET"
    );
}

#[test]
fn action_id_header_bypasses_the_route_lookup() {
    let pinned = "cmd::fixed".to_string();
    match cmd_lookup_query(Some(&pinned), "stripe", "/v1/customers", "get") {
        CmdQuery::ById { id } => assert_eq!(id.as_str(), "cmd::fixed"),
        other => panic!("expected a pinned lookup, got {:?}", other),
    }
    match cmd_lookup_query(None, "stripe", "/v1/customers", "get") {
        CmdQuery::ByRoute { platform, path, method } => {
            assert_eq!(platform.as_str(), "stripe");
            assert_eq!(path.as_str(), "/v1/customers");
            assert_eq!(method.as_str(), "GET");
        }
        other => panic!("expected a route lookup, got {:?}", other),
    }
}
