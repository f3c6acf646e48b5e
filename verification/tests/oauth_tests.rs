use pica_core::oauth_definition::{ConnectedPlatform, Settings};
use pica_core::oauth_flow::build_oauth_payload;
use pica_core::oauth_flow::{connection_key, connection_key_parts, oauth_expires_at};
use pica_core::ids::{Id, IdPrefix};
use pica_core::record::{Environment, Ownership};

#[test]
fn the_payload_carries_the_environment_into_objects() {
    let metadata: serde_json::Value = serde_json::from_str(r#"{"shop":"acme"}"#).unwrap();
    let payload = build_oauth_payload(
        Some(metadata),
        "client".to_string(),
        "hush".to_string(),
        Environment::Test,
    );
    assert_eq!(payload.client_id.as_str(), "client");
    assert_eq!(payload.client_secret.as_str(), "hush");
    assert_eq!(payload.metadata["environment"].as_str(), Some("test"));
    assert_eq!(payload.metadata["shop"], "acme");
}

#[test]
fn non_object_payloads_pass_through() {
    let metadata: serde_json::Value = serde_json::from_str("3").unwrap();
    let payload = build_oauth_payload(
        Some(metadata.clone()),
        "client".to_string(),
        "hush".to_string(),
        Environment::Live,
    );
    assert_eq!(payload.metadata, metadata);
    let empty = build_oauth_payload(None, "c".to_string(), "s".to_string(), Environment::Live);
    assert!(empty.metadata.is_null());
}

#[test]
fn expiry_takes_the_safety_margin() {
    // A token minted at a known instant with an hour of life.
    assert_eq!(oauth_expires_at(1_700_000_000, 3600), 1_700_003_480);
}

#[test]
fn key_uses_identity_when_it_says_more() {
    let uuid = "0f3a9bc2de014c5aa1b2c3d4e5f60718";
    let identity = Some("Acme Corp:EU".to_string());
    let (suffix, group, id_out) = connection_key_parts(uuid, None, identity.as_ref());
    assert_eq!(group.as_str(), uuid);
    assert_eq!(id_out.as_str(), "Acme Corp:EU");
    assert_eq!(suffix, format!("{}|Acme-Corp-EU", uuid));

    let key = connection_key(Environment::Test, "shopify", suffix.as_str());
    assert_eq!(
        key,
        format!("test::shopify::default::{}|Acme-Corp-EU", uuid)
    );
}

#[test]
fn key_falls_back_to_the_token_alone() {
    let uuid = "0f3a9bc2de014c5aa1b2c3d4e5f60718";
    let (suffix, group, id_out) = connection_key_parts(uuid, None, None);
    assert_eq!(group.as_str(), uuid);
    assert_eq!(id_out.as_str(), uuid);
    assert_eq!(suffix.as_str(), uuid);
    let key = connection_key(Environment::Live, "shopify", suffix.as_str());
    assert_eq!(key, format!("live::shopify::default::{}", uuid));
}

#[test]
fn group_stands_in_for_a_missing_identity() {
    let uuid = "0f3a9bc2de014c5aa1b2c3d4e5f60718";
    let group = Some("team-nine".to_string());
    let (suffix, group_out, id_out) = connection_key_parts(uuid, group.as_ref(), None);
    assert_eq!(group_out.as_str(), "team-nine");
    assert_eq!(id_out.as_str(), "team-nine");
    assert_eq!(suffix, format!("{}|team-nine", uuid));
}

fn connected(def_id: &Id, env: Environment, secret: Option<&str>) -> ConnectedPlatform {
    ConnectedPlatform {
        kind: "shopify".to_string(),
        scopes: None,
        title: "Shopify".to_string(),
        connection_definition_id: def_id.clone(),
        active: Some(true),
        image: None,
        secrets_service_id: secret.map(|s| s.to_string()),
        environment: env,
    }
}

#[test]
fn platform_secret_prefers_the_environment() {
    let def_id = Id::from_string("conn_def::X".to_string());
    let settings = Settings {
        id: Id::now(IdPrefix::ConnectionOAuthDefinition),
        ownership: Ownership::new("tenant"),
        connected_platforms: vec![
            connected(&def_id, Environment::Live, Some("live-secret")),
            connected(&def_id, Environment::Test, Some("test-secret")),
        ],
    };
    assert_eq!(
        settings.platform_secret(&def_id, Environment::Test).unwrap().as_str(),
        "test-secret"
    );
    assert_eq!(
        settings.platform_secret(&def_id, Environment::Live).unwrap().as_str(),
        "live-secret"
    );
}

#[test]
fn a_chosen_entry_without_a_secret_yields_nothing() {
    let def_id = Id::from_string("conn_def::X".to_string());
    let settings = Settings {
        id: Id::now(IdPrefix::ConnectionOAuthDefinition),
        ownership: Ownership::new("tenant"),
        connected_platforms: vec![
            // The environment-scoped entry wins even when it names no secret.
            connected(&def_id, Environment::Test, None),
            connected(&def_id, Environment::Live, Some("live-secret")),
        ],
    };
    assert!(settings.platform_secret(&def_id, Environment::Test).is_none());
}

#[test]
fn platform_secret_falls_back_across_environments() {
    let def_id = Id::from_string("conn_def::X".to_string());
    let settings = Settings {
        id: Id::now(IdPrefix::ConnectionOAuthDefinition),
        ownership: Ownership::new("tenant"),
        connected_platforms: vec![connected(&def_id, Environment::Live, Some("live-secret"))],
    };
    assert_eq!(
        settings.platform_secret(&def_id, Environment::Test).unwrap().as_str(),
        "live-secret"
    );
    let other = Id::from_string("conn_def::Y".to_string());
    assert!(settings.platform_secret(&other, Environment::Test).is_none());
}
