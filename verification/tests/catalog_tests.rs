use pica_core::catalog::{
    available_connector_of, build_public_connection_details, AuthenticationItem, CreateRequest,
    PublicConnectionDataCaveat,
};
use pica_core::connection_definition::{
    AuthMethod, Caveat, ConnectionDefinitionType, ConnectionStatus, ModelFeatures, ModelFilter,
    ModelSorting, Paths, Settings,
};
use pica_core::destination::CrudAction;
use pica_core::ids::{Id, IdPrefix};
use pica_core::passthrough::ConnectionModelDefinition;
use pica_core::record::RecordMetadata;

fn request() -> CreateRequest {
    CreateRequest {
        id: None,
        platform: "stripe".to_string(),
        platform_version: "v1".to_string(),
        status: ConnectionStatus::Beta,
        kind: ConnectionDefinitionType::Api,
        name: "Stripe".to_string(),
        description: "Payments".to_string(),
        category: "payments".to_string(),
        image: "stripe.png".to_string(),
        tags: vec!["payments".to_string()],
        helper_link: None,
        authentication: vec![AuthenticationItem {
            name: "apiKey".to_string(),
            label: "API Key".to_string(),
            kind: "password".to_string(),
            placeholder: "sk_...".to_string(),
            options: None,
        }],
        auth_method: Some(AuthMethod::OAuth),
        multi_env: false,
        settings: Settings { oauth: true },
        paths: Paths::default(),
        test_connection: None,
        test_delay_in_millis: None,
        active: true,
        markdown: None,
    }
}

#[test]
fn a_created_definition_mirrors_its_request() {
    let definition = request().from();
    assert_eq!(definition.key.as_str(), "api::stripe::v1");
    assert_eq!(definition.name.as_str(), "Stripe");
    assert_eq!(definition.auth_secrets.len(), 1);
    assert_eq!(definition.auth_secrets[0].name.as_str(), "apiKey");
    assert_eq!(definition.frontend.connection_form.form_data.len(), 1);
    assert_eq!(definition.frontend.connection_form.name.as_str(), "Connect");
    assert!(definition.record_metadata.active);
    assert!(!definition.hidden);
}

#[test]
fn an_update_merges_over_the_record() {
    let record = request().from();
    let mut change = request();
    change.name = "Stripe v2".to_string();
    change.description = "Payments, renewed".to_string();
    change.active = false;
    let updated = change.update(record);
    assert_eq!(updated.name.as_str(), "Stripe v2");
    assert_eq!(updated.frontend.spec.description.as_str(), "Payments, renewed");
    // Fields an update may not change keep the record's values.
    assert_eq!(updated.key.as_str(), "api::stripe::v1");
    assert_eq!(updated.frontend.spec.title.as_str(), "Stripe");
    assert!(!updated.record_metadata.active);
}

fn model_definition(id: &str, title: &str, action: CrudAction) -> ConnectionModelDefinition {
    ConnectionModelDefinition {
        id: Id::from_string(id.to_string()),
        connection_platform: "stripe".to_string(),
        connection_definition_id: Id::now(IdPrefix::ConnectionDefinition),
        platform_version: "v1".to_string(),
        key: "key".to_string(),
        title: title.to_string(),
        name: "customers".to_string(),
        path: "/v1/customers".to_string(),
        action_name: action,
        record_metadata: RecordMetadata::default(),
    }
}

#[test]
fn public_details_collect_actions_scopes_and_caveats() {
    let definition = request().from();
    let models = vec![
        model_definition("cmd::1", "List customers", CrudAction::GetMany),
        model_definition("cmd::2", "Create customer", CrudAction::Create),
    ];
    let features = ModelFeatures {
        name: "customers".to_string(),
        pagination: true,
        filtration: ModelFilter { supported: false, filters: None },
        sorting: ModelSorting { supported: true, keys: None },
    };
    let caveats = vec![
        Caveat {
            connection_model_definition_id: Some("cmd::2".to_string()),
            comments: vec!["One at a time".to_string()],
        },
        Caveat {
            connection_model_definition_id: Some("cmd::unknown".to_string()),
            comments: vec!["Dropped".to_string()],
        },
        Caveat { connection_model_definition_id: None, comments: vec!["Mind the rate".to_string()] },
    ];
    let details = build_public_connection_details(
        &definition,
        &models,
        Some("read_write".to_string()),
        &features,
        &caveats,
    );
    assert_eq!(details.platform.as_str(), "stripe");
    assert!(details.oauth.enabled);
    assert_eq!(details.oauth.scopes.as_str(), "read_write");
    assert_eq!(details.supported_actions, vec![CrudAction::GetMany, CrudAction::Create]);
    assert!(details.pagination);
    assert!(!details.filtration);
    assert!(details.sorting);
    let shown: Vec<&PublicConnectionDataCaveat> = details.caveats.iter().collect();
    assert_eq!(shown.len(), 2);
    assert_eq!(shown[0].name.as_str(), "Create customer");
    assert_eq!(shown[0].action, Some(CrudAction::Create));
    assert_eq!(shown[1].name.as_str(), "General");
    assert_eq!(shown[1].action, None);
}

#[test]
fn a_connector_listing_reads_the_frontend_spec() {
    let definition = request().from();
    let listed = available_connector_of(&definition);
    assert_eq!(listed.platform.as_str(), "stripe");
    assert_eq!(listed.description.as_str(), "Payments");
    assert!(listed.oauth);
}
