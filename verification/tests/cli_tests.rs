use pica_core::cli::{
    connection_delete_url, connections_list_url, secret_for_env, CliEnvironment, Command,
    ConnectionArgs, ConnectionCommand, Keys, Pica, Step,
};
use pica_core::connection_definition::{
    AuthMethod, AuthSecret, ConnectionDefinition, ConnectionDefinitionType, ConnectionForm,
    ConnectionStatus, FormDataItem, Frontend, Paths, Settings, Spec,
};
use pica_core::errors::ErrorKind;
use pica_core::ids::{generate_id, Id, IdPrefix};
use pica_core::record::RecordMetadata;
use pica_core::tracker::{choose_tracker, TrackerChoice};
use pica_core::watchdog::WatchdogConfig;

#[test]
fn list_limit_over_the_cap_is_rejected() {
    let over = Pica {
        command: Command::Connection(ConnectionArgs {
            command: ConnectionCommand::List {
                limit: Some(101),
                key: None,
                env: CliEnvironment::Sandbox,
            },
        }),
    };
    let err = over.validate().unwrap_err();
    assert_eq!(err.kind, ErrorKind::InvalidArgument);

    let at_cap = Pica {
        command: Command::Connection(ConnectionArgs {
            command: ConnectionCommand::List {
                limit: Some(100),
                key: None,
                env: CliEnvironment::Sandbox,
            },
        }),
    };
    assert!(at_cap.validate().is_ok());
}

#[test]
fn login_urls_must_parse() {
    let bad = Pica {
        command: Command::Login { base: Some("not a url".to_string()), api: None },
    };
    assert!(bad.validate().is_err());
    let good = Pica {
        command: Command::Login {
            base: Some("https://picaos.example".to_string()),
            api: Some("https://api.picaos.example".to_string()),
        },
    };
    assert!(good.validate().is_ok());
}

#[test]
fn list_urls_carry_the_key_or_the_limit() {
    let by_key = "test::stripe::default::abc".to_string();
    assert_eq!(
        connections_list_url("https://api.example", Some(&by_key), None).as_str(),
        "https://api.example/v1/connections?key=test::stripe::default::abc"
    );
    assert_eq!(
        connections_list_url("https://api.example", None, Some(25)).as_str(),
        "https://api.example/v1/connections?limit=25"
    );
    assert_eq!(
        connections_list_url("https://api.example", None, None).as_str(),
        "https://api.example/v1/connections?limit=10"
    );
    assert_eq!(
        connection_delete_url("https://api.example", "conn::9").as_str(),
        "https://api.example/v1/connections/conn::9"
    );
}

#[test]
fn the_environment_picks_the_key() {
    let keys = Keys::new("sk_test".to_string(), "sk_live".to_string());
    assert_eq!(secret_for_env(&keys, CliEnvironment::Sandbox), "sk_test");
    assert_eq!(secret_for_env(&keys, CliEnvironment::Production), "sk_live");
}

fn definition_with_form() -> ConnectionDefinition {
    ConnectionDefinition {
        id: Id::now(IdPrefix::ConnectionDefinition),
        platform_version: "v1".to_string(),
        platform: "stripe".to_string(),
        status: ConnectionStatus::Beta,
        key: "api::stripe::v1".to_string(),
        kind: ConnectionDefinitionType::Api,
        name: "Stripe".to_string(),
        auth_secrets: vec![
            AuthSecret { name: "apiKey".to_string() },
            AuthSecret { name: "orphan".to_string() },
        ],
        auth_method: Some(AuthMethod::ApiKey),
        multi_env: false,
        frontend: Frontend {
            spec: Spec {
                title: "Stripe".to_string(),
                description: "Payments".to_string(),
                platform: "stripe".to_string(),
                category: "payments".to_string(),
                image: "stripe.png".to_string(),
                tags: vec![],
                helper_link: None,
                markdown: None,
            },
            connection_form: ConnectionForm {
                name: "Connect".to_string(),
                description: "Securely connect your account".to_string(),
                form_data: vec![FormDataItem {
                    name: "apiKey".to_string(),
                    kind: "password".to_string(),
                    label: "API Key".to_string(),
                    placeholder: "sk_...".to_string(),
                    options: None,
                }],
            },
        },
        paths: Paths::default(),
        settings: Settings { oauth: false },
        hidden: false,
        test_connection: None,
        test_delay_in_millis: None,
        record_metadata: RecordMetadata::default(),
    }
}

#[test]
fn the_form_asks_for_each_labelled_secret() {
    let steps = Step::from(&definition_with_form());
    // Only the secret the form labels becomes a question.
    assert_eq!(steps.len(), 1);
    assert_eq!(steps[0].key(), "apiKey");
    assert_eq!(
        steps[0].question(),
        "Please enter the `API Key` for `Stripe`: "
    );
}

#[test]
fn id_minting_knows_its_prefixes() {
    let minted = generate_id("task").unwrap();
    assert!(minted.id.starts_with("task::"));
    let err = generate_id("nonsense").unwrap_err();
    assert_eq!(err.kind, ErrorKind::BadRequest);
}

#[test]
fn tracker_needs_both_halves_of_its_configuration() {
    match choose_tracker(Some("k".to_string()), Some("https://t".to_string())) {
        TrackerChoice::Posthog { key, endpoint } => {
            assert_eq!(key.as_str(), "k");
            assert_eq!(endpoint.as_str(), "https://t");
        }
        TrackerChoice::Logger => panic!("both halves were given"),
    }
    assert!(matches!(
        choose_tracker(Some("k".to_string()), None),
        TrackerChoice::Logger
    ));
    assert!(matches!(choose_tracker(None, None), TrackerChoice::Logger));
}

#[test]
fn the_watchdog_configuration_renders_line_by_line() {
    let config = WatchdogConfig {
        rate_limiter_refresh_interval: 60,
        http_client_timeout_secs: 10,
        max_amount_of_tasks_to_process: 100,
    };
    assert_eq!(
        config.describe().as_str(),
        "RATE_LIMITER_REFRESH_INTERVAL: 60\nHTTP_CLIENT_TIMEOUT_SECS: 10\nMAX_AMOUNT_OF_TASKS_TO_PROCESS: 100\n"
    );
}
