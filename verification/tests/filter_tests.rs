use pica_core::connection_definition::{ConnectionDefinitionType, Paths};
use pica_core::document::FieldValue;
use pica_core::event_access::EventAccess;
use pica_core::filter::shape_mongo_filter;
use pica_core::headers::Headers;
use pica_core::ids::{Id, IdPrefix};
use pica_core::record::{Environment, Ownership, RecordMetadata};

fn sample_event_access(owner: &str) -> EventAccess {
    EventAccess {
        id: Id::now(IdPrefix::EventAccess),
        name: "name".to_string(),
        key: "key".to_string(),
        namespace: "default".to_string(),
        platform: "stripe".to_string(),
        kind: ConnectionDefinitionType::Api,
        group: "group".to_string(),
        ownership: Ownership::new(owner),
        paths: Paths::default(),
        access_key: "access_key".to_string(),
        environment: Environment::Test,
        record_metadata: RecordMetadata::default(),
        throughput: 1000,
    }
}

fn params() -> Vec<(String, String)> {
    vec![
        ("deleted".to_string(), "true".to_string()),
        ("ownership.buildableId".to_string(), "foo".to_string()),
        ("environment".to_string(), "bar".to_string()),
        ("skip".to_string(), "10".to_string()),
        ("limit".to_string(), "10".to_string()),
    ]
}

#[test]
fn test_shape_mongo_filter() {
    let query = params();
    let q = shape_mongo_filter(Some(&query), None, None);
    let mut doc = q.filter;
    assert_eq!(doc.get_str("ownership.buildableId").unwrap().as_str(), "foo");
    assert_eq!(doc.get_str("environment").unwrap().as_str(), "bar");
    assert!(!doc.get_bool("deleted").unwrap());
    assert_eq!(q.limit, 10);
    assert_eq!(q.skip, 10);

    doc.insert("deleted", FieldValue::Bool(true));
    assert!(doc.get_bool("deleted").unwrap());

    let event_access = sample_event_access("baz");
    let q = shape_mongo_filter(Some(&query), Some(&event_access), None);
    assert_eq!(q.filter.get_str("ownership.buildableId").unwrap().as_str(), "baz");
    assert_eq!(q.filter.get_str("environment").unwrap().as_str(), "test");
}

#[test]
fn requesting_dual_environments() {
    let query = vec![
        ("deleted".to_string(), "true".to_string()),
        ("ownership.buildableId".to_string(), "foo".to_string()),
        ("environment".to_string(), "bar".to_string()),
    ];
    let mut headers = Headers::new();
    headers.push(
        "x-pica-show-all-environments".to_string(),
        "true".to_string(),
    );
    let event_access = sample_event_access("baz");

    let q = shape_mongo_filter(Some(&query), Some(&event_access), Some(&headers));
    assert!(!q.filter.contains_key("environment"));
}

#[test]
fn contains_filter_becomes_membership() {
    let query = vec![("contains".to_string(), "name,alpha,beta".to_string())];
    let q = shape_mongo_filter(Some(&query), None, None);
    match q.filter.get("name").unwrap() {
        FieldValue::Doc(inner) => match inner.get("$in").unwrap() {
            FieldValue::TextList(vs) => {
                assert_eq!(vs.len(), 2);
                assert_eq!(vs[0].as_str(), "alpha");
                assert_eq!(vs[1].as_str(), "beta");
            }
            other => panic!("unexpected operator value: {:?}", other),
        },
        other => panic!("unexpected filter value: {:?}", other),
    }
}

#[test]
fn regex_filter_is_case_insensitive() {
    let query = vec![("regex".to_string(), "name,^Ab".to_string())];
    let q = shape_mongo_filter(Some(&query), None, None);
    match q.filter.get("name").unwrap() {
        FieldValue::Doc(inner) => {
            assert_eq!(inner.get_str("$regex").unwrap().as_str(), "^Ab");
            assert_eq!(inner.get_str("$options").unwrap().as_str(), "i");
        }
        other => panic!("unexpected filter value: {:?}", other),
    }
}

#[test]
fn oversized_limits_are_capped() {
    let query = vec![("limit".to_string(), "101".to_string())];
    let q = shape_mongo_filter(Some(&query), None, None);
    assert_eq!(q.limit, 100);
    let query = vec![("limit".to_string(), "100".to_string())];
    let q = shape_mongo_filter(Some(&query), None, None);
    assert_eq!(q.limit, 100);
}

#[test]
fn unparseable_paging_falls_back() {
    let query = vec![
        ("limit".to_string(), "many".to_string()),
        ("skip".to_string(), "-3".to_string()),
    ];
    let q = shape_mongo_filter(Some(&query), None, None);
    assert_eq!(q.limit, 20);
    assert_eq!(q.skip, 0);
}

#[test]
fn boolean_words_filter_booleans() {
    let query = vec![
        ("active".to_string(), "true".to_string()),
        ("hidden".to_string(), "false".to_string()),
        ("label".to_string(), "truelike".to_string()),
    ];
    let q = shape_mongo_filter(Some(&query), None, None);
    assert_eq!(q.filter.get_bool("active").unwrap(), true);
    assert_eq!(q.filter.get_bool("hidden").unwrap(), false);
    assert_eq!(q.filter.get_str("label").unwrap().as_str(), "truelike");
}
