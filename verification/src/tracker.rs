//! What the analytics tracker is told: each metric or frontend payload
//! renders into one tracking event with a distinct id and properties.

use vstd::prelude::*;
use crate::destination::{spec_action_name, spec_action_text};
use crate::metrics::{spec_event_name, spec_ownership, spec_platform, Metric, MetricType};
use crate::record::{spec_environment_str, Ownership};
use crate::text::u64_to_string;

verus! {

/// One property value: text, or a JSON payload carried through.
#[derive(Debug)]
pub enum PropValue {
    Text(String),
    Json(serde_json::Value),
}

/// One event as the tracker receives it.
#[derive(Debug)]
pub struct TrackEvent {
    pub name: String,
    pub distinct_id: String,
    pub props: Vec<(String, PropValue)>,
}

/// Who a metric is attributed to: the acting user when the tenant has
/// one, else the tenant itself.
pub open spec fn spec_distinct_id(o: Ownership) -> Seq<char> {
    match o.user_id {
        Some(u) => u@,
        None => o.id@,
    }
}

/// The distinct id of a tenant: its user if one acts, else the tenant.
pub fn metric_distinct_id(o: &Ownership) -> (r: String)
    ensures
        r@ == spec_distinct_id(*o),
{
    match &o.user_id {
        Some(u) => u.clone(),
        None => o.id.clone(),
    }
}

/// Whether a property list holds `key` with the text `value` at some
/// position.
pub open spec fn has_text_prop(
    props: Seq<(String, PropValue)>,
    key: Seq<char>,
    value: Seq<char>,
) -> bool {
    exists|i: int|
        0 <= i < props.len() && (#[trigger] props[i]).0@ == key && (props[i].1 matches
        PropValue::Text(t) && t@ == value)
}

impl Metric {
    /// Render this metric for the tracker: the kind's event name, the
    /// tenant's distinct id, and the properties the kind carries —
    /// the environment, key and platform for every kind, and the
    /// connection's identifiers for calls through a connection.
    pub fn track(&self) -> (r: TrackEvent)
        ensures
            r.name@ == spec_event_name(self.metric_type),
            r.distinct_id@ == spec_distinct_id(spec_ownership(*self)),
            has_text_prop(r.props@, "platform"@, spec_platform(*self)),
            has_text_prop(r.props@, "clientId"@, spec_ownership(*self).client_id@),
            self.metric_type matches MetricType::Passthrough(c) ==> has_text_prop(
                r.props@,
                "key"@,
                c.key@,
            ) && has_text_prop(r.props@, "environment"@, spec_environment_str(c.environment))
                && has_text_prop(r.props@, "connectionDefinitionId"@, c.connection_definition_id.value@),
            self.metric_type matches MetricType::Unified(c) ==> has_text_prop(
                r.props@,
                "key"@,
                c.key@,
            ) && has_text_prop(r.props@, "environment"@, spec_environment_str(c.environment))
                && has_text_prop(r.props@, "connectionDefinitionId"@, c.connection_definition_id.value@),
            self.metric_type matches MetricType::RateLimited(ea, k) ==> has_text_prop(
                r.props@,
                "environment"@,
                spec_environment_str(ea.environment),
            ) && has_text_prop(
                r.props@,
                "key"@,
                match k {
                    Some(key) => key@,
                    None => Seq::empty(),
                },
            ),
            self.metric_type is Unified ==> (self.action matches Some(a) ==> (has_text_prop(
                r.props@,
                "commonModel"@,
                spec_action_name(a),
            ) && has_text_prop(r.props@, "action"@, spec_action_text(a)))),
    {
        let name = self.metric_type.event_name().to_owned();
        let distinct_id = metric_distinct_id(self.ownership());
        let mut props: Vec<(String, PropValue)> = Vec::new();
        match &self.metric_type {
            MetricType::Passthrough(c) | MetricType::Unified(c) => {
                props.push(
                    (
                        "connectionDefinitionId".to_owned(),
                        PropValue::Text(c.connection_definition_id.value.clone()),
                    ),
                );
                props.push(
                    (
                        "environment".to_owned(),
                        PropValue::Text(c.environment.as_str().to_owned()),
                    ),
                );
                props.push(("key".to_owned(), PropValue::Text(c.key.clone())));
                props.push(("platform".to_owned(), PropValue::Text(c.platform.clone())));
                props.push(
                    ("platformVersion".to_owned(), PropValue::Text(c.platform_version.clone())),
                );
                props.push(
                    ("clientId".to_owned(), PropValue::Text(c.ownership.client_id.clone())),
                );
                props.push(
                    (
                        "version".to_owned(),
                        PropValue::Text(u64_to_string(c.record_metadata.version)),
                    ),
                );
                proof {
                    assert(props@[3].0@ == "platform"@ && (props@[3].1 matches PropValue::Text(t)
                        && t@ == spec_platform(*self)));
                    assert(props@[5].0@ == "clientId"@);
                    assert(props@[2].0@ == "key"@);
                    assert(props@[1].0@ == "environment"@);
                    assert(props@[0].0@ == "connectionDefinitionId"@);
                }
                // A unified call also names what it acted on and how.
                let unified = match &self.metric_type {
                    MetricType::Unified(_) => true,
                    _ => false,
                };
                if unified {
                    match &self.action {
                        Some(a) => {
                            props.push(
                                ("commonModel".to_owned(), PropValue::Text(a.name().clone())),
                            );
                            props.push(
                                ("action".to_owned(), PropValue::Text(a.action_text().to_owned())),
                            );
                            proof {
                                assert(props@[7].0@ == "commonModel"@ && (props@[7].1 matches
                                PropValue::Text(t) && t@ == spec_action_name(*a)));
                                assert(props@[8].0@ == "action"@ && (props@[8].1 matches
                                PropValue::Text(t) && t@ == spec_action_text(*a)));
                                assert(props@[3].0@ == "platform"@ && (props@[3].1 matches
                                PropValue::Text(t) && t@ == spec_platform(*self)));
                                assert(props@[5].0@ == "clientId"@);
                                assert(props@[2].0@ == "key"@);
                                assert(props@[1].0@ == "environment"@);
                            }
                        },
                        None => {},
                    }
                }
            },
            MetricType::RateLimited(ea, key) => {
                props.push(
                    (
                        "environment".to_owned(),
                        PropValue::Text(ea.environment.as_str().to_owned()),
                    ),
                );
                match key {
                    Some(k) => {
                        props.push(("key".to_owned(), PropValue::Text(k.clone())));
                    },
                    None => {
                        props.push(("key".to_owned(), PropValue::Text(String::new())));
                    },
                }

                props.push(("platform".to_owned(), PropValue::Text(ea.platform.clone())));
                props.push(
                    ("clientId".to_owned(), PropValue::Text(ea.ownership.client_id.clone())),
                );
                props.push(
                    (
                        "version".to_owned(),
                        PropValue::Text(u64_to_string(ea.record_metadata.version)),
                    ),
                );
                proof {
                    assert(props@[2].0@ == "platform"@ && (props@[2].1 matches PropValue::Text(t)
                        && t@ == spec_platform(*self)));
                    assert(props@[3].0@ == "clientId"@);
                    assert(props@[0].0@ == "environment"@);
                    assert(props@[1].0@ == "key"@ && (props@[1].1 matches PropValue::Text(t) && t@
                        == match key {
                        Some(k) => k@,
                        None => Seq::<char>::empty(),
                    }));
                }
            },
        }
        TrackEvent { name, distinct_id, props }
    }
}

/// Which tracker backend the server runs with.
#[derive(Debug)]
pub enum TrackerChoice {
    Posthog { key: String, endpoint: String },
    Logger,
}

/// Pick the tracker backend: the analytics service exactly when both its
/// write key and its endpoint are configured, the logger otherwise.
pub fn choose_tracker(write_key: Option<String>, endpoint: Option<String>) -> (r: TrackerChoice)
    ensures
        (r is Posthog) <==> (write_key is Some && endpoint is Some),
        r matches TrackerChoice::Posthog { key, endpoint: e } ==> (write_key matches Some(k) && key
            == k) && (endpoint matches Some(p) && e == p),
{
    match (write_key, endpoint) {
        (Some(key), Some(endpoint)) => TrackerChoice::Posthog { key, endpoint },
        _ => TrackerChoice::Logger,
    }
}

/// A page of frontend context sent along with a tracked event.
#[derive(Debug, Clone)]
pub struct Page {
    pub path: String,
    pub search: String,
    pub title: String,
    pub url: String,
}

/// The frontend context of a tracked event.
#[derive(Debug, Clone)]
pub struct Context {
    pub locale: String,
    pub page: Page,
    pub user_agent: String,
}

/// A tracked interaction: a named event with properties.
#[derive(Debug)]
pub struct TrackData {
    pub event: String,
    pub user_id: String,
    pub properties: Vec<(String, serde_json::Value)>,
    pub context: Context,
}

/// An identification: traits attached to a user.
#[derive(Debug)]
pub struct IdentifyData {
    pub user_id: String,
    pub traits: Vec<(String, serde_json::Value)>,
    pub context: Context,
}

/// What the tracking endpoint accepts: a tracked event or an
/// identification.
#[derive(Debug)]
pub enum TrackedMetric {
    Track { data: TrackData },
    Identify { data: IdentifyData },
}

impl TrackedMetric {
    /// The event name this payload tracks under.
    pub fn event<'a>(&'a self) -> (r: &'a str)
        ensures
            match self {
                TrackedMetric::Track { data } => r@ == data.event@,
                TrackedMetric::Identify { .. } => r@ == "identify"@,
            },
    {
        match self {
            TrackedMetric::Track { data } => data.event.as_str(),
            TrackedMetric::Identify { .. } => "identify",
        }
    }

    /// The user this payload speaks of.
    pub fn user_id<'a>(&'a self) -> (r: &'a str)
        ensures
            match self {
                TrackedMetric::Track { data } => r@ == data.user_id@,
                TrackedMetric::Identify { data } => r@ == data.user_id@,
            },
    {
        match self {
            TrackedMetric::Track { data } => data.user_id.as_str(),
            TrackedMetric::Identify { data } => data.user_id.as_str(),
        }
    }

    /// Render this payload for the tracker: a tracked event keeps its
    /// name and properties and gains the six context properties; an
    /// identification renders its traits and context as the properties
    /// of a `$set` event (the wire format nests them under one `$set`
    /// key).
    pub fn track(&self) -> (r: TrackEvent)
        ensures
            match self {
                TrackedMetric::Track { data } => {
                    &&& r.name@ == data.event@
                    &&& r.distinct_id@ == data.user_id@
                    &&& r.props@.len() == data.properties@.len() + 6
                    &&& (forall|j: int|
                        0 <= j < data.properties@.len() ==> #[trigger] r.props@[j] == (
                        data.properties@[j].0,
                        PropValue::Json(data.properties@[j].1),
                        ))
                    &&& has_text_prop(r.props@, "locale"@, data.context.locale@)
                    &&& has_text_prop(r.props@, "user_agent"@, data.context.user_agent@)
                    &&& has_text_prop(r.props@, "path"@, data.context.page.path@)
                    &&& has_text_prop(r.props@, "search"@, data.context.page.search@)
                    &&& has_text_prop(r.props@, "title"@, data.context.page.title@)
                    &&& has_text_prop(r.props@, "url"@, data.context.page.url@)
                },
                TrackedMetric::Identify { data } => {
                    &&& r.name@ == "$set"@
                    &&& r.distinct_id@ == data.user_id@
                    &&& r.props@.len() == data.traits@.len() + 7
                    &&& (forall|j: int|
                        0 <= j < data.traits@.len() ==> #[trigger] r.props@[j] == (
                        data.traits@[j].0,
                        PropValue::Json(data.traits@[j].1),
                        ))
                    &&& has_text_prop(r.props@, "locale"@, data.context.locale@)
                    &&& has_text_prop(r.props@, "user_agent"@, data.context.user_agent@)
                    &&& has_text_prop(r.props@, "user_id"@, data.user_id@)
                    &&& has_text_prop(r.props@, "path"@, data.context.page.path@)
                    &&& has_text_prop(r.props@, "search"@, data.context.page.search@)
                    &&& has_text_prop(r.props@, "title"@, data.context.page.title@)
                    &&& has_text_prop(r.props@, "url"@, data.context.page.url@)
                },
            },
    {
        match self {
            TrackedMetric::Track { data } => {
                let mut props: Vec<(String, PropValue)> = Vec::new();
                let n = data.properties.len();
                let mut i: usize = 0;
                while i < n
                    invariant
                        0 <= i <= n,
                        n == data.properties@.len(),
                        props@.len() == i,
                        forall|j: int|
                            0 <= j < i ==> #[trigger] props@[j] == (
                            data.properties@[j].0,
                            PropValue::Json(data.properties@[j].1),
                            ),
                    decreases n - i,
                {
                    let pair = (
                        data.properties[i].0.clone(),
                        PropValue::Json(data.properties[i].1.clone()),
                    );
                    props.push(pair);
                    i = i + 1;
                }
                push_context_props(&mut props, &data.context);
                TrackEvent {
                    name: data.event.clone(),
                    distinct_id: data.user_id.clone(),
                    props,
                }
            },
            TrackedMetric::Identify { data } => {
                let mut props: Vec<(String, PropValue)> = Vec::new();
                let n = data.traits.len();
                let mut i: usize = 0;
                while i < n
                    invariant
                        0 <= i <= n,
                        n == data.traits@.len(),
                        props@.len() == i,
                        forall|j: int|
                            0 <= j < i ==> #[trigger] props@[j] == (
                            data.traits@[j].0,
                            PropValue::Json(data.traits@[j].1),
                            ),
                    decreases n - i,
                {
                    let pair = (
                        data.traits[i].0.clone(),
                        PropValue::Json(data.traits[i].1.clone()),
                    );
                    props.push(pair);
                    i = i + 1;
                }
                props.push(("user_id".to_owned(), PropValue::Text(data.user_id.clone())));
                let ghost before = props@;
                push_context_props(&mut props, &data.context);
                proof {
                    assert(props@[before.len() - 1].0@ == "user_id"@ && (props@[before.len()
                        - 1].1 matches PropValue::Text(t) && t@ == data.user_id@));
                }
                TrackEvent {
                    name: "$set".to_owned(),
                    distinct_id: data.user_id.clone(),
                    props,
                }
            },
        }
    }
}

/// Append the six context properties.
fn push_context_props(props: &mut Vec<(String, PropValue)>, context: &Context)
    ensures
        final(props)@.len() == old(props)@.len() + 6,
        forall|j: int| 0 <= j < old(props)@.len() ==> #[trigger] final(props)@[j] == old(props)@[j],
        has_text_prop(final(props)@, "locale"@, context.locale@),
        has_text_prop(final(props)@, "user_agent"@, context.user_agent@),
        has_text_prop(final(props)@, "path"@, context.page.path@),
        has_text_prop(final(props)@, "search"@, context.page.search@),
        has_text_prop(final(props)@, "title"@, context.page.title@),
        has_text_prop(final(props)@, "url"@, context.page.url@),
{
    let ghost base = props@.len() as int;
    props.push(("locale".to_owned(), PropValue::Text(context.locale.clone())));
    props.push(("user_agent".to_owned(), PropValue::Text(context.user_agent.clone())));
    props.push(("path".to_owned(), PropValue::Text(context.page.path.clone())));
    props.push(("search".to_owned(), PropValue::Text(context.page.search.clone())));
    props.push(("title".to_owned(), PropValue::Text(context.page.title.clone())));
    props.push(("url".to_owned(), PropValue::Text(context.page.url.clone())));
    proof {
        assert(final(props)@[base].0@ == "locale"@);
        assert(final(props)@[base + 1].0@ == "user_agent"@);
        assert(final(props)@[base + 2].0@ == "path"@);
        assert(final(props)@[base + 3].0@ == "search"@);
        assert(final(props)@[base + 4].0@ == "title"@);
        assert(final(props)@[base + 5].0@ == "url"@);
    }
}

} // verus!
