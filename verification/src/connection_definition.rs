//! Catalog entries describing a platform: its connection definition,
//! public details, and the forms and paths that go with them.

use vstd::prelude::*;
use crate::ids::Id;
use crate::record::RecordMetadata;

verus! {

/// The broad class a connection definition (and hence a connection)
/// belongs to.
#[derive(Debug, Clone, Copy, PartialEq, Eq, Structural)]
pub enum ConnectionDefinitionType {
    Api,
    DatabaseSql,
    DatabaseNoSql,
    FileSystem,
    Stream,
    Custom,
}

/// The same classes as carried on a live connection.
#[derive(Debug, Clone, Copy, PartialEq, Eq, Structural)]
pub enum ConnectionType {
    Api,
    DatabaseSql,
    DatabaseNoSql,
    FileSystem,
    Stream,
    Custom,
}

/// Release state of a connector.
#[derive(Debug, Clone, Copy, PartialEq, Eq, Structural)]
pub enum ConnectionStatus {
    NotAvailable,
    Beta,
    Alpha,
    GenerallyAvailable,
}

impl Default for ConnectionStatus {
    fn default() -> (r: ConnectionStatus)
        ensures
            r == ConnectionStatus::Beta,
    {
        ConnectionStatus::Beta
    }
}

/// How a platform authenticates its callers.
#[derive(Debug, Clone, Copy, PartialEq, Eq, Structural)]
pub enum AuthMethod {
    OAuth,
    ApiKey,
    BearerToken,
    BasicAuth,
    NoAuth,
}

/// Flags a definition carries into each connection made from it.
#[derive(Debug, Clone, Copy, PartialEq, Eq, Structural)]
pub struct Settings {
    pub oauth: bool,
}

/// One named secret a platform requires.
#[derive(Debug, Clone)]
pub struct AuthSecret {
    pub name: String,
}

/// One input of the connection form shown to a caller.
#[derive(Debug, Clone)]
pub struct FormDataItem {
    pub name: String,
    pub kind: String,
    pub label: String,
    pub placeholder: String,
    pub options: Option<Vec<String>>,
}

/// The connection form as the frontend renders it.
#[derive(Debug, Clone)]
pub struct ConnectionForm {
    pub name: String,
    pub description: String,
    pub form_data: Vec<FormDataItem>,
}

/// Display material for a connector.
#[derive(Debug, Clone)]
pub struct Spec {
    pub title: String,
    pub description: String,
    pub platform: String,
    pub category: String,
    pub image: String,
    pub tags: Vec<String>,
    pub helper_link: Option<String>,
    pub markdown: Option<String>,
}

/// What the frontend needs of a definition.
#[derive(Debug, Clone)]
pub struct Frontend {
    pub spec: Spec,
    pub connection_form: ConnectionForm,
}

/// Where inside a payload the gateway finds well-known values.
#[derive(Debug, Default)]
pub struct Paths {
    pub id: Option<String>,
    pub event: Option<String>,
    pub payload: Option<String>,
    pub timestamp: Option<String>,
    pub secret: Option<String>,
    pub signature: Option<String>,
    pub cursor: Option<String>,
}

impl Clone for Paths {
    fn clone(&self) -> (r: Paths)
        ensures
            r == *self,
    {
        Paths {
            id: clone_opt(&self.id),
            event: clone_opt(&self.event),
            payload: clone_opt(&self.payload),
            timestamp: clone_opt(&self.timestamp),
            secret: clone_opt(&self.secret),
            signature: clone_opt(&self.signature),
            cursor: clone_opt(&self.cursor),
        }
    }
}

/// Copy an optional string, value for value.
pub fn clone_opt(o: &Option<String>) -> (r: Option<String>)
    ensures
        r == *o,
{
    match o {
        Some(s) => Some(s.clone()),
        None => None,
    }
}

/// A catalog entry describing one platform. Read-only at runtime.
#[derive(Debug, Clone)]
pub struct ConnectionDefinition {
    pub id: Id,
    pub platform_version: String,
    pub platform: String,
    pub status: ConnectionStatus,
    pub key: String,
    pub kind: ConnectionDefinitionType,
    pub name: String,
    pub auth_secrets: Vec<AuthSecret>,
    pub auth_method: Option<AuthMethod>,
    pub multi_env: bool,
    pub frontend: Frontend,
    pub paths: Paths,
    pub settings: Settings,
    pub hidden: bool,
    pub test_connection: Option<Id>,
    pub test_delay_in_millis: Option<i16>,
    pub record_metadata: RecordMetadata,
}

/// The connection class a definition class maps to.
pub open spec fn spec_connection_type_of(t: ConnectionDefinitionType) -> ConnectionType {
    match t {
        ConnectionDefinitionType::Api => ConnectionType::Api,
        ConnectionDefinitionType::DatabaseSql => ConnectionType::DatabaseSql,
        ConnectionDefinitionType::DatabaseNoSql => ConnectionType::DatabaseNoSql,
        ConnectionDefinitionType::FileSystem => ConnectionType::FileSystem,
        ConnectionDefinitionType::Stream => ConnectionType::Stream,
        ConnectionDefinitionType::Custom => ConnectionType::Custom,
    }
}

impl ConnectionDefinition {
    /// Whether connections made from this definition authenticate by OAuth.
    pub fn is_oauth(&self) -> (r: bool)
        ensures
            r == self.settings.oauth,
    {
        self.settings.oauth
    }

    /// The connection class this definition produces.
    pub fn to_connection_type(&self) -> (r: ConnectionType)
        ensures
            r == spec_connection_type_of(self.kind),
    {
        match self.kind {
            ConnectionDefinitionType::Api => ConnectionType::Api,
            ConnectionDefinitionType::DatabaseSql => ConnectionType::DatabaseSql,
            ConnectionDefinitionType::DatabaseNoSql => ConnectionType::DatabaseNoSql,
            ConnectionDefinitionType::FileSystem => ConnectionType::FileSystem,
            ConnectionDefinitionType::Stream => ConnectionType::Stream,
            ConnectionDefinitionType::Custom => ConnectionType::Custom,
        }
    }
}

/// Which filters a model supports.
#[derive(Debug, Clone)]
pub struct Filter {
    pub key: String,
    pub operators: Vec<String>,
}

/// Filter support of one model.
#[derive(Debug, Clone)]
pub struct ModelFilter {
    pub supported: bool,
    pub filters: Option<Vec<Filter>>,
}

/// Sort support of one model.
#[derive(Debug, Clone)]
pub struct ModelSorting {
    pub supported: bool,
    pub keys: Option<Vec<String>>,
}

/// What one common model supports on a platform.
#[derive(Debug, Clone)]
pub struct ModelFeatures {
    pub name: String,
    pub pagination: bool,
    pub filtration: ModelFilter,
    pub sorting: ModelSorting,
}

/// A caution note attached to a platform or one of its endpoints.
#[derive(Debug, Clone)]
pub struct Caveat {
    pub connection_model_definition_id: Option<String>,
    pub comments: Vec<String>,
}

/// Public description of a platform's capabilities.
#[derive(Debug, Clone)]
pub struct PublicConnectionDetails {
    pub platform: String,
    pub models: Vec<ModelFeatures>,
    pub caveats: Vec<Caveat>,
}

} // verus!
