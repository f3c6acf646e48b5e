//! A live binding of an EventAccess to one third-party account.

use vstd::prelude::*;
use crate::connection_definition::{ConnectionType, Settings};
use crate::ids::Id;
use crate::record::{Environment, Ownership, RecordMetadata};

verus! {

/// How a caller-supplied identity is classed.
#[derive(Debug, Clone, Copy, PartialEq, Eq, Structural)]
pub enum ConnectionIdentityType {
    Organization,
    User,
    Team,
    Project,
}

/// The OAuth standing of a connection: provisioned through an OAuth
/// definition, or not using OAuth at all.
#[derive(Debug, Clone)]
pub enum OAuth {
    Enabled {
        connection_oauth_definition_id: Id,
        expires_in: Option<i32>,
        expires_at: Option<i64>,
    },
    Disabled,
}

impl Default for OAuth {
    fn default() -> (r: OAuth)
        ensures
            r is Disabled,
    {
        OAuth::Disabled
    }
}

/// The rate budget a connection carries, keyed like the connection.
#[derive(Debug, Clone)]
pub struct Throughput {
    pub key: String,
    pub limit: u64,
}

/// A live binding of one credential to one third-party account. The key
/// has the shape `env::platform::namespace::suffix` and is globally
/// unique.
#[derive(Debug, Clone)]
pub struct Connection {
    pub id: Id,
    pub platform_version: String,
    pub connection_definition_id: Id,
    pub kind: ConnectionType,
    pub key: String,
    pub group: String,
    pub name: Option<String>,
    pub environment: Environment,
    pub platform: String,
    pub secrets_service_id: String,
    pub event_access_id: Option<Id>,
    pub access_key: Option<String>,
    pub identity: Option<String>,
    pub identity_type: Option<ConnectionIdentityType>,
    pub settings: Settings,
    pub throughput: Throughput,
    pub ownership: Ownership,
    pub oauth: Option<OAuth>,
    pub has_error: bool,
    pub error: Option<String>,
    pub record_metadata: RecordMetadata,
}

impl Connection {
    /// Record that the connection's last use failed.
    pub fn mark_error(&mut self, error: &str)
        ensures
            final(self).has_error,
            final(self).error matches Some(e) && e@ == error@,
            *final(self) == (Connection {
                has_error: true,
                error: final(self).error,
                ..*old(self)
            }),
    {
        self.has_error = true;
        self.error = Some(error.to_owned());
    }
}

/// A connection as listed publicly: no secrets, no ownership.
#[derive(Debug, Clone)]
pub struct PublicConnection {
    pub id: Id,
    pub platform_version: String,
    pub kind: ConnectionType,
    pub key: String,
    pub environment: Environment,
    pub platform: String,
    pub identity: Option<String>,
    pub identity_type: Option<ConnectionIdentityType>,
    pub record_metadata: RecordMetadata,
}

/// A connection as returned to its owner: every field of the connection
/// except the derived credential's `access_key`.
#[derive(Debug, Clone)]
pub struct SanitizedConnection {
    pub id: Id,
    pub platform_version: String,
    pub connection_definition_id: Id,
    pub kind: ConnectionType,
    pub key: String,
    pub group: String,
    pub name: Option<String>,
    pub environment: Environment,
    pub platform: String,
    pub secrets_service_id: String,
    pub event_access_id: Option<Id>,
    pub identity: Option<String>,
    pub identity_type: Option<ConnectionIdentityType>,
    pub settings: Settings,
    pub throughput: Throughput,
    pub ownership: Ownership,
    pub oauth: Option<OAuth>,
    pub has_error: bool,
    pub error: Option<String>,
    pub record_metadata: RecordMetadata,
}

impl SanitizedConnection {
    /// Strip a connection for return to its owner: the same fields, with
    /// the access key gone.
    pub fn from(conn: Connection) -> (r: SanitizedConnection)
        ensures
            r.id == conn.id,
            r.platform_version == conn.platform_version,
            r.connection_definition_id == conn.connection_definition_id,
            r.kind == conn.kind,
            r.key == conn.key,
            r.group == conn.group,
            r.name == conn.name,
            r.environment == conn.environment,
            r.platform == conn.platform,
            r.secrets_service_id == conn.secrets_service_id,
            r.event_access_id == conn.event_access_id,
            r.identity == conn.identity,
            r.identity_type == conn.identity_type,
            r.settings == conn.settings,
            r.throughput == conn.throughput,
            r.ownership == conn.ownership,
            r.oauth == conn.oauth,
            r.has_error == conn.has_error,
            r.error == conn.error,
            r.record_metadata == conn.record_metadata,
    {
        SanitizedConnection {
            id: conn.id,
            platform_version: conn.platform_version,
            connection_definition_id: conn.connection_definition_id,
            kind: conn.kind,
            key: conn.key,
            group: conn.group,
            name: conn.name,
            environment: conn.environment,
            platform: conn.platform,
            secrets_service_id: conn.secrets_service_id,
            event_access_id: conn.event_access_id,
            identity: conn.identity,
            identity_type: conn.identity_type,
            settings: conn.settings,
            throughput: conn.throughput,
            ownership: conn.ownership,
            oauth: conn.oauth,
            has_error: conn.has_error,
            error: conn.error,
            record_metadata: conn.record_metadata,
        }
    }
}

} // verus!
