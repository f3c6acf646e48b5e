//! Embed tokens: what the onboarding flow hands a frontend so it can
//! create connections on a tenant's behalf.

use vstd::prelude::*;
use crate::connection::Connection;
use crate::ids::Id;
use crate::oauth_definition::{ConnectedPlatform, ConnectedPlatformSlim};
use crate::record::{Environment, Ownership, RecordMetadata};

verus! {

/// Whether an optional feature is on.
#[derive(Debug, Clone, Copy, PartialEq, Eq, Structural)]
pub enum FeatureState {
    Enabled,
    Disabled,
}

/// One named feature switch.
#[derive(Debug, Clone)]
pub struct Feature {
    pub key: String,
    pub value: FeatureState,
}

/// The settings embedded in a link token.
#[derive(Debug, Clone)]
pub struct EmbedLinkedToken {
    pub connected_platforms: Vec<ConnectedPlatform>,
    pub event_inc_token: String,
}

/// The same settings as listings show them.
#[derive(Debug, Clone)]
pub struct EmbedLinkedTokenSlim {
    pub connected_platforms: Vec<ConnectedPlatformSlim>,
    pub event_inc_token: String,
}

/// What creating a connection through a token answers.
#[derive(Debug, Clone)]
pub struct EventTokenResponse {
    pub is_connected: bool,
    pub message: Option<String>,
    pub connection: Option<Connection>,
}

/// A link token as listings show it.
#[derive(Debug, Clone)]
pub struct EmbedTokenSlim {
    pub id: Id,
    pub link_settings: EmbedLinkedTokenSlim,
}

/// A link token with everything the frontend flow needs.
#[derive(Debug, Clone)]
pub struct EmbedToken {
    pub id: Id,
    pub link_settings: EmbedLinkedToken,
    pub features: Vec<Feature>,
    pub label: String,
    pub group: String,
    pub environment: Environment,
    pub session_id: String,
    pub expires_at: Option<i64>,
    pub metadata: RecordMetadata,
}

/// An event link: one tenant-scoped pointer at a link token.
#[derive(Debug, Clone)]
pub struct EventLink {
    pub id: Id,
    pub kind: String,
    pub version: Option<String>,
    pub ownership: Ownership,
    pub label: String,
    pub group: String,
    pub link_token_id: Id,
    pub metadata: RecordMetadata,
    pub environment: Environment,
    pub usage_source: String,
    pub expires_at: i64,
}

} // verus!
