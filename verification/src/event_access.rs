//! The API credential a caller presents: identifies the tenant and
//! carries its rate-limit budget.

use vstd::prelude::*;
use crate::connection_definition::{ConnectionDefinitionType, Paths};
use crate::ids::Id;
use crate::record::{Environment, Ownership, RecordMetadata};

verus! {

/// An API credential. Its `access_key` is the encrypted bearer material
/// the auth header carries; `throughput` is the per-second budget.
#[derive(Debug, Clone)]
pub struct EventAccess {
    pub id: Id,
    pub name: String,
    pub key: String,
    pub namespace: String,
    pub platform: String,
    pub kind: ConnectionDefinitionType,
    pub group: String,
    pub ownership: Ownership,
    pub paths: Paths,
    pub access_key: String,
    pub environment: Environment,
    pub record_metadata: RecordMetadata,
    pub throughput: u64,
}

} // verus!
