//! Core logic of an integration gateway: authentication and connection
//! resolution, passthrough dispatch, OAuth provisioning, rate limiting,
//! and the event, metric and task pipelines, with verified contracts.

use vstd::prelude::*;

pub mod archive;
pub mod auth;
pub mod cache;
pub mod callback;
pub mod catalog;
pub mod cli;
pub mod connection;
pub mod connection_definition;
pub mod crud;
pub mod destination;
pub mod document;
pub mod errors;
pub mod event;
pub mod event_access;
pub mod external;
pub mod filter;
pub mod headers;
pub mod ids;
pub mod kvlist;
pub mod metrics;
pub mod oauth_definition;
pub mod oauth_flow;
pub mod passthrough;
pub mod pipeline;
pub mod record;
pub mod task;
pub mod text;
pub mod token;
pub mod tracker;
pub mod unified;
pub mod watchdog;

pub use text::string_to_vec;

verus! {

/// Largest page size a list query may ask for.
pub const MAX_LIMIT: u64 = 100;

/// Clamp a requested page size to the largest allowed one.
pub fn clamp_limit(limit: u64) -> (r: u64)
    ensures
        r == if limit > MAX_LIMIT {
            MAX_LIMIT
        } else {
            limit
        },
{
    if limit > MAX_LIMIT {
        MAX_LIMIT
    } else {
        limit
    }
}

} // verus!
