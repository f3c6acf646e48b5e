//! The request gate: turning the auth header into an EventAccess, the
//! connection header into a Connection, and the per-second counter into
//! a rate-limit verdict.

use vstd::prelude::*;
use crate::connection::Connection;
use crate::errors::{ErrorKind, PicaError};
use crate::event_access::EventAccess;

verus! {

/// Authenticate one request: the header must be present, and the record
/// the store found for that token must not be deleted. The credential is
/// attached exactly then.
///
/// `record` is what the EventAccess store returned when queried by the
/// header's token; the caller looked it up with `accessKey = token`.
pub fn authenticate(auth_header: Option<&String>, record: Option<EventAccess>) -> (r: Result<
    EventAccess,
    PicaError,
>)
    requires
        record matches Some(ea) ==> (auth_header matches Some(h) && ea.access_key@ == h@),
    ensures
        r is Ok <==> (auth_header is Some && (record matches Some(ea)
            && !ea.record_metadata.deleted)),
        r matches Ok(ea) ==> (record matches Some(found) && ea == found && (
        auth_header matches Some(h) && ea.access_key@ == h@)),
        auth_header is None ==> (r matches Err(e) && e.kind == ErrorKind::BadRequest),
        (auth_header is Some && !(record matches Some(ea) && !ea.record_metadata.deleted)) ==> (
        r matches Err(e) && e.kind == ErrorKind::Unauthorized),
{
    match auth_header {
        None => Err(PicaError::bad_request("Auth header not found")),
        Some(_) => match record {
            None => Err(PicaError::unauthorized("Invalid auth header")),
            Some(ea) => {
                if ea.record_metadata.deleted {
                    Err(PicaError::unauthorized("Invalid auth header"))
                } else {
                    Ok(ea)
                }
            },
        },
    }
}

/// Resolve the connection header: a missing header is the caller's
/// mistake; a well-authenticated request whose key names no connection
/// of this tenant and environment is answered not-found — never
/// unauthorized.
///
/// `found` is what the connection store returned for
/// `key = header ∧ ownership.id = tenant ∧ environment = env`.
pub fn resolve_connection(connection_header: Option<&String>, found: Option<Connection>) -> (r:
    Result<Connection, PicaError>)
    requires
        found matches Some(c) ==> (connection_header matches Some(h) && c.key@ == h@),
    ensures
        r is Ok <==> (connection_header is Some && found is Some),
        r matches Ok(c) ==> (found matches Some(f) && c == f && (connection_header matches Some(h)
            && c.key@ == h@)),
        connection_header is None ==> (r matches Err(e) && e.kind == ErrorKind::BadRequest),
        (connection_header is Some && found is None) ==> (r matches Err(e) && e.kind
            == ErrorKind::NotFound),
{
    match connection_header {
        None => Err(PicaError::bad_request("Connection header not found")),
        Some(_) => match found {
            None => Err(PicaError::not_found("Connection not found")),
            Some(c) => Ok(c),
        },
    }
}

/// Count this request against the window and say whether it may pass:
/// allowed exactly while the window's count stays within the budget.
pub fn increment_and_check(counter: &mut u64, throughput: u64) -> (allowed: bool)
    ensures
        *final(counter) == (if *old(counter) < u64::MAX {
            *old(counter) + 1
        } else {
            *old(counter) as int
        }),
        allowed == (*final(counter) <= throughput),
{
    if *counter < u64::MAX {
        *counter = *counter + 1;
    }
    *counter <= throughput
}

/// The verdict on a window count something else incremented (a shared
/// counter store): the request passes exactly while the count stays
/// within the budget.
pub fn rate_limit_verdict(count_after_increment: u64, throughput: u64) -> (allowed: bool)
    ensures
        allowed == (count_after_increment <= throughput),
{
    count_after_increment <= throughput
}

/// The verdict on a rate-limited request: surface it as the 429 error.
pub fn rate_limit_error() -> (r: PicaError)
    ensures
        r.kind == ErrorKind::RateLimited,
{
    PicaError::rate_limited("Rate limit exceeded")
}

} // verus!
