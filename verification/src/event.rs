//! Events: immutable records of one upstream round-trip, named
//! `{platform}::{version}::{model}::{action}::request-{succeeded|failed}`.

use vstd::prelude::*;
use crate::headers::Headers;
use crate::ids::{Id, IdPrefix};

verus! {

/// One upstream round-trip, as the event pipeline persists it.
#[derive(Debug)]
pub struct Event {
    pub id: Id,
    pub key: String,
    pub name: String,
    pub headers: Headers,
    pub body: String,
}

impl Event {
    /// An event under the given encrypted credential reference.
    pub fn new(key: &str, name: &str, headers: Headers, body: String) -> (r: Event)
        ensures
            r.key@ == key@,
            r.name@ == name@,
            r.headers@ == headers@,
            r.body@ == body@,
    {
        Event {
            id: Id::now(IdPrefix::Event),
            key: key.to_owned(),
            name: name.to_owned(),
            headers,
            body,
        }
    }
}

/// The event name for one upstream call:
/// `{platform}::{version}::{model}::{action}::request-succeeded` on a
/// success status, `…::request-failed` otherwise.
pub open spec fn spec_event_name(
    platform: Seq<char>,
    version: Seq<char>,
    model: Seq<char>,
    action: Seq<char>,
    success: bool,
) -> Seq<char> {
    platform + "::"@ + version + "::"@ + model + "::"@ + action + (if success {
        "::request-succeeded"@
    } else {
        "::request-failed"@
    })
}

/// Whether an HTTP status is a success (2xx).
pub open spec fn spec_is_success(status: u16) -> bool {
    200 <= status < 300
}

/// Whether a response status counts as a success: only successful calls
/// are counted in the metric document.
pub fn is_success_status(status: u16) -> (r: bool)
    ensures
        r == spec_is_success(status),
{
    200 <= status && status < 300
}

/// Build the event name for one upstream call from its parts and status.
pub fn event_name(
    platform: &str,
    version: &str,
    model: &str,
    action: &str,
    status: u16,
) -> (r: String)
    ensures
        r@ == spec_event_name(platform@, version@, model@, action@, spec_is_success(status)),
{
    let mut name = platform.to_owned();
    name.append("::");
    name.append(version);
    name.append("::");
    name.append(model);
    name.append("::");
    name.append(action);
    if 200 <= status && status < 300 {
        name.append("::request-succeeded");
    } else {
        name.append("::request-failed");
    }
    name
}

} // verus!
