//! The passthrough dispatcher's rules: which headers reach the upstream,
//! how the model definition is looked up, and how the upstream's headers
//! come back to the caller.

use vstd::prelude::*;
use crate::destination::{Action, Destination};
use crate::headers::Headers;
use crate::ids::Id;
use crate::record::RecordMetadata;
use crate::text::{ascii_upper_chars, ascii_uppercase};

verus! {

/// The prefix every forwarded upstream header carries, so the gateway's
/// own headers stay distinguishable.
pub open spec fn passthrough_prefix() -> Seq<char> {
    "x-pica-passthrough-"@
}

/// The one upstream header forwarded verbatim.
pub open spec fn content_length_key() -> Seq<char> {
    "content-length"@
}

/// Header that pins the model definition by id.
pub open spec fn action_id_header() -> Seq<char> {
    "x-pica-action-id"@
}

/// What one upstream header pair becomes on the way back to the caller:
/// `Content-Length` verbatim, anything else under the passthrough prefix.
pub open spec fn spec_passed_header(p: (Seq<char>, Seq<char>)) -> (Seq<char>, Seq<char>) {
    if p.0 == content_length_key() {
        p
    } else {
        (passthrough_prefix() + p.0, p.1)
    }
}

/// Rewrite the upstream's response headers for the caller: the
/// `Content-Length` value is preserved verbatim; every other header
/// appears under the passthrough prefix.
pub fn pass_response_headers(upstream: &Headers) -> (r: Headers)
    ensures
        r@.len() == upstream@.len(),
        forall|i: int|
            0 <= i < upstream@.len() ==> #[trigger] r@[i] == spec_passed_header(upstream@[i]),
{
    let mut out = Headers::new();
    let n = upstream.len();
    let mut i: usize = 0;
    while i < n
        invariant
            0 <= i <= n,
            n == upstream@.len(),
            out@.len() == i,
            forall|j: int|
                0 <= j < i ==> #[trigger] out@[j] == spec_passed_header(upstream@[j]),
        decreases n - i,
    {
        let (name, value) = upstream.index(i);
        if crate::text::str_eq(name.as_str(), "content-length") {
            out.push(name.clone(), value.clone());
        } else {
            let mut prefixed = "x-pica-passthrough-".to_owned();
            prefixed.append(name.as_str());
            out.push(prefixed, value.clone());
        }
        i = i + 1;
    }
    out
}

/// Drop the gateway's own auth and connection headers before the request
/// goes upstream.
pub fn strip_gateway_headers(headers: &mut Headers, auth_header: &str, connection_header: &str)
    ensures
        final(headers)@ == old(headers)@.filter(
            |p: (Seq<char>, Seq<char>)| p.0 != auth_header@,
        ).filter(|p: (Seq<char>, Seq<char>)| p.0 != connection_header@),
{
    headers.remove(auth_header);
    headers.remove(connection_header);
}

/// The destination of one passthrough request.
pub fn build_destination(
    platform: &str,
    path: &str,
    method: &str,
    id_header: Option<&String>,
    connection_key: &str,
) -> (r: Destination)
    ensures
        r.platform@ == platform@,
        r.connection_key@ == connection_key@,
        r.action matches Action::Passthrough { path: p, method: m, id } && p@ == path@ && m@
            == method@ && (match id_header {
            Some(h) => id matches Some(i) && i@ == h@,
            None => id is None,
        }),
{
    Destination {
        platform: platform.to_owned(),
        action: Action::Passthrough {
            path: path.to_owned(),
            method: method.to_owned(),
            id: match id_header {
                Some(h) => Some(h.clone()),
                None => None,
            },
        },
        connection_key: connection_key.to_owned(),
    }
}

/// How the model definition for one call is found: pinned by id when the
/// caller sent the action-id header, else by the route triple with the
/// method uppercased.
#[derive(Debug)]
pub enum CmdQuery {
    ById { id: String },
    ByRoute { platform: String, path: String, method: String },
}

/// The lookup for the model definition: a caller-sent action id bypasses
/// the `(platform, path, method)` route lookup and pins the definition
/// directly.
pub fn cmd_lookup_query(
    id_header: Option<&String>,
    platform: &str,
    path: &str,
    method: &str,
) -> (r: CmdQuery)
    ensures
        id_header matches Some(h) ==> (r matches CmdQuery::ById { id } && id@ == h@),
        id_header is None ==> (r matches CmdQuery::ByRoute { platform: pl, path: pa, method: m }
            && pl@ == platform@ && pa@ == path@ && m@ == ascii_upper_chars(method@)),
{
    match id_header {
        Some(h) => CmdQuery::ById { id: h.clone() },
        None => CmdQuery::ByRoute {
            platform: platform.to_owned(),
            path: path.to_owned(),
            method: ascii_uppercase(method),
        },
    }
}

/// The cache key for one model-definition lookup: the definition id when
/// the caller pinned it, else the route triple
/// `connectionPlatform::path::METHOD` with the method uppercased — the
/// same key for the same route, so route lookups share one cache slot.
pub fn cmd_cache_key(
    id_header: Option<&String>,
    platform: &str,
    path: &str,
    method: &str,
) -> (r: String)
    ensures
        id_header matches Some(h) ==> r@ == h@,
        id_header is None ==> r@ == platform@ + "::"@ + path@ + "::"@ + ascii_upper_chars(
            method@,
        ),
{
    match id_header {
        Some(h) => h.clone(),
        None => {
            let mut key = platform.to_owned();
            key.append("::");
            key.append(path);
            key.append("::");
            key.append(ascii_uppercase(method).as_str());
            key
        },
    }
}

/// The sparse view of a model definition the passthrough path reads.
#[derive(Debug, Clone)]
pub struct SparseCMD {
    pub id: Id,
    pub connection_platform: String,
    pub connection_definition_id: Id,
    pub platform_version: String,
    pub key: String,
    pub title: String,
    pub name: String,
    pub path: String,
    pub action_name: String,
}

/// A full model definition as the catalog holds it.
#[derive(Debug, Clone)]
pub struct ConnectionModelDefinition {
    pub id: Id,
    pub connection_platform: String,
    pub connection_definition_id: Id,
    pub platform_version: String,
    pub key: String,
    pub title: String,
    pub name: String,
    pub path: String,
    pub action_name: crate::destination::CrudAction,
    pub record_metadata: RecordMetadata,
}

} // verus!
