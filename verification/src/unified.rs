//! The shapes the unified extractor interface speaks: the request being
//! transformed, the response mapping inputs, and the metadata block every
//! unified response carries.

use vstd::prelude::*;
use crate::external::{json_is_object, json_merge_objects};
use crate::headers::{has_header, header_value, Headers};
use crate::ids::{Id, IdPrefix};
use crate::text::{str_eq, trim_trailing_char, trimmed_trailing};

verus! {

/// The name and value characters of a parameter list.
pub open spec fn params_view(q: Seq<(String, String)>) -> Seq<(Seq<char>, Seq<char>)> {
    q.map_values(|p: (String, String)| (p.0@, p.1@))
}

/// A request on its way through the extractor: query, headers, body and
/// path parameters, all by plain values.
#[derive(Debug)]
pub struct RequestCrud {
    pub query_params: Vec<(String, String)>,
    pub headers: Headers,
    pub body: Option<serde_json::Value>,
    pub path_params: Option<Vec<(String, String)>>,
}

impl RequestCrud {
    /// The value of the first header named `key`, if any.
    pub fn get_header(&self, key: &str) -> (r: Option<String>)
        ensures
            r is Some <==> has_header(self.headers@, key@),
            r matches Some(v) ==> v@ == header_value(self.headers@, key@),
    {
        match self.headers.get(key) {
            Some(v) => Some(v.clone()),
            None => None,
        }
    }

    /// The body, if one is set.
    pub fn get_body<'a>(&'a self) -> (r: Option<&'a serde_json::Value>)
        ensures
            r is Some <==> self.body is Some,
            r matches Some(v) ==> (self.body matches Some(b) && *v == b),
    {
        self.body.as_ref()
    }

    /// The path parameters, if any were collected.
    pub fn get_path_params<'a>(&'a self) -> (r: Option<&'a Vec<(String, String)>>)
        ensures
            r is Some <==> self.path_params is Some,
            r matches Some(v) ==> (self.path_params matches Some(p) && *v == p),
    {
        self.path_params.as_ref()
    }

    /// The query parameters.
    pub fn get_query_params<'a>(&'a self) -> (r: &'a Vec<(String, String)>)
        ensures
            *r == self.query_params,
    {
        &self.query_params
    }

    /// The headers.
    pub fn get_headers<'a>(&'a self) -> (r: &'a Headers)
        ensures
            *r == self.headers,
    {
        &self.headers
    }

    /// Take one query parameter out: every pair under that key leaves,
    /// and the first one's value is returned if any was set.
    pub fn remove_query_params(self, key: &str) -> (r: (RequestCrud, Option<String>))
        ensures
            r.0.headers == self.headers,
            r.0.body == self.body,
            r.0.path_params == self.path_params,
            params_view(r.0.query_params@) == params_view(self.query_params@).filter(
                |p: (Seq<char>, Seq<char>)| p.0 != key@,
            ),
            r.1 is Some <==> exists|i: int|
                0 <= i < self.query_params@.len() && (#[trigger] self.query_params@[i]).0@ == key@,
            r.1 matches Some(v) ==> exists|i: int|
                0 <= i < self.query_params@.len() && (#[trigger] self.query_params@[i]).0@ == key@
                    && v@ == self.query_params@[i].1@,
    {
        let mut kept: Vec<(String, String)> = Vec::new();
        let mut removed: Option<String> = None;
        let mut q = self.query_params;
        let n = q.len();
        let mut i: usize = 0;
        proof {
            reveal(Seq::filter);
            assert(params_view(q@.subrange(0, 0)).filter(
                |p: (Seq<char>, Seq<char>)| p.0 != key@,
            ) =~= params_view(kept@));
        }
        while i < n
            invariant
                0 <= i <= n,
                n == q@.len(),
                params_view(kept@) == params_view(q@.subrange(0, i as int)).filter(
                    |p: (Seq<char>, Seq<char>)| p.0 != key@,
                ),
                removed is Some <==> exists|j: int|
                    0 <= j < i && (#[trigger] q@[j]).0@ == key@,
                removed matches Some(v) ==> exists|j: int|
                    0 <= j < i && (#[trigger] q@[j]).0@ == key@ && v@ == q@[j].1@,
            decreases n - i,
        {
            proof {
                reveal(Seq::filter);
                assert(params_view(q@.subrange(0, i + 1)).drop_last() =~= params_view(
                    q@.subrange(0, i as int),
                ));
                assert(params_view(q@.subrange(0, i + 1)).last() == (q@[i as int].0@, q@[
                i as int].1@));
            }
            if str_eq(q[i].0.as_str(), key) {
                if removed.is_none() {
                    removed = Some(q[i].1.clone());
                }
                proof {
                    assert(params_view(kept@) =~= params_view(q@.subrange(0, i + 1)).filter(
                        |p: (Seq<char>, Seq<char>)| p.0 != key@,
                    ));
                }
            } else {
                let pair = (q[i].0.clone(), q[i].1.clone());
                kept.push(pair);
                proof {
                    assert(params_view(kept@) =~= params_view(q@.subrange(0, i + 1)).filter(
                        |p: (Seq<char>, Seq<char>)| p.0 != key@,
                    ));
                }
            }
            i = i + 1;
        }
        proof {
            assert(q@.subrange(0, n as int) =~= q@);
        }
        (
            RequestCrud {
                query_params: kept,
                headers: self.headers,
                body: self.body,
                path_params: self.path_params,
            },
            removed,
        )
    }

    /// Add query parameters after the present ones.
    pub fn extend_query_params(self, other: Vec<(String, String)>) -> (r: RequestCrud)
        ensures
            r.headers == self.headers,
            r.body == self.body,
            r.path_params == self.path_params,
            r.query_params@.len() == self.query_params@.len() + other@.len(),
            forall|i: int|
                0 <= i < self.query_params@.len() ==> #[trigger] r.query_params@[i]
                    == self.query_params@[i],
    {
        let mut q = self.query_params;
        let mut extra = other;
        let n = extra.len();
        let mut i: usize = 0;
        while i < n
            invariant
                0 <= i <= n,
                extra@.len() == n - i,
                q@.len() == self.query_params@.len() + i,
                forall|j: int|
                    0 <= j < self.query_params@.len() ==> #[trigger] q@[j]
                        == self.query_params@[j],
            decreases n - i,
        {
            let pair = extra.remove(0);
            q.push(pair);
            i = i + 1;
        }
        RequestCrud {
            query_params: q,
            headers: self.headers,
            body: self.body,
            path_params: self.path_params,
        }
    }

    /// Take one header out, returning its first value if it was set.
    pub fn remove_header(self, key: &str) -> (r: (RequestCrud, Option<String>))
        ensures
            r.0.query_params == self.query_params,
            r.0.body == self.body,
            r.0.path_params == self.path_params,
            r.0.headers@ == self.headers@.filter(|p: (Seq<char>, Seq<char>)| p.0 != key@),
            r.1 is Some <==> has_header(self.headers@, key@),
            r.1 matches Some(v) ==> v@ == header_value(self.headers@, key@),
    {
        let removed = match self.headers.get(key) {
            Some(v) => Some(v.clone()),
            None => None,
        };
        let mut headers = self.headers;
        headers.remove(key);
        (
            RequestCrud {
                query_params: self.query_params,
                headers,
                body: self.body,
                path_params: self.path_params,
            },
            removed,
        )
    }

    /// Add header pairs after the present ones.
    pub fn extend_header(self, other: Vec<(String, String)>) -> (r: RequestCrud)
        ensures
            r.query_params == self.query_params,
            r.body == self.body,
            r.path_params == self.path_params,
            r.headers@.len() == self.headers@.len() + other@.len(),
            forall|i: int|
                0 <= i < self.headers@.len() ==> #[trigger] r.headers@[i] == self.headers@[i],
    {
        let mut headers = self.headers;
        let mut extra = other;
        let n = extra.len();
        let mut i: usize = 0;
        while i < n
            invariant
                0 <= i <= n,
                extra@.len() == n - i,
                headers@.len() == self.headers@.len() + i,
                forall|j: int|
                    0 <= j < self.headers@.len() ==> #[trigger] headers@[j] == self.headers@[j],
            decreases n - i,
        {
            let (name, value) = extra.remove(0);
            headers.push(name, value);
            i = i + 1;
        }
        RequestCrud {
            query_params: self.query_params,
            headers,
            body: self.body,
            path_params: self.path_params,
        }
    }

    /// Merge another body into this one: two objects merge key by key
    /// (the other side wins); a body appears where none was; anything
    /// else leaves the body as it is.
    pub fn extend_body(self, other: Option<serde_json::Value>) -> (r: RequestCrud)
        ensures
            r.query_params == self.query_params,
            r.headers == self.headers,
            r.path_params == self.path_params,
            self.body is None ==> r.body == other,
            (self.body is Some && other is None) ==> r.body == self.body,
    {
        let body = match (self.body, other) {
            (Some(a), Some(b)) => {
                if a.is_object() && b.is_object() {
                    Some(json_merge_objects(a, b))
                } else {
                    Some(a)
                }
            },
            (None, Some(b)) => Some(b),
            (Some(a), None) => Some(a),
            (None, None) => None,
        };
        RequestCrud {
            query_params: self.query_params,
            headers: self.headers,
            body,
            path_params: self.path_params,
        }
    }

    /// Set the body outright.
    pub fn set_body(self, body: Option<serde_json::Value>) -> (r: RequestCrud)
        ensures
            r.query_params == self.query_params,
            r.headers == self.headers,
            r.path_params == self.path_params,
            r.body == body,
    {
        RequestCrud {
            query_params: self.query_params,
            headers: self.headers,
            body,
            path_params: self.path_params,
        }
    }

    /// Add one path parameter, if a value is given.
    pub fn add_path_param(self, key: String, value: Option<String>) -> (r: RequestCrud)
        ensures
            r.query_params == self.query_params,
            r.headers == self.headers,
            r.body == self.body,
            value is None ==> r.path_params == self.path_params,
            value matches Some(v) ==> (r.path_params matches Some(ps) && ps@.len() >= 1
                && ps@.last().0@ == key@ && ps@.last().1@ == v@),
    {
        match value {
            None => RequestCrud {
                query_params: self.query_params,
                headers: self.headers,
                body: self.body,
                path_params: self.path_params,
            },
            Some(v) => {
                let mut ps = match self.path_params {
                    Some(ps) => ps,
                    None => Vec::new(),
                };
                ps.push((key, v));
                RequestCrud {
                    query_params: self.query_params,
                    headers: self.headers,
                    body: self.body,
                    path_params: Some(ps),
                }
            },
        }
    }
}

/// What one response mapping call sees of the request.
#[derive(Debug)]
pub struct ResponseCrudToMapRequest {
    pub query_params: Vec<(String, String)>,
}

impl ResponseCrudToMapRequest {
    pub fn new(query_params: Vec<(String, String)>) -> (r: ResponseCrudToMapRequest)
        ensures
            r.query_params == query_params,
    {
        ResponseCrudToMapRequest { query_params }
    }
}

/// What a response mapping returns: pagination material, if any.
#[derive(Debug)]
pub struct ResponseCrud {
    pub pagination: Option<serde_json::Value>,
}

impl ResponseCrud {
    pub fn get_pagination<'a>(&'a self) -> (r: Option<&'a serde_json::Value>)
        ensures
            r is Some <==> self.pagination is Some,
            r matches Some(v) ==> (self.pagination matches Some(p) && *v == p),
    {
        self.pagination.as_ref()
    }
}

/// Whether a unified response was served from cache, and under what key.
#[derive(Debug, Clone, Default)]
pub struct UnifiedCache {
    pub hit: bool,
    pub ttl: u64,
    pub key: String,
}

/// The metadata block a unified response carries.
#[derive(Debug, Clone)]
pub struct UnifiedMetadata {
    pub timestamp: i64,
    pub platform_rate_limit_remaining: i32,
    pub rate_limit_remaining: i32,
    pub host: Option<String>,
    pub cache: Option<UnifiedCache>,
    pub transaction_key: Id,
    pub platform: String,
    pub platform_version: String,
    pub action: Option<String>,
    pub common_model: Option<String>,
    pub common_model_version: String,
    pub status_code: Option<u16>,
    pub path: Option<String>,
    pub connection_key: String,
    pub latency: Option<i32>,
    pub hash: Option<String>,
}

/// The metadata block one passthrough round-trip is logged with: the
/// instant, a fresh transaction key, the connection's coordinates, the
/// definition's title as the action, the path without its trailing
/// slashes, and the upstream status. The rate-limit gauges are not
/// sampled on this path and read zero; cache, latency, hash and common
/// model do not apply.
pub fn passthrough_metadata(
    now_millis: i64,
    platform: &str,
    platform_version: &str,
    connection_key: &str,
    action_title: &str,
    path: &str,
    status_code: u16,
    host: Option<String>,
) -> (r: UnifiedMetadata)
    ensures
        r.timestamp == now_millis,
        r.platform_rate_limit_remaining == 0,
        r.rate_limit_remaining == 0,
        r.host == host,
        r.cache is None,
        r.platform@ == platform@,
        r.platform_version@ == platform_version@,
        r.action matches Some(a) && a@ == action_title@,
        r.common_model is None,
        r.common_model_version@ == "v1"@,
        r.status_code matches Some(s) && s == status_code,
        r.path matches Some(p) && p@ == trimmed_trailing(path@, '/'),
        r.connection_key@ == connection_key@,
        r.latency is None,
        r.hash is None,
{
    UnifiedMetadata {
        timestamp: now_millis,
        platform_rate_limit_remaining: 0,
        rate_limit_remaining: 0,
        host,
        cache: None,
        transaction_key: Id::now(IdPrefix::Transaction),
        platform: platform.to_owned(),
        platform_version: platform_version.to_owned(),
        action: Some(action_title.to_owned()),
        common_model: None,
        common_model_version: "v1".to_owned(),
        status_code: Some(status_code),
        path: Some(trim_trailing_char(path, '/')),
        connection_key: connection_key.to_owned(),
        latency: None,
        hash: None,
    }
}

} // verus!
