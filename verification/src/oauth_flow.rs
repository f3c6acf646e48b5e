//! Provisioning a connection through OAuth: the payload sent to the
//! compute service, the synthesized connection key, and the connection
//! record with its expiry margin.

use vstd::prelude::*;
use crate::connection::{Connection, ConnectionIdentityType, OAuth, Throughput};
use crate::connection_definition::ConnectionDefinition;
use crate::external::{is_alnum, is_lower_hex, json_is_null, json_is_object, json_null, json_object_insert, json_text_field, uuid_simple_hex};
use crate::ids::{Id, IdPrefix};
use crate::record::{spec_environment_str, Environment, Ownership, RecordMetadata};
use crate::text::{sanitize_identity, sanitized_chars, str_eq};

verus! {

/// The namespace every OAuth-provisioned connection key carries.
pub open spec fn default_namespace() -> Seq<char> {
    "default"@
}

/// The safety margin taken off a token's lifetime, in seconds.
pub const EXPIRY_MARGIN_SECS: i64 = 120;

/// When a token provisioned at `now` (seconds) with `expires_in` seconds
/// of life is treated as expired: the margin comes off.
pub fn oauth_expires_at(now_secs: i64, expires_in: i32) -> (r: i64)
    requires
        0 <= now_secs <= i64::MAX - i32::MAX,
        now_secs + expires_in - 120 >= i64::MIN,
    ensures
        r == now_secs + expires_in - 120,
{
    now_secs + (expires_in as i64) - EXPIRY_MARGIN_SECS
}

/// What the OAuth compute service is handed: the platform's client pair
/// and the caller's metadata.
#[derive(Debug)]
pub struct OAuthPayload {
    pub client_id: String,
    pub client_secret: String,
    pub metadata: serde_json::Value,
}

/// Assemble the compute payload: the caller's metadata (or null), with
/// the environment's word written under `environment` when the metadata
/// is an object. A non-object metadata passes through unchanged; a
/// missing one becomes the JSON null.
pub fn build_oauth_payload(
    metadata: Option<serde_json::Value>,
    client_id: String,
    client_secret: String,
    environment: Environment,
) -> (r: OAuthPayload)
    ensures
        r.client_id == client_id,
        r.client_secret == client_secret,
        metadata matches Some(m) ==> {
            &&& json_is_object(r.metadata) == json_is_object(m)
            &&& (json_is_object(m) ==> json_text_field(r.metadata, "environment"@) == Some(
                spec_environment_str(environment),
            ))
            &&& (!json_is_object(m) ==> r.metadata == m)
        },
        metadata is None ==> json_is_null(r.metadata),
    {
    let mut meta = match metadata {
        Some(m) => m,
        None => json_null(),
    };
    json_object_insert(&mut meta, "environment", environment.as_str());
    OAuthPayload { client_id, client_secret, metadata: meta }
}

/// The owner whose settings and secrets the flow reads: the engineering
/// account when the caller asks for it, the caller's tenant otherwise.
pub fn settings_owner_id(
    is_engineering_account: bool,
    engineering_account_id: &str,
    ownership_id: &str,
) -> (r: String)
    ensures
        r@ == (if is_engineering_account {
            engineering_account_id@
        } else {
            ownership_id@
        }),
{
    if is_engineering_account {
        engineering_account_id.to_owned()
    } else {
        ownership_id.to_owned()
    }
}

/// A fresh token for one provisioning, with the group, identity and key
/// suffix built from it: whatever token came, the group falls back to it,
/// the identity to the group, and the suffix is the token alone or the
/// token joined with the sanitized identity.
pub fn fresh_connection_key_parts(
    group: Option<&String>,
    identity: Option<&String>,
) -> (r: (String, String, String))
    ensures
        exists|u: Seq<char>| #[trigger] fresh_suffix_of(u, group_view(group), identity_view(identity), r),
{
    let uuid = uuid_simple_hex();
    let parts = connection_key_parts(uuid.as_str(), group, identity);
    proof {
        assert(fresh_suffix_of(uuid@, group_view(group), identity_view(identity), parts));
    }
    parts
}

/// The characters of an optional argument.
pub open spec fn group_view(group: Option<&String>) -> Option<Seq<char>> {
    match group {
        Some(g) => Some(g@),
        None => None,
    }
}

/// The characters of an optional argument.
pub open spec fn identity_view(identity: Option<&String>) -> Option<Seq<char>> {
    match identity {
        Some(i) => Some(i@),
        None => None,
    }
}

/// How one provisioning's parts relate to its fresh token `u`: the token
/// is 32 lowercase hexadecimal characters; the group falls back to it;
/// the identity falls back to the group; and the suffix is the token
/// alone exactly when the identity says no more, else the token joined
/// with the sanitized identity by a bar.
pub open spec fn fresh_suffix_of(
    u: Seq<char>,
    group: Option<Seq<char>>,
    identity: Option<Seq<char>>,
    r: (String, String, String),
) -> bool {
    &&& u.len() == 32
    &&& (forall|i: int| 0 <= i < u.len() ==> is_lower_hex(#[trigger] u[i]))
    &&& r.1@ == (match group {
        Some(g) => g,
        None => u,
    })
    &&& r.2@ == (match identity {
        Some(i) => i,
        None => r.1@,
    })
    &&& r.0@ == (if r.2@ == u {
        u
    } else {
        u + "|"@ + sanitized_chars(r.2@)
    })
}

/// The group, identity and key suffix of a provisioned connection: the
/// group falls back to the fresh token, the identity to the group, and
/// the suffix carries the sanitized identity only when it says more than
/// the token.
pub fn connection_key_parts(
    uuid: &str,
    group: Option<&String>,
    identity: Option<&String>,
) -> (r: (String, String, String))
    ensures
        r.1@ == (match group {
            Some(g) => g@,
            None => uuid@,
        }),
        r.2@ == (match identity {
            Some(i) => i@,
            None => match group {
                Some(g) => g@,
                None => uuid@,
            },
        }),
        r.0@ == (if r.2@ == uuid@ {
            uuid@
        } else {
            uuid@ + "|"@ + sanitized_chars(r.2@)
        }),
{
    let group_out: String = match group {
        Some(g) => g.clone(),
        None => uuid.to_owned(),
    };
    let identity_out: String = match identity {
        Some(i) => i.clone(),
        None => group_out.clone(),
    };
    let suffix: String = if str_eq(identity_out.as_str(), uuid) {
        uuid.to_owned()
    } else {
        let mut s = uuid.to_owned();
        s.append("|");
        let sanitized = sanitize_identity(identity_out.as_str());
        s.append(sanitized.as_str());
        s
    };
    (suffix, group_out, identity_out)
}

/// The key of a provisioned connection:
/// `environment::platform::default::suffix`.
pub open spec fn spec_connection_key(
    environment: Environment,
    platform: Seq<char>,
    suffix: Seq<char>,
) -> Seq<char> {
    spec_environment_str(environment) + "::"@ + platform + "::"@ + default_namespace() + "::"@
        + suffix
}

/// Build the key of a provisioned connection.
pub fn connection_key(environment: Environment, platform: &str, suffix: &str) -> (r: String)
    ensures
        r@ == spec_connection_key(environment, platform@, suffix@),
{
    let mut key = environment.as_str().to_owned();
    key.append("::");
    key.append(platform);
    key.append("::");
    key.append("default");
    key.append("::");
    key.append(suffix);
    proof {
        assert(key@ =~= spec_connection_key(environment, platform@, suffix@));
    }
    key
}

/// A character the key suffix may carry: a letter, a digit, a bar or a
/// hyphen.
pub open spec fn is_suffix_char(c: char) -> bool {
    is_alnum(c) || c == '|' || c == '-'
}

/// A character an identity may carry if its key is to match the
/// documented shape.
pub open spec fn is_tame_identity_char(c: char) -> bool {
    is_alnum(c) || c == ' ' || c == ':' || c == '-' || c == '|'
}

/// The key of a provisioned connection has the documented shape: the
/// environment's word, the platform, the fixed namespace and the suffix,
/// joined by double colons, with the suffix drawn from letters, digits,
/// bars and hyphens — the sanitized identity included. This holds for
/// every identity made of letters, digits, spaces, colons, bars and
/// hyphens (sanitizing replaces the spaces and colons); an identity with
/// a character like `@` would put that character into the key verbatim.
pub proof fn lemma_oauth_key_shape(
    environment: Environment,
    platform: Seq<char>,
    uuid: Seq<char>,
    identity: Seq<char>,
    suffix: Seq<char>,
)
    requires
        forall|i: int| 0 <= i < uuid.len() ==> is_lower_hex(#[trigger] uuid[i]),
        forall|i: int| 0 <= i < identity.len() ==> is_tame_identity_char(#[trigger] identity[i]),
        suffix == uuid || suffix == uuid + "|"@ + sanitized_chars(identity),
    ensures
        spec_connection_key(environment, platform, suffix) == spec_environment_str(environment)
            + "::"@ + platform + "::"@ + "default"@ + "::"@ + suffix,
        spec_environment_str(environment) == "test"@ || spec_environment_str(environment)
            == "live"@,
        forall|i: int| 0 <= i < suffix.len() ==> is_suffix_char(#[trigger] suffix[i]),
{
    if suffix == uuid {
        assert(forall|i: int| 0 <= i < suffix.len() ==> is_suffix_char(#[trigger] suffix[i]));
    } else {
        let bar = "|"@;
        proof_bar_char();
        let sane = sanitized_chars(identity);
        assert(forall|i: int| 0 <= i < sane.len() ==> is_suffix_char(#[trigger] sane[i])) by {
            assert(forall|i: int|
                0 <= i < identity.len() ==> #[trigger] sane[i] == (if identity[i] == ' '
                    || identity[i] == ':' {
                    '-'
                } else {
                    identity[i]
                }));
        }
        assert(forall|i: int| 0 <= i < suffix.len() ==> is_suffix_char(#[trigger] suffix[i])) by {
            assert(forall|i: int|
                0 <= i < suffix.len() ==> #[trigger] suffix[i] == (if i < uuid.len() {
                    uuid[i]
                } else if i < uuid.len() + 1 {
                    bar[i - uuid.len()]
                } else {
                    sane[i - uuid.len() - 1]
                }));
        }
    }
}

proof fn proof_bar_char()
    ensures
        "|"@.len() == 1,
        "|"@[0] == '|',
{
    reveal_strlit("|");
}

/// The connection record one successful OAuth provisioning creates:
/// everything taken from the definition, credential and flow, with the
/// expiry margin applied.
pub fn build_oauth_connection(
    conn_definition: &ConnectionDefinition,
    oauth_definition_id: Id,
    environment: Environment,
    platform: String,
    key: String,
    group: String,
    name: Option<String>,
    identity: String,
    identity_type: Option<ConnectionIdentityType>,
    secrets_service_id: String,
    event_access_id: Id,
    access_key: Option<String>,
    ownership: Ownership,
    throughput_limit: u64,
    now_secs: i64,
    expires_in: i32,
) -> (r: Connection)
    requires
        0 <= now_secs <= i64::MAX - i32::MAX,
        now_secs + expires_in - 120 >= i64::MIN,
    ensures
        r.connection_definition_id == conn_definition.id,
        r.kind == crate::connection_definition::spec_connection_type_of(conn_definition.kind),
        r.platform_version == conn_definition.platform_version,
        r.settings == conn_definition.settings,
        r.environment == environment,
        r.platform == platform,
        r.key == key,
        r.group == group,
        r.name == name,
        r.identity matches Some(id) && id == identity,
        r.identity_type == identity_type,
        r.secrets_service_id == secrets_service_id,
        r.event_access_id matches Some(e) && e == event_access_id,
        r.access_key == access_key,
        r.ownership == ownership,
        r.throughput.key == key,
        r.throughput.limit == throughput_limit,
        !r.has_error,
        r.error is None,
        r.oauth matches Some(o) && (o matches OAuth::Enabled {
            connection_oauth_definition_id,
            expires_in: ei,
            expires_at,
        } && connection_oauth_definition_id == oauth_definition_id && (ei matches Some(s) && s
            == expires_in) && (expires_at matches Some(at) && at == now_secs + expires_in - 120)),
        r.record_metadata == RecordMetadata::spec_new(now_secs),
{
    let expires_at = oauth_expires_at(now_secs, expires_in);
    Connection {
        id: Id::now(IdPrefix::Connection),
        platform_version: conn_definition.platform_version.clone(),
        connection_definition_id: conn_definition.id.clone(),
        kind: conn_definition.to_connection_type(),
        key: key.clone(),
        group,
        name,
        environment,
        platform,
        secrets_service_id,
        event_access_id: Some(event_access_id),
        access_key,
        identity: Some(identity),
        identity_type,
        settings: conn_definition.settings,
        throughput: Throughput { key, limit: throughput_limit },
        ownership,
        oauth: Some(
            OAuth::Enabled {
                connection_oauth_definition_id: oauth_definition_id,
                expires_in: Some(expires_in),
                expires_at: Some(expires_at),
            },
        ),
        has_error: false,
        error: None,
        record_metadata: RecordMetadata::new(now_secs),
    }
}

} // verus!
