//! Catalog entries for OAuth: a platform's compute scripts and redirect
//! material, the tenant settings that point at platform secrets, and the
//! shapes the OAuth compute service speaks.

use vstd::prelude::*;
use crate::ids::Id;
use crate::record::{Environment, Ownership, RecordMetadata};

verus! {

/// A compute script the OAuth service evaluates.
#[derive(Debug, Clone)]
pub struct Function {
    pub entry: String,
    pub function: String,
}

/// The pair of scripts for one OAuth step.
#[derive(Debug, Clone)]
pub struct ComputeRequest {
    pub computation: Option<Function>,
    pub response: Function,
}

/// The init and refresh scripts of a platform.
#[derive(Debug, Clone)]
pub struct OAuthCompute {
    pub init: ComputeRequest,
    pub refresh: ComputeRequest,
}

/// The endpoint configuration of one OAuth step.
#[derive(Debug, Clone)]
pub struct ApiModelConfig {
    pub base_url: String,
    pub path: String,
}

/// The endpoint configuration of both OAuth steps.
#[derive(Debug, Clone)]
pub struct OAuthApiConfig {
    pub init: ApiModelConfig,
    pub refresh: ApiModelConfig,
}

/// What the frontend needs to run an OAuth dance.
#[derive(Debug, Clone)]
pub struct Frontend {
    pub platform_redirect_uri: String,
    pub sandbox_platform_redirect_uri: Option<String>,
    pub scopes: String,
    pub ios_redirect_uri: String,
    pub separator: Option<String>,
}

/// A catalog entry describing one platform's OAuth. Read-only at runtime.
#[derive(Debug, Clone)]
pub struct ConnectionOAuthDefinition {
    pub id: Id,
    pub configuration: OAuthApiConfig,
    pub connection_platform: String,
    pub compute: OAuthCompute,
    pub frontend: Frontend,
    pub is_full_template_enabled: bool,
    pub record_metadata: RecordMetadata,
}

/// One platform a tenant has connected, pointing at its stored secret.
#[derive(Debug, Clone)]
pub struct ConnectedPlatform {
    pub kind: String,
    pub scopes: Option<String>,
    pub title: String,
    pub connection_definition_id: Id,
    pub active: Option<bool>,
    pub image: Option<String>,
    pub secrets_service_id: Option<String>,
    pub environment: Environment,
}

/// The same entry as shown in listings.
#[derive(Debug, Clone)]
pub struct ConnectedPlatformSlim {
    pub kind: String,
    pub title: String,
    pub connection_definition_id: Id,
}

/// A tenant's settings: which platforms it connected, and where their
/// secrets live.
#[derive(Debug, Clone)]
pub struct Settings {
    pub id: Id,
    pub ownership: Ownership,
    pub connected_platforms: Vec<ConnectedPlatform>,
}

/// Whether a connected platform names the definition and environment.
pub open spec fn platform_match(
    p: ConnectedPlatform,
    definition_id: Seq<char>,
    environment: Environment,
) -> bool {
    p.connection_definition_id.value@ == definition_id && p.environment == environment
}

/// Whether a connected platform names the definition, whatever its
/// environment.
pub open spec fn platform_match_any_env(p: ConnectedPlatform, definition_id: Seq<char>) -> bool {
    p.connection_definition_id.value@ == definition_id
}

/// The first entry naming both the definition and the environment.
pub open spec fn spec_env_choice(
    ps: Seq<ConnectedPlatform>,
    definition_id: Seq<char>,
    environment: Environment,
) -> Option<ConnectedPlatform>
    decreases ps.len(),
{
    if ps.len() == 0 {
        None
    } else if platform_match(ps[0], definition_id, environment) {
        Some(ps[0])
    } else {
        spec_env_choice(ps.drop_first(), definition_id, environment)
    }
}

/// The first entry naming the definition, whatever its environment.
pub open spec fn spec_any_choice(
    ps: Seq<ConnectedPlatform>,
    definition_id: Seq<char>,
) -> Option<ConnectedPlatform>
    decreases ps.len(),
{
    if ps.len() == 0 {
        None
    } else if platform_match_any_env(ps[0], definition_id) {
        Some(ps[0])
    } else {
        spec_any_choice(ps.drop_first(), definition_id)
    }
}

/// The entry the secret lookup reads: the first environment-scoped match,
/// else the first match in any environment.
pub open spec fn spec_platform_choice(
    ps: Seq<ConnectedPlatform>,
    definition_id: Seq<char>,
    environment: Environment,
) -> Option<ConnectedPlatform> {
    match spec_env_choice(ps, definition_id, environment) {
        Some(p) => Some(p),
        None => spec_any_choice(ps, definition_id),
    }
}

impl Settings {
    /// The secret-service id for a connection definition: read from the
    /// first entry scoped to the given environment; failing that, from
    /// the first entry for the definition in any environment; `None`
    /// exactly when no entry matches or the chosen entry names no secret.
    pub fn platform_secret(
        &self,
        connection_definition_id: &Id,
        environment: Environment,
    ) -> (r: Option<String>)
        ensures
            (match r {
                Some(s) => Some(s@),
                None => None,
            }) == (match spec_platform_choice(
                self.connected_platforms@,
                connection_definition_id.value@,
                environment,
            ) {
                Some(p) => match p.secrets_service_id {
                    Some(t) => Some(t@),
                    None => None,
                },
                None => None,
            }),
    {
        let ghost ps = self.connected_platforms@;
        let ghost id_chars = connection_definition_id.value@;
        let n = self.connected_platforms.len();
        let mut i: usize = 0;
        proof {
            assert(ps.subrange(0, ps.len() as int) =~= ps);
        }
        // Prefer the entry scoped to the requested environment.
        while i < n
            invariant
                0 <= i <= n,
                n == ps.len(),
                ps == self.connected_platforms@,
                id_chars == connection_definition_id.value@,
                spec_env_choice(ps, id_chars, environment) == spec_env_choice(
                    ps.subrange(i as int, ps.len() as int),
                    id_chars,
                    environment,
                ),
            decreases n - i,
        {
            proof {
                assert(ps.subrange(i as int, ps.len() as int)[0] == ps[i as int]);
                assert(ps.subrange(i as int, ps.len() as int).drop_first() =~= ps.subrange(
                    i + 1,
                    ps.len() as int,
                ));
            }
            let p = &self.connected_platforms[i];
            let env_matches = match (p.environment, environment) {
                (Environment::Test, Environment::Test) => true,
                (Environment::Live, Environment::Live) => true,
                _ => false,
            };
            if env_matches && crate::text::str_eq(
                p.connection_definition_id.value.as_str(),
                connection_definition_id.value.as_str(),
            ) {
                proof {
                    assert(platform_match(ps[i as int], id_chars, environment));
                    assert(spec_env_choice(ps, id_chars, environment) == Some(ps[i as int]));
                }
                return match &p.secrets_service_id {
                    Some(s) => Some(s.clone()),
                    None => None,
                };
            }
            i = i + 1;
        }
        proof {
            assert(ps.subrange(n as int, ps.len() as int).len() == 0);
            assert(spec_env_choice(ps, id_chars, environment) is None);
        }
        // Fall back to any entry for the definition.
        let mut i: usize = 0;
        while i < n
            invariant
                0 <= i <= n,
                n == ps.len(),
                ps == self.connected_platforms@,
                id_chars == connection_definition_id.value@,
                spec_env_choice(ps, id_chars, environment) is None,
                spec_any_choice(ps, id_chars) == spec_any_choice(
                    ps.subrange(i as int, ps.len() as int),
                    id_chars,
                ),
            decreases n - i,
        {
            proof {
                assert(ps.subrange(i as int, ps.len() as int)[0] == ps[i as int]);
                assert(ps.subrange(i as int, ps.len() as int).drop_first() =~= ps.subrange(
                    i + 1,
                    ps.len() as int,
                ));
            }
            let p = &self.connected_platforms[i];
            if crate::text::str_eq(
                p.connection_definition_id.value.as_str(),
                connection_definition_id.value.as_str(),
            ) {
                proof {
                    assert(platform_match_any_env(ps[i as int], id_chars));
                    assert(spec_any_choice(ps, id_chars) == Some(ps[i as int]));
                }
                return match &p.secrets_service_id {
                    Some(s) => Some(s.clone()),
                    None => None,
                };
            }
            i = i + 1;
        }
        proof {
            assert(ps.subrange(n as int, ps.len() as int).len() == 0);
            assert(spec_any_choice(ps, id_chars) is None);
        }
        None
    }
}

/// One OAuth step as the admin surface takes it: the endpoint, an
/// optional compute script, and the response script.
#[derive(Debug, Clone)]
pub struct RequestParams {
    pub configuration: ApiModelConfig,
    pub compute: Option<String>,
    pub response_compute: String,
}

/// The scope separator used when a definition names none.
pub fn default_separator() -> (r: Option<String>)
    ensures
        r matches Some(s) && s@ == " "@,
{
    Some(" ".to_owned())
}

/// The slice of an OAuth definition the frontend reads.
#[derive(Debug, Clone)]
pub struct FrontendOauthConnectionDefinition {
    pub id: String,
    pub connection_platform: String,
    pub frontend: Frontend,
    pub record_metadata: RecordMetadata,
}

/// A platform's client credentials, fetched through the secret service.
#[derive(Debug, Clone)]
pub struct PlatformSecret {
    pub client_id: String,
    pub client_secret: String,
}

/// What the OAuth compute service answers on init.
#[derive(Debug, Clone)]
pub struct OAuthResponse {
    pub access_token: String,
    pub expires_in: i32,
    pub refresh_token: Option<String>,
    pub token_type: Option<String>,
}

} // verus!
