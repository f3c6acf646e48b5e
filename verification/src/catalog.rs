//! Catalog reads and writes: building a connection definition from an
//! admin request, updating it, and assembling the public views of a
//! platform's capabilities.

use vstd::prelude::*;
use crate::connection_definition::{
    AuthMethod,
    AuthSecret,
    Caveat,
    ConnectionDefinition,
    ConnectionDefinitionType,
    ConnectionForm,
    ConnectionStatus,
    Filter,
    FormDataItem,
    Frontend,
    ModelFeatures,
    Paths,
    Settings,
    Spec,
};
use crate::destination::CrudAction;
use crate::ids::{Id, IdPrefix};
use crate::passthrough::ConnectionModelDefinition;
use crate::record::RecordMetadata;
use crate::text::str_eq;

verus! {

/// One secret input a platform requires, as the admin surface takes it.
#[derive(Debug, Clone)]
pub struct AuthenticationItem {
    pub name: String,
    pub label: String,
    pub kind: String,
    pub placeholder: String,
    pub options: Option<Vec<String>>,
}

/// What an administrator posts to create or update a connection
/// definition.
#[derive(Debug, Clone)]
pub struct CreateRequest {
    pub id: Option<Id>,
    pub platform: String,
    pub platform_version: String,
    pub status: ConnectionStatus,
    pub kind: ConnectionDefinitionType,
    pub name: String,
    pub description: String,
    pub category: String,
    pub image: String,
    pub tags: Vec<String>,
    pub helper_link: Option<String>,
    pub authentication: Vec<AuthenticationItem>,
    pub auth_method: Option<AuthMethod>,
    pub multi_env: bool,
    pub settings: Settings,
    pub paths: Paths,
    pub test_connection: Option<Id>,
    pub test_delay_in_millis: Option<i16>,
    pub active: bool,
    pub markdown: Option<String>,
}

/// The names of a request's secret inputs.
pub open spec fn spec_auth_names(items: Seq<AuthenticationItem>) -> Seq<Seq<char>> {
    items.map_values(|a: AuthenticationItem| a.name@)
}

impl CreateRequest {
    /// The definition this request creates: the key is
    /// `api::platform::version`, the form mirrors the authentication
    /// items, and the record starts active as requested.
    pub fn from(&self) -> (r: ConnectionDefinition)
        ensures
            r.id == (match self.id {
                Some(id) => id,
                None => r.id,
            }),
            r.platform == self.platform,
            r.platform_version == self.platform_version,
            r.status == self.status,
            r.kind == self.kind,
            r.name == self.name,
            r.key@ == "api::"@ + self.platform@ + "::"@ + self.platform_version@,
            spec_auth_names_of_secrets(r.auth_secrets@) == spec_auth_names(self.authentication@),
            r.auth_secrets@.len() == self.authentication@.len(),
            r.frontend.connection_form.form_data@.len() == self.authentication@.len(),
            r.frontend.spec.title == self.name,
            r.frontend.spec.description == self.description,
            r.frontend.spec.platform == self.platform,
            r.frontend.spec.category == self.category,
            r.frontend.spec.image == self.image,
            r.frontend.spec.tags@ == self.tags@,
            r.frontend.spec.helper_link == self.helper_link,
            r.frontend.spec.markdown == self.markdown,
            r.auth_method == self.auth_method,
            r.multi_env == self.multi_env,
            r.paths == self.paths,
            r.settings == self.settings,
            !r.hidden,
            r.test_connection == self.test_connection,
            r.test_delay_in_millis == self.test_delay_in_millis,
            r.record_metadata.active == self.active,
            r.record_metadata.deleted == false,
    {
        let mut auth_secrets: Vec<AuthSecret> = Vec::new();
        let mut form_items: Vec<FormDataItem> = Vec::new();
        let n = self.authentication.len();
        let mut i: usize = 0;
        while i < n
            invariant
                0 <= i <= n,
                n == self.authentication@.len(),
                auth_secrets@.len() == i,
                form_items@.len() == i,
                spec_auth_names_of_secrets(auth_secrets@) =~= spec_auth_names(
                    self.authentication@.subrange(0, i as int),
                ),
            decreases n - i,
        {
            let item = &self.authentication[i];
            let ghost pre = auth_secrets@;
            auth_secrets.push(AuthSecret { name: item.name.clone() });
            proof {
                assert(auth_secrets@.drop_last() =~= pre);
                assert(auth_secrets@.last().name@ == self.authentication@[i as int].name@);
                assert(self.authentication@.subrange(0, i + 1).drop_last()
                    =~= self.authentication@.subrange(0, i as int));
                let new_names = spec_auth_names_of_secrets(auth_secrets@);
                let target = spec_auth_names(self.authentication@.subrange(0, i + 1));
                assert forall|k: int| 0 <= k < new_names.len() implies new_names[k] == target[k] by {
                    assert(new_names[k] == auth_secrets@[k].name@);
                    if k < i {
                        assert(auth_secrets@[k] == pre[k]);
                        assert(spec_auth_names_of_secrets(pre)[k] == pre[k].name@);
                        assert(spec_auth_names(self.authentication@.subrange(0, i as int))[k]
                            == self.authentication@.subrange(0, i as int)[k].name@);
                    }
                    assert(target[k] == self.authentication@.subrange(0, i + 1)[k].name@);
                }
            }
            form_items.push(
                FormDataItem {
                    name: item.name.clone(),
                    kind: item.kind.clone(),
                    label: item.label.clone(),
                    placeholder: item.placeholder.clone(),
                    options: match &item.options {
                        Some(o) => Some(o.clone()),
                        None => None,
                    },
                },
            );
            proof {
                assert(spec_auth_names_of_secrets(auth_secrets@) =~= spec_auth_names(
                    self.authentication@.subrange(0, i + 1),
                ));
            }
            i = i + 1;
        }
        proof {
            assert(self.authentication@.subrange(0, n as int) =~= self.authentication@);
        }

        let cloned_tags = self.tags.clone();
        proof {
            assert(cloned_tags@ =~= self.tags@);
        }
        let mut key = "api::".to_owned();
        key.append(self.platform.as_str());
        key.append("::");
        key.append(self.platform_version.as_str());

        let id = match &self.id {
            Some(id) => id.clone(),
            None => Id::now(IdPrefix::ConnectionDefinition),
        };

        let mut record_metadata = RecordMetadata::new(0);
        record_metadata.active = self.active;

        ConnectionDefinition {
            id,
            platform_version: self.platform_version.clone(),
            platform: self.platform.clone(),
            status: self.status,
            key,
            kind: self.kind,
            name: self.name.clone(),
            auth_secrets,
            auth_method: self.auth_method,
            multi_env: self.multi_env,
            frontend: Frontend {
                spec: Spec {
                    title: self.name.clone(),
                    description: self.description.clone(),
                    platform: self.platform.clone(),
                    category: self.category.clone(),
                    image: self.image.clone(),
                    tags: cloned_tags,
                    helper_link: match &self.helper_link {
                        Some(h) => Some(h.clone()),
                        None => None,
                    },
                    markdown: match &self.markdown {
                        Some(m) => Some(m.clone()),
                        None => None,
                    },
                },
                connection_form: ConnectionForm {
                    name: "Connect".to_owned(),
                    description: "Securely connect your account".to_owned(),
                    form_data: form_items,
                },
            },
            paths: self.paths.clone(),
            settings: self.settings,
            hidden: false,
            test_connection: match &self.test_connection {
                Some(t) => Some(t.clone()),
                None => None,
            },
            test_delay_in_millis: self.test_delay_in_millis,
            record_metadata,
        }
    }

    /// Merge this request over an existing definition: the fields an
    /// update may change take the request's values; everything else
    /// keeps the record's.
    pub fn update(&self, record: ConnectionDefinition) -> (r: ConnectionDefinition)
        ensures
            r.name == self.name,
            r.frontend.spec.description == self.description,
            r.frontend.spec.category == self.category,
            r.frontend.spec.image == self.image,
            r.frontend.spec.tags@ == self.tags@,
            r.test_connection == self.test_connection,
            r.platform == self.platform,
            r.multi_env == self.multi_env,
            r.record_metadata.active == self.active,
            r.id == record.id,
            r.key == record.key,
            r.kind == record.kind,
            r.platform_version == record.platform_version,
            r.status == record.status,
            r.auth_secrets == record.auth_secrets,
            r.auth_method == record.auth_method,
            r.frontend.spec.title == record.frontend.spec.title,
            r.frontend.spec.platform == record.frontend.spec.platform,
            r.frontend.spec.helper_link == record.frontend.spec.helper_link,
            r.frontend.spec.markdown == record.frontend.spec.markdown,
            r.frontend.connection_form == record.frontend.connection_form,
            r.paths == record.paths,
            r.settings == record.settings,
            r.hidden == record.hidden,
            r.test_delay_in_millis == record.test_delay_in_millis,
            r.record_metadata == (RecordMetadata {
                active: self.active,
                ..record.record_metadata
            }),
    {
        let mut record = record;
        record.name = self.name.clone();
        record.frontend.spec.description = self.description.clone();
        record.frontend.spec.category = self.category.clone();
        record.frontend.spec.image = self.image.clone();
        let cloned_tags = self.tags.clone();
        proof {
            assert(cloned_tags@ =~= self.tags@);
        }
        record.frontend.spec.tags = cloned_tags;
        record.test_connection = match &self.test_connection {
            Some(t) => Some(t.clone()),
            None => None,
        };
        record.platform = self.platform.clone();
        record.multi_env = self.multi_env;
        record.record_metadata.active = self.active;
        record
    }
}

/// The names of a definition's secrets.
pub open spec fn spec_auth_names_of_secrets(items: Seq<AuthSecret>) -> Seq<Seq<char>> {
    items.map_values(|a: AuthSecret| a.name@)
}

/// The one field a definition's activation toggle changes.
#[derive(Debug, Clone, Copy, PartialEq, Eq, Structural)]
pub struct UpdateFields {
    pub active: bool,
}

/// The (parameterless) request for a platform's public details.
#[derive(Debug, Clone, Copy, PartialEq, Eq, Structural)]
pub struct GetPublicConnectionDetailsRequest;

/// One entry of the available-connectors listing.
#[derive(Debug, Clone)]
pub struct AvailableConnectorsResponse {
    pub name: String,
    pub key: String,
    pub platform: String,
    pub platform_version: String,
    pub description: String,
    pub category: String,
    pub image: String,
    pub tags: Vec<String>,
    pub oauth: bool,
    pub record_metadata: RecordMetadata,
}

/// Whether a definition authenticates by OAuth.
pub open spec fn spec_oauth_method(m: Option<AuthMethod>) -> bool {
    m matches Some(a) && a == AuthMethod::OAuth
}

/// The listing entry one definition renders into: its display material,
/// with `oauth` telling whether its auth method is OAuth.
pub fn available_connector_of(def: &ConnectionDefinition) -> (r: AvailableConnectorsResponse)
    ensures
        r.name == def.name,
        r.key == def.key,
        r.platform == def.frontend.spec.platform,
        r.platform_version == def.platform_version,
        r.description == def.frontend.spec.description,
        r.category == def.frontend.spec.category,
        r.image == def.frontend.spec.image,
        r.tags@ == def.frontend.spec.tags@,
        r.oauth == spec_oauth_method(def.auth_method),
        r.record_metadata == def.record_metadata,
{
    let cloned_tags = def.frontend.spec.tags.clone();
    proof {
        assert(cloned_tags@ =~= def.frontend.spec.tags@);
    }
    AvailableConnectorsResponse {
        name: def.name.clone(),
        key: def.key.clone(),
        platform: def.frontend.spec.platform.clone(),
        platform_version: def.platform_version.clone(),
        description: def.frontend.spec.description.clone(),
        category: def.frontend.spec.category.clone(),
        image: def.frontend.spec.image.clone(),
        tags: cloned_tags,
        oauth: match def.auth_method {
            Some(AuthMethod::OAuth) => true,
            _ => false,
        },
        record_metadata: def.record_metadata,
    }
}

/// A caution note as the public details response shows it.
#[derive(Debug, Clone)]
pub struct PublicConnectionDataCaveat {
    pub name: String,
    pub action: Option<CrudAction>,
    pub comments: Vec<String>,
}

/// The OAuth block of the public details response.
#[derive(Debug, Clone)]
pub struct PublicConnectionDataOauth {
    pub enabled: bool,
    pub scopes: String,
}

/// The public details of one platform and common model.
#[derive(Debug, Clone)]
pub struct PublicGetConnectionDetailsResponse {
    pub platform: String,
    pub status: ConnectionStatus,
    pub supported_actions: Vec<CrudAction>,
    pub oauth: PublicConnectionDataOauth,
    pub pagination: bool,
    pub filtration: bool,
    pub sorting: bool,
    pub caveats: Vec<PublicConnectionDataCaveat>,
    pub supported_filters: Option<Vec<Filter>>,
    pub supported_sort_keys: Option<Vec<String>>,
}

/// Assemble the public details of one platform and common model from the
/// catalog records the store found: the supported actions come from the
/// fetched model definitions, the OAuth block from the definition's auth
/// method and the scopes looked up for it, and the model's features and
/// the caveats from the public details record.
pub fn build_public_connection_details(
    definition: &ConnectionDefinition,
    model_definitions: &Vec<ConnectionModelDefinition>,
    oauth_scopes: Option<String>,
    features: &ModelFeatures,
    caveats: &Vec<Caveat>,
) -> (r: PublicGetConnectionDetailsResponse)
    ensures
        r.platform == definition.platform,
        r.status == definition.status,
        r.supported_actions@ == model_definitions@.map_values(
            |d: ConnectionModelDefinition| d.action_name,
        ),
        r.oauth.enabled == spec_oauth_method(definition.auth_method),
        r.oauth.scopes@ == (match oauth_scopes {
            Some(s) => s@,
            None => Seq::<char>::empty(),
        }),
        r.pagination == features.pagination,
        r.filtration == features.filtration.supported,
        r.sorting == features.sorting.supported,
        r.caveats@.map_values(|c: PublicConnectionDataCaveat| caveat_view(c))
            == spec_resolved_caveats(caveats@, model_definitions@),
{
    let oauth_enabled = match definition.auth_method {
        Some(AuthMethod::OAuth) => true,
        _ => false,
    };
    let scopes = match oauth_scopes {
        Some(s) => s,
        None => String::new(),
    };
    PublicGetConnectionDetailsResponse {
        platform: definition.platform.clone(),
        status: definition.status,
        supported_actions: supported_actions_of(model_definitions),
        oauth: PublicConnectionDataOauth { enabled: oauth_enabled, scopes },
        pagination: features.pagination,
        filtration: features.filtration.supported,
        sorting: features.sorting.supported,
        caveats: resolve_caveats(caveats, model_definitions),
        supported_filters: match &features.filtration.filters {
            Some(f) => Some(f.clone()),
            None => None,
        },
        supported_sort_keys: match &features.sorting.keys {
            Some(k) => Some(k.clone()),
            None => None,
        },
    }
}

/// The actions a set of model definitions supports, in order.
pub fn supported_actions_of(defs: &Vec<ConnectionModelDefinition>) -> (r: Vec<CrudAction>)
    ensures
        r@ == defs@.map_values(|d: ConnectionModelDefinition| d.action_name),
{
    let mut out: Vec<CrudAction> = Vec::new();
    let n = defs.len();
    let mut i: usize = 0;
    while i < n
        invariant
            0 <= i <= n,
            n == defs@.len(),
            out@ =~= defs@.subrange(0, i as int).map_values(
                |d: ConnectionModelDefinition| d.action_name,
            ),
        decreases n - i,
    {
        out.push(defs[i].action_name);
        proof {
            assert(out@ =~= defs@.subrange(0, i + 1).map_values(
                |d: ConnectionModelDefinition| d.action_name,
            ));
        }
        i = i + 1;
    }
    proof {
        assert(defs@.subrange(0, n as int) =~= defs@);
    }
    out
}

/// The title and action of the first fetched definition with an id, if
/// one was fetched.
pub open spec fn spec_find_def(
    defs: Seq<ConnectionModelDefinition>,
    id: Seq<char>,
) -> Option<(Seq<char>, CrudAction)>
    decreases defs.len(),
{
    if defs.len() == 0 {
        None
    } else if defs[0].id.value@ == id {
        Some((defs[0].title@, defs[0].action_name))
    } else {
        spec_find_def(defs.drop_first(), id)
    }
}

/// What one resolved caution note shows: its name, action and comments.
pub open spec fn caveat_view(c: PublicConnectionDataCaveat) -> (
    Seq<char>,
    Option<CrudAction>,
    Seq<Seq<char>>,
) {
    (c.name@, c.action, crate::text::strings_view(c.comments@))
}

/// The resolved caution notes of a platform: a note pinned to a fetched
/// definition takes that definition's title and action; one pinned to an
/// unfetched definition is dropped; a general note stands under the
/// fixed name.
pub open spec fn spec_resolved_caveats(
    caveats: Seq<Caveat>,
    defs: Seq<ConnectionModelDefinition>,
) -> Seq<(Seq<char>, Option<CrudAction>, Seq<Seq<char>>)>
    decreases caveats.len(),
{
    if caveats.len() == 0 {
        Seq::empty()
    } else {
        let rest = spec_resolved_caveats(caveats.drop_last(), defs);
        let last = caveats.last();
        match last.connection_model_definition_id {
            Some(cid) => match spec_find_def(defs, cid@) {
                Some((title, action)) => rest.push(
                    (title, Some(action), crate::text::strings_view(last.comments@)),
                ),
                None => rest,
            },
            None => rest.push(
                ("General"@, None, crate::text::strings_view(last.comments@)),
            ),
        }
    }
}

/// Resolve the caution notes of one platform against the fetched model
/// definitions.
pub fn resolve_caveats(
    caveats: &Vec<Caveat>,
    defs: &Vec<ConnectionModelDefinition>,
) -> (r: Vec<PublicConnectionDataCaveat>)
    ensures
        r@.map_values(|c: PublicConnectionDataCaveat| caveat_view(c)) == spec_resolved_caveats(
            caveats@,
            defs@,
        ),
{
    let mut out: Vec<PublicConnectionDataCaveat> = Vec::new();
    let n = caveats.len();
    let mut i: usize = 0;
    proof {
        assert(out@.map_values(|c: PublicConnectionDataCaveat| caveat_view(c))
            =~= spec_resolved_caveats(caveats@.subrange(0, 0), defs@));
    }
    while i < n
        invariant
            0 <= i <= n,
            n == caveats@.len(),
            out@.map_values(|c: PublicConnectionDataCaveat| caveat_view(c))
                == spec_resolved_caveats(caveats@.subrange(0, i as int), defs@),
        decreases n - i,
    {
        proof {
            assert(caveats@.subrange(0, i + 1).drop_last() =~= caveats@.subrange(0, i as int));
            assert(caveats@.subrange(0, i + 1).last() == caveats@[i as int]);
        }
        let caveat = &caveats[i];
        match &caveat.connection_model_definition_id {
            Some(cmd_id) => {
                match find_definition(defs, cmd_id.as_str()) {
                    Some(d) => {
                        let comments = caveat.comments.clone();
                        proof {
                            assert(comments@ =~= caveat.comments@);
                            assert(crate::text::strings_view(comments@) =~= crate::text::strings_view(
                                caveat.comments@,
                            ));
                        }
                        out.push(
                            PublicConnectionDataCaveat {
                                name: d.title.clone(),
                                action: Some(d.action_name),
                                comments,
                            },
                        );
                        proof {
                            assert(out@.map_values(|c: PublicConnectionDataCaveat| caveat_view(c))
                                =~= spec_resolved_caveats(caveats@.subrange(0, i + 1), defs@));
                        }
                    },
                    None => {
                        proof {
                            assert(out@.map_values(|c: PublicConnectionDataCaveat| caveat_view(c))
                                =~= spec_resolved_caveats(caveats@.subrange(0, i + 1), defs@));
                        }
                    },
                }
            },
            None => {
                let comments = caveat.comments.clone();
                proof {
                    assert(comments@ =~= caveat.comments@);
                    assert(crate::text::strings_view(comments@) =~= crate::text::strings_view(
                        caveat.comments@,
                    ));
                }
                out.push(
                    PublicConnectionDataCaveat {
                        name: "General".to_owned(),
                        action: None,
                        comments,
                    },
                );
                proof {
                    assert(out@.map_values(|c: PublicConnectionDataCaveat| caveat_view(c))
                        =~= spec_resolved_caveats(caveats@.subrange(0, i + 1), defs@));
                }
            },
        }
        i = i + 1;
    }
    proof {
        assert(caveats@.subrange(0, n as int) =~= caveats@);
    }
    out
}

/// The first fetched definition whose id renders as `id`.
fn find_definition<'a>(
    defs: &'a Vec<ConnectionModelDefinition>,
    id: &str,
) -> (r: Option<&'a ConnectionModelDefinition>)
    ensures
        (match r {
            Some(d) => Some((d.title@, d.action_name)),
            None => None,
        }) == spec_find_def(defs@, id@),
        r matches Some(d) ==> d.id.value@ == id@,
{
    let n = defs.len();
    let mut i: usize = 0;
    proof {
        assert(defs@.subrange(0, defs@.len() as int) =~= defs@);
    }
    while i < n
        invariant
            0 <= i <= n,
            n == defs@.len(),
            spec_find_def(defs@, id@) == spec_find_def(
                defs@.subrange(i as int, defs@.len() as int),
                id@,
            ),
        decreases n - i,
    {
        proof {
            assert(defs@.subrange(i as int, defs@.len() as int)[0] == defs@[i as int]);
            assert(defs@.subrange(i as int, defs@.len() as int).drop_first() =~= defs@.subrange(
                i + 1,
                defs@.len() as int,
            ));
        }
        if str_eq(defs[i].id.value.as_str(), id) {
            return Some(&defs[i]);
        }
        i = i + 1;
    }
    proof {
        assert(defs@.subrange(n as int, defs@.len() as int).len() == 0);
    }
    None
}

/// The first model whose name matches `wanted` regardless of ASCII case.
pub open spec fn spec_find_model(
    ms: Seq<ModelFeatures>,
    wanted: Seq<char>,
) -> Option<ModelFeatures>
    decreases ms.len(),
{
    if ms.len() == 0 {
        None
    } else if crate::text::ascii_upper_chars(ms[0].name@) == wanted {
        Some(ms[0])
    } else {
        spec_find_model(ms.drop_first(), wanted)
    }
}

/// The model features whose name matches `model` regardless of ASCII
/// case: the first such model, and none exactly when no name matches.
pub fn find_model_features<'a>(
    models: &'a Vec<ModelFeatures>,
    model: &str,
) -> (r: Option<&'a ModelFeatures>)
    ensures
        r is Some <==> spec_find_model(models@, crate::text::ascii_upper_chars(model@)) is Some,
        r matches Some(m) ==> spec_find_model(models@, crate::text::ascii_upper_chars(model@))
            == Some(*m),
        r matches Some(m) ==> crate::text::ascii_upper_chars(m.name@)
            == crate::text::ascii_upper_chars(model@),
{
    let wanted = crate::text::ascii_uppercase(model);
    let n = models.len();
    let mut i: usize = 0;
    proof {
        assert(models@.subrange(0, models@.len() as int) =~= models@);
    }
    while i < n
        invariant
            0 <= i <= n,
            n == models@.len(),
            wanted@ == crate::text::ascii_upper_chars(model@),
            spec_find_model(models@, crate::text::ascii_upper_chars(model@)) == spec_find_model(
                models@.subrange(i as int, models@.len() as int),
                crate::text::ascii_upper_chars(model@),
            ),
        decreases n - i,
    {
        proof {
            assert(models@.subrange(i as int, models@.len() as int)[0] == models@[i as int]);
            assert(models@.subrange(i as int, models@.len() as int).drop_first()
                =~= models@.subrange(i + 1, models@.len() as int));
        }
        let candidate = crate::text::ascii_uppercase(models[i].name.as_str());
        if str_eq(candidate.as_str(), wanted.as_str()) {
            proof {
                assert(crate::text::ascii_upper_chars(models@[i as int].name@)
                    == crate::text::ascii_upper_chars(model@));
                assert(spec_find_model(
                    models@.subrange(i as int, models@.len() as int),
                    crate::text::ascii_upper_chars(model@),
                ) == Some(models@[i as int]));
            }
            return Some(&models[i]);
        }
        i = i + 1;
    }
    proof {
        assert(models@.subrange(n as int, models@.len() as int).len() == 0);
    }
    None
}

/// The platform names a tenant's settings allow through the onboarding
/// kit: those of the active entries scoped to the environment, in order.
pub open spec fn spec_authkit_platforms(
    platforms: Seq<crate::oauth_definition::ConnectedPlatform>,
    environment: crate::record::Environment,
) -> Seq<Seq<char>>
    decreases platforms.len(),
{
    if platforms.len() == 0 {
        Seq::empty()
    } else {
        let rest = spec_authkit_platforms(platforms.drop_last(), environment);
        let last = platforms.last();
        if (last.active matches Some(a) && a) && last.environment == environment {
            rest.push(last.kind@)
        } else {
            rest
        }
    }
}

/// The platforms a tenant's settings allow through the onboarding kit:
/// exactly the active ones scoped to the caller's environment, in order.
pub fn authkit_platforms(
    platforms: &Vec<crate::oauth_definition::ConnectedPlatform>,
    environment: crate::record::Environment,
) -> (r: Vec<String>)
    ensures
        crate::text::strings_view(r@) == spec_authkit_platforms(platforms@, environment),
{
    let mut out: Vec<String> = Vec::new();
    let n = platforms.len();
    let mut i: usize = 0;
    proof {
        assert(crate::text::strings_view(out@) =~= spec_authkit_platforms(
            platforms@.subrange(0, 0),
            environment,
        ));
    }
    while i < n
        invariant
            0 <= i <= n,
            n == platforms@.len(),
            crate::text::strings_view(out@) == spec_authkit_platforms(
                platforms@.subrange(0, i as int),
                environment,
            ),
        decreases n - i,
    {
        proof {
            assert(platforms@.subrange(0, i + 1).drop_last() =~= platforms@.subrange(0, i as int));
            assert(platforms@.subrange(0, i + 1).last() == platforms@[i as int]);
        }
        let p = &platforms[i];
        let active = match p.active {
            Some(a) => a,
            None => false,
        };
        let env_matches = match (p.environment, environment) {
            (crate::record::Environment::Test, crate::record::Environment::Test) => true,
            (crate::record::Environment::Live, crate::record::Environment::Live) => true,
            _ => false,
        };
        if active && env_matches {
            let ghost pre = out@;
            out.push(p.kind.clone());
            proof {
                assert(out@.drop_last() =~= pre);
                assert(out@.last()@ == platforms@[i as int].kind@);
                assert(crate::text::strings_view(out@) =~= spec_authkit_platforms(
                    platforms@.subrange(0, i + 1),
                    environment,
                ));
            }
        } else {
            proof {
                assert(crate::text::strings_view(out@) =~= spec_authkit_platforms(
                    platforms@.subrange(0, i + 1),
                    environment,
                ));
            }
        }
        i = i + 1;
    }
    proof {
        assert(platforms@.subrange(0, n as int) =~= platforms@);
    }
    out
}

} // verus!
