//! The command-line client's decisions: its configuration shape, the
//! URLs it calls, the key it presents per environment, the connection
//! form it builds, and the validation of its arguments.

use vstd::prelude::*;
use crate::connection_definition::ConnectionDefinition;
use crate::errors::{ErrorKind, PicaError};
use crate::external::{url_is_valid, url_ok};
use crate::text::{dec_chars, str_eq, u64_to_string};

verus! {

/// The page size the list command asks for when none is given.
pub const DEFAULT_LIMIT: u32 = 10;

/// The header the CLI presents its secret under.
pub open spec fn header_secret_key() -> Seq<char> {
    "x-pica-secret"@
}

/// Where the CLI talks to.
#[derive(Debug, Clone)]
pub struct Server {
    pub api: String,
    pub base: String,
}

impl Server {
    pub fn new(api: String, base: String) -> (r: Server)
        ensures
            r.api == api,
            r.base == base,
    {
        Server { api, base }
    }

    pub fn api<'a>(&'a self) -> (r: &'a str)
        ensures
            r@ == self.api@,
    {
        self.api.as_str()
    }

    pub fn base<'a>(&'a self) -> (r: &'a str)
        ensures
            r@ == self.base@,
    {
        self.base.as_str()
    }
}

/// The two keys a caller holds, one per environment.
#[derive(Debug, Clone)]
pub struct Keys {
    pub sandbox: String,
    pub production: String,
}

impl Keys {
    pub fn new(sandbox: String, production: String) -> (r: Keys)
        ensures
            r.sandbox == sandbox,
            r.production == production,
    {
        Keys { sandbox, production }
    }

    pub fn sandbox<'a>(&'a self) -> (r: &'a str)
        ensures
            r@ == self.sandbox@,
    {
        self.sandbox.as_str()
    }

    pub fn production<'a>(&'a self) -> (r: &'a str)
        ensures
            r@ == self.production@,
    {
        self.production.as_str()
    }
}

/// The CLI's HTTP settings.
#[derive(Debug, Clone)]
pub struct Http {
    pub timeout: Option<u64>,
}

impl Http {
    pub fn new(timeout: Option<u64>) -> (r: Http)
        ensures
            r.timeout == timeout,
    {
        Http { timeout }
    }

    pub fn timeout(&self) -> (r: Option<u64>)
        ensures
            r == self.timeout,
    {
        self.timeout
    }
}

/// What the CLI's configuration file holds.
#[derive(Debug, Clone)]
pub struct CliConfig {
    pub server: Server,
    pub keys: Keys,
    pub http: Http,
}

impl CliConfig {
    pub fn new(server: Server, keys: Keys, http: Http) -> (r: CliConfig)
        ensures
            r.server == server,
            r.keys == keys,
            r.http == http,
    {
        CliConfig { server, keys, http }
    }

    pub fn server<'a>(&'a self) -> (r: &'a Server)
        ensures
            *r == self.server,
    {
        &self.server
    }

    pub fn keys<'a>(&'a self) -> (r: &'a Keys)
        ensures
            *r == self.keys,
    {
        &self.keys
    }

    pub fn http<'a>(&'a self) -> (r: &'a Http)
        ensures
            *r == self.http,
    {
        &self.http
    }
}

/// One page of listed records, as the API answers.
#[derive(Debug)]
pub struct ReadResponse<T> {
    pub rows: Vec<T>,
    pub total: u64,
    pub skip: u64,
    pub limit: u64,
}

impl<T> ReadResponse<T> {
    pub fn rows<'a>(&'a self) -> (r: &'a [T])
        ensures
            r@ == self.rows@,
    {
        self.rows.as_slice()
    }
}

/// The environment a CLI command addresses.
#[derive(Debug, Clone, Copy, PartialEq, Eq, Structural)]
pub enum CliEnvironment {
    Sandbox,
    Production,
}

/// The key presented for one environment.
pub fn secret_for_env<'a>(keys: &'a Keys, env: CliEnvironment) -> (r: &'a str)
    ensures
        env == CliEnvironment::Sandbox ==> r@ == keys.sandbox@,
        env == CliEnvironment::Production ==> r@ == keys.production@,
{
    match env {
        CliEnvironment::Sandbox => keys.sandbox(),
        CliEnvironment::Production => keys.production(),
    }
}

/// What the CLI is asked to do.
#[derive(Debug)]
pub enum Command {
    Connection(ConnectionArgs),
    Login { base: Option<String>, api: Option<String> },
}

/// The connection subcommands.
#[derive(Debug)]
pub struct ConnectionArgs {
    pub command: ConnectionCommand,
}

#[derive(Debug)]
pub enum ConnectionCommand {
    Create { platform: Option<String>, web: bool, env: CliEnvironment },
    Delete { key: String, env: CliEnvironment },
    List { limit: Option<u32>, key: Option<String>, env: CliEnvironment },
}

/// The parsed CLI invocation.
#[derive(Debug)]
pub struct Pica {
    pub command: Command,
}

impl Pica {
    pub fn command<'a>(&'a self) -> (r: &'a Command)
        ensures
            *r == self.command,
    {
        &self.command
    }

    /// Validate an invocation: login URLs must parse, and a list limit
    /// must stay within the largest page.
    pub fn validate(&self) -> (r: Result<(), PicaError>)
        ensures
            r is Ok <==> spec_command_valid(self.command),
            r matches Err(e) ==> e.kind == ErrorKind::InvalidArgument,
    {
        match &self.command {
            Command::Login { base, api } => {
                let base_ok = match base {
                    Some(b) => url_is_valid(b.as_str()),
                    None => true,
                };
                let api_ok = match api {
                    Some(a) => url_is_valid(a.as_str()),
                    None => true,
                };
                if base_ok && api_ok {
                    Ok(())
                } else {
                    Err(PicaError::invalid_argument("URL provided is invalid"))
                }
            },
            Command::Connection(args) => match &args.command {
                ConnectionCommand::List { limit, .. } => {
                    let over = match limit {
                        Some(l) => *l > 100,
                        None => false,
                    };
                    if over {
                        Err(PicaError::invalid_argument("Limit must be less than 100"))
                    } else {
                        Ok(())
                    }
                },
                _ => Ok(()),
            },
        }
    }
}

/// When an invocation is acceptable: login URLs that parse; a list limit
/// within the largest page; anything else as given.
pub open spec fn spec_command_valid(c: Command) -> bool {
    match c {
        Command::Login { base, api } => (match base {
            Some(b) => url_ok(b@),
            None => true,
        }) && (match api {
            Some(a) => url_ok(a@),
            None => true,
        }),
        Command::Connection(args) => match args.command {
            ConnectionCommand::List { limit, .. } => match limit {
                Some(l) => l <= 100,
                None => true,
            },
            _ => true,
        },
    }
}

/// The URL the list command calls: by key when one is given, else by
/// page size (the default when none is given).
pub fn connections_list_url(api: &str, key: Option<&String>, limit: Option<u32>) -> (r: String)
    ensures
        key matches Some(k) ==> r@ == api@ + "/v1/connections?key="@ + k@,
        key is None ==> r@ == api@ + "/v1/connections?limit="@ + dec_chars(
            (match limit {
                Some(l) => l as int,
                None => DEFAULT_LIMIT as int,
            }),
        ),
{
    let mut url = api.to_owned();
    match key {
        Some(k) => {
            url.append("/v1/connections?key=");
            url.append(k.as_str());
        },
        None => {
            url.append("/v1/connections?limit=");
            let l: u32 = match limit {
                Some(l) => l,
                None => DEFAULT_LIMIT,
            };
            url.append(u64_to_string(l as u64).as_str());
        },
    }
    url
}

/// The URL that deletes one connection.
pub fn connection_delete_url(api: &str, id: &str) -> (r: String)
    ensures
        r@ == api@ + "/v1/connections/"@ + id@,
{
    let mut url = api.to_owned();
    url.append("/v1/connections/");
    url.append(id);
    url
}

/// The URL that makes an embed token for onboarding.
pub fn create_embed_token_url(api: &str) -> (r: String)
    ensures
        r@ == api@ + "/public/v1/event-links/create-embed-token"@,
{
    let mut url = api.to_owned();
    url.append("/public/v1/event-links/create-embed-token");
    url
}

/// The URL that creates a connection from a filled form.
pub fn create_embed_connection_url(api: &str) -> (r: String)
    ensures
        r@ == api@ + "/public/v1/event-links/create-embed-connection"@,
{
    let mut url = api.to_owned();
    url.append("/public/v1/event-links/create-embed-connection");
    url
}

/// The URL that lists the public connection definitions of a platform.
pub fn connection_definitions_url(api: &str, platform: &str) -> (r: String)
    ensures
        r@ == api@ + "/v1/public/connection-definitions?platform="@ + platform@,
{
    let mut url = api.to_owned();
    url.append("/v1/public/connection-definitions?platform=");
    url.append(platform);
    url
}

/// One question of the connection form.
#[derive(Debug, Clone)]
pub struct Step {
    pub question: String,
    pub key: String,
}

impl Step {
    pub fn new(question: String, key: String) -> (r: Step)
        ensures
            r.question == question,
            r.key == key,
    {
        Step { question, key }
    }

    pub fn question<'a>(&'a self) -> (r: &'a str)
        ensures
            r@ == self.question@,
    {
        self.question.as_str()
    }

    pub fn key<'a>(&'a self) -> (r: &'a str)
        ensures
            r@ == self.key@,
    {
        self.key.as_str()
    }

    /// The form steps for a definition: one per auth secret that the
    /// connection form labels, asking for it by that label.
    pub fn from(conn_def: &ConnectionDefinition) -> (r: Vec<Step>)
        ensures
            spec_steps_view(r@) == spec_steps_of(
                conn_def.auth_secrets@.map_values(|a: crate::connection_definition::AuthSecret| a.name@),
                conn_def.frontend.connection_form.form_data@.map_values(
                    |f: crate::connection_definition::FormDataItem| (f.name@, f.label@),
                ),
                conn_def.name@,
            ),
    {
        let ghost secrets_v = conn_def.auth_secrets@.map_values(
            |a: crate::connection_definition::AuthSecret| a.name@,
        );
        let ghost forms_v = conn_def.frontend.connection_form.form_data@.map_values(
            |f: crate::connection_definition::FormDataItem| (f.name@, f.label@),
        );
        let mut steps: Vec<Step> = Vec::new();
        let n = conn_def.auth_secrets.len();
        let mut i: usize = 0;
        while i < n
            invariant
                0 <= i <= n,
                n == conn_def.auth_secrets@.len(),
                secrets_v == conn_def.auth_secrets@.map_values(
                    |a: crate::connection_definition::AuthSecret| a.name@,
                ),
                forms_v == conn_def.frontend.connection_form.form_data@.map_values(
                    |f: crate::connection_definition::FormDataItem| (f.name@, f.label@),
                ),
                spec_steps_view(steps@) == spec_steps_of(
                    secrets_v.subrange(0, i as int),
                    forms_v,
                    conn_def.name@,
                ),
            decreases n - i,
        {
            let name = &conn_def.auth_secrets[i].name;
            proof {
                assert(secrets_v.subrange(0, i + 1).drop_last() =~= secrets_v.subrange(
                    0,
                    i as int,
                ));
                assert(secrets_v.subrange(0, i + 1).last() == secrets_v[i as int]);
                assert(secrets_v[i as int] == name@);
            }
            match find_form_label(&conn_def.frontend.connection_form.form_data, name.as_str()) {
                Some(label) => {
                    let mut question = "Please enter the `".to_owned();
                    question.append(label.as_str());
                    question.append("` for `");
                    question.append(conn_def.name.as_str());
                    question.append("`: ");
                    let step = Step { question, key: name.clone() };
                    steps.push(step);
                    proof {
                        assert(spec_steps_view(steps@) =~= spec_steps_of(
                            secrets_v.subrange(0, i + 1),
                            forms_v,
                            conn_def.name@,
                        ));
                    }
                },
                None => {
                    proof {
                        assert(spec_steps_view(steps@) =~= spec_steps_of(
                            secrets_v.subrange(0, i + 1),
                            forms_v,
                            conn_def.name@,
                        ));
                    }
                },
            }
            i = i + 1;
        }
        proof {
            assert(secrets_v.subrange(0, n as int) =~= secrets_v);
        }
        steps
    }
}

/// The question and key pairs of a list of steps.
pub open spec fn spec_steps_view(steps: Seq<Step>) -> Seq<(Seq<char>, Seq<char>)> {
    steps.map_values(|s: Step| (s.question@, s.key@))
}

/// The label the form gives a secret name, if any: the first matching
/// form item decides.
pub open spec fn spec_form_label(
    forms: Seq<(Seq<char>, Seq<char>)>,
    name: Seq<char>,
) -> Option<Seq<char>>
    decreases forms.len(),
{
    if forms.len() == 0 {
        None
    } else if forms[0].0 == name {
        Some(forms[0].1)
    } else {
        spec_form_label(forms.drop_first(), name)
    }
}

/// The question text asked for one labelled secret.
pub open spec fn spec_question(label: Seq<char>, title: Seq<char>) -> Seq<char> {
    "Please enter the `"@ + label + "` for `"@ + title + "`: "@
}

/// The steps a secret list and a form yield: one per secret the form
/// labels, in order.
pub open spec fn spec_steps_of(
    secrets: Seq<Seq<char>>,
    forms: Seq<(Seq<char>, Seq<char>)>,
    title: Seq<char>,
) -> Seq<(Seq<char>, Seq<char>)>
    decreases secrets.len(),
{
    if secrets.len() == 0 {
        Seq::empty()
    } else {
        let rest = spec_steps_of(secrets.drop_last(), forms, title);
        match spec_form_label(forms, secrets.last()) {
            Some(label) => rest.push((spec_question(label, title), secrets.last())),
            None => rest,
        }
    }
}

/// The first form item named `name`, if any, giving its label.
fn find_form_label<'a>(
    forms: &'a Vec<crate::connection_definition::FormDataItem>,
    name: &str,
) -> (r: Option<&'a String>)
    ensures
        (match r {
            Some(l) => Some(l@),
            None => None,
        }) == spec_form_label(
            forms@.map_values(
                |f: crate::connection_definition::FormDataItem| (f.name@, f.label@),
            ),
            name@,
        ),
{
    let ghost fv = forms@.map_values(
        |f: crate::connection_definition::FormDataItem| (f.name@, f.label@),
    );
    let n = forms.len();
    let mut i: usize = 0;
    proof {
        lemma_form_label_skip(fv, name@, 0);
    }
    while i < n
        invariant
            0 <= i <= n,
            n == fv.len(),
            fv == forms@.map_values(
                |f: crate::connection_definition::FormDataItem| (f.name@, f.label@),
            ),
            spec_form_label(fv, name@) == spec_form_label(
                fv.subrange(i as int, fv.len() as int),
                name@,
            ),
        decreases n - i,
    {
        if str_eq(forms[i].name.as_str(), name) {
            proof {
                assert(fv.subrange(i as int, fv.len() as int)[0] == fv[i as int]);
            }
            return Some(&forms[i].label);
        }
        proof {
            assert(fv.subrange(i as int, fv.len() as int)[0] == fv[i as int]);
            assert(fv.subrange(i as int, fv.len() as int).drop_first() =~= fv.subrange(
                i + 1,
                fv.len() as int,
            ));
        }
        i = i + 1;
    }
    proof {
        assert(fv.subrange(n as int, fv.len() as int).len() == 0);
    }
    None
}

proof fn lemma_form_label_skip(fv: Seq<(Seq<char>, Seq<char>)>, name: Seq<char>, i: int)
    requires
        i == 0,
    ensures
        spec_form_label(fv, name) == spec_form_label(fv.subrange(0, fv.len() as int), name),
{
    assert(fv.subrange(0, fv.len() as int) =~= fv);
}

} // verus!
