//! Credential resolution from the command line, the environment, the
//! credential store and `credentials.toml`.

pub mod credential_store;

use vstd::prelude::*;
use vstd::string::*;
use crate::config::credential_store::StoreError;

verus! {

/// The view of an optional string.
pub open spec fn opt_view(o: Option<String>) -> Option<Seq<char>> {
    match o {
        Some(s) => Some(s@),
        None => None,
    }
}

/// An optional value with the empty string counted as absent.
pub open spec fn non_empty_spec(o: Option<Seq<char>>) -> Option<Seq<char>> {
    match o {
        Some(s) => if s.len() > 0 { Some(s) } else { None },
        None => None,
    }
}

/// The first present value of two, in priority order.
pub open spec fn first_of(a: Option<Seq<char>>, b: Option<Seq<char>>) -> Option<Seq<char>> {
    match a {
        Some(x) => Some(x),
        None => b,
    }
}

/// Turn an empty string into `None`, so that unfilled template values
/// (`api_token = ""`) do not count as set.
pub fn non_empty(s: Option<String>) -> (r: Option<String>)
    ensures
        opt_view(r) == non_empty_spec(opt_view(s)),
{
    match s {
        Some(v) => if v.as_str().unicode_len() > 0 {
            Some(v)
        } else {
            None
        },
        None => None,
    }
}

/// A value from a command-line option, else from the environment variable
/// (whose value the caller read).
pub fn resolve_value(cli_value: Option<&str>, env_value: Option<String>) -> (r: Option<String>)
    ensures
        opt_view(r) == first_of(
            match cli_value {
                Some(c) => Some(c@),
                None => None,
            },
            opt_view(env_value),
        ),
{
    match cli_value {
        Some(c) => Some(String::from_str(c)),
        None => env_value,
    }
}

/// The `[credentials]` table of a `credentials.toml`, with empty strings
/// already counted as absent.
pub struct CredentialsFile {
    pub api_url: Option<String>,
    pub api_token: Option<String>,
}

impl CredentialsFile {
    /// The values of a parsed file, with empty strings dropped.
    pub fn from_parsed(api_url: Option<String>, api_token: Option<String>) -> (r: Self)
        ensures
            opt_view(r.api_url) == non_empty_spec(opt_view(api_url)),
            opt_view(r.api_token) == non_empty_spec(opt_view(api_token)),
    {
        CredentialsFile { api_url: non_empty(api_url), api_token: non_empty(api_token) }
    }

    /// No file, or no usable file.
    pub fn empty() -> (r: Self)
        ensures
            r.api_url is None,
            r.api_token is None,
    {
        CredentialsFile { api_url: None, api_token: None }
    }
}

/// Where a resolved credential comes from.
#[derive(Debug, Clone, Copy, PartialEq, Eq, Structural)]
pub enum CredentialSource {
    CliFlag,
    Env,
    Keychain,
    File,
}

/// The API token that the credential store contributes: its non-empty value;
/// nothing when it has none or is unavailable.
pub open spec fn store_token(store: Result<Option<String>, StoreError>) -> Option<Seq<char>> {
    match store {
        Ok(Some(v)) => non_empty_spec(Some(v@)),
        _ => None,
    }
}

/// Whether a store result refuses the fall-back to `credentials.toml`: a real
/// access failure (`Backend`) must not be papered over by the plaintext file.
pub open spec fn store_blocks_file(store: Result<Option<String>, StoreError>) -> bool {
    store matches Err(StoreError::Backend(_))
}

/// The API URL by priority: command line, environment, `credentials.toml`;
/// empty values count as unset.
pub open spec fn resolved_url(
    cli: Option<Seq<char>>,
    env: Option<Seq<char>>,
    file: Option<Seq<char>>,
) -> Option<Seq<char>> {
    first_of(non_empty_spec(cli), first_of(non_empty_spec(env), file))
}

/// The API token by priority: environment, credential store,
/// `credentials.toml`; a store access failure stops the fall-back to the file.
pub open spec fn resolved_token(
    env: Option<Seq<char>>,
    store: Result<Option<String>, StoreError>,
    file: Option<Seq<char>>,
) -> Option<Seq<char>> {
    if non_empty_spec(env) is Some {
        non_empty_spec(env)
    } else if store_token(store) is Some {
        store_token(store)
    } else if store_blocks_file(store) {
        None
    } else {
        file
    }
}

/// Resolved CloudApps credentials.
#[derive(Debug, Clone)]
pub struct CloudAppsCredentials {
    pub api_url: Option<String>,
    pub api_token: Option<String>,
}

/// The message listing the missing credentials.
pub open spec fn missing_message(url_missing: bool, token_missing: bool) -> Seq<char> {
    let list = if url_missing && token_missing {
        "CLOUDAPPS_API_URL, CLOUDAPPS_API_TOKEN"@
    } else if url_missing {
        "CLOUDAPPS_API_URL"@
    } else {
        "CLOUDAPPS_API_TOKEN"@
    };
    "missing required credentials: "@ + list
        + ". Set via environment variables, CLI options, or credentials.toml."@
}

fn option_str_view(o: Option<&str>) -> (r: Option<String>)
    ensures
        opt_view(r) == match o {
            Some(c) => Some(c@),
            None => None,
        },
{
    match o {
        Some(c) => Some(String::from_str(c)),
        None => None,
    }
}

impl CloudAppsCredentials {
    pub fn default() -> (r: Self)
        ensures
            r.api_url is None,
            r.api_token is None,
    {
        CloudAppsCredentials { api_url: None, api_token: None }
    }

    /// Resolve the credentials from what the caller gathered: the `--api-url`
    /// option, the `CLOUDAPPS_API_URL` and `CLOUDAPPS_API_TOKEN` environment
    /// variables, the credential store's answer for the token, and the first
    /// `credentials.toml` found.
    ///
    /// Priority for the URL: CLI > environment > file. For the token:
    /// environment > credential store > file, except that a store access
    /// failure refuses the file.
    pub fn resolve(
        cli_api_url: Option<&str>,
        env_api_url: Option<String>,
        env_api_token: Option<String>,
        store: &Result<Option<String>, StoreError>,
        file: CredentialsFile,
    ) -> (r: Self)
        ensures
            opt_view(r.api_url) == resolved_url(
                match cli_api_url {
                    Some(c) => Some(c@),
                    None => None,
                },
                opt_view(env_api_url),
                opt_view(file.api_url),
            ),
            opt_view(r.api_token) == resolved_token(
                opt_view(env_api_token),
                *store,
                opt_view(file.api_token),
            ),
    {
        let cli = non_empty(option_str_view(cli_api_url));
        let api_url = match cli {
            Some(u) => Some(u),
            None => match non_empty(env_api_url) {
                Some(u) => Some(u),
                None => file.api_url,
            },
        };
        let api_token = match non_empty(env_api_token) {
            Some(t) => Some(t),
            None => match store {
                Ok(Some(v)) => {
                    if v.as_str().unicode_len() > 0 {
                        Some(v.clone())
                    } else {
                        file.api_token
                    }
                },
                Ok(None) => file.api_token,
                Err(StoreError::Unavailable(_)) => file.api_token,
                Err(StoreError::Backend(_)) => None,
            },
        };
        CloudAppsCredentials { api_url, api_token }
    }

    /// Check that both credentials needed for API access are present.
    pub fn validate(&self) -> (r: Result<(), String>)
        ensures
            r is Ok <==> (self.api_url is Some && self.api_token is Some),
            r matches Err(m) ==> m@ == missing_message(
                self.api_url is None,
                self.api_token is None,
            ),
    {
        let url_missing = self.api_url.is_none();
        let token_missing = self.api_token.is_none();
        if !url_missing && !token_missing {
            return Ok(());
        }
        let mut m = String::from_str("missing required credentials: ");
        if url_missing && token_missing {
            m.append("CLOUDAPPS_API_URL, CLOUDAPPS_API_TOKEN");
        } else if url_missing {
            m.append("CLOUDAPPS_API_URL");
        } else {
            m.append("CLOUDAPPS_API_TOKEN");
        }
        m.append(". Set via environment variables, CLI options, or credentials.toml.");
        Err(m)
    }
}

/// The human-readable label of a credential source.
pub open spec fn source_label_spec(source: CredentialSource) -> Seq<char> {
    match source {
        CredentialSource::CliFlag => "cli --api-url"@,
        CredentialSource::Env => "env"@,
        CredentialSource::Keychain => "keychain"@,
        CredentialSource::File => "credentials.toml"@,
    }
}

pub fn source_label(source: CredentialSource) -> (r: &'static str)
    ensures
        r@ == source_label_spec(source),
{
    match source {
        CredentialSource::CliFlag => "cli --api-url",
        CredentialSource::Env => "env",
        CredentialSource::Keychain => "keychain",
        CredentialSource::File => "credentials.toml",
    }
}

/// The resolved API URL together with the source that supplies it, with the
/// same priority as [`CloudAppsCredentials::resolve`].
pub fn api_url_source(
    cli_api_url: Option<&str>,
    env_api_url: Option<String>,
    file: &CredentialsFile,
) -> (r: Option<(String, CredentialSource)>)
    ensures
        match r {
            Some((v, src)) => resolved_url(
                match cli_api_url {
                    Some(c) => Some(c@),
                    None => None,
                },
                opt_view(env_api_url),
                opt_view(file.api_url),
            ) == Some(v@) && (src == CredentialSource::CliFlag <==> non_empty_spec(
                match cli_api_url {
                    Some(c) => Some(c@),
                    None => None,
                },
            ) is Some) && (src == CredentialSource::Env <==> (non_empty_spec(
                match cli_api_url {
                    Some(c) => Some(c@),
                    None => None,
                },
            ) is None && non_empty_spec(opt_view(env_api_url)) is Some)) && (src
                == CredentialSource::CliFlag || src == CredentialSource::Env || src
                == CredentialSource::File),
            None => resolved_url(
                match cli_api_url {
                    Some(c) => Some(c@),
                    None => None,
                },
                opt_view(env_api_url),
                opt_view(file.api_url),
            ) is None,
        },
{
    match non_empty(option_str_view(cli_api_url)) {
        Some(u) => Some((u, CredentialSource::CliFlag)),
        None => match non_empty(env_api_url) {
            Some(u) => Some((u, CredentialSource::Env)),
            None => match &file.api_url {
                Some(u) => Some((u.clone(), CredentialSource::File)),
                None => None,
            },
        },
    }
}

/// The source that supplies the API token, with the same priority as
/// [`CloudAppsCredentials::resolve`]; `Err(())` when a store access failure
/// leaves the token unresolvable although the file or nothing else has it.
pub fn api_token_source(
    env_api_token: &Option<String>,
    store: &Result<Option<String>, StoreError>,
    file: &CredentialsFile,
) -> (r: Result<Option<CredentialSource>, ()>)
    ensures
        r == if non_empty_spec(opt_view(*env_api_token)) is Some {
            Ok(Some(CredentialSource::Env))
        } else if store_token(*store) is Some {
            Ok(Some(CredentialSource::Keychain))
        } else if store_blocks_file(*store) {
            Err(())
        } else if file.api_token is Some {
            Ok(Some(CredentialSource::File))
        } else {
            Ok(None)
        },
{
    let env_set = match env_api_token {
        Some(t) => t.as_str().unicode_len() > 0,
        None => false,
    };
    if env_set {
        return Ok(Some(CredentialSource::Env));
    }
    match store {
        Ok(Some(v)) => if v.as_str().unicode_len() > 0 {
            return Ok(Some(CredentialSource::Keychain));
        },
        Err(StoreError::Backend(_)) => {
            return Err(());
        },
        _ => {},
    }
    if file.api_token.is_some() {
        Ok(Some(CredentialSource::File))
    } else {
        Ok(None)
    }
}

/// The token's source names exactly the tier that [`CloudAppsCredentials::resolve`]
/// takes the token from: when a source is reported, the resolved token is
/// present, and when none is reported (and no error), the resolved token is
/// absent.
pub proof fn token_source_agrees_with_resolution(
    env: Option<Seq<char>>,
    store: Result<Option<String>, StoreError>,
    file: Option<Seq<char>>,
)
    ensures
        resolved_token(env, store, file) is Some <==> (non_empty_spec(env) is Some
            || store_token(store) is Some || (!store_blocks_file(store) && file is Some)),
        non_empty_spec(env) is Some ==> resolved_token(env, store, file) == non_empty_spec(env),
        non_empty_spec(env) is None && store_token(store) is Some ==> resolved_token(
            env,
            store,
            file,
        ) == store_token(store),
        non_empty_spec(env) is None && store_token(store) is None && !store_blocks_file(store)
            ==> resolved_token(env, store, file) == file,
{
}

} // verus!

verus! {

/// Where `credentials.toml` is looked for, highest priority first:
/// `.cloudapps-credentials.toml` in the working directory, then
/// `$XDG_CONFIG_HOME/cloudapps-cli/credentials.toml` when that variable is
/// set, else `$HOME/.config/cloudapps-cli/credentials.toml` when `HOME` is.
pub open spec fn search_paths_spec(xdg_config_home: Option<Seq<char>>, home: Option<Seq<char>>) -> Seq<
    Seq<char>,
> {
    let cwd = ".cloudapps-credentials.toml"@;
    match xdg_config_home {
        Some(x) => seq![
            cwd,
            crate::agent::join_relative(
                crate::agent::join_relative(x, "cloudapps-cli"@),
                "credentials.toml"@,
            ),
        ],
        None => match home {
            Some(h) => seq![
                cwd,
                crate::agent::join_relative(
                    crate::agent::join_relative(crate::agent::join_relative(h, ".config"@), "cloudapps-cli"@),
                    "credentials.toml"@,
                ),
            ],
            None => seq![cwd],
        },
    }
}

fn join_path(dir: &str, name: &str) -> (r: String)
    ensures
        r@ == crate::agent::join_relative(dir@, name@),
{
    let n = dir.unicode_len();
    let mut r = String::from_str(dir);
    if n > 0 && dir.get_char(n - 1) != '/' {
        r.append("/");
        proof {
            reveal_strlit("/");
        }
    }
    r.append(name);
    r
}

/// The search path of `credentials.toml`, from the values of
/// `XDG_CONFIG_HOME` and `HOME` (`None` when unset).
pub fn credentials_search_paths(xdg_config_home: Option<String>, home: Option<String>) -> (r: Vec<
    String,
>)
    ensures
        r@.map_values(|p: String| p@) == search_paths_spec(opt_view(xdg_config_home), opt_view(home)),
{
    let mut paths: Vec<String> = Vec::new();
    paths.push(String::from_str(".cloudapps-credentials.toml"));
    let ghost first = ".cloudapps-credentials.toml"@;
    match xdg_config_home {
        Some(x) => {
            let a = join_path(x.as_str(), "cloudapps-cli");
            let b = join_path(a.as_str(), "credentials.toml");
            let ghost bv = b@;
            paths.push(b);
            assert(paths@.map_values(|p: String| p@) =~= seq![first, bv]);
        },
        None => match home {
            Some(h) => {
                let a = join_path(h.as_str(), ".config");
                let b = join_path(a.as_str(), "cloudapps-cli");
                let c = join_path(b.as_str(), "credentials.toml");
                let ghost cv = c@;
                paths.push(c);
                assert(paths@.map_values(|p: String| p@) =~= seq![first, cv]);
            },
            None => {
                assert(paths@.map_values(|p: String| p@) =~= seq![first]);
            },
        },
    }
    paths
}

/// What reading and parsing one candidate `credentials.toml` gave.
pub enum FileOutcome {
    /// The file could not be read (usually: it does not exist).
    Unreadable,
    /// The file was read but is not valid; the parser's message.
    Invalid(String),
    /// The `[credentials]` values of a valid file.
    Parsed { api_url: Option<String>, api_token: Option<String> },
}

/// The credentials of the first candidate that parsed (empty values dropped),
/// or none; and the warnings for the invalid candidates before it.
pub open spec fn loaded_spec(paths: Seq<Seq<char>>, outcomes: Seq<FileOutcome>) -> (
    Option<(Option<Seq<char>>, Option<Seq<char>>)>,
    Seq<Seq<char>>,
)
    decreases outcomes.len(),
{
    if outcomes.len() == 0 || paths.len() == 0 {
        (None, Seq::empty())
    } else {
        match outcomes[0] {
            FileOutcome::Unreadable => loaded_spec(paths.drop_first(), outcomes.drop_first()),
            FileOutcome::Invalid(m) => {
                let (c, w) = loaded_spec(paths.drop_first(), outcomes.drop_first());
                (c, seq!["warning: failed to parse "@ + paths[0] + ": "@ + m@] + w)
            },
            FileOutcome::Parsed { api_url, api_token } => (
                Some((non_empty_spec(opt_view(api_url)), non_empty_spec(opt_view(api_token)))),
                Seq::empty(),
            ),
        }
    }
}

/// Load the credentials from the candidates' outcomes, in search order: the
/// first valid file wins and later ones are not merged; an invalid file is
/// skipped with a warning.
pub fn load_credentials(paths: &Vec<String>, outcomes: Vec<FileOutcome>) -> (r: (
    CredentialsFile,
    Vec<String>,
))
    ensures
        ({
            let (c, w) = loaded_spec(paths@.map_values(|p: String| p@), outcomes@);
            &&& r.1@.map_values(|l: String| l@) == w
            &&& match c {
                Some((u, t)) => opt_view(r.0.api_url) == u && opt_view(r.0.api_token) == t,
                None => r.0.api_url is None && r.0.api_token is None,
            }
        }),
{
    let ghost pv = paths@.map_values(|p: String| p@);
    let mut rest = outcomes;
    let mut i: usize = 0;
    let mut warnings: Vec<String> = Vec::new();
    proof {
        assert(pv.skip(0) =~= pv);
        assert(warnings@.map_values(|l: String| l@) + loaded_spec(pv, outcomes@).1 =~= loaded_spec(
            pv,
            outcomes@,
        ).1);
    }
    while rest.len() > 0 && i < paths.len()
        invariant
            i <= paths.len(),
            pv == paths@.map_values(|p: String| p@),
            ({
                let (c, w) = loaded_spec(pv, outcomes@);
                let (c2, w2) = loaded_spec(pv.skip(i as int), rest@);
                c == c2 && w == warnings@.map_values(|l: String| l@) + w2
            }),
        decreases rest.len(),
    {
        let ghost before = rest@;
        let ghost bw = warnings@;
        let o = rest.remove(0);
        proof {
            assert(pv.skip(i as int).drop_first() =~= pv.skip(i + 1));
            assert(before.drop_first() =~= rest@);
            assert(pv.skip(i as int)[0] == paths@[i as int]@);
        }
        match o {
            FileOutcome::Unreadable => {},
            FileOutcome::Invalid(m) => {
                let mut w = String::from_str("warning: failed to parse ");
                w.append(paths[i].as_str());
                w.append(": ");
                w.append(m.as_str());
                warnings.push(w);
                proof {
                    assert(warnings@.map_values(|l: String| l@) =~= bw.map_values(|l: String| l@).push(
                        w@,
                    ));
                    let (c3, w3) = loaded_spec(pv.skip(i + 1), rest@);
                    assert(warnings@.map_values(|l: String| l@) + w3 =~= bw.map_values(
                        |l: String| l@,
                    ) + (seq![w@] + w3));
                }
            },
            FileOutcome::Parsed { api_url, api_token } => {
                return (CredentialsFile::from_parsed(api_url, api_token), warnings);
            },
        }
        i = i + 1;
    }
    proof {
        let (c2, w2) = loaded_spec(pv.skip(i as int), rest@);
        assert(w2 =~= Seq::<Seq<char>>::empty());
        assert(warnings@.map_values(|l: String| l@) + w2 =~= warnings@.map_values(|l: String| l@));
    }
    (CredentialsFile::empty(), warnings)
}

} // verus!

verus! {

/// Priority law for the API URL: a non-empty `--api-url` wins over the
/// environment, which wins over `credentials.toml`.
pub proof fn url_priority(cli: Option<Seq<char>>, env: Option<Seq<char>>, file: Option<Seq<char>>)
    ensures
        non_empty_spec(cli) is Some ==> resolved_url(cli, env, file) == cli,
        non_empty_spec(cli) is None && non_empty_spec(env) is Some ==> resolved_url(cli, env, file)
            == env,
        non_empty_spec(cli) is None && non_empty_spec(env) is None ==> resolved_url(cli, env, file)
            == file,
{
}

/// Law of the credentials file search: the first candidate that parses is
/// the one used (later files are not merged), whatever follows it, as long as
/// every candidate before it was unreadable or invalid.
pub proof fn first_valid_file_wins(paths: Seq<Seq<char>>, outcomes: Seq<FileOutcome>, k: int)
    requires
        0 <= k < outcomes.len(),
        k < paths.len(),
        outcomes[k] is Parsed,
        forall|j: int| 0 <= j < k ==> !(#[trigger] outcomes[j] is Parsed),
    ensures
        loaded_spec(paths, outcomes).0 == Some(
            (
                non_empty_spec(opt_view(outcomes[k]->api_url)),
                non_empty_spec(opt_view(outcomes[k]->api_token)),
            ),
        ),
    decreases k,
{
    if k > 0 {
        assert(!(outcomes[0] is Parsed));
        let ps = paths.drop_first();
        let os = outcomes.drop_first();
        assert forall|j: int| 0 <= j < k - 1 implies !(#[trigger] os[j] is Parsed) by {
            assert(os[j] == outcomes[j + 1]);
        }
        assert(os[k - 1] == outcomes[k]);
        first_valid_file_wins(ps, os, k - 1);
    }
}

} // verus!
