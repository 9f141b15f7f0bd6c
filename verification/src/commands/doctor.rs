//! The text of the `doctor` report: argument scanning, the lines of the
//! CONFIG, CREDENTIALS, ENVIRONMENT and CONNECTIVITY sections. Values of
//! secrets never appear in any line; only their presence and source do.

use vstd::prelude::*;
use vstd::string::*;
use crate::text::{str_eq, starts_with, pad_right, decimal_string};
use crate::config::{CredentialSource, source_label};
use crate::config::credential_store::{StoreError, KEYCHAIN_SERVICE, KEY_API_TOKEN};

verus! {

/// The value of `--flag VALUE` or `--flag=VALUE` in `args` from index `i` on:
/// the first argument that is the flag or starts with `flag=` decides.
pub open spec fn arg_value_from(args: Seq<Seq<char>>, flag: Seq<char>, i: int) -> Option<Seq<char>>
    decreases args.len() - i,
{
    if i < 0 || i >= args.len() {
        None
    } else if args[i] == flag {
        if i + 1 < args.len() {
            Some(args[i + 1])
        } else {
            None
        }
    } else if crate::text::starts_with_spec(args[i], flag + "="@) {
        Some(args[i].skip(flag.len() as int + 1))
    } else {
        arg_value_from(args, flag, i + 1)
    }
}

/// Find the value of `--flag VALUE` or `--flag=VALUE` in an argument list.
pub fn arg_value(args: Vec<String>, flag: &str) -> (r: Option<String>)
    ensures
        crate::config::opt_view(r) == arg_value_from(
            crate::agent::handler::strings_view(args@),
            flag@,
            0,
        ),
{
    let ghost view = crate::agent::handler::strings_view(args@);
    let mut prefix = String::from_str(flag);
    prefix.append("=");
    let n = args.len();
    let mut i: usize = 0;
    while i < n
        invariant
            n == args.len(),
            i <= n,
            view == crate::agent::handler::strings_view(args@),
            prefix@ == flag@ + "="@,
            arg_value_from(view, flag@, 0) == arg_value_from(view, flag@, i as int),
        decreases n - i,
    {
        let arg = args[i].as_str();
        assert(view[i as int] == args@[i as int]@);
        if str_eq(arg, flag) {
            if i + 1 < n {
                assert(view[i + 1] == args@[i + 1]@);
                return Some(args[i + 1].clone());
            } else {
                return None;
            }
        }
        if starts_with(arg, prefix.as_str()) {
            let m = arg.unicode_len();
            let k = prefix.as_str().unicode_len();
            let v = arg.substring_char(k, m);
            proof {
                reveal_strlit("=");
                assert(v@ =~= args@[i as int]@.skip(flag@.len() as int + 1));
            }
            return Some(String::from_str(v));
        }
        i = i + 1;
    }
    None
}

/// A short, value-free description of an HTTP failure.
pub open spec fn http_failure_text(is_timeout: bool, is_connect: bool, is_request: bool) -> Seq<char> {
    if is_timeout {
        "timeout"@
    } else if is_connect {
        "connection failed"@
    } else if is_request {
        "request error"@
    } else {
        "network error"@
    }
}

/// Classify an HTTP failure for the connectivity report, from what the HTTP
/// client says of it.
pub fn classify_http_failure(is_timeout: bool, is_connect: bool, is_request: bool) -> (r: &'static str)
    ensures
        r@ == http_failure_text(is_timeout, is_connect, is_request),
{
    if is_timeout {
        "timeout"
    } else if is_connect {
        "connection failed"
    } else if is_request {
        "request error"
    } else {
        "network error"
    }
}

/// The environment variables whose presence the report shows.
pub open spec fn reported_env_vars() -> Seq<Seq<char>> {
    seq![
        "CLOUDAPPS_API_URL"@,
        "CLOUDAPPS_API_TOKEN"@,
        "CLOUDAPPS_OUTPUT_FORMAT"@,
        "CLOUDAPPS_AGENT_SOCKET"@,
        "CLOUDAPPS_AGENT_TOKEN"@,
        "XDG_CONFIG_HOME"@,
        "XDG_DATA_HOME"@,
        "HOME"@,
    ]
}

pub fn env_vars() -> (r: Vec<&'static str>)
    ensures
        r@.map_values(|s: &'static str| s@) == reported_env_vars(),
{
    let v = vec![
        "CLOUDAPPS_API_URL",
        "CLOUDAPPS_API_TOKEN",
        "CLOUDAPPS_OUTPUT_FORMAT",
        "CLOUDAPPS_AGENT_SOCKET",
        "CLOUDAPPS_AGENT_TOKEN",
        "XDG_CONFIG_HOME",
        "XDG_DATA_HOME",
        "HOME",
    ];
    assert(v@.map_values(|s: &'static str| s@) =~= reported_env_vars());
    v
}

/// The ENVIRONMENT line of a variable: its name padded to 26 characters and
/// `(set)` when it has a non-empty value, else `(unset)`. The value itself is
/// never shown.
pub open spec fn env_line_text(var: Seq<char>, value: Option<Seq<char>>) -> Seq<char> {
    let state = match value {
        Some(v) => if v.len() > 0 { "(set)"@ } else { "(unset)"@ },
        None => "(unset)"@,
    };
    "  "@ + crate::text::pad_right_spec(var, 26) + " "@ + state
}

pub fn environment_line(var: &str, value: &Option<String>) -> (r: String)
    ensures
        r@ == env_line_text(var@, crate::config::opt_view(*value)),
{
    let set = match value {
        Some(v) => v.as_str().unicode_len() > 0,
        None => false,
    };
    let mut r = String::from_str("  ");
    let padded = pad_right(var, 26);
    r.append(padded.as_str());
    r.append(" ");
    if set {
        r.append("(set)");
    } else {
        r.append("(unset)");
    }
    r
}

/// The CREDENTIALS line for the API URL.
pub open spec fn api_url_line_text(resolved: Option<(Seq<char>, CredentialSource)>) -> Seq<char> {
    match resolved {
        Some((v, CredentialSource::Env)) => "  api-url:    "@ + v + "  (source: env CLOUDAPPS_API_URL)"@,
        Some((v, s)) => "  api-url:    "@ + v + "  (source: "@ + crate::config::source_label_spec(s)
            + ")"@,
        None => "  api-url:    (unset)"@,
    }
}

pub fn api_url_line(resolved: &Option<(String, CredentialSource)>) -> (r: String)
    ensures
        r@ == api_url_line_text(
            match resolved {
                Some((v, s)) => Some((v@, *s)),
                None => None,
            },
        ),
{
    match resolved {
        Some((v, CredentialSource::Env)) => {
            let mut r = String::from_str("  api-url:    ");
            r.append(v.as_str());
            r.append("  (source: env CLOUDAPPS_API_URL)");
            r
        },
        Some((v, s)) => {
            let mut r = String::from_str("  api-url:    ");
            r.append(v.as_str());
            r.append("  (source: ");
            r.append(source_label(*s));
            r.append(")");
            r
        },
        None => String::from_str("  api-url:    (unset)"),
    }
}

/// The CREDENTIALS line for the API token: presence and source only.
pub open spec fn api_token_line_text(source: Result<Option<CredentialSource>, ()>) -> Seq<char> {
    match source {
        Ok(Some(CredentialSource::Env)) => "  api-token:  set  (source: env CLOUDAPPS_API_TOKEN)"@,
        Ok(Some(CredentialSource::Keychain)) => "  api-token:  stored  (source: keychain "@
            + KEYCHAIN_SERVICE@ + "/"@ + KEY_API_TOKEN@ + ")"@,
        Ok(Some(CredentialSource::File)) => "  api-token:  set  (source: credentials.toml)"@,
        Ok(Some(CredentialSource::CliFlag)) => "  api-token:  set"@,
        Ok(None) => "  api-token:  (unset)"@,
        Err(()) => "  api-token:  UNRESOLVABLE  (keychain "@ + KEYCHAIN_SERVICE@ + "/"@
            + KEY_API_TOKEN@ + " access failed)"@,
    }
}

pub fn api_token_line(source: Result<Option<CredentialSource>, ()>) -> (r: String)
    ensures
        r@ == api_token_line_text(source),
{
    match source {
        Ok(Some(CredentialSource::Env)) => String::from_str(
            "  api-token:  set  (source: env CLOUDAPPS_API_TOKEN)",
        ),
        Ok(Some(CredentialSource::Keychain)) => {
            let mut r = String::from_str("  api-token:  stored  (source: keychain ");
            r.append(KEYCHAIN_SERVICE);
            r.append("/");
            r.append(KEY_API_TOKEN);
            r.append(")");
            r
        },
        Ok(Some(CredentialSource::File)) => String::from_str(
            "  api-token:  set  (source: credentials.toml)",
        ),
        Ok(Some(CredentialSource::CliFlag)) => String::from_str("  api-token:  set"),
        Ok(None) => String::from_str("  api-token:  (unset)"),
        Err(()) => {
            let mut r = String::from_str("  api-token:  UNRESOLVABLE  (keychain ");
            r.append(KEYCHAIN_SERVICE);
            r.append("/");
            r.append(KEY_API_TOKEN);
            r.append(" access failed)");
            r
        },
    }
}

/// The raw keychain status line: `stored`, `not stored`, or the store error.
pub open spec fn keychain_line_text(store: Result<Option<String>, StoreError>) -> Seq<char> {
    let head = "  keychain:   "@ + KEYCHAIN_SERVICE@ + "/"@ + KEY_API_TOKEN@ + "  →  "@;
    match store {
        Ok(Some(_)) => head + "stored"@,
        Ok(None) => head + "not stored"@,
        Err(e) => head + "error ("@ + e.text() + ")"@,
    }
}

pub fn keychain_line(store: &Result<Option<String>, StoreError>) -> (r: String)
    ensures
        r@ == keychain_line_text(*store),
{
    let mut r = String::from_str("  keychain:   ");
    r.append(KEYCHAIN_SERVICE);
    r.append("/");
    r.append(KEY_API_TOKEN);
    r.append("  →  ");
    match store {
        Ok(Some(_)) => r.append("stored"),
        Ok(None) => r.append("not stored"),
        Err(e) => {
            r.append("error (");
            let m = e.message();
            r.append(m.as_str());
            r.append(")");
        },
    }
    r
}

/// `s` without its trailing `/` characters (`trim_end_matches('/')`).
pub open spec fn trim_trailing_slashes(s: Seq<char>) -> Seq<char>
    decreases s.len(),
{
    if s.len() > 0 && s.last() == '/' {
        trim_trailing_slashes(s.drop_last())
    } else {
        s
    }
}

/// The URL that the connectivity probe targets: the API URL without trailing slashes.
pub fn probe_target(api_url: &str) -> (r: String)
    ensures
        r@ == trim_trailing_slashes(api_url@),
{
    let mut k = api_url.unicode_len();
    assert(api_url@.take(k as int) =~= api_url@);
    while k > 0 && api_url.get_char(k - 1) == '/'
        invariant
            k <= api_url@.len(),
            trim_trailing_slashes(api_url@) == trim_trailing_slashes(api_url@.take(k as int)),
        decreases k,
    {
        assert(api_url@.take(k as int).drop_last() =~= api_url@.take(k - 1));
        k = k - 1;
    }
    let r = api_url.substring_char(0, k);
    assert(r@ =~= api_url@.take(k as int));
    String::from_str(r)
}

} // verus!

verus! {

/// The index of the first candidate path that exists, or the number of paths.
pub open spec fn first_existing(exists: Seq<bool>, i: int) -> int
    decreases exists.len() - i,
{
    if i >= exists.len() {
        exists.len() as int
    } else if exists[i] {
        i
    } else {
        first_existing(exists, i + 1)
    }
}

/// The CONFIG section: the first `credentials.toml` that exists, or every
/// candidate that was searched.
pub open spec fn config_section_spec(paths: Seq<Seq<char>>, exists: Seq<bool>) -> Seq<Seq<char>> {
    let f = first_existing(exists, 0);
    if f < paths.len() {
        seq![
            "CONFIG"@,
            "  credentials.toml:  "@ + paths[f],
            "  status:            present"@,
        ]
    } else if paths.len() == 0 {
        seq!["CONFIG"@, "  credentials.toml:  (no search path)"@, "  status:            not found"@]
    } else if paths.len() == 1 {
        seq![
            "CONFIG"@,
            "  credentials.toml:  "@ + paths[0] + " (not found)"@,
            "  status:            not found"@,
        ]
    } else {
        seq!["CONFIG"@, "  credentials.toml:  (not found; searched)"@] + paths.map_values(
            |p: Seq<char>| "                     "@ + p,
        ) + seq!["  status:            not found"@]
    }
}

/// The lines of the CONFIG section, from the search path and whether each
/// candidate exists.
pub fn config_section(paths: &Vec<String>, exists: &Vec<bool>) -> (r: Vec<String>)
    requires
        paths.len() == exists.len(),
    ensures
        r@.map_values(|l: String| l@) == config_section_spec(paths@.map_values(|p: String| p@), exists@),
{
    let ghost pv = paths@.map_values(|p: String| p@);
    let mut f: usize = 0;
    while f < exists.len() && !exists[f]
        invariant
            f <= exists.len(),
            first_existing(exists@, 0) == first_existing(exists@, f as int),
        decreases exists.len() - f,
    {
        f = f + 1;
    }
    let mut lines: Vec<String> = Vec::new();
    lines.push(String::from_str("CONFIG"));
    if f < paths.len() {
        let mut l = String::from_str("  credentials.toml:  ");
        l.append(paths[f].as_str());
        let ghost lv = l@;
        lines.push(l);
        lines.push(String::from_str("  status:            present"));
        assert(lines@.map_values(|l: String| l@) =~= seq![
            "CONFIG"@,
            lv,
            "  status:            present"@,
        ]);
        return lines;
    }
    if paths.len() == 0 {
        lines.push(String::from_str("  credentials.toml:  (no search path)"));
    } else if paths.len() == 1 {
        let mut l = String::from_str("  credentials.toml:  ");
        l.append(paths[0].as_str());
        l.append(" (not found)");
        lines.push(l);
    } else {
        lines.push(String::from_str("  credentials.toml:  (not found; searched)"));
        let mut i: usize = 0;
        while i < paths.len()
            invariant
                i <= paths.len(),
                pv == paths@.map_values(|p: String| p@),
                lines@.map_values(|l: String| l@) == seq![
                    "CONFIG"@,
                    "  credentials.toml:  (not found; searched)"@,
                ] + pv.take(i as int).map_values(|p: Seq<char>| "                     "@ + p),
            decreases paths.len() - i,
        {
            let ghost before = lines@;
            let mut l = String::from_str("                     ");
            l.append(paths[i].as_str());
            lines.push(l);
            proof {
                assert(pv.take(i + 1).map_values(|p: Seq<char>| "                     "@ + p)
                    =~= pv.take(i as int).map_values(|p: Seq<char>| "                     "@ + p).push(
                    "                     "@ + pv[i as int],
                ));
                assert(lines@.map_values(|l: String| l@) =~= before.map_values(|l: String| l@).push(
                    l@,
                ));
            }
            i = i + 1;
        }
        assert(pv.take(paths.len() as int) =~= pv);
    }
    let ghost before = lines@;
    lines.push(String::from_str("  status:            not found"));
    assert(lines@.map_values(|l: String| l@) =~= before.map_values(|l: String| l@).push(
        "  status:            not found"@,
    ));
    assert(lines@.map_values(|l: String| l@) =~= config_section_spec(pv, exists@));
    lines
}

/// What the connectivity probe gave: the status code and its reason phrase,
/// or the kind of failure; with the elapsed milliseconds.
pub enum ProbeOutcome {
    Answered { status: u16, reason: String, millis: u64 },
    Unreachable { kind: &'static str, millis: u64 },
    ClientError(String),
}

/// The CONNECTIVITY line of a probe of `target`.
pub open spec fn probe_line_spec(target: Seq<char>, outcome: ProbeOutcome) -> Seq<char> {
    match outcome {
        ProbeOutcome::Answered { status, reason, millis } => "  HEAD "@ + target + "  →  "@
            + crate::text::decimal(status as nat) + " "@ + reason@ + " ("@ + crate::text::decimal(
            millis as nat,
        ) + "ms)"@,
        ProbeOutcome::Unreachable { kind, millis } => "  HEAD "@ + target + "  →  unreachable ("@
            + kind@ + ") ("@ + crate::text::decimal(millis as nat) + "ms)"@,
        ProbeOutcome::ClientError(e) => "  HEAD "@ + target + "  →  error building HTTP client: "@
            + e@,
    }
}

/// The CONNECTIVITY line of a probe of `target`.
pub fn probe_line(target: &str, outcome: &ProbeOutcome) -> (r: String)
    ensures
        r@ == probe_line_spec(target@, *outcome),
{
    let mut r = String::from_str("  HEAD ");
    r.append(target);
    match outcome {
        ProbeOutcome::Answered { status, reason, millis } => {
            r.append("  →  ");
            let d = decimal_string(*status as u64);
            r.append(d.as_str());
            r.append(" ");
            r.append(reason.as_str());
            r.append(" (");
            let m = decimal_string(*millis);
            r.append(m.as_str());
            r.append("ms)");
        },
        ProbeOutcome::Unreachable { kind, millis } => {
            r.append("  →  unreachable (");
            r.append(kind);
            r.append(") (");
            let m = decimal_string(*millis);
            r.append(m.as_str());
            r.append("ms)");
        },
        ProbeOutcome::ClientError(e) => {
            r.append("  →  error building HTTP client: ");
            r.append(e.as_str());
        },
    }
    r
}

} // verus!

verus! {

/// Law of the report: an environment variable's line shows only whether it
/// is set, never its value; two non-empty values give the same line.
pub proof fn environment_line_hides_values(var: Seq<char>, a: Seq<char>, b: Seq<char>)
    requires
        a.len() > 0,
        b.len() > 0,
    ensures
        env_line_text(var, Some(a)) == env_line_text(var, Some(b)),
        env_line_text(var, Some(Seq::empty())) == env_line_text(var, None),
{
}

/// Law of the report: the keychain line shows only whether a token is
/// stored, never the token.
pub proof fn keychain_line_hides_token(a: String, b: String)
    ensures
        keychain_line_text(Ok(Some(a))) == keychain_line_text(Ok(Some(b))),
{
}

} // verus!
