//! Helpers of the credential isolation agent: socket and PID file names,
//! session tokens, the environment whitelist and credential checks.

pub mod handler;

use vstd::prelude::*;
use vstd::string::*;
use crate::text::{str_eq, starts_with, decimal_string};
use crate::config::CloudAppsCredentials;

verus! {

/// Whether an environment variable is kept when the agent scrubs its
/// environment: one of the listed names (path resolution, XDG directories,
/// HTTP proxies, TLS certificates, locale, debugging), or a locale category
/// (`LC_` prefix). Every other variable, credentials among them, is removed.
pub open spec fn env_whitelisted(name: Seq<char>) -> bool {
    name == "HOME"@
        || name == "PATH"@
        || name == "USER"@
        || name == "TMPDIR"@
        || name == "XDG_DATA_HOME"@
        || name == "XDG_CONFIG_HOME"@
        || name == "XDG_RUNTIME_DIR"@
        || name == "HTTP_PROXY"@
        || name == "HTTPS_PROXY"@
        || name == "ALL_PROXY"@
        || name == "NO_PROXY"@
        || name == "http_proxy"@
        || name == "https_proxy"@
        || name == "all_proxy"@
        || name == "no_proxy"@
        || name == "SSL_CERT_FILE"@
        || name == "SSL_CERT_DIR"@
        || name == "LANG"@
        || name == "RUST_LOG"@
        || name == "RUST_BACKTRACE"@
        || crate::text::starts_with_spec(name, "LC_"@)
}

/// Check if an environment variable name is in the whitelist.
pub fn is_env_whitelisted(name: &str) -> (r: bool)
    ensures
        r == env_whitelisted(name@),
{
    str_eq(name, "HOME")
        || str_eq(name, "PATH")
        || str_eq(name, "USER")
        || str_eq(name, "TMPDIR")
        || str_eq(name, "XDG_DATA_HOME")
        || str_eq(name, "XDG_CONFIG_HOME")
        || str_eq(name, "XDG_RUNTIME_DIR")
        || str_eq(name, "HTTP_PROXY")
        || str_eq(name, "HTTPS_PROXY")
        || str_eq(name, "ALL_PROXY")
        || str_eq(name, "NO_PROXY")
        || str_eq(name, "http_proxy")
        || str_eq(name, "https_proxy")
        || str_eq(name, "all_proxy")
        || str_eq(name, "no_proxy")
        || str_eq(name, "SSL_CERT_FILE")
        || str_eq(name, "SSL_CERT_DIR")
        || str_eq(name, "LANG")
        || str_eq(name, "RUST_LOG")
        || str_eq(name, "RUST_BACKTRACE")
        || starts_with(name, "LC_")
}

/// `dir` joined with a relative `name`, as `Path::join` does on Unix: a
/// separator is inserted unless `dir` is empty or already ends with one.
pub open spec fn join_relative(dir: Seq<char>, name: Seq<char>) -> Seq<char> {
    if dir.len() == 0 || dir.last() == '/' {
        dir + name
    } else {
        dir + seq!['/'] + name
    }
}

/// The file name of the socket of the agent with a given PID.
pub open spec fn pid_socket_name(pid: u32) -> Seq<char> {
    "cloudapps-"@ + crate::text::decimal(pid as nat) + ".sock"@
}

/// The socket path of a new agent instance: `cloudapps-<pid>.sock` in the
/// socket directory (which the caller resolved).
pub fn pid_socket_path(socket_dir: &str, pid: u32) -> (r: String)
    ensures
        r@ == join_relative(socket_dir@, pid_socket_name(pid)),
{
    let mut name = String::from_str("cloudapps-");
    let d = decimal_string(pid as u64);
    name.append(d.as_str());
    name.append(".sock");
    let n = socket_dir.unicode_len();
    let mut r = String::from_str(socket_dir);
    if n > 0 && socket_dir.get_char(n - 1) != '/' {
        r.append("/");
        proof {
            reveal_strlit("/");
        }
    }
    r.append(name.as_str());
    r
}

/// What `Path::with_extension` gives for a path and an extension.
pub uninterp spec fn path_with_extension(path: Seq<char>, extension: Seq<char>) -> Seq<char>;

/// `std::path::Path::with_extension`, on a path given and returned as UTF-8
/// text (a path made from UTF-8 text stays UTF-8, so the conversion back loses
/// nothing). The result is named. `PathBuf::set_extension` panics on an
/// extension that contains a path separator, so such an extension is not
/// admitted.
#[verifier::external_body]
fn with_extension(path: &str, extension: &str) -> (r: String)
    requires
        !extension@.contains('/'),
    ensures
        r@ == path_with_extension(path@, extension@),
{
    std::path::Path::new(path).with_extension(extension).to_string_lossy().into_owned()
}

/// The PID file path for a socket path: the socket path with the extension `pid`.
pub fn pid_file_path(socket_path: &str) -> (r: String)
    ensures
        r@ == path_with_extension(socket_path@, "pid"@),
{
    proof {
        reveal_strlit("pid");
        assert(!"pid"@.contains('/')) by {
            assert forall|i: int| 0 <= i < "pid"@.len() implies "pid"@[i] != '/' by {}
        }
    }
    with_extension(socket_path, "pid")
}

/// A lowercase hexadecimal digit.
pub open spec fn is_lower_hex(c: char) -> bool {
    ('0' <= c && c <= '9') || ('a' <= c && c <= 'f')
}

/// `uuid::Uuid::new_v4().simple()`, rendered: a fresh random UUID as 32
/// lowercase hexadecimal digits (uuid documents the simple format as lowercase
/// hex without hyphens). Nothing else is stated of the random value.
#[verifier::external_body]
fn random_uuid_simple() -> (r: String)
    ensures
        r@.len() == 32,
        forall|i: int| 0 <= i < 32 ==> is_lower_hex(#[trigger] r@[i]),
{
    uuid::Uuid::new_v4().simple().to_string()
}

/// A fresh session token: two random UUIDs in simple form, concatenated.
pub fn generate_token() -> (r: String)
    ensures
        r@.len() == 64,
        forall|i: int| 0 <= i < 64 ==> is_lower_hex(#[trigger] r@[i]),
{
    let a = random_uuid_simple();
    let b = random_uuid_simple();
    let mut r = a;
    let ghost first = r@;
    r.append(b.as_str());
    assert forall|i: int| 0 <= i < 64 implies is_lower_hex(#[trigger] r@[i]) by {
        if i < 32 {
            assert(r@[i] == first[i]);
        } else {
            assert(r@[i] == b@[i - 32]);
        }
    }
    r
}

/// Check that the credentials needed by the agent are present; the same check
/// as [`CloudAppsCredentials::validate`].
pub fn validate_credentials(credentials: &CloudAppsCredentials) -> (r: Result<(), String>)
    ensures
        r is Ok <==> (credentials.api_url is Some && credentials.api_token is Some),
        r matches Err(m) ==> m@ == crate::config::missing_message(
            credentials.api_url is None,
            credentials.api_token is None,
        ),
{
    credentials.validate()
}

} // verus!

verus! {

/// Whether a file in the socket directory is an agent socket:
/// `cloudapps-*.sock`.
pub open spec fn is_agent_socket_name_spec(name: Seq<char>) -> bool {
    crate::text::starts_with_spec(name, "cloudapps-"@) && name.len() >= 5 && name.subrange(
        name.len() - 5,
        name.len() as int,
    ) == ".sock"@
}

/// Whether a file name is that of an agent socket.
pub fn is_agent_socket_name(name: &str) -> (r: bool)
    ensures
        r == is_agent_socket_name_spec(name@),
{
    let n = name.unicode_len();
    if !crate::text::starts_with(name, "cloudapps-") || n < 5 {
        return false;
    }
    let tail = name.substring_char(n - 5, n);
    crate::text::str_eq(tail, ".sock")
}

/// The socket path to use: `CLOUDAPPS_AGENT_SOCKET` when set, else the one
/// agent socket found when there is exactly one, else
/// `<socket dir>/cloudapps.sock`.
pub open spec fn socket_path_spec(env_socket: Option<Seq<char>>, sockets: Seq<Seq<char>>, socket_dir: Seq<char>) -> Seq<char> {
    match env_socket {
        Some(p) => p,
        None => if sockets.len() == 1 {
            sockets[0]
        } else {
            join_relative(socket_dir, "cloudapps.sock"@)
        },
    }
}

/// Choose the socket path from the environment variable's value, the agent
/// sockets found, and the socket directory.
pub fn choose_socket_path(env_socket: Option<String>, sockets: Vec<String>, socket_dir: &str) -> (r:
    String)
    ensures
        r@ == socket_path_spec(
            crate::config::opt_view(env_socket),
            sockets@.map_values(|s: String| s@),
            socket_dir@,
        ),
{
    match env_socket {
        Some(p) => p,
        None => {
            if sockets.len() == 1 {
                let mut s = sockets;
                let only = s.remove(0);
                only
            } else {
                let n = socket_dir.unicode_len();
                let mut r = String::from_str(socket_dir);
                if n > 0 && socket_dir.get_char(n - 1) != '/' {
                    r.append("/");
                    proof {
                        reveal_strlit("/");
                    }
                }
                r.append("cloudapps.sock");
                r
            }
        },
    }
}

/// The environment variables that sanitising removes: every name that is not
/// whitelisted, in order.
pub open spec fn removed_vars_spec(names: Seq<Seq<char>>) -> Seq<Seq<char>>
    decreases names.len(),
{
    if names.len() == 0 {
        Seq::empty()
    } else if env_whitelisted(names.last()) {
        removed_vars_spec(names.drop_last())
    } else {
        removed_vars_spec(names.drop_last()).push(names.last())
    }
}

/// The names, among those of the environment, that sanitising removes.
pub fn vars_to_remove(names: &Vec<String>) -> (r: Vec<String>)
    ensures
        r@.map_values(|s: String| s@) == removed_vars_spec(names@.map_values(|s: String| s@)),
{
    let ghost nv = names@.map_values(|s: String| s@);
    let mut out: Vec<String> = Vec::new();
    let mut i: usize = 0;
    while i < names.len()
        invariant
            i <= names.len(),
            nv == names@.map_values(|s: String| s@),
            out@.map_values(|s: String| s@) == removed_vars_spec(nv.take(i as int)),
        decreases names.len() - i,
    {
        let ghost before = out@;
        if !is_env_whitelisted(names[i].as_str()) {
            out.push(names[i].clone());
            assert(out@.map_values(|s: String| s@) =~= before.map_values(|s: String| s@).push(
                names@[i as int]@,
            ));
        }
        assert(nv.take(i + 1).drop_last() =~= nv.take(i as int));
        i = i + 1;
    }
    assert(nv.take(names.len() as int) =~= nv);
    out
}

/// The value of a run of decimal digits.
pub open spec fn digits_value(s: Seq<char>) -> nat
    decreases s.len(),
{
    if s.len() == 0 {
        0
    } else {
        digits_value(s.drop_last()) * 10 + ((s.last() as u32) - ('0' as u32)) as nat
    }
}

/// The PID in the text of a PID file: after trimming white space, an optional
/// `+` and then one or more decimal digits whose value fits `u32`
/// (`str::parse::<u32>`).
pub open spec fn pid_of_spec(text: Seq<char>) -> Option<u32> {
    pid_of_digits(pid_digits(text))
}

/// The text of a PID file without surrounding white space and one leading `+`.
pub open spec fn pid_digits(text: Seq<char>) -> Seq<char> {
    let t = crate::text::trim_spec(text);
    if t.len() > 0 && t[0] == '+' {
        t.drop_first()
    } else {
        t
    }
}

/// The value of a non-empty run of decimal digits that fits `u32`.
pub open spec fn pid_of_digits(d: Seq<char>) -> Option<u32> {
    if d.len() > 0 && (forall|i: int| 0 <= i < d.len() ==> '0' <= #[trigger] d[i] <= '9')
        && digits_value(d) <= u32::MAX {
        Some(digits_value(d) as u32)
    } else {
        None
    }
}

/// Read the PID from the text of a PID file.
pub fn pid_from_text(text: &str) -> (r: Option<u32>)
    ensures
        r == pid_of_spec(text@),
{
    let t = crate::text::trim(text);
    let n = t.unicode_len();
    let start: usize = if n > 0 && t.get_char(0) == '+' {
        1
    } else {
        0
    };
    assert(start == 1 <==> (t@.len() > 0 && t@[0] == '+'));
    let d = t.substring_char(start, n);
    let ghost dv = d@;
    let ghost tv = crate::text::trim_spec(text@);
    assert(tv == t@);
    proof {
        if start == 1 {
            assert(dv =~= t@.drop_first());
        } else {
            assert(dv =~= t@);
        }
    }
    let m = d.unicode_len();
    assert(dv == pid_digits(text@));
    if m == 0 {
        return None;
    }
    let mut v: u64 = 0;
    let mut i: usize = 0;
    while i < m
        invariant
            dv == d@,
            dv == pid_digits(text@),
            m == dv.len(),
            i <= m,
            forall|j: int| 0 <= j < i ==> '0' <= #[trigger] dv[j] <= '9',
            v == digits_value(dv.take(i as int)),
            v <= u32::MAX,
        decreases m - i,
    {
        let c = d.get_char(i);
        if !('0' <= c && c <= '9') {
            assert(!('0' <= dv[i as int] <= '9'));
            return None;
        }
        let digit = (c as u32 - '0' as u32) as u64;
        assert(dv.take(i + 1).drop_last() =~= dv.take(i as int));
        let nv = v * 10 + digit;
        if nv > u32::MAX as u64 {
            proof {
                if forall|j: int| 0 <= j < dv.len() ==> '0' <= #[trigger] dv[j] <= '9' {
                    lemma_digits_value_prefix(dv, i + 1);
                }
            }
            return None;
        }
        v = nv;
        i = i + 1;
    }
    assert(dv.take(m as int) =~= dv);
    Some(v as u32)
}

/// A prefix of a digit run never has a larger value than the whole run.
pub proof fn lemma_digits_value_prefix(s: Seq<char>, k: int)
    requires
        0 <= k <= s.len(),
        forall|j: int| 0 <= j < s.len() ==> '0' <= #[trigger] s[j] <= '9',
    ensures
        digits_value(s.take(k)) <= digits_value(s),
    decreases s.len() - k,
{
    if k < s.len() {
        lemma_digits_value_prefix(s, k + 1);
        assert(s.take(k + 1).drop_last() =~= s.take(k));
        assert(digits_value(s.take(k + 1)) == digits_value(s.take(k)) * 10 + ((s[k] as u32) - ('0' as u32)) as nat);
        assert(digits_value(s.take(k)) <= digits_value(s.take(k)) * 10) by (nonlinear_arith);
    } else {
        assert(s.take(k) =~= s);
    }
}

} // verus!

verus! {

/// Law of environment sanitising: a name is removed exactly when it is in
/// the environment and not whitelisted; whitelisted names always survive.
pub proof fn sanitize_removes_exactly_the_unlisted(names: Seq<Seq<char>>, n: Seq<char>)
    ensures
        removed_vars_spec(names).contains(n) <==> (names.contains(n) && !env_whitelisted(n)),
    decreases names.len(),
{
    if names.len() > 0 {
        let init = names.drop_last();
        let last = names.last();
        sanitize_removes_exactly_the_unlisted(init, n);
        assert(names =~= init.push(last));
        vstd::seq_lib::lemma_seq_contains_after_push(init, last, n);
        vstd::seq_lib::lemma_seq_contains_after_push(removed_vars_spec(init), last, n);
    }
}

} // verus!
