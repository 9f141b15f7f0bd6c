//! Scanning and rewriting `credentials.toml` for the `credentials migrate` flow.
//!
//! Only the `api_token` key is looked at, matched as a whole key so that
//! `api_token_extra = ...` is never touched. Quote forms that are not fully
//! understood are refused instead of being silently mishandled.

use vstd::prelude::*;
use vstd::string::*;
use crate::text::{trim_start, trim, starts_with, str_eq, index_of_from, contains_char, is_whitespace};

verus! {

/// Outcome of looking for the API token in a credentials file.
#[derive(Debug)]
pub enum SecretScan {
    /// The token, taken from a plain double-quoted string.
    Present(String),
    /// No `api_token` line, or an empty token.
    Absent,
    /// The token uses a quote form that is refused; the reason says which.
    Unsupported(&'static str),
}

/// The mathematical value of a [`SecretScan`].
pub enum ScanView {
    Present(Seq<char>),
    Absent,
    Unsupported(Seq<char>),
}

impl SecretScan {
    pub open spec fn view(&self) -> ScanView {
        match self {
            SecretScan::Present(s) => ScanView::Present(s@),
            SecretScan::Absent => ScanView::Absent,
            SecretScan::Unsupported(r) => ScanView::Unsupported(r@),
        }
    }
}

/// Whether a line (or a piece of the file, newline included) declares the
/// `api_token` key: after leading white space it starts with `api_token`,
/// followed by white space or `=`.
pub open spec fn declares_api_token(line: Seq<char>) -> bool {
    let t = crate::text::trim_start_spec(line);
    let k = "api_token"@;
    &&& crate::text::starts_with_spec(t, k)
    &&& t.len() > k.len()
    &&& (crate::text::unicode_white_space(t[k.len() as int]) || t[k.len() as int] == '=')
}

/// What the value part of an `api_token = ...` line (already trimmed) says.
pub open spec fn classify_value(a: Seq<char>) -> ScanView {
    if a == "\"\""@ {
        ScanView::Absent
    } else if crate::text::starts_with_spec(a, "'"@) {
        ScanView::Unsupported("literal string"@)
    } else if crate::text::starts_with_spec(a, "\"\"\""@) {
        ScanView::Unsupported("multi-line basic string"@)
    } else if crate::text::starts_with_spec(a, "\""@) {
        let r = a.skip(1);
        if r.contains('\\') {
            ScanView::Unsupported("escape sequences in basic string"@)
        } else if crate::text::next_index_of(r, '"', 0) < r.len() {
            ScanView::Present(r.take(crate::text::next_index_of(r, '"', 0)))
        } else {
            ScanView::Unsupported("unterminated basic string"@)
        }
    } else {
        ScanView::Unsupported("unquoted value"@)
    }
}


/// What a single line contributes to the scan: `None` when the line does not
/// settle the outcome (it does not declare the key, or has no `=`).
pub open spec fn classify_line(line: Seq<char>) -> Option<ScanView> {
    if !declares_api_token(line) {
        None
    } else {
        let rest = crate::text::trim_start_spec(line).skip("api_token"@.len() as int);
        let eq = crate::text::next_index_of(rest, '=', 0);
        if eq >= rest.len() {
            None
        } else {
            Some(classify_value(crate::text::trim_spec(rest.skip(eq + 1))))
        }
    }
}

/// The scan of `s` from the line that starts at `pos`: the first line that
/// settles the outcome decides it; without one the token is absent.
pub open spec fn extract_from(s: Seq<char>, pos: nat) -> ScanView
    decreases s.len() - pos,
{
    if pos > s.len() {
        ScanView::Absent
    } else {
        let e = crate::text::next_index_of(s, '\n', pos as int);
        match classify_line(s.subrange(pos as int, e)) {
            Some(r) => r,
            None => if e < s.len() {
                proof {
                    crate::text::lemma_next_index_of(s, '\n', pos as int);
                }
                extract_from(s, (e + 1) as nat)
            } else {
                ScanView::Absent
            },
        }
    }
}

/// The file with every piece (a line together with its newline) that declares
/// the `api_token` key left out, from the piece that starts at `pos`.
pub open spec fn remove_from(s: Seq<char>, pos: nat) -> Seq<char>
    decreases s.len() - pos,
{
    if pos >= s.len() {
        Seq::empty()
    } else {
        let e = crate::text::next_index_of(s, '\n', pos as int);
        let end = if e < s.len() { e + 1 } else { s.len() as int };
        let piece = s.subrange(pos as int, end);
        proof {
            crate::text::lemma_next_index_of(s, '\n', pos as int);
        }
        (if declares_api_token(piece) { Seq::empty() } else { piece }) + remove_from(s, end as nat)
    }
}

fn classify_value_exec(a: &str) -> (r: SecretScan)
    ensures
        r@ == classify_value(a@),
{
    if str_eq(a, "\"\"") {
        SecretScan::Absent
    } else if starts_with(a, "'") {
        SecretScan::Unsupported("literal string")
    } else if starts_with(a, "\"\"\"") {
        SecretScan::Unsupported("multi-line basic string")
    } else if starts_with(a, "\"") {
        proof {
            reveal_strlit("\"");
        }
        let n = a.unicode_len();
        let rest = a.substring_char(1, n);
        assert(rest@ =~= a@.skip(1));
        if contains_char(rest, '\\') {
            SecretScan::Unsupported("escape sequences in basic string")
        } else {
            let m = rest.unicode_len();
            let end = index_of_from(rest, '"', 0);
            if end < m {
                let v = rest.substring_char(0, end);
                assert(v@ =~= rest@.take(end as int));
                SecretScan::Present(String::from_str(v))
            } else {
                SecretScan::Unsupported("unterminated basic string")
            }
        }
    } else {
        SecretScan::Unsupported("unquoted value")
    }
}

fn declares_api_token_exec(line: &str) -> (r: bool)
    ensures
        r == declares_api_token(line@),
{
    let t = trim_start(line);
    let key = "api_token";
    if !starts_with(t, key) {
        return false;
    }
    let k = key.unicode_len();
    let n = t.unicode_len();
    if n <= k {
        return false;
    }
    let c = t.get_char(k);
    is_whitespace(c) || c == '='
}

fn classify_line_exec(line: &str) -> (r: Option<SecretScan>)
    ensures
        match r {
            Some(x) => classify_line(line@) == Some(x@),
            None => classify_line(line@) is None,
        },
{
    if !declares_api_token_exec(line) {
        return None;
    }
    let t = trim_start(line);
    let k = "api_token".unicode_len();
    let n = t.unicode_len();
    let rest = t.substring_char(k, n);
    assert(rest@ =~= t@.skip(k as int));
    let m = rest.unicode_len();
    let eq = index_of_from(rest, '=', 0);
    proof {
        crate::text::lemma_next_index_of(rest@, '=', 0);
    }
    if eq >= m {
        return None;
    }
    let after_raw = rest.substring_char(eq + 1, m);
    assert(after_raw@ =~= rest@.skip(eq + 1));
    let after = trim(after_raw);
    Some(classify_value_exec(after))
}

/// Find the `api_token` value in the text of a credentials file.
///
/// Lines are taken one at a time; the first line that declares the key and
/// has an `=` decides the outcome. An empty value (`""`) counts as absent, so
/// that running `migrate` again after a migration is a no-op.
pub fn extract_api_token(content: &str) -> (r: SecretScan)
    ensures
        r@ == extract_from(content@, 0),
{
    let n = content.unicode_len();
    let mut pos: usize = 0;
    loop
        invariant
            n == content@.len(),
            pos <= n,
            extract_from(content@, 0) == extract_from(content@, pos as nat),
        decreases n - pos,
    {
        let e = index_of_from(content, '\n', pos);
        proof {
            crate::text::lemma_next_index_of(content@, '\n', pos as int);
        }
        let line = content.substring_char(pos, e);
        match classify_line_exec(line) {
            Some(r) => {
                return r;
            },
            None => {
                if e < n {
                    pos = e + 1;
                } else {
                    return SecretScan::Absent;
                }
            },
        }
    }
}

/// Remove every line that declares the `api_token` key; all other lines are
/// kept verbatim, with their line endings, in their order.
pub fn remove_api_token_line(content: &str) -> (r: String)
    ensures
        r@ == remove_from(content@, 0),
{
    let n = content.unicode_len();
    let mut out = String::new();
    let mut pos: usize = 0;
    while pos < n
        invariant
            n == content@.len(),
            pos <= n,
            remove_from(content@, 0) == out@ + remove_from(content@, pos as nat),
        decreases n - pos,
    {
        let e = index_of_from(content, '\n', pos);
        proof {
            crate::text::lemma_next_index_of(content@, '\n', pos as int);
        }
        let end = if e < n { e + 1 } else { n };
        let piece = content.substring_char(pos, end);
        let ghost before = out@;
        if !declares_api_token_exec(piece) {
            out.append(piece);
        }
        proof {
            if declares_api_token(piece@) {
                assert(out@ + remove_from(content@, end as nat) =~= before + (Seq::<char>::empty()
                    + remove_from(content@, end as nat)));
            } else {
                assert(out@ + remove_from(content@, end as nat) =~= before + (piece@
                    + remove_from(content@, end as nat)));
            }
        }
        pos = end;
    }
    assert(out@ + remove_from(content@, n as nat) =~= out@);
    out
}


proof fn lemma_trim_start_push(l: Seq<char>, c: char)
    requires
        crate::text::trim_start_spec(l).len() > 0,
    ensures
        crate::text::trim_start_spec(l.push(c)) == crate::text::trim_start_spec(l).push(c),
    decreases l.len(),
{
    if l.len() > 0 && crate::text::unicode_white_space(l[0]) {
        assert(l.push(c).drop_first() =~= l.drop_first().push(c));
        lemma_trim_start_push(l.drop_first(), c);
    } else {
        assert(l.push(c)[0] == l[0]);
    }
}

proof fn lemma_declares_push(l: Seq<char>, c: char)
    requires
        declares_api_token(l),
    ensures
        declares_api_token(l.push(c)),
{
    let t = crate::text::trim_start_spec(l);
    let k = "api_token"@;
    lemma_trim_start_push(l, c);
    let t2 = crate::text::trim_start_spec(l.push(c));
    assert(t2.subrange(0, k.len() as int) =~= t.subrange(0, k.len() as int));
    assert(t2[k.len() as int] == t[k.len() as int]);
}

proof fn lemma_next_index_first(s: Seq<char>, c: char, i: int, k: int)
    requires
        0 <= i <= k <= s.len(),
        forall|j: int| i <= j < k ==> s[j] != c,
        k == s.len() || s[k] == c,
    ensures
        crate::text::next_index_of(s, c, i) == k,
    decreases k - i,
{
    if i < k {
        lemma_next_index_first(s, c, i + 1, k);
    }
}

proof fn lemma_next_index_shift(p: Seq<char>, y: Seq<char>, c: char, k: int)
    requires
        0 <= k <= y.len(),
    ensures
        crate::text::next_index_of(p + y, c, p.len() + k) == p.len() + crate::text::next_index_of(
            y,
            c,
            k,
        ),
    decreases y.len() - k,
{
    if k < y.len() {
        assert((p + y)[p.len() + k] == y[k]);
        lemma_next_index_shift(p, y, c, k + 1);
    }
}

proof fn lemma_extract_shift(p: Seq<char>, y: Seq<char>, k: nat)
    requires
        k <= y.len(),
    ensures
        extract_from(p + y, p.len() + k) == extract_from(y, k),
    decreases y.len() - k,
{
    let x = p + y;
    crate::text::lemma_next_index_of(y, '\n', k as int);
    lemma_next_index_shift(p, y, '\n', k as int);
    let e = crate::text::next_index_of(y, '\n', k as int);
    assert(x.subrange((p.len() + k) as int, p.len() + e) =~= y.subrange(k as int, e));
    if e < y.len() {
        lemma_extract_shift(p, y, (e + 1) as nat);
        assert((p.len() + e + 1) as nat == p.len() + (e + 1) as nat);
    }
}

proof fn lemma_removed_from(s: Seq<char>, pos: nat)
    ensures
        extract_from(remove_from(s, pos), 0) == ScanView::Absent,
    decreases s.len() - pos,
{
    if pos >= s.len() {
        let x = remove_from(s, pos);
        assert(x.len() == 0);
        assert(crate::text::next_index_of(x, '\n', 0) == 0);
        assert(x.subrange(0, 0) =~= Seq::<char>::empty());
        assert(!declares_api_token(Seq::<char>::empty()));
    } else {
        crate::text::lemma_next_index_of(s, '\n', pos as int);
        let e = crate::text::next_index_of(s, '\n', pos as int);
        let end = if e < s.len() { e + 1 } else { s.len() as int };
        let piece = s.subrange(pos as int, end);
        let rest = remove_from(s, end as nat);
        lemma_removed_from(s, end as nat);
        if declares_api_token(piece) {
            assert(remove_from(s, pos) =~= rest);
        } else {
            let x = piece + rest;
            assert(remove_from(s, pos) == x);
            let l = s.subrange(pos as int, e);
            assert forall|j: int| 0 <= j < l.len() implies x[j] != '\n' by {
                assert(x[j] == s[pos + j]);
            }
            if e < s.len() {
                assert(piece =~= l.push('\n'));
                assert(x[l.len() as int] == '\n');
                lemma_next_index_first(x, '\n', 0, l.len() as int);
                assert(x.subrange(0, l.len() as int) =~= l);
                if declares_api_token(l) {
                    lemma_declares_push(l, '\n');
                }
                assert(classify_line(l) is None);
                lemma_extract_shift(piece, rest, 0);
                assert(piece.len() + 0 == l.len() + 1);
            } else {
                assert(rest =~= Seq::<char>::empty());
                assert(x =~= l);
                lemma_next_index_first(x, '\n', 0, x.len() as int);
                assert(x.subrange(0, x.len() as int) =~= x);
            }
        }
    }
}

proof fn lemma_remove_shift(p: Seq<char>, y: Seq<char>, k: nat)
    requires
        k <= y.len(),
    ensures
        remove_from(p + y, p.len() + k) == remove_from(y, k),
    decreases y.len() - k,
{
    let x = p + y;
    if k < y.len() {
        crate::text::lemma_next_index_of(y, '\n', k as int);
        lemma_next_index_shift(p, y, '\n', k as int);
        let e = crate::text::next_index_of(y, '\n', k as int);
        let end = if e < y.len() { e + 1 } else { y.len() as int };
        assert(x.subrange((p.len() + k) as int, p.len() + end) =~= y.subrange(k as int, end));
        lemma_remove_shift(p, y, end as nat);
        assert((p.len() + end) as nat == p.len() + end as nat);
    }
}

proof fn lemma_remove_twice(s: Seq<char>, pos: nat)
    ensures
        remove_from(remove_from(s, pos), 0) == remove_from(s, pos),
    decreases s.len() - pos,
{
    if pos < s.len() {
        crate::text::lemma_next_index_of(s, '\n', pos as int);
        let e = crate::text::next_index_of(s, '\n', pos as int);
        let end = if e < s.len() { e + 1 } else { s.len() as int };
        let piece = s.subrange(pos as int, end);
        let rest = remove_from(s, end as nat);
        lemma_remove_twice(s, end as nat);
        if !declares_api_token(piece) {
            let x = piece + rest;
            assert(remove_from(s, pos) == x);
            let l = s.subrange(pos as int, e);
            assert forall|j: int| 0 <= j < l.len() implies x[j] != '\n' by {
                assert(x[j] == s[pos + j]);
            }
            if e < s.len() {
                assert(x[l.len() as int] == '\n');
                lemma_next_index_first(x, '\n', 0, l.len() as int);
                assert(x.subrange(0, piece.len() as int) =~= piece);
                lemma_remove_shift(piece, rest, 0);
                assert(piece.len() + 0 == piece.len());
                assert(remove_from(x, 0) == piece + remove_from(rest, 0));
            } else {
                assert(rest =~= Seq::<char>::empty());
                assert(x =~= piece);
                lemma_next_index_first(x, '\n', 0, x.len() as int);
                assert(x.subrange(0, x.len() as int) =~= x);
                assert(remove_from(x, x.len()) =~= Seq::<char>::empty());
                assert(remove_from(x, 0) =~= x);
            }
        }
    }
}

/// Removing the `api_token` lines a second time changes nothing: the rewrite
/// is idempotent.
pub proof fn removing_twice_is_removing_once(content: Seq<char>)
    ensures
        remove_from(remove_from(content, 0), 0) == remove_from(content, 0),
{
    lemma_remove_twice(content, 0);
}

/// Once the `api_token` lines are removed, scanning the result finds no token:
/// no plaintext copy of the token is left in the rewritten file, and a second
/// `migrate` on that file has nothing to do.
pub proof fn removed_file_has_no_token(content: Seq<char>)
    ensures
        extract_from(remove_from(content, 0), 0) == ScanView::Absent,
{
    lemma_removed_from(content, 0);
}

} // verus!

verus! {

/// The answer to a yes/no question: an empty line takes the default, any
/// other line is yes exactly when its first character is `y` or `Y`.
pub open spec fn answer_is_yes(line: Seq<char>, default_yes: bool) -> bool {
    let t = crate::text::trim_spec(line);
    if t.len() == 0 {
        default_yes
    } else {
        crate::text::ascii_lower_char(t[0]) == 'y'
    }
}

/// Read a yes/no answer from the line the user typed.
pub fn parse_answer(line: &str, default_yes: bool) -> (r: bool)
    ensures
        r == answer_is_yes(line@, default_yes),
{
    let t = trim(line);
    if t.unicode_len() == 0 {
        default_yes
    } else {
        let c = t.get_char(0);
        c == 'y' || c == 'Y'
    }
}

/// The error for a failed read or write on the terminal: `failed to <what>: <detail>`.
pub fn io_failure(what: &str, detail: &str) -> (r: crate::error::AppError)
    ensures
        r is Config,
        r->Config_0@ == "failed to "@ + what@ + ": "@ + detail@,
{
    let mut m = String::from_str("failed to ");
    m.append(what);
    m.append(": ");
    m.append(detail);
    crate::error::AppError::Config(m)
}

} // verus!

verus! {

/// What the caller does next in a `credentials` command.
pub enum CredAction {
    /// Read the secret: from a line of stdin, or by prompting with `prompt`
    /// without echo.
    ReadSecret { from_stdin: bool, prompt: String },
    /// Store `value` under `key` in the credential store.
    StoreSet { key: &'static str, value: String },
    /// Delete `key` from the credential store.
    StoreDelete { key: &'static str },
    /// Look `key` up in the credential store.
    StoreGet { key: &'static str },
    /// Find the first `credentials.toml` of the search path and read it.
    FindToml,
    /// Print `prompt` and read the answer line.
    Confirm { prompt: &'static str },
    /// Replace the credentials file with `content`, atomically.
    RewriteToml { content: String },
    /// Write a backup of the credentials file holding `content`.
    WriteBackup { content: String },
    /// Remove the backup that was written.
    RemoveBackup,
    /// The command is over, with this outcome.
    Finish(Result<(), crate::error::AppError>),
}

/// What came of the last action.
pub enum CredEvent {
    /// The command starts.
    Begin,
    /// The secret that was read, or the error reading it.
    Secret(Result<String, crate::error::AppError>),
    /// The outcome of a store write or delete.
    Stored(Result<(), crate::config::credential_store::StoreError>),
    /// The outcome of a store lookup.
    Fetched(Result<Option<String>, crate::config::credential_store::StoreError>),
    /// The credentials file found, as displayed, with its text or the text of
    /// the read error; `None` when there is none.
    Toml(Option<(String, Result<String, String>)>),
    /// The line the user answered, or the error reading it.
    Answer(Result<String, crate::error::AppError>),
    /// The outcome of rewriting the credentials file (the error's text).
    Rewritten(Result<(), String>),
    /// The backup written (its path as displayed), or its path and the
    /// error's text.
    BackupWritten(Result<String, (String, String)>),
    /// An action whose outcome is not looked at was done.
    Done,
}

/// Where a `credentials` command stands.
pub enum CredState {
    Start(crate::cli::credentials::CredentialsCommand),
    SetReading { key: &'static str, from_stdin: bool },
    SetStoring { key: &'static str },
    Deleting { key: &'static str },
    Checking,
    Finding { dry_run: bool },
    Confirming { display: String, file_text: String, secret: String },
    StoringToken { display: String, file_text: String },
    Disposing { display: String, file_text: String },
    BackingUp { display: String, file_text: String },
    Rewriting { display: String, backup: Option<String> },
    RemovingBackup { error: crate::error::AppError },
    RollingBack { error: crate::error::AppError },
    Finished,
}

/// One step: the new state, the lines to print first, and the next action.
pub struct CredStep {
    pub state: CredState,
    pub lines: Vec<String>,
    pub action: CredAction,
}

/// An error as the flow sees it: the text of the errors it composes, or the
/// error it was handed.
pub enum ErrorView {
    Config(Seq<char>),
    InvalidInput(Seq<char>),
    Other(crate::error::AppError),
}

pub open spec fn err_view(e: crate::error::AppError) -> ErrorView {
    match e {
        crate::error::AppError::Config(m) => ErrorView::Config(m@),
        crate::error::AppError::InvalidInput(m) => ErrorView::InvalidInput(m@),
        other => ErrorView::Other(other),
    }
}

pub enum ActionView {
    ReadSecret { from_stdin: bool, prompt: Seq<char> },
    StoreSet { key: Seq<char>, value: Seq<char> },
    StoreDelete { key: Seq<char> },
    StoreGet { key: Seq<char> },
    FindToml,
    Confirm { prompt: Seq<char> },
    RewriteToml { content: Seq<char> },
    WriteBackup { content: Seq<char> },
    RemoveBackup,
    Finish(Result<(), ErrorView>),
}

pub enum EventView {
    Begin,
    Secret(Result<Seq<char>, ErrorView>),
    Stored(Result<(), Seq<char>>),
    Fetched(Result<bool, Seq<char>>),
    Toml(Option<(Seq<char>, Result<Seq<char>, Seq<char>>)>),
    Answer(Result<Seq<char>, ErrorView>),
    Rewritten(Result<(), Seq<char>>),
    BackupWritten(Result<Seq<char>, (Seq<char>, Seq<char>)>),
    Done,
}

pub enum StateView {
    Start(crate::cli::credentials::CredentialsCommand),
    SetReading { key: Seq<char>, from_stdin: bool },
    SetStoring { key: Seq<char> },
    Deleting { key: Seq<char> },
    Checking,
    Finding { dry_run: bool },
    Confirming { display: Seq<char>, file_text: Seq<char>, secret: Seq<char> },
    StoringToken { display: Seq<char>, file_text: Seq<char> },
    Disposing { display: Seq<char>, file_text: Seq<char> },
    BackingUp { display: Seq<char>, file_text: Seq<char> },
    Rewriting { display: Seq<char>, backup: Option<Seq<char>> },
    RemovingBackup { error: ErrorView },
    RollingBack { error: ErrorView },
    Finished,
}

impl CredAction {
    pub open spec fn view(&self) -> ActionView {
        match self {
            CredAction::ReadSecret { from_stdin, prompt } => ActionView::ReadSecret {
                from_stdin: *from_stdin,
                prompt: prompt@,
            },
            CredAction::StoreSet { key, value } => ActionView::StoreSet { key: key@, value: value@ },
            CredAction::StoreDelete { key } => ActionView::StoreDelete { key: key@ },
            CredAction::StoreGet { key } => ActionView::StoreGet { key: key@ },
            CredAction::FindToml => ActionView::FindToml,
            CredAction::Confirm { prompt } => ActionView::Confirm { prompt: prompt@ },
            CredAction::RewriteToml { content } => ActionView::RewriteToml { content: content@ },
            CredAction::WriteBackup { content } => ActionView::WriteBackup { content: content@ },
            CredAction::RemoveBackup => ActionView::RemoveBackup,
            CredAction::Finish(Ok(())) => ActionView::Finish(Ok(())),
            CredAction::Finish(Err(e)) => ActionView::Finish(Err(err_view(*e))),
        }
    }
}

impl CredEvent {
    pub open spec fn view(&self) -> EventView {
        match self {
            CredEvent::Begin => EventView::Begin,
            CredEvent::Secret(Ok(s)) => EventView::Secret(Ok(s@)),
            CredEvent::Secret(Err(e)) => EventView::Secret(Err(err_view(*e))),
            CredEvent::Stored(Ok(())) => EventView::Stored(Ok(())),
            CredEvent::Stored(Err(e)) => EventView::Stored(Err(e.text())),
            CredEvent::Fetched(Ok(v)) => EventView::Fetched(Ok(v is Some)),
            CredEvent::Fetched(Err(e)) => EventView::Fetched(Err(e.text())),
            CredEvent::Toml(None) => EventView::Toml(None),
            CredEvent::Toml(Some((d, Ok(c)))) => EventView::Toml(Some((d@, Ok(c@)))),
            CredEvent::Toml(Some((d, Err(x)))) => EventView::Toml(Some((d@, Err(x@)))),
            CredEvent::Answer(Ok(l)) => EventView::Answer(Ok(l@)),
            CredEvent::Answer(Err(e)) => EventView::Answer(Err(err_view(*e))),
            CredEvent::Rewritten(Ok(())) => EventView::Rewritten(Ok(())),
            CredEvent::Rewritten(Err(t)) => EventView::Rewritten(Err(t@)),
            CredEvent::BackupWritten(Ok(b)) => EventView::BackupWritten(Ok(b@)),
            CredEvent::BackupWritten(Err((b, t))) => EventView::BackupWritten(Err((b@, t@))),
            CredEvent::Done => EventView::Done,
        }
    }
}

impl CredState {
    pub open spec fn view(&self) -> StateView {
        match self {
            CredState::Start(c) => StateView::Start(*c),
            CredState::SetReading { key, from_stdin } => StateView::SetReading {
                key: key@,
                from_stdin: *from_stdin,
            },
            CredState::SetStoring { key } => StateView::SetStoring { key: key@ },
            CredState::Deleting { key } => StateView::Deleting { key: key@ },
            CredState::Checking => StateView::Checking,
            CredState::Finding { dry_run } => StateView::Finding { dry_run: *dry_run },
            CredState::Confirming { display, file_text, secret } => StateView::Confirming {
                display: display@,
                file_text: file_text@,
                secret: secret@,
            },
            CredState::StoringToken { display, file_text } => StateView::StoringToken {
                display: display@,
                file_text: file_text@,
            },
            CredState::Disposing { display, file_text } => StateView::Disposing {
                display: display@,
                file_text: file_text@,
            },
            CredState::BackingUp { display, file_text } => StateView::BackingUp {
                display: display@,
                file_text: file_text@,
            },
            CredState::Rewriting { display, backup } => StateView::Rewriting {
                display: display@,
                backup: match backup {
                    Some(b) => Some(b@),
                    None => None,
                },
            },
            CredState::RemovingBackup { error } => StateView::RemovingBackup { error: err_view(*error) },
            CredState::RollingBack { error } => StateView::RollingBack { error: err_view(*error) },
            CredState::Finished => StateView::Finished,
        }
    }
}

pub open spec fn status_header_text() -> Seq<char> {
    "Credential store: macOS Keychain (service=dev.cloudapps-cli)"@
}

pub open spec fn status_note_text() -> Seq<char> {
    "One or more entries could not be accessed. This usually means a Keychain ACL change (often triggered by a `cargo install` rebuild that changed the binary's code signature). See the README section \"Credential storage\" -> \"Notes on Keychain prompts\" for how to re-grant access via Keychain Access.app."@
}

pub open spec fn no_toml_text() -> Seq<char> {
    "no credentials.toml found in search path. Use `cloudapps-cli credentials set api-token` to store the token directly."@
}

pub open spec fn proceed_prompt() -> Seq<char> {
    "Proceed with migration? [y/N] "@
}

pub open spec fn disposal_prompt() -> Seq<char> {
    "Remove the api_token line from credentials.toml? (recommended \u{2014} no plaintext copy remains) [Y/n] "@
}

pub open spec fn backup_warning_text() -> Seq<char> {
    "This backup STILL CONTAINS THE PLAINTEXT API TOKEN. A backup under $HOME is typically included in Time Machine / iCloud / rsync snapshots and defeats the entire point of moving the secret into the Keychain. DELETE IT as soon as you have confirmed the new setup works with `cloudapps-cli credentials status`."@
}

/// The step of a `credentials` command from a state and the outcome of the
/// last action: the next state, the lines printed, and the next action. An
/// event that does not answer the last action ends the command.
pub open spec fn step_spec(s: StateView, e: EventView) -> (StateView, Seq<Seq<char>>, ActionView) {
    let api = crate::config::credential_store::KEY_API_TOKEN@;
    match s {
        StateView::Start(cmd) => match cmd {
            crate::cli::credentials::CredentialsCommand::SetValue { field, stdin } => (
                StateView::SetReading { key: api, from_stdin: stdin },
                Seq::empty(),
                ActionView::ReadSecret {
                    from_stdin: stdin,
                    prompt: "Enter "@ + api + " (input hidden): "@,
                },
            ),
            crate::cli::credentials::CredentialsCommand::Delete { .. } => (
                StateView::Deleting { key: api },
                Seq::empty(),
                ActionView::StoreDelete { key: api },
            ),
            crate::cli::credentials::CredentialsCommand::Status => (
                StateView::Checking,
                seq![status_header_text()],
                ActionView::StoreGet { key: api },
            ),
            crate::cli::credentials::CredentialsCommand::Migrate { dry_run } => (
                StateView::Finding { dry_run },
                Seq::empty(),
                ActionView::FindToml,
            ),
        },
        StateView::SetReading { key, from_stdin } => match e {
            EventView::Secret(Err(err)) => (
                StateView::Finished,
                Seq::empty(),
                ActionView::Finish(Err(err)),
            ),
            EventView::Secret(Ok(raw)) => {
                let value = if from_stdin {
                    crate::text::trim_spec(raw)
                } else {
                    raw
                };
                if from_stdin && value.len() == 0 {
                    (
                        StateView::Finished,
                        Seq::empty(),
                        ActionView::Finish(Err(ErrorView::InvalidInput("empty value from stdin"@))),
                    )
                } else if value.len() == 0 {
                    (
                        StateView::Finished,
                        Seq::empty(),
                        ActionView::Finish(Err(ErrorView::InvalidInput("empty value"@))),
                    )
                } else {
                    (
                        StateView::SetStoring { key },
                        Seq::empty(),
                        ActionView::StoreSet { key, value },
                    )
                }
            },
            _ => (StateView::Finished, Seq::empty(), ActionView::Finish(Ok(()))),
        },
        StateView::SetStoring { key } => match e {
            EventView::Stored(Err(t)) => (
                StateView::Finished,
                Seq::empty(),
                ActionView::Finish(Err(ErrorView::Config(t))),
            ),
            EventView::Stored(Ok(())) => (
                StateView::Finished,
                seq![
                    "Stored "@ + key + " in credential store"@,
                    "Verify with: cloudapps-cli credentials status"@,
                ],
                ActionView::Finish(Ok(())),
            ),
            _ => (StateView::Finished, Seq::empty(), ActionView::Finish(Ok(()))),
        },
        StateView::Deleting { key } => match e {
            EventView::Stored(Err(t)) => (
                StateView::Finished,
                Seq::empty(),
                ActionView::Finish(Err(ErrorView::Config(t))),
            ),
            EventView::Stored(Ok(())) => (
                StateView::Finished,
                seq!["Deleted "@ + key + " from credential store"@],
                ActionView::Finish(Ok(())),
            ),
            _ => (StateView::Finished, Seq::empty(), ActionView::Finish(Ok(()))),
        },
        StateView::Checking => match e {
            EventView::Fetched(Ok(present)) => (
                StateView::Finished,
                seq![
                    if present {
                        "  "@ + api + " : stored"@
                    } else {
                        "  "@ + api + " : not stored"@
                    },
                ],
                ActionView::Finish(Ok(())),
            ),
            EventView::Fetched(Err(t)) => (
                StateView::Finished,
                seq!["  "@ + api + " : error ("@ + t + ")"@, Seq::empty(), status_note_text()],
                ActionView::Finish(Ok(())),
            ),
            _ => (StateView::Finished, Seq::empty(), ActionView::Finish(Ok(()))),
        },
        StateView::Finding { dry_run } => match e {
            EventView::Toml(None) => (
                StateView::Finished,
                Seq::empty(),
                ActionView::Finish(Err(ErrorView::Config(no_toml_text()))),
            ),
            EventView::Toml(Some((d, Err(x)))) => (
                StateView::Finished,
                seq!["Found credentials.toml: "@ + d],
                ActionView::Finish(Err(ErrorView::Config("failed to read "@ + d + ": "@ + x))),
            ),
            EventView::Toml(Some((d, Ok(c)))) => {
                let found = "Found credentials.toml: "@ + d;
                match extract_from(c, 0) {
                    ScanView::Absent => (
                        StateView::Finished,
                        seq![
                            found,
                            "  api_token: not present (nothing to migrate)"@,
                            Seq::empty(),
                            "If you meant to store a token, use: cloudapps-cli credentials set api-token"@,
                        ],
                        ActionView::Finish(Ok(())),
                    ),
                    ScanView::Unsupported(reason) => (
                        StateView::Finished,
                        seq![found],
                        ActionView::Finish(
                            Err(
                                ErrorView::Config(
                                    "refusing to migrate: api_token uses an unsupported quote form ("@
                                        + reason
                                        + "). Rewrite it as a normal double-quoted string first."@,
                                ),
                            ),
                        ),
                    ),
                    ScanView::Present(secret) => if dry_run {
                        (
                            StateView::Finished,
                            seq![
                                found,
                                "  api_token: present (will migrate)"@,
                                Seq::empty(),
                                "(dry-run) Would write api_token to Keychain and remove the line from the toml."@,
                            ],
                            ActionView::Finish(Ok(())),
                        )
                    } else {
                        (
                            StateView::Confirming { display: d, file_text: c, secret },
                            seq![found, "  api_token: present (will migrate)"@, Seq::empty()],
                            ActionView::Confirm { prompt: proceed_prompt() },
                        )
                    },
                }
            },
            _ => (StateView::Finished, Seq::empty(), ActionView::Finish(Ok(()))),
        },
        StateView::Confirming { display, file_text, secret } => match e {
            EventView::Answer(Err(err)) => (
                StateView::Finished,
                Seq::empty(),
                ActionView::Finish(Err(err)),
            ),
            EventView::Answer(Ok(line)) => if answer_is_yes(line, false) {
                (
                    StateView::StoringToken { display, file_text },
                    Seq::empty(),
                    ActionView::StoreSet { key: api, value: secret },
                )
            } else {
                (StateView::Finished, seq!["Aborted."@], ActionView::Finish(Ok(())))
            },
            _ => (StateView::Finished, Seq::empty(), ActionView::Finish(Ok(()))),
        },
        StateView::StoringToken { display, file_text } => match e {
            EventView::Stored(Err(t)) => (
                StateView::Finished,
                Seq::empty(),
                ActionView::Finish(Err(ErrorView::Config("keychain write failed: "@ + t))),
            ),
            EventView::Stored(Ok(())) => (
                StateView::Disposing { display, file_text },
                seq!["Wrote api_token to Keychain."@],
                ActionView::Confirm { prompt: disposal_prompt() },
            ),
            _ => (StateView::Finished, Seq::empty(), ActionView::Finish(Ok(()))),
        },
        StateView::Disposing { display, file_text } => match e {
            EventView::Answer(Err(err)) => (
                StateView::Finished,
                Seq::empty(),
                ActionView::Finish(Err(err)),
            ),
            EventView::Answer(Ok(line)) => if answer_is_yes(line, true) {
                (
                    StateView::Rewriting { display, backup: None },
                    Seq::empty(),
                    ActionView::RewriteToml { content: remove_from(file_text, 0) },
                )
            } else {
                (
                    StateView::BackingUp { display, file_text },
                    Seq::empty(),
                    ActionView::WriteBackup { content: file_text },
                )
            },
            _ => (StateView::Finished, Seq::empty(), ActionView::Finish(Ok(()))),
        },
        StateView::BackingUp { display, file_text } => match e {
            EventView::BackupWritten(Err((b, t))) => (
                StateView::RollingBack {
                    error: ErrorView::Config(
                        "failed to write backup "@ + b + " (rolled back Keychain entry): "@ + t,
                    ),
                },
                Seq::empty(),
                ActionView::StoreDelete { key: api },
            ),
            EventView::BackupWritten(Ok(b)) => (
                StateView::Rewriting { display, backup: Some(b) },
                Seq::empty(),
                ActionView::RewriteToml { content: remove_from(file_text, 0) },
            ),
            _ => (StateView::Finished, Seq::empty(), ActionView::Finish(Ok(()))),
        },
        StateView::Rewriting { display, backup } => match e {
            EventView::Rewritten(Err(t)) => match backup {
                None => (
                    StateView::RollingBack {
                        error: ErrorView::Config(
                            "failed to rewrite "@ + display + " (rolled back Keychain entry): "@ + t,
                        ),
                    },
                    Seq::empty(),
                    ActionView::StoreDelete { key: api },
                ),
                Some(_) => (
                    StateView::RemovingBackup {
                        error: ErrorView::Config(
                            "failed to rewrite "@ + display
                                + " (rolled back Keychain entry and removed backup): "@ + t,
                        ),
                    },
                    Seq::empty(),
                    ActionView::RemoveBackup,
                ),
            },
            EventView::Rewritten(Ok(())) => match backup {
                None => (
                    StateView::Finished,
                    seq![
                        "Removed api_token line from "@ + display
                            + " (no plaintext copy remains on disk)."@,
                    ],
                    ActionView::Finish(Ok(())),
                ),
                Some(b) => (
                    StateView::Finished,
                    seq![
                        Seq::empty(),
                        "WARNING: a backup copy of the original toml has been written to:"@,
                        "  "@ + b,
                        backup_warning_text(),
                    ],
                    ActionView::Finish(Ok(())),
                ),
            },
            _ => (StateView::Finished, Seq::empty(), ActionView::Finish(Ok(()))),
        },
        StateView::RemovingBackup { error } => (
            StateView::RollingBack { error },
            Seq::empty(),
            ActionView::StoreDelete { key: api },
        ),
        StateView::RollingBack { error } => (
            StateView::Finished,
            Seq::empty(),
            ActionView::Finish(Err(error)),
        ),
        StateView::Finished => (StateView::Finished, Seq::empty(), ActionView::Finish(Ok(()))),
    }
}

} // verus!

verus! {

fn one_line(l: String) -> (r: Vec<String>)
    ensures
        r@.map_values(|x: String| x@) == seq![l@],
{
    let ghost lv = l@;
    let mut v: Vec<String> = Vec::new();
    v.push(l);
    assert(v@.map_values(|x: String| x@) =~= seq![lv]);
    v
}

fn no_lines() -> (r: Vec<String>)
    ensures
        r@.map_values(|x: String| x@) == Seq::<Seq<char>>::empty(),
{
    let v: Vec<String> = Vec::new();
    assert(v@.map_values(|x: String| x@) =~= Seq::<Seq<char>>::empty());
    v
}

fn finished(lines: Vec<String>, outcome: Result<(), crate::error::AppError>) -> (r: CredStep)
    ensures
        r.state == CredState::Finished,
        r.lines == lines,
        r.action == CredAction::Finish(outcome),
{
    CredStep { state: CredState::Finished, lines, action: CredAction::Finish(outcome) }
}

} // verus!

verus! {

/// The views of a step's parts, to compare with [`step_spec`].
pub open spec fn step_view(r: CredStep) -> (StateView, Seq<Seq<char>>, ActionView) {
    (r.state.view(), r.lines@.map_values(|l: String| l@), r.action.view())
}

fn start_step(cmd: crate::cli::credentials::CredentialsCommand, event: CredEvent) -> (r: CredStep)
    ensures
        step_view(r) == step_spec(StateView::Start(cmd), event.view()),
{
    match cmd {
        crate::cli::credentials::CredentialsCommand::SetValue { field, stdin } => {
            let key = field.key();
            let mut prompt = String::from_str("Enter ");
            prompt.append(key);
            prompt.append(" (input hidden): ");
            CredStep {
                state: CredState::SetReading { key, from_stdin: stdin },
                lines: no_lines(),
                action: CredAction::ReadSecret { from_stdin: stdin, prompt },
            }
        },
        crate::cli::credentials::CredentialsCommand::Delete { field, .. } => {
            let key = field.key();
            CredStep {
                state: CredState::Deleting { key },
                lines: no_lines(),
                action: CredAction::StoreDelete { key },
            }
        },
        crate::cli::credentials::CredentialsCommand::Status => {
            let key = crate::config::credential_store::KEY_API_TOKEN;
            CredStep {
                state: CredState::Checking,
                lines: one_line(
                    String::from_str("Credential store: macOS Keychain (service=dev.cloudapps-cli)"),
                ),
                action: CredAction::StoreGet { key },
            }
        },
        crate::cli::credentials::CredentialsCommand::Migrate { dry_run } => {
            CredStep {
                state: CredState::Finding { dry_run },
                lines: no_lines(),
                action: CredAction::FindToml,
            }
        },
    }
}

fn set_reading_step(key: &'static str, from_stdin: bool, event: CredEvent) -> (r: CredStep)
    ensures
        step_view(r) == step_spec(StateView::SetReading { key: key@, from_stdin }, event.view()),
{
    match event {
        CredEvent::Secret(Err(e)) => finished(no_lines(), Err(e)),
        CredEvent::Secret(Ok(raw)) => {
            let value = if from_stdin {
                String::from_str(trim(raw.as_str()))
            } else {
                raw
            };
            if from_stdin && value.as_str().unicode_len() == 0 {
                finished(
                    no_lines(),
                    Err(crate::error::AppError::InvalidInput(String::from_str("empty value from stdin"))),
                )
            } else if value.as_str().unicode_len() == 0 {
                finished(
                    no_lines(),
                    Err(crate::error::AppError::InvalidInput(String::from_str("empty value"))),
                )
            } else {
                CredStep {
                    state: CredState::SetStoring { key },
                    lines: no_lines(),
                    action: CredAction::StoreSet { key, value },
                }
            }
        },
        _ => finished(no_lines(), Ok(())),
    }
}

fn store_outcome_step(key: &'static str, deleting: bool, event: CredEvent) -> (r: CredStep)
    ensures
        deleting ==> step_view(r) == step_spec(StateView::Deleting { key: key@ }, event.view()),
        !deleting ==> step_view(r) == step_spec(StateView::SetStoring { key: key@ }, event.view()),
{
    match event {
        CredEvent::Stored(Err(e)) => finished(no_lines(), Err(crate::error::AppError::Config(e.message()))),
        CredEvent::Stored(Ok(())) => {
            if deleting {
                let mut l = String::from_str("Deleted ");
                l.append(key);
                l.append(" from credential store");
                finished(one_line(l), Ok(()))
            } else {
                let mut l = String::from_str("Stored ");
                l.append(key);
                l.append(" in credential store");
                let ghost l1 = l@;
                let mut lines: Vec<String> = Vec::new();
                lines.push(l);
                lines.push(String::from_str("Verify with: cloudapps-cli credentials status"));
                assert(lines@.map_values(|x: String| x@) =~= seq![
                    l1,
                    "Verify with: cloudapps-cli credentials status"@,
                ]);
                finished(lines, Ok(()))
            }
        },
        _ => finished(no_lines(), Ok(())),
    }
}

fn checking_step(event: CredEvent) -> (r: CredStep)
    ensures
        step_view(r) == step_spec(StateView::Checking, event.view()),
{
    let key = crate::config::credential_store::KEY_API_TOKEN;
    match event {
        CredEvent::Fetched(Ok(v)) => {
            let mut l = String::from_str("  ");
            l.append(key);
            if v.is_some() {
                l.append(" : stored");
            } else {
                l.append(" : not stored");
            }
            finished(one_line(l), Ok(()))
        },
        CredEvent::Fetched(Err(e)) => {
            let mut l = String::from_str("  ");
            l.append(key);
            l.append(" : error (");
            let m = e.message();
            l.append(m.as_str());
            l.append(")");
            let ghost l1 = l@;
            let mut lines: Vec<String> = Vec::new();
            lines.push(l);
            lines.push(String::new());
            lines.push(
                String::from_str(
                    "One or more entries could not be accessed. This usually means a Keychain ACL change (often triggered by a `cargo install` rebuild that changed the binary's code signature). See the README section \"Credential storage\" -> \"Notes on Keychain prompts\" for how to re-grant access via Keychain Access.app.",
                ),
            );
            assert(lines@.map_values(|x: String| x@) =~= seq![
                l1,
                Seq::<char>::empty(),
                status_note_text(),
            ]);
            finished(lines, Ok(()))
        },
        _ => finished(no_lines(), Ok(())),
    }
}

} // verus!

verus! {

fn finding_step(dry_run: bool, event: CredEvent) -> (r: CredStep)
    ensures
        step_view(r) == step_spec(StateView::Finding { dry_run }, event.view()),
{
    match event {
        CredEvent::Toml(None) => finished(
            no_lines(),
            Err(
                crate::error::AppError::Config(
                    String::from_str(
                        "no credentials.toml found in search path. Use `cloudapps-cli credentials set api-token` to store the token directly.",
                    ),
                ),
            ),
        ),
        CredEvent::Toml(Some((d, Err(x)))) => {
            let mut found = String::from_str("Found credentials.toml: ");
            found.append(d.as_str());
            let mut m = String::from_str("failed to read ");
            m.append(d.as_str());
            m.append(": ");
            m.append(x.as_str());
            finished(one_line(found), Err(crate::error::AppError::Config(m)))
        },
        CredEvent::Toml(Some((d, Ok(c)))) => {
            let mut found = String::from_str("Found credentials.toml: ");
            found.append(d.as_str());
            let ghost fv = found@;
            match extract_api_token(c.as_str()) {
                SecretScan::Absent => {
                    let mut lines: Vec<String> = Vec::new();
                    lines.push(found);
                    lines.push(String::from_str("  api_token: not present (nothing to migrate)"));
                    lines.push(String::new());
                    lines.push(
                        String::from_str(
                            "If you meant to store a token, use: cloudapps-cli credentials set api-token",
                        ),
                    );
                    assert(lines@.map_values(|x: String| x@) =~= seq![
                        fv,
                        "  api_token: not present (nothing to migrate)"@,
                        Seq::<char>::empty(),
                        "If you meant to store a token, use: cloudapps-cli credentials set api-token"@,
                    ]);
                    finished(lines, Ok(()))
                },
                SecretScan::Unsupported(reason) => {
                    let mut m = String::from_str(
                        "refusing to migrate: api_token uses an unsupported quote form (",
                    );
                    m.append(reason);
                    m.append("). Rewrite it as a normal double-quoted string first.");
                    finished(one_line(found), Err(crate::error::AppError::Config(m)))
                },
                SecretScan::Present(secret) => {
                    let mut lines: Vec<String> = Vec::new();
                    lines.push(found);
                    lines.push(String::from_str("  api_token: present (will migrate)"));
                    lines.push(String::new());
                    if dry_run {
                        lines.push(
                            String::from_str(
                                "(dry-run) Would write api_token to Keychain and remove the line from the toml.",
                            ),
                        );
                        assert(lines@.map_values(|x: String| x@) =~= seq![
                            fv,
                            "  api_token: present (will migrate)"@,
                            Seq::<char>::empty(),
                            "(dry-run) Would write api_token to Keychain and remove the line from the toml."@,
                        ]);
                        finished(lines, Ok(()))
                    } else {
                        assert(lines@.map_values(|x: String| x@) =~= seq![
                            fv,
                            "  api_token: present (will migrate)"@,
                            Seq::<char>::empty(),
                        ]);
                        CredStep {
                            state: CredState::Confirming { display: d, file_text: c, secret },
                            lines,
                            action: CredAction::Confirm { prompt: "Proceed with migration? [y/N] " },
                        }
                    }
                },
            }
        },
        _ => finished(no_lines(), Ok(())),
    }
}

fn confirming_step(display: String, file_text: String, secret: String, event: CredEvent) -> (r:
    CredStep)
    ensures
        step_view(r) == step_spec(
            StateView::Confirming { display: display@, file_text: file_text@, secret: secret@ },
            event.view(),
        ),
{
    match event {
        CredEvent::Answer(Err(e)) => finished(no_lines(), Err(e)),
        CredEvent::Answer(Ok(line)) => {
            if parse_answer(line.as_str(), false) {
                CredStep {
                    state: CredState::StoringToken { display, file_text },
                    lines: no_lines(),
                    action: CredAction::StoreSet {
                        key: crate::config::credential_store::KEY_API_TOKEN,
                        value: secret,
                    },
                }
            } else {
                finished(one_line(String::from_str("Aborted.")), Ok(()))
            }
        },
        _ => finished(no_lines(), Ok(())),
    }
}

fn storing_token_step(display: String, file_text: String, event: CredEvent) -> (r: CredStep)
    ensures
        step_view(r) == step_spec(
            StateView::StoringToken { display: display@, file_text: file_text@ },
            event.view(),
        ),
{
    match event {
        CredEvent::Stored(Err(e)) => {
            let mut m = String::from_str("keychain write failed: ");
            let t = e.message();
            m.append(t.as_str());
            finished(no_lines(), Err(crate::error::AppError::Config(m)))
        },
        CredEvent::Stored(Ok(())) => CredStep {
            state: CredState::Disposing { display, file_text },
            lines: one_line(String::from_str("Wrote api_token to Keychain.")),
            action: CredAction::Confirm {
                prompt: "Remove the api_token line from credentials.toml? (recommended \u{2014} no plaintext copy remains) [Y/n] ",
            },
        },
        _ => finished(no_lines(), Ok(())),
    }
}

fn disposing_step(display: String, file_text: String, event: CredEvent) -> (r: CredStep)
    ensures
        step_view(r) == step_spec(
            StateView::Disposing { display: display@, file_text: file_text@ },
            event.view(),
        ),
{
    match event {
        CredEvent::Answer(Err(e)) => finished(no_lines(), Err(e)),
        CredEvent::Answer(Ok(line)) => {
            if parse_answer(line.as_str(), true) {
                let updated = remove_api_token_line(file_text.as_str());
                CredStep {
                    state: CredState::Rewriting { display, backup: None },
                    lines: no_lines(),
                    action: CredAction::RewriteToml { content: updated },
                }
            } else {
                let content = file_text.clone();
                CredStep {
                    state: CredState::BackingUp { display, file_text },
                    lines: no_lines(),
                    action: CredAction::WriteBackup { content },
                }
            }
        },
        _ => finished(no_lines(), Ok(())),
    }
}

fn backing_up_step(display: String, file_text: String, event: CredEvent) -> (r: CredStep)
    ensures
        step_view(r) == step_spec(
            StateView::BackingUp { display: display@, file_text: file_text@ },
            event.view(),
        ),
{
    match event {
        CredEvent::BackupWritten(Err((b, t))) => {
            let mut m = String::from_str("failed to write backup ");
            m.append(b.as_str());
            m.append(" (rolled back Keychain entry): ");
            m.append(t.as_str());
            CredStep {
                state: CredState::RollingBack { error: crate::error::AppError::Config(m) },
                lines: no_lines(),
                action: CredAction::StoreDelete { key: crate::config::credential_store::KEY_API_TOKEN },
            }
        },
        CredEvent::BackupWritten(Ok(b)) => {
            let updated = remove_api_token_line(file_text.as_str());
            CredStep {
                state: CredState::Rewriting { display, backup: Some(b) },
                lines: no_lines(),
                action: CredAction::RewriteToml { content: updated },
            }
        },
        _ => finished(no_lines(), Ok(())),
    }
}

fn rewriting_step(display: String, backup: Option<String>, event: CredEvent) -> (r: CredStep)
    ensures
        step_view(r) == step_spec(
            StateView::Rewriting {
                display: display@,
                backup: match backup {
                    Some(b) => Some(b@),
                    None => None,
                },
            },
            event.view(),
        ),
{
    match event {
        CredEvent::Rewritten(Err(t)) => {
            let mut m = String::from_str("failed to rewrite ");
            m.append(display.as_str());
            match backup {
                None => {
                    m.append(" (rolled back Keychain entry): ");
                    m.append(t.as_str());
                    CredStep {
                        state: CredState::RollingBack { error: crate::error::AppError::Config(m) },
                        lines: no_lines(),
                        action: CredAction::StoreDelete {
                            key: crate::config::credential_store::KEY_API_TOKEN,
                        },
                    }
                },
                Some(_) => {
                    m.append(" (rolled back Keychain entry and removed backup): ");
                    m.append(t.as_str());
                    CredStep {
                        state: CredState::RemovingBackup { error: crate::error::AppError::Config(m) },
                        lines: no_lines(),
                        action: CredAction::RemoveBackup,
                    }
                },
            }
        },
        CredEvent::Rewritten(Ok(())) => {
            match backup {
                None => {
                    let mut l = String::from_str("Removed api_token line from ");
                    l.append(display.as_str());
                    l.append(" (no plaintext copy remains on disk).");
                    finished(one_line(l), Ok(()))
                },
                Some(b) => {
                    let mut l = String::from_str("  ");
                    l.append(b.as_str());
                    let ghost lv = l@;
                    let mut lines: Vec<String> = Vec::new();
                    lines.push(String::new());
                    lines.push(
                        String::from_str(
                            "WARNING: a backup copy of the original toml has been written to:",
                        ),
                    );
                    lines.push(l);
                    lines.push(
                        String::from_str(
                            "This backup STILL CONTAINS THE PLAINTEXT API TOKEN. A backup under $HOME is typically included in Time Machine / iCloud / rsync snapshots and defeats the entire point of moving the secret into the Keychain. DELETE IT as soon as you have confirmed the new setup works with `cloudapps-cli credentials status`.",
                        ),
                    );
                    assert(lines@.map_values(|x: String| x@) =~= seq![
                        Seq::<char>::empty(),
                        "WARNING: a backup copy of the original toml has been written to:"@,
                        lv,
                        backup_warning_text(),
                    ]);
                    finished(lines, Ok(()))
                },
            }
        },
        _ => finished(no_lines(), Ok(())),
    }
}

/// One step of `credentials <action>`: from where the command stands and the
/// outcome of the last action, the lines to print and the next action. The
/// caller performs the action and hands its outcome back, until the action is
/// `Finish`. Start with `CredState::Start(command)` and `CredEvent::Begin`.
pub fn handle(state: CredState, event: CredEvent) -> (r: CredStep)
    ensures
        step_view(r) == step_spec(state.view(), event.view()),
{
    match state {
        CredState::Start(cmd) => start_step(cmd, event),
        CredState::SetReading { key, from_stdin } => set_reading_step(key, from_stdin, event),
        CredState::SetStoring { key } => store_outcome_step(key, false, event),
        CredState::Deleting { key } => store_outcome_step(key, true, event),
        CredState::Checking => checking_step(event),
        CredState::Finding { dry_run } => finding_step(dry_run, event),
        CredState::Confirming { display, file_text, secret } => confirming_step(
            display,
            file_text,
            secret,
            event,
        ),
        CredState::StoringToken { display, file_text } => storing_token_step(
            display,
            file_text,
            event,
        ),
        CredState::Disposing { display, file_text } => disposing_step(display, file_text, event),
        CredState::BackingUp { display, file_text } => backing_up_step(display, file_text, event),
        CredState::Rewriting { display, backup } => rewriting_step(display, backup, event),
        CredState::RemovingBackup { error } => CredStep {
            state: CredState::RollingBack { error },
            lines: no_lines(),
            action: CredAction::StoreDelete { key: crate::config::credential_store::KEY_API_TOKEN },
        },
        CredState::RollingBack { error } => finished(no_lines(), Err(error)),
        CredState::Finished => finished(no_lines(), Ok(())),
    }
}

} // verus!

verus! {

/// Migration law: once the token is in the keychain, a failure to write the
/// backup or to rewrite the credentials file deletes the keychain entry again
/// (after removing a backup that was written) and ends with an error,
/// whatever the outcome of those clean-up steps.
pub proof fn failed_migration_rolls_back(
    display: Seq<char>,
    file_text: Seq<char>,
    backup: Seq<char>,
    text: Seq<char>,
    e1: EventView,
    e2: EventView,
)
    ensures
        ({
            let api = crate::config::credential_store::KEY_API_TOKEN@;
            let (s1, _, a1) = step_spec(
                StateView::BackingUp { display, file_text },
                EventView::BackupWritten(Err((backup, text))),
            );
            &&& a1 == ActionView::StoreDelete { key: api }
            &&& step_spec(s1, e1).2 is Finish && step_spec(s1, e1).2->Finish_0 is Err
        }),
        ({
            let api = crate::config::credential_store::KEY_API_TOKEN@;
            let (s1, _, a1) = step_spec(
                StateView::Rewriting { display, backup: None },
                EventView::Rewritten(Err(text)),
            );
            &&& a1 == ActionView::StoreDelete { key: api }
            &&& step_spec(s1, e1).2 is Finish && step_spec(s1, e1).2->Finish_0 is Err
        }),
        ({
            let api = crate::config::credential_store::KEY_API_TOKEN@;
            let (s1, _, a1) = step_spec(
                StateView::Rewriting { display, backup: Some(backup) },
                EventView::Rewritten(Err(text)),
            );
            let (s2, _, a2) = step_spec(s1, e1);
            &&& a1 == ActionView::RemoveBackup
            &&& a2 == ActionView::StoreDelete { key: api }
            &&& step_spec(s2, e2).2 is Finish && step_spec(s2, e2).2->Finish_0 is Err
        }),
{
}

/// Migration law: a dry run finishes right after reading the credentials
/// file, so it never writes the keychain or the file.
pub proof fn dry_run_changes_nothing(e: EventView)
    ensures
        step_spec(StateView::Finding { dry_run: true }, e).2 is Finish,
{
}

/// Migration law: the keychain is written only after a yes to the first
/// question, and an empty answer there is a no.
pub proof fn migration_needs_a_yes(display: Seq<char>, file_text: Seq<char>, secret: Seq<char>, line: Seq<char>)
    ensures
        step_spec(
            StateView::Confirming { display, file_text, secret },
            EventView::Answer(Ok(line)),
        ).2 is StoreSet <==> answer_is_yes(line, false),
        !answer_is_yes(Seq::empty(), false),
        answer_is_yes(Seq::empty(), true),
{
    assert(crate::text::trim_spec(Seq::empty()).len() == 0);
}

} // verus!

verus! {

/// Law of `credentials status`: the report depends only on whether a token
/// is stored, never on the token itself.
pub proof fn status_hides_the_token(a: String, b: String)
    ensures
        step_spec(StateView::Checking, CredEvent::Fetched(Ok(Some(a))).view()) == step_spec(
            StateView::Checking,
            CredEvent::Fetched(Ok(Some(b))).view(),
        ),
{
}

/// Law of `credentials status`: the report says `stored` when the lookup found
/// a token and `not stored` when it found none, so the two cases never read the
/// same; either way the command succeeds.
pub proof fn status_tells_stored_from_missing(t: String)
    ensures
        step_spec(StateView::Checking, CredEvent::Fetched(Ok(Some(t))).view()).1 == seq![
            "  api_token : stored"@,
        ],
        step_spec(StateView::Checking, CredEvent::Fetched(Ok(None)).view()).1 == seq![
            "  api_token : not stored"@,
        ],
        step_spec(StateView::Checking, CredEvent::Fetched(Ok(Some(t))).view()).1 != step_spec(
            StateView::Checking,
            CredEvent::Fetched(Ok(None)).view(),
        ).1,
        step_spec(StateView::Checking, CredEvent::Fetched(Ok(None)).view()).2 == ActionView::Finish(
            Ok(()),
        ),
        step_spec(StateView::Checking, CredEvent::Fetched(Ok(Some(t))).view()).2
            == ActionView::Finish(Ok(())),
{
    reveal_strlit("api_token");
    reveal_strlit("  ");
    reveal_strlit(" : stored");
    reveal_strlit(" : not stored");
    reveal_strlit("  api_token : stored");
    reveal_strlit("  api_token : not stored");
    let api = crate::config::credential_store::KEY_API_TOKEN@;
    assert("  "@ + api + " : stored"@ =~= "  api_token : stored"@);
    assert("  "@ + api + " : not stored"@ =~= "  api_token : not stored"@);
    assert("  api_token : stored"@.len() != "  api_token : not stored"@.len());
    assert(seq!["  api_token : stored"@][0] != seq!["  api_token : not stored"@][0]);
}

} // verus!

verus! {

/// The file name of the backup of a credentials file: its name followed by
/// `.bak.` and the Unix time in seconds.
pub fn backup_file_name(name: &str, unix_secs: u64) -> (r: String)
    ensures
        r@ == name@ + ".bak."@ + crate::text::decimal(unix_secs as nat),
{
    let mut r = String::from_str(name);
    r.append(".bak.");
    let d = crate::text::decimal_string(unix_secs);
    r.append(d.as_str());
    r
}

} // verus!
