//! Request handling of the agent: the security gates a request passes
//! before it is dispatched, and the command line it is turned into.

use vstd::prelude::*;
use vstd::string::*;

verus! {

/// A request sent to the agent over its socket.
#[derive(Debug, Clone)]
pub struct AgentRequest {
    pub token: String,
    pub request_id: String,
    pub command: String,
    pub action: String,
    pub args: Vec<String>,
}

/// The views of a list of strings.
pub open spec fn strings_view(v: Seq<String>) -> Seq<Seq<char>> {
    v.map_values(|s: String| s@)
}

/// Build the command line for a request: `cloudapps <command> <action> args...`.
pub fn build_cli_args(request: &AgentRequest) -> (r: Vec<String>)
    ensures
        strings_view(r@) == seq!["cloudapps"@, request.command@, request.action@] + strings_view(
            request.args@,
        ),
{
    let mut args: Vec<String> = Vec::new();
    args.push(String::from_str("cloudapps"));
    args.push(request.command.clone());
    args.push(request.action.clone());
    let mut i: usize = 0;
    while i < request.args.len()
        invariant
            i <= request.args.len(),
            strings_view(args@) == seq!["cloudapps"@, request.command@, request.action@]
                + strings_view(request.args@.take(i as int)),
        decreases request.args.len() - i,
    {
        let ghost before = args@;
        args.push(request.args[i].clone());
        assert(strings_view(args@) =~= strings_view(before).push(request.args@[i as int]@));
        assert(request.args@.take(i + 1) =~= request.args@.take(i as int).push(request.args@[i as int]));
        assert(strings_view(request.args@.take(i + 1)) =~= strings_view(request.args@.take(i as int)).push(request.args@[i as int]@));
        i = i + 1;
    }
    assert(request.args@.take(request.args.len() as int) =~= request.args@);
    args
}

/// The checks a request passes, in order, before it is dispatched.
#[derive(Debug, Clone, Copy, PartialEq, Eq, Structural)]
pub enum Gate {
    /// The session token matches (compared in constant time).
    Token,
    /// The command name is well formed.
    CommandName,
    /// The action name is well formed.
    ActionName,
    /// The command is on the whitelist.
    Whitelist,
    /// The rate limiter grants a slot.
    RateLimit,
}

/// What to do next with a request.
#[derive(Debug, Clone, Copy)]
pub enum Screening {
    /// Run this check next.
    Check(Gate),
    /// Refuse the request: the reason goes to the audit log, the error to the client.
    Deny { audit_reason: &'static str, client_error: &'static str },
    /// All checks passed: dispatch the command.
    Dispatch,
}

/// The check after a passed one.
pub open spec fn next_gate(gate: Gate) -> Option<Gate> {
    match gate {
        Gate::Token => Some(Gate::CommandName),
        Gate::CommandName => Some(Gate::ActionName),
        Gate::ActionName => Some(Gate::Whitelist),
        Gate::Whitelist => Some(Gate::RateLimit),
        Gate::RateLimit => None,
    }
}

/// The audit reason and the client error of a failed check.
pub open spec fn denial_texts(gate: Gate) -> (Seq<char>, Seq<char>) {
    match gate {
        Gate::Token => ("invalid token"@, "authentication failed"@),
        Gate::CommandName => ("invalid command name"@, "invalid command"@),
        Gate::ActionName => ("invalid action name"@, "invalid command"@),
        Gate::Whitelist => ("command not whitelisted"@, "command not allowed"@),
        Gate::RateLimit => ("rate limited"@, "rate limited"@),
    }
}

/// The first check of every request.
pub fn first_gate() -> (r: Gate)
    ensures
        r == Gate::Token,
{
    Gate::Token
}

/// The decision after a check: deny with that check's texts when it failed,
/// otherwise go on to the next check, or dispatch after the last one.
pub fn screen(gate: Gate, passed: bool) -> (r: Screening)
    ensures
        !passed ==> (r matches Screening::Deny { audit_reason, client_error } && audit_reason@
            == denial_texts(gate).0 && client_error@ == denial_texts(gate).1),
        passed ==> match next_gate(gate) {
            Some(g) => r matches Screening::Check(x) && x == g,
            None => r is Dispatch,
        },
{
    if !passed {
        match gate {
            Gate::Token => Screening::Deny {
                audit_reason: "invalid token",
                client_error: "authentication failed",
            },
            Gate::CommandName => Screening::Deny {
                audit_reason: "invalid command name",
                client_error: "invalid command",
            },
            Gate::ActionName => Screening::Deny {
                audit_reason: "invalid action name",
                client_error: "invalid command",
            },
            Gate::Whitelist => Screening::Deny {
                audit_reason: "command not whitelisted",
                client_error: "command not allowed",
            },
            Gate::RateLimit => Screening::Deny {
                audit_reason: "rate limited",
                client_error: "rate limited",
            },
        }
    } else {
        match gate {
            Gate::Token => Screening::Check(Gate::CommandName),
            Gate::CommandName => Screening::Check(Gate::ActionName),
            Gate::ActionName => Screening::Check(Gate::Whitelist),
            Gate::Whitelist => Screening::Check(Gate::RateLimit),
            Gate::RateLimit => Screening::Dispatch,
        }
    }
}

/// The number of checks before `gate` in the screening order.
pub open spec fn gate_index(gate: Gate) -> nat {
    match gate {
        Gate::Token => 0,
        Gate::CommandName => 1,
        Gate::ActionName => 2,
        Gate::Whitelist => 3,
        Gate::RateLimit => 4,
    }
}

/// The screening order runs through all five checks exactly once, starting
/// with the token and ending with the rate limiter: the rate limiter is only
/// consulted (and a slot only taken) once every other check has passed, and a
/// request is dispatched only after the rate limiter passed.
pub proof fn screening_order(g: Gate)
    ensures
        next_gate(g) matches Some(n) ==> gate_index(n) == gate_index(g) + 1,
        next_gate(g) is None <==> g == Gate::RateLimit,
        gate_index(g) == 0 <==> g == Gate::Token,
        gate_index(g) < 5,
{
}

} // verus!

verus! {

/// What the audit log records for a request.
pub enum AuditResult {
    Allowed,
    Denied(&'static str),
    Error(String),
}

/// What the agent answers a request with.
pub enum Reply {
    /// The request was refused; the message says why, tersely.
    Denied(&'static str),
    /// The command ran; its captured output.
    Success(String),
    /// The command failed; the error's message.
    Error(String),
}

/// The audit entry and the reply for a request that a check refused.
pub fn denial(screening: Screening) -> (r: Option<(AuditResult, Reply)>)
    ensures
        match screening {
            Screening::Deny { audit_reason, client_error } => r matches Some(
                (AuditResult::Denied(a), Reply::Denied(c)),
            ) && a == audit_reason && c == client_error,
            _ => r is None,
        },
{
    match screening {
        Screening::Deny { audit_reason, client_error } => Some(
            (AuditResult::Denied(audit_reason), Reply::Denied(client_error)),
        ),
        _ => None,
    }
}

/// The audit entry and the reply for a dispatched request: its output on
/// success, else the error's message (the client is already authenticated,
/// so the detail is returned).
pub fn dispatch_outcome(result: Result<String, crate::error::AppError>) -> (r: (AuditResult, Reply))
    ensures
        result is Ok ==> r.0 == AuditResult::Allowed && r.1 == Reply::Success(result->Ok_0),
        result is Err ==> (r.0 matches AuditResult::Error(a) && (r.1 matches Reply::Error(m) && a@
            == m@ && (result->Err_0.composed_message() matches Some(t) ==> m@ == t))),
{
    match result {
        Ok(out) => (AuditResult::Allowed, Reply::Success(out)),
        Err(e) => {
            let m = e.message();
            let a = m.clone();
            (AuditResult::Error(a), Reply::Error(m))
        },
    }
}

/// The audit log's record of one request.
pub struct AuditEntry {
    pub request_id: String,
    pub command: String,
    pub action: String,
    pub result: AuditResult,
}

/// The agent's answer to one request: the request's id and the reply.
pub struct AgentResponse {
    pub request_id: String,
    pub reply: Reply,
}

/// The audit entry and the response belong to `request`: both carry its id,
/// and the entry its command and action.
pub open spec fn belongs_to(request: AgentRequest, entry: AuditEntry, response: AgentResponse) -> bool {
    &&& entry.request_id@ == request.request_id@
    &&& entry.command@ == request.command@
    &&& entry.action@ == request.action@
    &&& response.request_id@ == request.request_id@
}

/// Where handling a request stands after a check.
pub enum HandlerStep {
    /// Run this check next.
    Check(Gate),
    /// Every check passed: run this command line.
    Dispatch(Vec<String>),
    /// The request is answered: one audit entry and the response.
    Respond(AuditEntry, AgentResponse),
}

fn answer(request: &AgentRequest, outcome: (AuditResult, Reply)) -> (r: (AuditEntry, AgentResponse))
    ensures
        belongs_to(*request, r.0, r.1),
        r.0.result == outcome.0,
        r.1.reply == outcome.1,
{
    let (result, reply) = outcome;
    (
        AuditEntry {
            request_id: request.request_id.clone(),
            command: request.command.clone(),
            action: request.action.clone(),
            result,
        },
        AgentResponse { request_id: request.request_id.clone(), reply },
    )
}

/// Handling a request after the outcome of check `gate`: a failed check
/// answers the request at once, denied with that check's texts; a passed one
/// leads to the next check, or after the last one (the rate limiter) to the
/// command line to dispatch. Checks run from [`first_gate`]; the caller runs
/// each check only when this step asks for it, so the rate limiter takes a
/// slot only when every other check has passed.
pub fn handle_check(request: &AgentRequest, gate: Gate, passed: bool) -> (r: HandlerStep)
    ensures
        !passed ==> (r matches HandlerStep::Respond(entry, response) && belongs_to(
            *request,
            entry,
            response,
        ) && (entry.result matches AuditResult::Denied(a) && a@ == denial_texts(gate).0) && (
        response.reply matches Reply::Denied(c) && c@ == denial_texts(gate).1)),
        passed ==> match next_gate(gate) {
            Some(g) => r matches HandlerStep::Check(x) && x == g,
            None => r matches HandlerStep::Dispatch(args) && strings_view(args@) == seq![
                "cloudapps"@,
                request.command@,
                request.action@,
            ] + strings_view(request.args@),
        },
{
    let s = screen(gate, passed);
    match s {
        Screening::Check(g) => HandlerStep::Check(g),
        Screening::Dispatch => HandlerStep::Dispatch(build_cli_args(request)),
        Screening::Deny { audit_reason, client_error } => {
            let (entry, response) = answer(
                request,
                (AuditResult::Denied(audit_reason), Reply::Denied(client_error)),
            );
            HandlerStep::Respond(entry, response)
        },
    }
}

/// The answer to a dispatched request, from what running its command line
/// gave: allowed with the output, or an error with the error's message.
pub fn handle_dispatched(request: &AgentRequest, result: Result<String, crate::error::AppError>) -> (r: (
    AuditEntry,
    AgentResponse,
))
    ensures
        belongs_to(*request, r.0, r.1),
        result is Ok ==> r.0.result == AuditResult::Allowed && r.1.reply == Reply::Success(
            result->Ok_0,
        ),
        result is Err ==> (r.0.result matches AuditResult::Error(a) && (r.1.reply matches Reply::Error(
            m,
        ) && a@ == m@ && (result->Err_0.composed_message() matches Some(t) ==> m@ == t))),
{
    let outcome = dispatch_outcome(result);
    answer(request, outcome)
}

} // verus!
