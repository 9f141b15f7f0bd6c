//! Routing a command through the agent: the command line it is sent as.

use vstd::prelude::*;
use vstd::string::*;
use crate::cli::Commands;
use crate::text::{str_eq, starts_with};
use crate::agent::handler::strings_view;

verus! {

/// Where the scan of the process arguments stands.
pub struct ArgScan {
    pub skip_next: bool,
    pub found_command: bool,
    pub action: Seq<char>,
    pub extra: Seq<Seq<char>>,
}

/// Whether an argument is an agent-only flag, which the agent must not see:
/// `--socket` and `--token`, alone or in the `--flag=value` form.
pub open spec fn is_agent_flag(arg: Seq<char>) -> bool {
    ||| arg == "--socket"@
    ||| arg == "--token"@
    ||| crate::text::starts_with_spec(arg, "--socket="@)
    ||| crate::text::starts_with_spec(arg, "--token="@)
}

/// One step of the scan: an agent-only flag and the value after it are
/// skipped; the command name itself is dropped; the first argument after it
/// is the action (while the action is still empty); every other argument,
/// before the command name or after the action (global flags such as
/// `--output table` among them), is passed on in order.
pub open spec fn scan_step(st: ArgScan, arg: Seq<char>, name: Seq<char>) -> ArgScan {
    if st.skip_next {
        ArgScan { skip_next: false, ..st }
    } else if is_agent_flag(arg) {
        ArgScan { skip_next: arg == "--socket"@ || arg == "--token"@, ..st }
    } else if !st.found_command {
        if arg == name {
            ArgScan { found_command: true, ..st }
        } else {
            ArgScan { extra: st.extra.push(arg), ..st }
        }
    } else if st.action.len() == 0 {
        ArgScan { action: arg, ..st }
    } else {
        ArgScan { extra: st.extra.push(arg), ..st }
    }
}

/// The scan of `args[1..i]` (the program name is not scanned).
pub open spec fn scan_args(args: Seq<Seq<char>>, name: Seq<char>, i: int) -> ArgScan
    decreases i,
{
    if i <= 1 {
        ArgScan { skip_next: false, found_command: false, action: Seq::empty(), extra: Seq::empty() }
    } else {
        scan_step(scan_args(args, name, i - 1), args[i - 1], name)
    }
}

/// Extract the command name, the action and the remaining arguments of a
/// command from the process arguments, for routing through the agent. Global
/// flags such as `--output` and `--raw` are kept; only the agent-only flags
/// `--socket` and `--token` (with their values) are removed.
pub fn extract_command_args(command: &Commands, argv: &Vec<String>) -> (r: (
    String,
    String,
    Vec<String>,
))
    ensures
        r.0@ == command.name_spec(),
        r.1@ == scan_args(strings_view(argv@), command.name_spec(), argv@.len() as int).action,
        strings_view(r.2@) == scan_args(
            strings_view(argv@),
            command.name_spec(),
            argv@.len() as int,
        ).extra,
{
    let name = command.name();
    let ghost view = strings_view(argv@);
    let mut skip_next = false;
    let mut found = false;
    let mut action = String::new();
    let mut extra: Vec<String> = Vec::new();
    let n = argv.len();
    let mut i: usize = 1;
    if n == 0 {
        return (String::from_str(name), action, extra);
    }
    assert(strings_view(extra@) =~= Seq::<Seq<char>>::empty());
    while i < n
        invariant
            n == argv.len(),
            1 <= i <= n,
            view == strings_view(argv@),
            name@ == command.name_spec(),
            scan_args(view, name@, i as int) == (ArgScan {
                skip_next,
                found_command: found,
                action: action@,
                extra: strings_view(extra@),
            }),
        decreases n - i,
    {
        let arg = argv[i].as_str();
        assert(view[i as int] == argv@[i as int]@);
        let ghost ex = extra@;
        if skip_next {
            skip_next = false;
        } else if str_eq(arg, "--socket") || str_eq(arg, "--token") || starts_with(arg, "--socket=")
            || starts_with(arg, "--token=") {
            skip_next = str_eq(arg, "--socket") || str_eq(arg, "--token");
        } else if !found {
            if str_eq(arg, name) {
                found = true;
            } else {
                extra.push(String::from_str(arg));
                assert(strings_view(extra@) =~= strings_view(ex).push(arg@));
            }
        } else if action.as_str().unicode_len() == 0 {
            action = String::from_str(arg);
        } else {
            extra.push(String::from_str(arg));
            assert(strings_view(extra@) =~= strings_view(ex).push(arg@));
        }
        i = i + 1;
    }
    (String::from_str(name), action, extra)
}

} // verus!

verus! {

/// What a parsed command line leads to.
#[derive(Debug, Clone, Copy, PartialEq, Eq, Structural)]
pub enum Route {
    /// No subcommand: print the help.
    ShowHelp,
    /// `agent ...`: start, stop or query the agent.
    Agent,
    /// `--help-for-ai`: print the AI-oriented help of the command.
    HelpForAi,
    /// A session token was given: send the command to the agent.
    ThroughAgent,
    /// Call the API directly.
    Direct,
}

/// The route of a command line: the agent subcommand first, then
/// `--help-for-ai`, then `--token`, else direct execution.
pub open spec fn route_of(cli: crate::cli::Cli) -> Route {
    match cli.command {
        None => Route::ShowHelp,
        Some(Commands::Agent { .. }) => Route::Agent,
        Some(_) => if cli.help_for_ai {
            Route::HelpForAi
        } else if cli.token is Some {
            Route::ThroughAgent
        } else {
            Route::Direct
        },
    }
}

/// Decide how a command line is run.
pub fn route(cli: &crate::cli::Cli) -> (r: Route)
    ensures
        r == route_of(*cli),
{
    match &cli.command {
        None => Route::ShowHelp,
        Some(Commands::Agent { .. }) => Route::Agent,
        Some(_) => if cli.help_for_ai {
            Route::HelpForAi
        } else if cli.token.is_some() {
            Route::ThroughAgent
        } else {
            Route::Direct
        },
    }
}

pub open spec fn url_missing_text() -> Seq<char> {
    "API URL not set. Use --api-url or CLOUDAPPS_API_URL."@
}

pub open spec fn token_missing_text() -> Seq<char> {
    "API token not set. Set CLOUDAPPS_API_TOKEN environment variable."@
}

/// The API URL and authentication of direct execution: the URL from
/// `--api-url`, else `CLOUDAPPS_API_URL`; the token from `CLOUDAPPS_API_TOKEN`
/// (`env_url` and `env_token` are the variables' values, `None` when unset).
pub fn direct_settings(cli_url: Option<&str>, env_url: Option<String>, env_token: Option<String>) -> (r:
    Result<(String, crate::auth::token::TokenAuth), crate::error::AppError>)
    ensures
        ({
            let url = crate::config::first_of(
                match cli_url {
                    Some(c) => Some(c@),
                    None => None,
                },
                crate::config::opt_view(env_url),
            );
            if url is None {
                r matches Err(e) && e is Config && e->Config_0@ == url_missing_text()
            } else if env_token is None {
                r matches Err(e) && e is Auth && e->Auth_0@ == token_missing_text()
            } else if env_token->Some_0@.len() == 0 {
                r matches Err(e) && e is Auth && e->Auth_0@
                    == crate::auth::token::empty_token_message()
            } else {
                r matches Ok((u, a)) && Some(u@) == url && a.value() == env_token->Some_0@
            }
        }),
{
    let url = match crate::config::resolve_value(cli_url, env_url) {
        Some(u) => u,
        None => {
            return Err(
                crate::error::AppError::Config(
                    String::from_str("API URL not set. Use --api-url or CLOUDAPPS_API_URL."),
                ),
            );
        },
    };
    let token = match env_token {
        Some(t) => t,
        None => {
            return Err(
                crate::error::AppError::Auth(
                    String::from_str(
                        "API token not set. Set CLOUDAPPS_API_TOKEN environment variable.",
                    ),
                ),
            );
        },
    };
    match crate::auth::token::TokenAuth::new(token) {
        Ok(a) => Ok((url, a)),
        Err(e) => Err(e),
    }
}

} // verus!

verus! {

/// Routing law: neither the action nor any argument sent to the agent is an
/// agent-only flag (`--socket`, `--token`, or their `=value` forms).
pub proof fn agent_flags_are_never_forwarded(args: Seq<Seq<char>>, name: Seq<char>, i: int)
    ensures
        !is_agent_flag(scan_args(args, name, i).action) || scan_args(args, name, i).action.len()
            == 0,
        forall|j: int|
            0 <= j < scan_args(args, name, i).extra.len() ==> !is_agent_flag(
                #[trigger] scan_args(args, name, i).extra[j],
            ),
    decreases i,
{
    if i > 1 {
        agent_flags_are_never_forwarded(args, name, i - 1);
        let before = scan_args(args, name, i - 1);
        let after = scan_args(args, name, i);
        if !before.skip_next && !is_agent_flag(args[i - 1]) && (!before.found_command
            || before.action.len() != 0) {
            assert forall|j: int| 0 <= j < after.extra.len() implies !is_agent_flag(
                #[trigger] after.extra[j],
            ) by {
                if j < before.extra.len() {
                    assert(after.extra[j] == before.extra[j]);
                }
            }
        }
    }
}

/// Routing law: the value that follows a bare `--socket` or `--token` is
/// dropped with the flag. Scanning the flag (at position `k`, where it is not
/// itself a skipped value) and the argument after it leaves the action, the
/// forwarded arguments and whether the command was seen exactly as they were.
pub proof fn agent_flag_values_are_never_forwarded(args: Seq<Seq<char>>, name: Seq<char>, k: int)
    requires
        1 <= k,
        k + 1 < args.len(),
        args[k] == "--socket"@ || args[k] == "--token"@,
        !scan_args(args, name, k).skip_next,
    ensures
        scan_args(args, name, k + 2).action == scan_args(args, name, k).action,
        scan_args(args, name, k + 2).extra == scan_args(args, name, k).extra,
        scan_args(args, name, k + 2).found_command == scan_args(args, name, k).found_command,
        !scan_args(args, name, k + 2).skip_next,
{
    let before = scan_args(args, name, k);
    assert(scan_args(args, name, k + 1) == scan_step(before, args[k], name));
    assert(scan_args(args, name, k + 2) == scan_step(scan_args(args, name, k + 1), args[k + 1], name));
}

} // verus!
