use cloudapps::agent::handler::{
    build_cli_args, denial, dispatch_outcome, first_gate, handle_check, handle_dispatched, screen, AgentRequest,
    AuditResult, Gate, HandlerStep, Reply, Screening,
};
use cloudapps::error::AppError;
use cloudapps::agent::{
    choose_socket_path, generate_token, is_agent_socket_name, is_env_whitelisted, pid_file_path,
    pid_from_text, pid_socket_path, validate_credentials, vars_to_remove,
};
use cloudapps::auth::token::TokenAuth;
use cloudapps::auth::AuthProvider;
use cloudapps::config::CloudAppsCredentials;

#[test]
fn test_build_cli_args() {
    let req = AgentRequest {
        token: "token".to_string(),
        request_id: "req-1".to_string(),
        command: "alerts".to_string(),
        action: "list".to_string(),
        args: vec!["--severity".to_string(), "HIGH".to_string()],
    };
    let args = build_cli_args(&req);
    assert_eq!(args, vec!["cloudapps", "alerts", "list", "--severity", "HIGH"]);
}

#[test]
fn test_is_env_whitelisted_exact_match() {
    assert!(is_env_whitelisted("HOME"));
    assert!(is_env_whitelisted("PATH"));
    assert!(is_env_whitelisted("RUST_LOG"));
    assert!(is_env_whitelisted("SSL_CERT_FILE"));
    assert!(is_env_whitelisted("http_proxy"));
}

#[test]
fn test_is_env_whitelisted_prefix_match() {
    assert!(is_env_whitelisted("LC_ALL"));
    assert!(is_env_whitelisted("LC_CTYPE"));
    assert!(is_env_whitelisted("LC_MESSAGES"));
}

#[test]
fn test_is_env_whitelisted_rejects_secrets() {
    assert!(!is_env_whitelisted("CLOUDAPPS_API_TOKEN"));
    assert!(!is_env_whitelisted("CLOUDAPPS_API_URL"));
    assert!(!is_env_whitelisted("GITHUB_TOKEN"));
    assert!(!is_env_whitelisted("SLACK_BOT_TOKEN"));
    assert!(!is_env_whitelisted("AWS_SECRET_ACCESS_KEY"));
    assert!(!is_env_whitelisted("DATABASE_URL"));
}

#[test]
fn sanitising_removes_exactly_the_unlisted_names() {
    let names = vec![
        "HOME".to_string(),
        "CLOUDAPPS_API_TOKEN".to_string(),
        "LC_ALL".to_string(),
        "GITHUB_TOKEN".to_string(),
    ];
    assert_eq!(vars_to_remove(&names), vec!["CLOUDAPPS_API_TOKEN", "GITHUB_TOKEN"]);
}

#[test]
fn test_validate_credentials_delegates_to_cloudapps_credentials() {
    let creds = CloudAppsCredentials {
        api_url: Some("https://example.com".to_string()),
        api_token: Some("token".to_string()),
    };
    assert!(validate_credentials(&creds).is_ok());

    let empty = CloudAppsCredentials::default();
    assert!(validate_credentials(&empty).is_err());
}

#[test]
fn test_token_auth_valid() {
    let auth = TokenAuth::new("test-token".to_string()).unwrap();
    assert_eq!(auth.token().unwrap(), "test-token");
}

#[test]
fn test_token_auth_empty() {
    let result = TokenAuth::new(String::new());
    assert!(result.is_err());
}

#[test]
fn session_token_is_64_lowercase_hex_digits() {
    let a = generate_token();
    let b = generate_token();
    assert_eq!(a.len(), 64);
    assert!(a.chars().all(|c| c.is_ascii_digit() || ('a'..='f').contains(&c)));
    assert_ne!(a, b);
}

#[test]
fn socket_and_pid_paths() {
    assert_eq!(pid_socket_path("/run/user/1/cloudapps-agent", 42), "/run/user/1/cloudapps-agent/cloudapps-42.sock");
    assert_eq!(pid_file_path("/tmp/cloudapps-agent/cloudapps-42.sock"), "/tmp/cloudapps-agent/cloudapps-42.pid");
    assert!(is_agent_socket_name("cloudapps-42.sock"));
    assert!(!is_agent_socket_name("cloudapps.sock"));
    assert!(!is_agent_socket_name("other-1.sock"));
}

#[test]
fn socket_path_prefers_env_then_single_socket() {
    assert_eq!(
        choose_socket_path(Some("/s".to_string()), vec!["/d/cloudapps-1.sock".to_string()], "/d"),
        "/s"
    );
    assert_eq!(choose_socket_path(None, vec!["/d/cloudapps-1.sock".to_string()], "/d"), "/d/cloudapps-1.sock");
    assert_eq!(
        choose_socket_path(None, vec!["/d/cloudapps-1.sock".to_string(), "/d/cloudapps-2.sock".to_string()], "/d"),
        "/d/cloudapps.sock"
    );
    assert_eq!(choose_socket_path(None, vec![], "/d/"), "/d/cloudapps.sock");
}

#[test]
fn pid_file_text_parses_like_u32() {
    assert_eq!(pid_from_text("1234\n"), Some(1234));
    assert_eq!(pid_from_text(" +7 "), Some(7));
    assert_eq!(pid_from_text("4294967295"), Some(u32::MAX));
    assert_eq!(pid_from_text("4294967296"), None);
    assert_eq!(pid_from_text(""), None);
    assert_eq!(pid_from_text("+"), None);
    assert_eq!(pid_from_text("12a"), None);
    assert_eq!(pid_from_text("-1"), None);
}

#[test]
fn screening_checks_gates_in_order() {
    let mut gate = first_gate();
    assert_eq!(gate, Gate::Token);
    let mut seen = vec![gate];
    loop {
        match screen(gate, true) {
            Screening::Check(next) => {
                seen.push(next);
                gate = next;
            }
            Screening::Dispatch => break,
            Screening::Deny { .. } => panic!("passed gate denied"),
        }
    }
    assert_eq!(seen, vec![Gate::Token, Gate::CommandName, Gate::ActionName, Gate::Whitelist, Gate::RateLimit]);
    match screen(Gate::Token, false) {
        Screening::Deny { audit_reason, client_error } => {
            assert_eq!(audit_reason, "invalid token");
            assert_eq!(client_error, "authentication failed");
        }
        _ => panic!("expected a denial"),
    }
    match screen(Gate::Whitelist, false) {
        Screening::Deny { audit_reason, client_error } => {
            assert_eq!(audit_reason, "command not whitelisted");
            assert_eq!(client_error, "command not allowed");
        }
        _ => panic!("expected a denial"),
    }
}

#[test]
fn replies_follow_the_outcome() {
    match denial(screen(Gate::RateLimit, false)) {
        Some((AuditResult::Denied(a), Reply::Denied(c))) => {
            assert_eq!(a, "rate limited");
            assert_eq!(c, "rate limited");
        }
        _ => panic!("expected a denial"),
    }
    assert!(denial(Screening::Dispatch).is_none());
    match dispatch_outcome(Ok("out".to_string())) {
        (AuditResult::Allowed, Reply::Success(o)) => assert_eq!(o, "out"),
        _ => panic!("expected success"),
    }
    match dispatch_outcome(Err(AppError::Config("x".to_string()))) {
        (AuditResult::Error(a), Reply::Error(m)) => {
            assert_eq!(a, "configuration error: x");
            assert_eq!(m, "configuration error: x");
        }
        _ => panic!("expected an error reply"),
    }
}

fn request(id: &str, command: &str) -> AgentRequest {
    AgentRequest {
        token: "valid-token".to_string(),
        request_id: id.to_string(),
        command: command.to_string(),
        action: "list".to_string(),
        args: vec![],
    }
}

fn denied_at(req: &AgentRequest, gate: Gate) -> (String, &'static str, &'static str) {
    match handle_check(req, gate, false) {
        HandlerStep::Respond(entry, response) => {
            assert_eq!(entry.request_id, req.request_id);
            assert_eq!(entry.command, req.command);
            assert_eq!(entry.action, req.action);
            let a = match entry.result {
                AuditResult::Denied(a) => a,
                _ => panic!("expected a denial in the audit entry"),
            };
            let c = match response.reply {
                Reply::Denied(c) => c,
                _ => panic!("expected a denied reply"),
            };
            (response.request_id, a, c)
        }
        _ => panic!("expected a response"),
    }
}

#[test]
fn handler_denies_a_wrong_token_and_echoes_the_request_id() {
    let req = request("req-1", "alerts");
    assert_eq!(
        denied_at(&req, first_gate()),
        ("req-1".to_string(), "invalid token", "authentication failed")
    );
}

#[test]
fn handler_denies_each_failed_check_with_its_texts() {
    let req = request("req-7", "files");
    assert_eq!(denied_at(&req, Gate::CommandName), ("req-7".to_string(), "invalid command name", "invalid command"));
    assert_eq!(denied_at(&req, Gate::ActionName), ("req-7".to_string(), "invalid action name", "invalid command"));
    assert_eq!(denied_at(&req, Gate::Whitelist), ("req-7".to_string(), "command not whitelisted", "command not allowed"));
    assert_eq!(denied_at(&req, Gate::RateLimit), ("req-7".to_string(), "rate limited", "rate limited"));
}

#[test]
fn handler_runs_the_checks_in_order_then_dispatches() {
    let mut req = request("req-2", "alerts");
    req.args = vec!["--severity".to_string(), "HIGH".to_string()];
    let mut gate = first_gate();
    let mut seen = vec![gate];
    loop {
        match handle_check(&req, gate, true) {
            HandlerStep::Check(g) => {
                gate = g;
                seen.push(g);
            }
            HandlerStep::Dispatch(args) => {
                assert_eq!(args, vec!["cloudapps", "alerts", "list", "--severity", "HIGH"]);
                break;
            }
            HandlerStep::Respond(..) => panic!("no check failed"),
        }
    }
    assert_eq!(seen, vec![Gate::Token, Gate::CommandName, Gate::ActionName, Gate::Whitelist, Gate::RateLimit]);
}

#[test]
fn handler_answers_a_dispatched_request() {
    let req = request("req-3", "alerts");
    let (entry, response) = handle_dispatched(&req, Ok("out".to_string()));
    assert_eq!(entry.request_id, "req-3");
    assert!(matches!(entry.result, AuditResult::Allowed));
    assert_eq!(response.request_id, "req-3");
    assert!(matches!(response.reply, Reply::Success(ref o) if o == "out"));
    let (entry, response) = handle_dispatched(&req, Err(AppError::InvalidInput("bad".to_string())));
    assert!(matches!(entry.result, AuditResult::Error(ref m) if m == "invalid input: bad"));
    assert_eq!(response.request_id, "req-3");
    assert!(matches!(response.reply, Reply::Error(ref m) if m == "invalid input: bad"));
}
