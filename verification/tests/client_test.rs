use cloudapps::client::{is_success_status, status_error, Pager, DEFAULT_PAGE_LIMIT};
use cloudapps::dispatch::{direct_settings, extract_command_args, route, Route};
use cloudapps::cli::{Cli, Commands};
use cloudapps::cli::alerts::AlertsCommand;
use cloudapps::error::AppError;
use cloudapps::models::filter::FilterRequest;
use cloudapps::output::OutputFormat;
use cloudapps::auth::AuthProvider;

#[test]
fn pager_starts_from_the_filter() {
    let p = Pager::start(&FilterRequest::new());
    assert_eq!((p.skip, p.limit), (0, DEFAULT_PAGE_LIMIT));
    let p = Pager::start(&FilterRequest::new().with_skip(5).with_limit(20));
    assert_eq!((p.skip, p.limit), (5, 20));
}

#[test]
fn pager_advances_by_items_received_and_stops() {
    let p = Pager::start(&FilterRequest::new().with_limit(2));
    let mut f = FilterRequest::new();
    p.apply(&mut f);
    assert_eq!((f.skip, f.limit), (Some(0), Some(2)));
    let p = p.next(2, true).unwrap();
    assert_eq!(p.skip, 2);
    let p = p.next(1, true).unwrap();
    assert_eq!(p.skip, 3);
    assert!(p.next(1, false).is_none());
    assert!(p.next(0, true).is_none());
}

fn cli(command: Option<Commands>, token: Option<&str>, help_for_ai: bool) -> Cli {
    Cli {
        command,
        api_url: None,
        output: OutputFormat::Json,
        raw: false,
        verbose: false,
        help_for_ai,
        socket: None,
        token: token.map(String::from),
        no_agent: false,
    }
}

#[test]
fn routes_in_priority_order() {
    assert_eq!(route(&cli(None, Some("t"), true)), Route::ShowHelp);
    let alerts = || Some(Commands::Alerts { command: Some(AlertsCommand::MarkRead { ids: vec![] }) });
    assert_eq!(route(&cli(alerts(), Some("t"), true)), Route::HelpForAi);
    assert_eq!(route(&cli(alerts(), Some("t"), false)), Route::ThroughAgent);
    assert_eq!(route(&cli(alerts(), None, false)), Route::Direct);
}

#[test]
fn direct_execution_needs_url_and_token() {
    match direct_settings(None, None, Some("t".to_string())) {
        Err(AppError::Config(m)) => assert_eq!(m, "API URL not set. Use --api-url or CLOUDAPPS_API_URL."),
        _ => panic!("expected a config error"),
    }
    match direct_settings(Some("https://a"), None, None) {
        Err(AppError::Auth(m)) => assert_eq!(m, "API token not set. Set CLOUDAPPS_API_TOKEN environment variable."),
        _ => panic!("expected an auth error"),
    }
    assert!(matches!(direct_settings(Some("https://a"), None, Some(String::new())), Err(AppError::Auth(_))));
    let (url, auth) = direct_settings(None, Some("https://env".to_string()), Some("tok".to_string())).unwrap();
    assert_eq!(url, "https://env");
    assert_eq!(auth.token().unwrap(), "tok");
}

#[test]
fn agent_routing_strips_only_agent_flags() {
    let command = Commands::Alerts { command: Some(AlertsCommand::MarkRead { ids: vec![] }) };
    let argv: Vec<String> = ["cloudapps", "--token", "secret", "--output=table", "alerts", "list", "--severity", "HIGH", "--socket=/s"]
        .iter()
        .map(|s| s.to_string())
        .collect();
    let (name, action, args) = extract_command_args(&command, &argv);
    assert_eq!(name, "alerts");
    assert_eq!(action, "list");
    assert_eq!(args, vec!["--output=table", "--severity", "HIGH"]);
}

#[test]
fn global_flags_before_the_command_are_forwarded() {
    let command = Commands::Alerts { command: None };
    let argv: Vec<String> = ["cloudapps-cli", "--output", "table", "alerts", "list"].iter().map(|s| s.to_string()).collect();
    let (name, action, args) = extract_command_args(&command, &argv);
    assert_eq!(name, "alerts");
    assert_eq!(action, "list");
    assert_eq!(args, vec!["--output", "table"]);
}

#[test]
fn response_status_decides_the_error() {
    assert!(is_success_status(200));
    assert!(is_success_status(204));
    assert!(!is_success_status(199));
    assert!(!is_success_status(300));
    assert!(matches!(status_error(429, "slow down".to_string()), AppError::RateLimited));
    match status_error(404, "not found".to_string()) {
        AppError::Api { status, message } => {
            assert_eq!(status, 404);
            assert_eq!(message, "not found");
        }
        e => panic!("expected Api, got {:?}", e),
    }
}
