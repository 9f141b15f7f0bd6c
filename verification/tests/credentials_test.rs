use cloudapps::cli::credentials::{CredentialField, CredentialsCommand};
use cloudapps::commands::credentials::{
    extract_api_token, handle, parse_answer, remove_api_token_line, CredAction, CredEvent,
    CredState, CredStep, SecretScan,
};
use cloudapps::config::credential_store::StoreError;
use cloudapps::error::AppError;

#[test]
fn extract_present() {
    let s = "\n[credentials]\napi_token = \"abc123\"\napi_url = \"https://example.com\"\n";
    match extract_api_token(s) {
        SecretScan::Present(v) => assert_eq!(v, "abc123"),
        other => panic!("expected Present, got {:?}", other),
    }
}

#[test]
fn extract_absent_when_empty_value() {
    let s = "\n[credentials]\napi_token = \"\"\n";
    match extract_api_token(s) {
        SecretScan::Absent => {}
        other => panic!("expected Absent (empty value), got {:?}", other),
    }
}

#[test]
fn extract_absent_when_missing() {
    let s = "\n[credentials]\napi_url = \"https://example.com\"\n";
    match extract_api_token(s) {
        SecretScan::Absent => {}
        other => panic!("expected Absent, got {:?}", other),
    }
}

#[test]
fn extract_rejects_literal_string() {
    let s = "api_token = 'raw'";
    match extract_api_token(s) {
        SecretScan::Unsupported(_) => {}
        other => panic!("expected Unsupported, got {:?}", other),
    }
}

#[test]
fn extract_rejects_multi_line_basic() {
    let s = "api_token = \"\"\"multi\"\"\"";
    match extract_api_token(s) {
        SecretScan::Unsupported(_) => {}
        other => panic!("expected Unsupported, got {:?}", other),
    }
}

#[test]
fn extract_ignores_similar_key() {
    let s = "api_token_extra = \"hidden\"";
    match extract_api_token(s) {
        SecretScan::Absent => {}
        other => panic!("expected Absent (similar key), got {:?}", other),
    }
}

#[test]
fn remove_drops_only_api_token_line() {
    let s = "[credentials]\napi_token = \"abc\"\napi_url = \"https://example.com\"\n";
    let out = remove_api_token_line(s);
    let ok = !out.contains("api_token = \"abc\"") && out.contains("api_url");
    assert!(ok);
}

#[test]
fn remove_ignores_similar_key() {
    let s = "api_token_extra = \"hidden\"\napi_token = \"real\"\n";
    let out = remove_api_token_line(s);
    assert!(out.contains("api_token_extra"));
    assert!(!out.contains("api_token = \"real\""));
}

#[test]
fn extract_reports_each_refused_form() {
    match extract_api_token("api_token = \"a\\\"b\"") {
        SecretScan::Unsupported(r) => assert_eq!(r, "escape sequences in basic string"),
        other => panic!("unexpected {:?}", other),
    }
    match extract_api_token("api_token = \"open") {
        SecretScan::Unsupported(r) => assert_eq!(r, "unterminated basic string"),
        other => panic!("unexpected {:?}", other),
    }
    match extract_api_token("api_token = bare") {
        SecretScan::Unsupported(r) => assert_eq!(r, "unquoted value"),
        other => panic!("unexpected {:?}", other),
    }
    match extract_api_token("api_token = 'x'") {
        SecretScan::Unsupported(r) => assert_eq!(r, "literal string"),
        other => panic!("unexpected {:?}", other),
    }
}

#[test]
fn extract_accepts_indented_key_without_spaces() {
    match extract_api_token("  api_token=\"tok\" # comment\n") {
        SecretScan::Present(v) => assert_eq!(v, "tok"),
        other => panic!("unexpected {:?}", other),
    }
}

#[test]
fn removed_file_scans_as_absent() {
    let s = "a = 1\napi_token = \"secret\"\nb = 2";
    let out = remove_api_token_line(s);
    assert_eq!(out, "a = 1\nb = 2");
    match extract_api_token(&out) {
        SecretScan::Absent => {}
        other => panic!("unexpected {:?}", other),
    }
}

#[test]
fn answers_default_and_first_letter() {
    assert!(!parse_answer("\n", false));
    assert!(parse_answer("  \n", true));
    assert!(parse_answer("Yes\n", false));
    assert!(parse_answer("y", false));
    assert!(!parse_answer("no", true));
    assert!(!parse_answer("sure", true));
}

fn step(state: CredState, event: CredEvent) -> CredStep {
    handle(state, event)
}

fn finish_err(action: &CredAction) -> String {
    match action {
        CredAction::Finish(Err(e)) => e.message(),
        _ => panic!("expected an error finish"),
    }
}

#[test]
fn set_from_stdin_rejects_blank_input() {
    let s = step(
        CredState::Start(CredentialsCommand::SetValue { field: CredentialField::ApiToken, stdin: true }),
        CredEvent::Begin,
    );
    match &s.action {
        CredAction::ReadSecret { from_stdin, .. } => assert!(*from_stdin),
        _ => panic!("expected ReadSecret"),
    }
    let s = step(s.state, CredEvent::Secret(Ok("   \n".to_string())));
    assert_eq!(finish_err(&s.action), "invalid input: empty value from stdin");
}

#[test]
fn set_prompts_and_stores_the_trimmed_value() {
    let s = step(
        CredState::Start(CredentialsCommand::SetValue { field: CredentialField::ApiToken, stdin: false }),
        CredEvent::Begin,
    );
    match &s.action {
        CredAction::ReadSecret { from_stdin, prompt } => {
            assert!(!*from_stdin);
            assert_eq!(prompt, "Enter api_token (input hidden): ");
        }
        _ => panic!("expected ReadSecret"),
    }
    let s = step(s.state, CredEvent::Secret(Ok(String::new())));
    assert_eq!(finish_err(&s.action), "invalid input: empty value");

    let s = step(
        CredState::Start(CredentialsCommand::SetValue { field: CredentialField::ApiToken, stdin: true }),
        CredEvent::Begin,
    );
    let s = step(s.state, CredEvent::Secret(Ok(" tok \n".to_string())));
    match &s.action {
        CredAction::StoreSet { key, value } => {
            assert_eq!(*key, "api_token");
            assert_eq!(value, "tok");
        }
        _ => panic!("expected StoreSet"),
    }
    let s = step(s.state, CredEvent::Stored(Ok(())));
    assert_eq!(s.lines, vec!["Stored api_token in credential store", "Verify with: cloudapps-cli credentials status"]);
    assert!(matches!(s.action, CredAction::Finish(Ok(()))));
}

#[test]
fn set_reports_store_failure_as_config_error() {
    let s = step(
        CredState::Start(CredentialsCommand::SetValue { field: CredentialField::ApiToken, stdin: true }),
        CredEvent::Begin,
    );
    let s = step(s.state, CredEvent::Secret(Ok("tok".to_string())));
    let s = step(s.state, CredEvent::Stored(Err(StoreError::Backend("denied".to_string()))));
    assert_eq!(finish_err(&s.action), "configuration error: credential store error: denied");
}

#[test]
fn delete_and_status_report_without_the_value() {
    let s = step(
        CredState::Start(CredentialsCommand::Delete { field: CredentialField::ApiToken, yes: false }),
        CredEvent::Begin,
    );
    assert!(matches!(s.action, CredAction::StoreDelete { key: "api_token" }));
    let s = step(s.state, CredEvent::Stored(Ok(())));
    assert_eq!(s.lines, vec!["Deleted api_token from credential store"]);

    let s = step(CredState::Start(CredentialsCommand::Status), CredEvent::Begin);
    assert_eq!(s.lines, vec!["Credential store: macOS Keychain (service=dev.cloudapps-cli)"]);
    let s = step(s.state, CredEvent::Fetched(Ok(Some("super-secret".to_string()))));
    assert_eq!(s.lines, vec!["  api_token : stored"]);
    assert!(!s.lines.iter().any(|l| l.contains("super-secret")));

    let s = step(CredState::Start(CredentialsCommand::Status), CredEvent::Begin);
    let s = step(s.state, CredEvent::Fetched(Err(StoreError::Unavailable("no keychain".to_string()))));
    assert_eq!(s.lines[0], "  api_token : error (credential store unavailable: no keychain)");
    assert_eq!(s.lines[1], "");
    assert!(s.lines[2].starts_with("One or more entries could not be accessed."));
    assert!(matches!(s.action, CredAction::Finish(Ok(()))));
}

fn migrate_to_confirm(content: &str) -> CredStep {
    let s = step(CredState::Start(CredentialsCommand::Migrate { dry_run: false }), CredEvent::Begin);
    assert!(matches!(s.action, CredAction::FindToml));
    step(s.state, CredEvent::Toml(Some(("/home/u/credentials.toml".to_string(), Ok(content.to_string())))))
}

#[test]
fn migrate_without_toml_is_a_config_error() {
    let s = step(CredState::Start(CredentialsCommand::Migrate { dry_run: false }), CredEvent::Begin);
    let s = step(s.state, CredEvent::Toml(None));
    assert_eq!(
        finish_err(&s.action),
        "configuration error: no credentials.toml found in search path. Use `cloudapps-cli credentials set api-token` to store the token directly."
    );
}

#[test]
fn migrate_dry_run_finishes_without_writing() {
    let s = step(CredState::Start(CredentialsCommand::Migrate { dry_run: true }), CredEvent::Begin);
    let s = step(s.state, CredEvent::Toml(Some(("c.toml".to_string(), Ok("api_token = \"t\"\n".to_string())))));
    assert_eq!(
        s.lines,
        vec![
            "Found credentials.toml: c.toml",
            "  api_token: present (will migrate)",
            "",
            "(dry-run) Would write api_token to Keychain and remove the line from the toml.",
        ]
    );
    assert!(matches!(s.action, CredAction::Finish(Ok(()))));
}

#[test]
fn migrate_refuses_unsupported_form() {
    let s = migrate_to_confirm("api_token = 'raw'\n");
    assert_eq!(
        finish_err(&s.action),
        "configuration error: refusing to migrate: api_token uses an unsupported quote form (literal string). Rewrite it as a normal double-quoted string first."
    );
}

#[test]
fn migrate_with_nothing_to_migrate_is_ok() {
    let s = migrate_to_confirm("api_url = \"u\"\n");
    assert_eq!(s.lines[1], "  api_token: not present (nothing to migrate)");
    assert!(matches!(s.action, CredAction::Finish(Ok(()))));
}

#[test]
fn migrate_aborts_on_default_answer() {
    let s = migrate_to_confirm("api_token = \"t\"\n");
    match &s.action {
        CredAction::Confirm { prompt } => assert_eq!(*prompt, "Proceed with migration? [y/N] "),
        _ => panic!("expected Confirm"),
    }
    let s = step(s.state, CredEvent::Answer(Ok("\n".to_string())));
    assert_eq!(s.lines, vec!["Aborted."]);
    assert!(matches!(s.action, CredAction::Finish(Ok(()))));
}

#[test]
fn migrate_removes_the_line_after_writing_the_keychain() {
    let s = migrate_to_confirm("a = 1\napi_token = \"t\"\n");
    let s = step(s.state, CredEvent::Answer(Ok("y\n".to_string())));
    match &s.action {
        CredAction::StoreSet { key, value } => {
            assert_eq!(*key, "api_token");
            assert_eq!(value, "t");
        }
        _ => panic!("expected StoreSet"),
    }
    let s = step(s.state, CredEvent::Stored(Ok(())));
    assert_eq!(s.lines, vec!["Wrote api_token to Keychain."]);
    assert!(matches!(s.action, CredAction::Confirm { .. }));
    let s = step(s.state, CredEvent::Answer(Ok("\n".to_string())));
    match &s.action {
        CredAction::RewriteToml { content } => assert_eq!(content, "a = 1\n"),
        _ => panic!("expected RewriteToml"),
    }
    let s = step(s.state, CredEvent::Rewritten(Ok(())));
    assert_eq!(
        s.lines,
        vec!["Removed api_token line from /home/u/credentials.toml (no plaintext copy remains on disk)."]
    );
}

#[test]
fn migrate_rolls_back_when_the_rewrite_fails() {
    let s = migrate_to_confirm("api_token = \"t\"\n");
    let s = step(s.state, CredEvent::Answer(Ok("y".to_string())));
    let s = step(s.state, CredEvent::Stored(Ok(())));
    let s = step(s.state, CredEvent::Answer(Ok("Y".to_string())));
    let s = step(s.state, CredEvent::Rewritten(Err("disk full".to_string())));
    assert!(matches!(s.action, CredAction::StoreDelete { key: "api_token" }));
    let s = step(s.state, CredEvent::Stored(Err(StoreError::Backend("ignored".to_string()))));
    assert_eq!(
        finish_err(&s.action),
        "configuration error: failed to rewrite /home/u/credentials.toml (rolled back Keychain entry): disk full"
    );
}

#[test]
fn migrate_with_backup_rolls_back_and_removes_backup() {
    let s = migrate_to_confirm("api_token = \"t\"\n");
    let s = step(s.state, CredEvent::Answer(Ok("y".to_string())));
    let s = step(s.state, CredEvent::Stored(Ok(())));
    let s = step(s.state, CredEvent::Answer(Ok("n".to_string())));
    match &s.action {
        CredAction::WriteBackup { content } => assert_eq!(content, "api_token = \"t\"\n"),
        _ => panic!("expected WriteBackup"),
    }
    let s = step(s.state, CredEvent::BackupWritten(Ok("c.toml.bak.1".to_string())));
    assert!(matches!(s.action, CredAction::RewriteToml { .. }));
    let s = step(s.state, CredEvent::Rewritten(Err("denied".to_string())));
    assert!(matches!(s.action, CredAction::RemoveBackup));
    let s = step(s.state, CredEvent::Done);
    assert!(matches!(s.action, CredAction::StoreDelete { key: "api_token" }));
    let s = step(s.state, CredEvent::Stored(Ok(())));
    assert_eq!(
        finish_err(&s.action),
        "configuration error: failed to rewrite /home/u/credentials.toml (rolled back Keychain entry and removed backup): denied"
    );
}

#[test]
fn migrate_backup_failure_rolls_back() {
    let s = migrate_to_confirm("api_token = \"t\"\n");
    let s = step(s.state, CredEvent::Answer(Ok("y".to_string())));
    let s = step(s.state, CredEvent::Stored(Ok(())));
    let s = step(s.state, CredEvent::Answer(Ok("no".to_string())));
    let s = step(
        s.state,
        CredEvent::BackupWritten(Err(("b.bak".to_string(), "configuration error: failed to open b.bak: exists".to_string()))),
    );
    assert!(matches!(s.action, CredAction::StoreDelete { key: "api_token" }));
    let s = step(s.state, CredEvent::Done);
    assert_eq!(
        finish_err(&s.action),
        "configuration error: failed to write backup b.bak (rolled back Keychain entry): configuration error: failed to open b.bak: exists"
    );
}

#[test]
fn migrate_keeps_backup_and_warns() {
    let s = migrate_to_confirm("api_token = \"t\"\n");
    let s = step(s.state, CredEvent::Answer(Ok("y".to_string())));
    let s = step(s.state, CredEvent::Stored(Ok(())));
    let s = step(s.state, CredEvent::Answer(Ok("n".to_string())));
    let s = step(s.state, CredEvent::BackupWritten(Ok("c.toml.bak.1".to_string())));
    let s = step(s.state, CredEvent::Rewritten(Ok(())));
    assert_eq!(s.lines.len(), 4);
    assert_eq!(s.lines[1], "WARNING: a backup copy of the original toml has been written to:");
    assert_eq!(s.lines[2], "  c.toml.bak.1");
    assert!(s.lines[3].starts_with("This backup STILL CONTAINS THE PLAINTEXT API TOKEN."));
}

#[test]
fn keychain_write_failure_has_nothing_to_roll_back() {
    let s = migrate_to_confirm("api_token = \"t\"\n");
    let s = step(s.state, CredEvent::Answer(Ok("y".to_string())));
    let s = step(s.state, CredEvent::Stored(Err(StoreError::Unavailable("locked".to_string()))));
    assert_eq!(
        finish_err(&s.action),
        "configuration error: keychain write failed: credential store unavailable: locked"
    );
}

#[test]
fn read_errors_are_passed_through() {
    let s = step(
        CredState::Start(CredentialsCommand::SetValue { field: CredentialField::ApiToken, stdin: true }),
        CredEvent::Begin,
    );
    let err = cloudapps::commands::credentials::io_failure("read stdin", "closed");
    let s = step(s.state, CredEvent::Secret(Err(err)));
    assert_eq!(finish_err(&s.action), "configuration error: failed to read stdin: closed");
    let _ = AppError::RateLimited;
}

#[test]
fn backup_names_carry_the_time() {
    assert_eq!(cloudapps::commands::credentials::backup_file_name("credentials.toml", 1700000000), "credentials.toml.bak.1700000000");
}

#[test]
fn credentials_set_rejects_empty_stdin() {
    let s = step(
        CredState::Start(CredentialsCommand::SetValue { field: CredentialField::ApiToken, stdin: true }),
        CredEvent::Begin,
    );
    let s = step(s.state, CredEvent::Secret(Ok(String::new())));
    match &s.action {
        CredAction::Finish(Err(e)) => {
            assert_eq!(e.exit_code(), 5);
            assert!(e.message().contains("empty value"));
        }
        _ => panic!("expected an error finish"),
    }
}

#[test]
fn removing_twice_changes_nothing() {
    let s = "[credentials]\n  api_token = \"abc\"\napi_token_extra = 1\napi_token\t= \"x\"\nlast";
    let once = remove_api_token_line(s);
    assert_eq!(once, "[credentials]\napi_token_extra = 1\nlast");
    assert_eq!(remove_api_token_line(&once), once);
}
