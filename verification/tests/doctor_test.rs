use cloudapps::commands::doctor::{
    api_token_line, api_url_line, arg_value, classify_http_failure, config_section, env_vars,
    environment_line, keychain_line, probe_line, probe_target, ProbeOutcome,
};
use cloudapps::config::credential_store::StoreError;
use cloudapps::config::CredentialSource;

fn argv(items: &[&str]) -> Vec<String> {
    items.iter().map(|s| s.to_string()).collect()
}

#[test]
fn arg_value_space_form() {
    let args = argv(&["doctor", "--api-url", "https://x.example"]);
    assert_eq!(arg_value(args, "--api-url").as_deref(), Some("https://x.example"));
}

#[test]
fn arg_value_equals_form() {
    let args = argv(&["doctor", "--api-url=https://y.example"]);
    assert_eq!(arg_value(args, "--api-url").as_deref(), Some("https://y.example"));
}

#[test]
fn arg_value_absent_returns_none() {
    let args = argv(&["doctor", "--no-connectivity"]);
    assert_eq!(arg_value(args, "--api-url"), None);
}

#[test]
fn arg_value_flag_without_value_returns_none() {
    let args = argv(&["doctor", "--api-url"]);
    assert_eq!(arg_value(args, "--api-url"), None);
}

#[test]
fn arg_value_equals_empty_is_some_empty() {
    let args = argv(&["doctor", "--api-url="]);
    assert_eq!(arg_value(args, "--api-url").as_deref(), Some(""));
}

#[test]
fn environment_lines_never_show_values() {
    assert_eq!(
        environment_line("CLOUDAPPS_API_TOKEN", &Some("secret".to_string())),
        "  CLOUDAPPS_API_TOKEN        (set)"
    );
    assert_eq!(environment_line("HOME", &Some(String::new())), "  HOME                       (unset)");
    assert_eq!(environment_line("HOME", &None), "  HOME                       (unset)");
    assert_eq!(env_vars().len(), 8);
    assert_eq!(env_vars()[0], "CLOUDAPPS_API_URL");
}

#[test]
fn credentials_lines() {
    assert_eq!(
        api_url_line(&Some(("https://a".to_string(), CredentialSource::Env))),
        "  api-url:    https://a  (source: env CLOUDAPPS_API_URL)"
    );
    assert_eq!(
        api_url_line(&Some(("https://a".to_string(), CredentialSource::CliFlag))),
        "  api-url:    https://a  (source: cli --api-url)"
    );
    assert_eq!(api_url_line(&None), "  api-url:    (unset)");
    assert_eq!(
        api_token_line(Ok(Some(CredentialSource::Keychain))),
        "  api-token:  stored  (source: keychain dev.cloudapps-cli/api_token)"
    );
    assert_eq!(
        api_token_line(Err(())),
        "  api-token:  UNRESOLVABLE  (keychain dev.cloudapps-cli/api_token access failed)"
    );
    assert_eq!(
        keychain_line(&Ok(Some("tok".to_string()))),
        "  keychain:   dev.cloudapps-cli/api_token  \u{2192}  stored"
    );
    assert_eq!(
        keychain_line(&Err(StoreError::Backend("acl".to_string()))),
        "  keychain:   dev.cloudapps-cli/api_token  \u{2192}  error (credential store error: acl)"
    );
}

#[test]
fn config_section_lists_candidates() {
    let paths = vec!["a.toml".to_string(), "/h/.config/cloudapps-cli/credentials.toml".to_string()];
    assert_eq!(
        config_section(&paths, &vec![false, true]),
        vec!["CONFIG", "  credentials.toml:  /h/.config/cloudapps-cli/credentials.toml", "  status:            present"]
    );
    assert_eq!(
        config_section(&paths, &vec![false, false]),
        vec![
            "CONFIG",
            "  credentials.toml:  (not found; searched)",
            "                     a.toml",
            "                     /h/.config/cloudapps-cli/credentials.toml",
            "  status:            not found",
        ]
    );
    assert_eq!(
        config_section(&vec!["a.toml".to_string()], &vec![false]),
        vec!["CONFIG", "  credentials.toml:  a.toml (not found)", "  status:            not found"]
    );
}

#[test]
fn connectivity_lines() {
    assert_eq!(probe_target("https://api.example///"), "https://api.example");
    assert_eq!(
        probe_line("https://a", &ProbeOutcome::Answered { status: 401, reason: "Unauthorized".to_string(), millis: 35 }),
        "  HEAD https://a  \u{2192}  401 Unauthorized (35ms)"
    );
    assert_eq!(classify_http_failure(true, true, true), "timeout");
    assert_eq!(classify_http_failure(false, true, false), "connection failed");
    assert_eq!(classify_http_failure(false, false, false), "network error");
    assert_eq!(
        probe_line("https://a", &ProbeOutcome::Unreachable { kind: "timeout", millis: 10000 }),
        "  HEAD https://a  \u{2192}  unreachable (timeout) (10000ms)"
    );
}
