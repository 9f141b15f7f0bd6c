use cloudapps::config::credential_store::{
    classify_keyring_failure, delete_outcome, get_outcome, set_outcome, CredentialStore, KeyringFailure,
    MemoryStore, StoreError, ERR_SEC_NO_DEFAULT_KEYCHAIN,
};
use cloudapps::config::{
    api_token_source, api_url_source, credentials_search_paths, load_credentials, non_empty,
    resolve_value, CloudAppsCredentials, CredentialSource, CredentialsFile, FileOutcome,
};

#[test]
fn memory_store_roundtrip() {
    let mut s = MemoryStore::new();
    assert_eq!(s.get("key").unwrap(), None);
    s.set("key", "value").unwrap();
    assert_eq!(s.get("key").unwrap().as_deref(), Some("value"));
    s.delete("key").unwrap();
    assert_eq!(s.get("key").unwrap(), None);
}

#[test]
fn memory_store_delete_missing_is_ok() {
    let mut s = MemoryStore::new();
    s.delete("missing").unwrap();
}

#[test]
fn memory_store_last_write_wins() {
    let mut s = MemoryStore::new();
    s.set("k", "one").unwrap();
    s.set("other", "x").unwrap();
    s.set("k", "two").unwrap();
    assert_eq!(s.get("k").unwrap().as_deref(), Some("two"));
    assert_eq!(s.get("other").unwrap().as_deref(), Some("x"));
}

#[test]
fn test_resolve_value_priority() {
    let result = resolve_value(Some("cli"), None);
    assert_eq!(result.as_deref(), Some("cli"));
    let result = resolve_value(None, None);
    assert!(result.is_none());
}

#[test]
fn resolve_value_falls_back_to_the_environment() {
    assert_eq!(resolve_value(None, Some("env".to_string())).as_deref(), Some("env"));
    assert_eq!(resolve_value(Some("cli"), Some("env".to_string())).as_deref(), Some("cli"));
}

#[test]
fn test_credentials_validate_both_present() {
    let creds = CloudAppsCredentials {
        api_url: Some("https://example.com".to_string()),
        api_token: Some("token".to_string()),
    };
    assert!(creds.validate().is_ok());
}

#[test]
fn test_credentials_validate_missing_all() {
    let creds = CloudAppsCredentials::default();
    let err = creds.validate().unwrap_err();
    assert!(err.contains("CLOUDAPPS_API_URL"));
    assert!(err.contains("CLOUDAPPS_API_TOKEN"));
}

#[test]
fn test_credentials_validate_partial_missing() {
    let creds = CloudAppsCredentials {
        api_url: Some("https://example.com".to_string()),
        api_token: None,
    };
    let err = creds.validate().unwrap_err();
    assert!(!err.contains("CLOUDAPPS_API_URL"));
    assert!(err.contains("CLOUDAPPS_API_TOKEN"));
}

#[test]
fn validate_message_lists_what_is_missing() {
    let err = CloudAppsCredentials::default().validate().unwrap_err();
    assert_eq!(
        err,
        "missing required credentials: CLOUDAPPS_API_URL, CLOUDAPPS_API_TOKEN. Set via environment variables, CLI options, or credentials.toml."
    );
}

#[test]
fn test_non_empty_filters_empty_strings() {
    assert_eq!(non_empty(Some("".to_string())), None);
    assert_eq!(non_empty(Some("value".to_string())), Some("value".to_string()));
    assert_eq!(non_empty(None), None);
}

#[test]
fn test_load_credentials_nonexistent_file() {
    let paths = vec!["/nonexistent/credentials.toml".to_string()];
    let (file, warnings) = load_credentials(&paths, vec![FileOutcome::Unreadable]);
    assert!(file.api_url.is_none());
    assert!(file.api_token.is_none());
    assert!(warnings.is_empty());
}

#[test]
fn first_valid_file_wins_and_invalid_ones_warn() {
    let paths = vec!["a.toml".to_string(), "b.toml".to_string(), "c.toml".to_string()];
    let outcomes = vec![
        FileOutcome::Invalid("expected `=`".to_string()),
        FileOutcome::Parsed { api_url: Some("https://b".to_string()), api_token: Some(String::new()) },
        FileOutcome::Parsed { api_url: Some("https://c".to_string()), api_token: Some("t".to_string()) },
    ];
    let (file, warnings) = load_credentials(&paths, outcomes);
    assert_eq!(file.api_url.as_deref(), Some("https://b"));
    assert_eq!(file.api_token, None);
    assert_eq!(warnings, vec!["warning: failed to parse a.toml: expected `=`"]);
}

#[test]
fn search_paths_follow_xdg_then_home() {
    assert_eq!(
        credentials_search_paths(Some("/x".to_string()), Some("/h".to_string())),
        vec![".cloudapps-credentials.toml", "/x/cloudapps-cli/credentials.toml"]
    );
    assert_eq!(
        credentials_search_paths(None, Some("/home/u/".to_string())),
        vec![".cloudapps-credentials.toml", "/home/u/.config/cloudapps-cli/credentials.toml"]
    );
    assert_eq!(credentials_search_paths(None, None), vec![".cloudapps-credentials.toml"]);
}

fn file(url: Option<&str>, token: Option<&str>) -> CredentialsFile {
    CredentialsFile::from_parsed(url.map(String::from), token.map(String::from))
}

#[test]
fn resolution_priority() {
    let c = CloudAppsCredentials::resolve(
        Some("https://cli"),
        Some("https://env".to_string()),
        Some("env-token".to_string()),
        &Ok(Some("store-token".to_string())),
        file(Some("https://file"), Some("file-token")),
    );
    assert_eq!(c.api_url.as_deref(), Some("https://cli"));
    assert_eq!(c.api_token.as_deref(), Some("env-token"));

    let c = CloudAppsCredentials::resolve(
        None,
        Some(String::new()),
        None,
        &Ok(Some("store-token".to_string())),
        file(Some("https://file"), Some("file-token")),
    );
    assert_eq!(c.api_url.as_deref(), Some("https://file"));
    assert_eq!(c.api_token.as_deref(), Some("store-token"));

    let c = CloudAppsCredentials::resolve(
        None,
        None,
        None,
        &Err(StoreError::Unavailable("none".to_string())),
        file(None, Some("file-token")),
    );
    assert_eq!(c.api_token.as_deref(), Some("file-token"));

    let c = CloudAppsCredentials::resolve(
        None,
        None,
        None,
        &Err(StoreError::Backend("acl".to_string())),
        file(None, Some("file-token")),
    );
    assert_eq!(c.api_token, None);
}

#[test]
fn sources_agree_with_resolution() {
    let f = file(Some("https://file"), Some("file-token"));
    let url = api_url_source(Some(""), Some("https://env".to_string()), &f);
    assert_eq!(url, Some(("https://env".to_string(), CredentialSource::Env)));
    assert_eq!(
        api_token_source(&None, &Ok(None), &f),
        Ok(Some(CredentialSource::File))
    );
    assert_eq!(
        api_token_source(&None, &Err(StoreError::Backend("acl".to_string())), &f),
        Err(())
    );
}

#[test]
fn classify_keyring_err_recognizes_no_default_keychain_by_osstatus() {
    match classify_keyring_failure(Some(ERR_SEC_NO_DEFAULT_KEYCHAIN), "localized text".to_string()) {
        StoreError::Unavailable(_) => {}
        other => panic!("expected Unavailable, got {:?}", other),
    }
}

#[test]
fn classify_keyring_err_treats_other_osstatus_as_backend() {
    match classify_keyring_failure(Some(-25293), "No default keychain".to_string()) {
        StoreError::Backend(_) => {}
        other => panic!("expected Backend, got {:?}", other),
    }
}

#[test]
fn keyring_failures_without_code_are_classified_by_text() {
    assert!(matches!(
        classify_keyring_failure(None, "Platform secure storage failure: No Default Keychain".to_string()),
        StoreError::Unavailable(_)
    ));
    assert!(matches!(
        classify_keyring_failure(None, "access denied".to_string()),
        StoreError::Backend(_)
    ));
}

#[test]
fn deleting_twice_changes_nothing() {
    let mut s = MemoryStore::new();
    s.set("k", "v").unwrap();
    s.set("j", "w").unwrap();
    s.delete("k").unwrap();
    s.delete("k").unwrap();
    assert_eq!(s.get("k").unwrap(), None);
    assert_eq!(s.get("j").unwrap().as_deref(), Some("w"));
}

fn no_entry() -> KeyringFailure {
    KeyringFailure::NoEntry { message: "No matching entry found in secure storage".to_string() }
}

fn other(message: &str) -> KeyringFailure {
    KeyringFailure::Other { os_status: None, message: message.to_string() }
}

#[test]
fn keychain_read_outcomes() {
    assert_eq!(get_outcome(Ok("tok".to_string())).unwrap().as_deref(), Some("tok"));
    assert_eq!(get_outcome(Err(no_entry())).unwrap(), None);
    match get_outcome(Err(other("Platform secure storage failure: no default keychain"))) {
        Err(StoreError::Unavailable(m)) => assert_eq!(m, "Platform secure storage failure: no default keychain"),
        o => panic!("expected Unavailable, got {:?}", o),
    }
    match get_outcome(Err(other("access denied"))) {
        Err(StoreError::Backend(m)) => assert_eq!(m, "access denied"),
        o => panic!("expected Backend, got {:?}", o),
    }
}

#[test]
fn keychain_write_outcomes() {
    assert!(set_outcome(Ok(())).is_ok());
    match set_outcome(Err(no_entry())) {
        Err(StoreError::Backend(m)) => assert_eq!(m, "No matching entry found in secure storage"),
        o => panic!("expected Backend, got {:?}", o),
    }
    match set_outcome(Err(other("keychain not found"))) {
        Err(StoreError::Unavailable(_)) => {}
        o => panic!("expected Unavailable, got {:?}", o),
    }
}

#[test]
fn keychain_delete_outcomes() {
    assert!(delete_outcome(Ok(())).is_ok());
    assert!(delete_outcome(Err(no_entry())).is_ok());
    match delete_outcome(Err(other("user interaction is not allowed"))) {
        Err(StoreError::Backend(m)) => assert_eq!(m, "user interaction is not allowed"),
        o => panic!("expected Backend, got {:?}", o),
    }
}
