use yt_sub::remote::{
    account_url, create_account, create_account_request, delete_account, key_from_json,
    remote_key, sync_account, RemoteError,
};
use yt_sub::{Notifier, SlackConfig, UserSettings};

fn build_settings(slack_webhook: Option<String>) -> UserSettings {
    let settings = UserSettings::default("test.toml".to_string());

    if let Some(webhook) = slack_webhook {
        let notifier =
            Notifier::Slack(SlackConfig { webhook_url: webhook, channel: "test".to_string() });

        UserSettings { notifiers: vec![notifier], ..settings }
    } else {
        settings
    }
}

#[test]
fn accounts_are_kept_under_one_address() {
    assert_eq!(account_url(Some("http://127.0.0.1:1234")), "http://127.0.0.1:1234/account");
    assert_eq!(account_url(None), "https://yt-sub-api.apki.workers.dev/account");
}

#[test]
fn test_create_account_ok() {
    let mut settings = build_settings(Some("https://slack.com/XXX".to_string()));
    create_account_request(&settings).unwrap();
    create_account(&mut settings, 201, r#"{"api_key": "REMOTE_API_KEY" }"#.to_string()).unwrap();
    assert_eq!(settings.api_key, Some("REMOTE_API_KEY".to_string()));
}

#[test]
fn test_create_account_invalid() {
    let mut settings = build_settings(Some("https://slack.com/XXX".to_string()));
    create_account_request(&settings).unwrap();
    if let Err(e) = create_account(&mut settings, 400, "Registration failed".to_string()) {
        assert!(e.message().contains("Registration failed"));
        assert_eq!(e.message(), "Failed to register remote account: Registration failed");
    } else {
        panic!("Expected an error!");
    }
    assert_eq!(settings.api_key, None);
}

#[test]
fn test_delete_account_ok() {
    let mut settings = build_settings(Some("https://slack.com/XXX".to_string()));
    settings.api_key = Some("test".to_string());
    assert_eq!(remote_key(&settings).unwrap(), "test");
    delete_account(&mut settings, 200, "OK".to_string()).unwrap();
    assert_eq!(settings.api_key, None);
}

#[test]
fn a_registered_account_is_not_registered_again() {
    let mut settings = build_settings(Some("https://slack.com/XXX".to_string()));
    settings.api_key = Some("k".to_string());
    let e = create_account_request(&settings).unwrap_err();
    assert!(matches!(e, RemoteError::AlreadyRegistered));
    assert_eq!(e.message(), "Remote account is already registered.");
}

#[test]
fn an_account_needs_a_slack_notifier() {
    let e = create_account_request(&build_settings(None)).unwrap_err();
    assert!(matches!(e, RemoteError::MissingSlackNotifier));
    assert_eq!(
        e.message(),
        "You must configure a Slack notifier to register a remote account:
https://github.com/pawurb/yt-sub-rs#notifiers-configuration"
    );
}

#[test]
fn an_answer_without_a_key_is_malformed() {
    let mut settings = build_settings(Some("https://slack.com/XXX".to_string()));
    for body in ["", "not json", "{}", r#"{"api_key": 5}"#, r#"["api_key"]"#] {
        let e = create_account(&mut settings, 201, body.to_string()).unwrap_err();
        assert!(matches!(e, RemoteError::Malformed));
        assert_eq!(settings.api_key, None);
    }
    let e = create_account(&mut settings, 200, r#"{"api_key": "k"}"#.to_string()).unwrap_err();
    assert!(matches!(e, RemoteError::RegisterFailed(_)));
}

#[test]
fn the_key_is_read_from_the_document() {
    let doc: serde_json::Value = serde_json::from_str(r#"{"api_key": "abc", "x": 1}"#).unwrap();
    assert_eq!(key_from_json(&doc), Some("abc".to_string()));
    let doc: serde_json::Value = serde_json::from_str(r#"{"key": "abc"}"#).unwrap();
    assert_eq!(key_from_json(&doc), None);
}

#[test]
fn without_a_key_nothing_is_removed_or_changed() {
    let settings = build_settings(None);
    let e = remote_key(&settings).unwrap_err();
    assert!(matches!(e, RemoteError::NotRegistered));
    assert_eq!(e.message(), "Remote account is not registered.");
}

#[test]
fn a_refused_removal_keeps_the_key() {
    let mut settings = build_settings(None);
    settings.api_key = Some("test".to_string());
    let e = delete_account(&mut settings, 400, "API key not found".to_string()).unwrap_err();
    assert_eq!(e.message(), "Failed to delete remote account: API key not found");
    assert_eq!(settings.api_key, Some("test".to_string()));
    assert!(delete_account(&mut settings, 199, String::new()).is_err());
    assert!(delete_account(&mut settings, 300, String::new()).is_err());
    assert!(delete_account(&mut settings, 299, String::new()).is_ok());
}

#[test]
fn an_update_succeeds_with_a_status_of_success() {
    assert!(sync_account(200, "UPDATED".to_string()).is_ok());
    assert!(sync_account(204, String::new()).is_ok());
    let e = sync_account(400, "Invalid API key!".to_string()).unwrap_err();
    assert_eq!(e.message(), "Failed to update remote account: Invalid API key!");
}
