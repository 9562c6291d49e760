use yt_sub::web::{only_ssl, security_headers, Env};

#[test]
fn the_three_places_have_names() {
    assert_eq!(Env::current("development"), Some(Env::Development));
    assert_eq!(Env::current("production"), Some(Env::Production));
    assert_eq!(Env::current("test"), Some(Env::Test));
    assert_eq!(Env::current("Development"), None);
    assert_eq!(Env::current(""), None);
    assert_eq!(Env::current("staging"), None);
}

#[test]
fn only_development_is_development() {
    assert!(Env::Development.is_dev());
    assert!(!Env::Production.is_dev());
    assert!(!Env::Test.is_dev());
}

#[test]
fn a_safe_request_is_let_through() {
    assert_eq!(only_ssl(Some("true"), Env::Production, Some("ytsub.apki.io"), "/uptime"), None);
    assert_eq!(only_ssl(Some("true"), Env::Test, None, "/"), None);
}

#[test]
fn every_request_is_let_through_in_development() {
    assert_eq!(only_ssl(None, Env::Development, Some("localhost:3000"), "/account"), None);
    assert_eq!(only_ssl(Some("false"), Env::Development, None, "/"), None);
}

#[test]
fn an_unsafe_request_is_sent_on_over_https() {
    assert_eq!(
        only_ssl(None, Env::Production, Some("ytsub.apki.io"), "/channel_data/@name?x=1"),
        Some("https://ytsub.apki.io/channel_data/@name?x=1".to_string())
    );
    assert_eq!(
        only_ssl(Some("false"), Env::Test, Some("h"), "/"),
        Some("https://h/".to_string())
    );
    assert_eq!(
        only_ssl(Some("TRUE"), Env::Production, Some("h"), "/a"),
        Some("https://h/a".to_string())
    );
}

#[test]
fn a_request_without_a_host_is_sent_on_to_localhost() {
    assert_eq!(
        only_ssl(None, Env::Production, None, "/account"),
        Some("https://localhost/account".to_string())
    );
}

#[test]
fn every_answer_carries_four_headers() {
    let headers = security_headers();
    assert_eq!(
        headers,
        vec![
            ("X-Content-Type-Options".to_string(), "nosniff".to_string()),
            ("X-Frame-Options".to_string(), "SAMEORIGIN".to_string()),
            ("referrer-policy".to_string(), "no-referrer-when-downgrade".to_string()),
            (
                "Strict-Transport-Security".to_string(),
                "Strict-Transport-Security: max-age=31536000; includeSubDomains".to_string()
            ),
        ]
    );
}
