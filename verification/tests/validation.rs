use gotify_stream::config::AppConfig;
use gotify_stream::supervisor::save_config;
use gotify_stream::url::notification_url;

fn config(server_url: &str, token: &str, timeout_seconds: u64) -> AppConfig {
    AppConfig {
        server_url: server_url.to_string(),
        token: token.to_string(),
        timeout_seconds,
    }
}

#[test]
fn validate_accepts_a_valid_config() {
    assert!(config("https://example.com", "abc", 30).validate().is_ok());
    assert!(config("http://example.com", "abc", 1).validate().is_ok());
    assert!(config("ws://example.com", "abc", 300).validate().is_ok());
    assert!(config("wss://example.com", "abc", 5).validate().is_ok());
}

#[test]
fn validate_accepts_an_empty_server_url() {
    assert!(config("", "", 5).validate().is_ok());
}

#[test]
fn validate_treats_a_blank_server_url_as_empty() {
    assert!(config("   ", "", 5).validate().is_ok());
    assert!(config(" \t\n", "abc", 300).validate().is_ok());
}

#[test]
fn validate_rejects_a_zero_timeout() {
    let err = config("https://example.com", "abc", 0).validate().unwrap_err();
    assert_eq!(err, "timeout must be greater than 0");
}

#[test]
fn validate_rejects_a_timeout_over_the_bound() {
    let err = config("https://example.com", "abc", 301).validate().unwrap_err();
    assert_eq!(err, "timeout must not exceed 300 seconds");
}

#[test]
fn validate_rejects_an_unknown_scheme() {
    let err = config("ftp://example.com", "abc", 30).validate().unwrap_err();
    assert_eq!(err, "server url must begin with http://, https://, ws:// or wss://");
}

#[test]
fn default_config_is_empty_with_five_second_timeout() {
    let c = AppConfig::default();
    assert_eq!(c.server_url, "");
    assert_eq!(c.token, "");
    assert_eq!(c.timeout_seconds, 5);
}

#[test]
fn save_config_returns_the_validated_config() {
    let c = save_config("https://example.com".to_string(), "tok".to_string(), 60).unwrap();
    assert_eq!(c.server_url, "https://example.com");
    assert_eq!(c.token, "tok");
    assert_eq!(c.timeout_seconds, 60);
}

#[test]
fn save_config_rejects_invalid_input() {
    let err = save_config("https://example.com".to_string(), "tok".to_string(), 0).unwrap_err();
    assert_eq!(err, "timeout must be greater than 0");
    let err = save_config("example.com".to_string(), "tok".to_string(), 10).unwrap_err();
    assert_eq!(err, "server url must begin with http://, https://, ws:// or wss://");
}

#[test]
fn notification_url_encodes_the_query() {
    let url = notification_url("Hello World", "a&b", Some(-2), 10).unwrap();
    assert_eq!(url, "notification.html?title=Hello%20World&message=a%26b&priority=-2&timeout=10");
}

#[test]
fn notification_url_defaults_the_priority_to_zero() {
    let url = notification_url("t", "", None, 300).unwrap();
    assert_eq!(url, "notification.html?title=t&message=&priority=0&timeout=300");
}

#[test]
fn notification_url_rejects_empty_title_and_message() {
    let err = notification_url("", "", Some(1), 10).unwrap_err();
    assert_eq!(err, "title and message must not both be empty");
}

#[test]
fn notification_url_rejects_a_blank_title_and_message() {
    let err = notification_url("  ", " \t", Some(1), 10).unwrap_err();
    assert_eq!(err, "title and message must not both be empty");
}

#[test]
fn notification_url_rejects_a_timeout_out_of_bounds() {
    let err = notification_url("t", "m", None, 0).unwrap_err();
    assert_eq!(err, "timeout must be greater than 0");
    let err = notification_url("t", "m", None, 301).unwrap_err();
    assert_eq!(err, "timeout must not exceed 300 seconds");
}
