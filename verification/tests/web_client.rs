use cenyslovensko_api::web_client::{LogLevel, WebClientConfig, WebClientError};
use std::time::Duration;

#[test]
fn builds_client_and_resolves_path() {
    let web_client = WebClientConfig::new("https://api.cenyslovensko.sk/")
        .set_timeout(Duration::from_secs(15))
        .build()
        .expect("web client should build");

    let endpoint = web_client
        .resolve_url("version")
        .expect("path should resolve");

    assert_eq!(endpoint.as_str(), "https://api.cenyslovensko.sk/version");
}

#[test]
fn fails_for_invalid_base_uri() {
    let result = WebClientConfig::new("not-a-url").build();

    assert!(matches!(result, Err(WebClientError::InvalidBaseUri(_))));
}

#[test]
fn fails_for_invalid_proxy() {
    let result = WebClientConfig::new("https://api.cenyslovensko.sk/")
        .set_proxy("://invalid-proxy")
        .build();

    assert!(matches!(result, Err(WebClientError::InvalidProxy(_))));
}

#[test]
fn fails_for_invalid_header_name() {
    let result = WebClientConfig::new("https://api.cenyslovensko.sk/")
        .add_default_header("invalid header", "value");

    assert!(matches!(result, Err(WebClientError::InvalidHeaderName(_))));
}

#[test]
fn preserves_configured_proxy_and_log_level() {
    let web_client = WebClientConfig::new("https://api.cenyslovensko.sk/")
        .set_proxy("http://localhost:3128")
        .set_log_level(LogLevel::Debug)
        .build()
        .expect("web client should build");

    assert_eq!(web_client.proxy(), Some("http://localhost:3128"));
    assert_eq!(web_client.log_level(), LogLevel::Debug);
}

#[test]
fn default_log_level_is_info_and_no_proxy() {
    let web_client = WebClientConfig::new("https://api.cenyslovensko.sk/")
        .build()
        .expect("web client should build");

    assert_eq!(web_client.proxy(), None);
    assert_eq!(web_client.log_level(), LogLevel::Info);
    assert_eq!(LogLevel::default(), LogLevel::Info);
}

#[test]
fn base_uri_is_the_parsed_url() {
    let web_client = WebClientConfig::new("not-used")
        .set_base_uri("https://example.com/api/")
        .build()
        .expect("web client should build");

    assert_eq!(web_client.base_uri().as_str(), "https://example.com/api/");
    assert_eq!(
        web_client.resolve_url("prices").expect("path should resolve").as_str(),
        "https://example.com/api/prices"
    );
}

#[test]
fn rejects_invalid_header_value_after_valid_name() {
    let result = WebClientConfig::new("https://api.cenyslovensko.sk/")
        .add_default_header("X-Client", "line\nbreak");

    assert_eq!(
        result.err(),
        Some(WebClientError::InvalidHeaderValue("line\nbreak".to_string()))
    );
}

#[test]
fn accepts_valid_header_and_keeps_building() {
    let config = WebClientConfig::new("https://api.cenyslovensko.sk/")
        .add_default_header("X-Client", "tests")
        .expect("header should be accepted")
        .add_default_header("x-client", "replaced")
        .expect("header should be accepted");

    assert!(config.build().is_ok());
}

#[test]
fn invalid_header_name_reports_the_name() {
    let result = WebClientConfig::new("https://api.cenyslovensko.sk/")
        .add_default_header("", "value");

    assert_eq!(
        result.err(),
        Some(WebClientError::InvalidHeaderName(String::new()))
    );
}

#[test]
fn web_client_error_messages() {
    assert_eq!(
        WebClientError::InvalidBaseUri("x".to_string()).to_string(),
        "Invalid base URI: x"
    );
    assert_eq!(
        WebClientError::InvalidHeaderName("a b".to_string()).to_string(),
        "Invalid header name: a b"
    );
    assert_eq!(
        WebClientError::InvalidHeaderValue("v".to_string()).to_string(),
        "Invalid header value: v"
    );
    assert_eq!(
        WebClientError::InvalidProxy("p".to_string()).to_string(),
        "Invalid proxy: p"
    );
    assert_eq!(
        WebClientError::ClientBuild("tls".to_string()).to_string(),
        "Unable to build web client: tls"
    );
    assert_eq!(
        WebClientError::InvalidPath("p".to_string()).to_string(),
        "Invalid path for base URI: p"
    );
}

#[test]
fn later_header_of_the_same_name_replaces_the_earlier() {
    let config = WebClientConfig::new("https://api.cenyslovensko.sk/")
        .add_default_header("X-Client", "tests")
        .expect("header should be accepted")
        .add_default_header("x-CLIENT", "replaced")
        .expect("header should be accepted");

    let shown = format!("{config:?}");
    assert!(shown.contains("\"x-client\": \"replaced\""), "{shown}");
    assert!(!shown.contains("\"tests\""), "{shown}");
}

#[test]
fn new_config_has_default_timeouts() {
    let shown = format!("{:?}", WebClientConfig::new("https://api.cenyslovensko.sk/"));
    assert!(shown.contains("timeout: 30s"), "{shown}");
    assert!(shown.contains("connect_timeout: 10s"), "{shown}");
    assert!(shown.contains("default_headers: {}"), "{shown}");
}

#[test]
fn counts_distinct_default_header_names() {
    let config = WebClientConfig::new("https://example.com/");
    assert_eq!(config.default_header_count(), 0);
    let config = config
        .add_default_header("X-One", "1")
        .expect("valid header")
        .add_default_header("x-one", "2")
        .expect("valid header")
        .add_default_header("X-Two", "3")
        .expect("valid header");
    assert_eq!(config.default_header_count(), 2);
}
