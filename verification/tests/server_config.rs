use cenyslovensko_api::server_config::{
    parse_log_level, parse_u64_setting, ConfigError, RpcServerConfig, ServerSettings,
};
use cenyslovensko_api::web_client::{LogLevel, WebClientError};

#[test]
fn parses_known_log_levels() {
    assert_eq!(
        parse_log_level(Some("debug")).expect("debug level should parse"),
        LogLevel::Debug
    );
    assert_eq!(
        parse_log_level(Some("TRACE")).expect("trace level should parse"),
        LogLevel::Trace
    );
}

#[test]
fn rejects_unknown_log_level() {
    let result = parse_log_level(Some("verbose"));
    assert!(result.is_err());
}

#[test]
fn log_level_defaults_to_info_and_ignores_case() {
    assert_eq!(parse_log_level(None), Ok(LogLevel::Info));
    assert_eq!(parse_log_level(Some("Error")), Ok(LogLevel::Error));
    assert_eq!(parse_log_level(Some("wArN")), Ok(LogLevel::Warn));
    assert_eq!(parse_log_level(Some("INFO")), Ok(LogLevel::Info));
    assert_eq!(
        parse_log_level(Some("infos")),
        Err(ConfigError::UnsupportedLogLevel("infos".to_string()))
    );
    assert_eq!(
        parse_log_level(Some("verbose")).unwrap_err().to_string(),
        "Unsupported CENYSLOVENSKO_LOG_LEVEL value: verbose"
    );
}

#[test]
fn number_settings_follow_u64_parsing() {
    assert_eq!(parse_u64_setting("T", None, 30000), Ok(30000));
    assert_eq!(parse_u64_setting("T", Some("15"), 30000), Ok(15));
    assert_eq!(parse_u64_setting("T", Some("+7"), 30000), Ok(7));
    assert_eq!(parse_u64_setting("T", Some("007"), 30000), Ok(7));
    assert_eq!(
        parse_u64_setting("T", Some("18446744073709551615"), 1),
        Ok(18446744073709551615)
    );
    for bad in ["", "+", "-1", "1.5", " 1", "18446744073709551616", "abc"] {
        assert_eq!(
            parse_u64_setting("CENYSLOVENSKO_TIMEOUT_MS", Some(bad), 1),
            Err(ConfigError::InvalidNumber("CENYSLOVENSKO_TIMEOUT_MS".to_string())),
            "{bad:?} should be refused"
        );
    }
    assert_eq!(
        ConfigError::InvalidNumber("X".to_string()).to_string(),
        "X must be a valid positive integer"
    );
}

fn no_settings() -> ServerSettings {
    ServerSettings {
        base_uri: None,
        timeout_ms: None,
        connect_timeout_ms: None,
        log_level: None,
        proxy: None,
        version_path: None,
        vendor_path: None,
        product_prices_current_day_path: None,
    }
}

#[test]
fn settings_default_to_the_public_api() {
    let config = RpcServerConfig::from_settings(no_settings()).expect("defaults should build");

    assert_eq!(config.web_client.base_uri().as_str(), "https://api.cenyslovensko.sk/");
    assert_eq!(config.web_client.log_level(), LogLevel::Info);
    assert_eq!(config.web_client.proxy(), None);
    assert_eq!(config.version_path, "api/version");
    assert_eq!(config.vendor_path, "api/vendor-branch");
    assert_eq!(config.product_prices_current_day_path, "api/product-prices/current-day");
}

#[test]
fn settings_are_checked_in_order() {
    let mut settings = no_settings();
    settings.timeout_ms = Some("x".to_string());
    settings.connect_timeout_ms = Some("y".to_string());
    settings.log_level = Some("loud".to_string());
    assert_eq!(
        RpcServerConfig::from_settings(settings.clone()).err(),
        Some(ConfigError::InvalidNumber("CENYSLOVENSKO_TIMEOUT_MS".to_string()))
    );
    settings.timeout_ms = Some("100".to_string());
    assert_eq!(
        RpcServerConfig::from_settings(settings.clone()).err(),
        Some(ConfigError::InvalidNumber("CENYSLOVENSKO_CONNECT_TIMEOUT_MS".to_string()))
    );
    settings.connect_timeout_ms = Some("100".to_string());
    assert_eq!(
        RpcServerConfig::from_settings(settings.clone()).err(),
        Some(ConfigError::UnsupportedLogLevel("loud".to_string()))
    );
    settings.log_level = Some("trace".to_string());
    settings.base_uri = Some("nowhere".to_string());
    assert_eq!(
        RpcServerConfig::from_settings(settings.clone()).err(),
        Some(ConfigError::WebClient(WebClientError::InvalidBaseUri("nowhere".to_string())))
    );
    settings.base_uri = Some("http://localhost:8080/".to_string());
    settings.proxy = Some("://bad".to_string());
    assert_eq!(
        RpcServerConfig::from_settings(settings.clone()).err(),
        Some(ConfigError::WebClient(WebClientError::InvalidProxy("://bad".to_string())))
    );
    settings.proxy = Some("http://localhost:3128".to_string());
    settings.version_path = Some("v".to_string());
    let config = RpcServerConfig::from_settings(settings).expect("settings should build");
    assert_eq!(config.web_client.log_level(), LogLevel::Trace);
    assert_eq!(config.web_client.proxy(), Some("http://localhost:3128"));
    assert_eq!(config.version_path, "v");
}

#[test]
fn timeouts_are_taken_in_milliseconds() {
    let mut settings = no_settings();
    settings.timeout_ms = Some("1500".to_string());
    let config = RpcServerConfig::from_settings(settings).expect("settings should build");
    let shown = format!("{:?}", config.web_client);
    assert!(shown.contains("1.5s"), "{shown}");
}
