//! The settings of the JSON-RPC server: defaults, the reading of numbers and
//! log levels, and the web client and endpoint paths they make.
use vstd::prelude::*;

use reqwest::header::HeaderMap;
use reqwest::ClientBuilder;

use crate::text::{ascii_lower, eq_ignore_ascii_case, parse_u64, parses_as_u64, str_eq_ignore_ascii_case, u64_value};
use crate::web_client::{
    built_from, built_with, builder_with_connect_timeout, builder_with_connection_verbose,
    builder_with_default_headers, builder_with_proxy, builder_with_timeout, duration_from_millis,
    duration_of_millis, header_entries, is_fresh_builder, lemma_built_with_applies_the_settings,
    parsed_proxy, parsed_url, proxy_refused, LogLevel, WebClient, WebClientConfig,
    WebClientConfigModel, WebClientError,
};

verus! {

pub const DEFAULT_BASE_URI: &'static str = "https://api.cenyslovensko.sk/";

pub const DEFAULT_VERSION_PATH: &'static str = "api/version";

pub const DEFAULT_VENDOR_PATH: &'static str = "api/vendor-branch";

pub const DEFAULT_PRODUCT_PRICES_CURRENT_DAY_PATH: &'static str = "api/product-prices/current-day";

pub const DEFAULT_TIMEOUT_MS: u64 = 30000;

pub const DEFAULT_CONNECT_TIMEOUT_MS: u64 = 10000;

pub const TIMEOUT_VARIABLE: &'static str = "CENYSLOVENSKO_TIMEOUT_MS";

pub const CONNECT_TIMEOUT_VARIABLE: &'static str = "CENYSLOVENSKO_CONNECT_TIMEOUT_MS";

/// Failures of reading the server settings.
#[derive(Debug, Clone, PartialEq, Eq)]
pub enum ConfigError {
    /// The named variable does not hold a number.
    InvalidNumber(String),
    /// The log level is none of the five known ones.
    UnsupportedLogLevel(String),
    /// The web client could not be built.
    WebClient(WebClientError),
}

impl ConfigError {
    /// The message this error is displayed with.
    pub fn to_string(&self) -> (r: String)
        ensures
            r@ == match *self {
                ConfigError::InvalidNumber(v) => v@ + " must be a valid positive integer"@,
                ConfigError::UnsupportedLogLevel(l) => "Unsupported CENYSLOVENSKO_LOG_LEVEL value: "@
                    + l@,
                ConfigError::WebClient(e) => crate::web_client::web_client_error_text(e),
            },
    {
        match self {
            ConfigError::InvalidNumber(v) => {
                let mut r = v.clone();
                r.append(" must be a valid positive integer");
                r
            },
            ConfigError::UnsupportedLogLevel(l) => {
                let mut r = String::from_str("Unsupported CENYSLOVENSKO_LOG_LEVEL value: ");
                r.append(l.as_str());
                r
            },
            ConfigError::WebClient(e) => e.to_string(),
        }
    }
}

/// The log level a name stands for, compared without case.
pub open spec fn log_level_named(name: Seq<char>) -> Option<LogLevel> {
    if eq_ignore_ascii_case(name, "error"@) {
        Some(LogLevel::Error)
    } else if eq_ignore_ascii_case(name, "warn"@) {
        Some(LogLevel::Warn)
    } else if eq_ignore_ascii_case(name, "info"@) {
        Some(LogLevel::Info)
    } else if eq_ignore_ascii_case(name, "debug"@) {
        Some(LogLevel::Debug)
    } else if eq_ignore_ascii_case(name, "trace"@) {
        Some(LogLevel::Trace)
    } else {
        None
    }
}

/// The name a log level is written with.
pub open spec fn log_level_name(level: LogLevel) -> Seq<char> {
    match level {
        LogLevel::Error => "error"@,
        LogLevel::Warn => "warn"@,
        LogLevel::Info => "info"@,
        LogLevel::Debug => "debug"@,
        LogLevel::Trace => "trace"@,
    }
}

/// Law: every log level's name, written in any mix of ASCII cases, reads
/// back as that level.
pub proof fn lemma_log_level_name_round_trip(level: LogLevel, written: Seq<char>)
    requires
        eq_ignore_ascii_case(written, log_level_name(level)),
    ensures
        log_level_named(written) == Some(level),
{
    reveal_strlit("error");
    reveal_strlit("warn");
    reveal_strlit("info");
    reveal_strlit("debug");
    reveal_strlit("trace");
    let name = log_level_name(level);
    assert(ascii_lower(written[0]) == ascii_lower(name[0]));
    assert(ascii_lower(written[1]) == ascii_lower(name[1]));
}

/// Reads a log level: none given is `Info`; a name is matched without case.
pub fn parse_log_level(value: Option<&str>) -> (r: Result<LogLevel, ConfigError>)
    ensures
        value is None ==> r == Ok::<LogLevel, ConfigError>(LogLevel::Info),
        value matches Some(v) ==> (log_level_named(v@) matches Some(l) ==> r == Ok::<
            LogLevel,
            ConfigError,
        >(l)),
        value matches Some(v) ==> (log_level_named(v@) is None ==> (r matches Err(
            ConfigError::UnsupportedLogLevel(s),
        ) && s@ == v@)),
{
    match value {
        None => Ok(LogLevel::Info),
        Some(level) => {
            if str_eq_ignore_ascii_case(level, "error") {
                Ok(LogLevel::Error)
            } else if str_eq_ignore_ascii_case(level, "warn") {
                Ok(LogLevel::Warn)
            } else if str_eq_ignore_ascii_case(level, "info") {
                Ok(LogLevel::Info)
            } else if str_eq_ignore_ascii_case(level, "debug") {
                Ok(LogLevel::Debug)
            } else if str_eq_ignore_ascii_case(level, "trace") {
                Ok(LogLevel::Trace)
            } else {
                Err(ConfigError::UnsupportedLogLevel(String::from_str(level)))
            }
        },
    }
}

/// Reads a number setting: none given is `default`; otherwise the text as
/// `u64::from_str` reads it, refused with the variable's name.
pub fn parse_u64_setting(variable: &str, value: Option<&str>, default: u64) -> (r: Result<
    u64,
    ConfigError,
>)
    ensures
        value is None ==> r == Ok::<u64, ConfigError>(default),
        value matches Some(v) ==> (parses_as_u64(v@) ==> r == Ok::<u64, ConfigError>(
            u64_value(v@) as u64,
        )),
        value matches Some(v) ==> (!parses_as_u64(v@) ==> (r matches Err(
            ConfigError::InvalidNumber(s),
        ) && s@ == variable@)),
{
    match value {
        None => Ok(default),
        Some(text) => match parse_u64(text) {
            Some(n) => Ok(n),
            None => Err(ConfigError::InvalidNumber(String::from_str(variable))),
        },
    }
}

/// The raw values the server is configured with; `None` where not given.
#[derive(Debug, Clone, PartialEq, Eq)]
pub struct ServerSettings {
    pub base_uri: Option<String>,
    pub timeout_ms: Option<String>,
    pub connect_timeout_ms: Option<String>,
    pub log_level: Option<String>,
    pub proxy: Option<String>,
    pub version_path: Option<String>,
    pub vendor_path: Option<String>,
    pub product_prices_current_day_path: Option<String>,
}

/// `o`'s text, or `default` when it is `None`.
pub open spec fn text_or(o: Option<String>, default: Seq<char>) -> Seq<char> {
    match o {
        Some(s) => s@,
        None => default,
    }
}

/// The number a setting gives, when it gives one.
pub open spec fn number_setting(o: Option<String>, default: u64) -> Option<u64> {
    match o {
        None => Some(default),
        Some(s) => if parses_as_u64(s@) {
            Some(u64_value(s@) as u64)
        } else {
            None
        },
    }
}

/// The log level a setting gives, when it gives one.
pub open spec fn level_setting(o: Option<String>) -> Option<LogLevel> {
    match o {
        None => Some(LogLevel::Info),
        Some(s) => log_level_named(s@),
    }
}

pub open spec fn optional_string_view(o: Option<String>) -> Option<Seq<char>> {
    match o {
        Some(s) => Some(s@),
        None => None,
    }
}

/// The web client configuration that valid settings make: the base URI (or
/// its default), no default header, the two timeouts in milliseconds, the
/// proxy if one is given, and the log level.
pub open spec fn settings_client_config(settings: ServerSettings) -> WebClientConfigModel {
    WebClientConfigModel {
        base_uri: text_or(settings.base_uri, DEFAULT_BASE_URI@),
        default_headers: Map::empty(),
        timeout: duration_of_millis(number_setting(settings.timeout_ms, DEFAULT_TIMEOUT_MS)->Some_0),
        connect_timeout: duration_of_millis(
            number_setting(settings.connect_timeout_ms, DEFAULT_CONNECT_TIMEOUT_MS)->Some_0,
        ),
        proxy: optional_string_view(settings.proxy),
        log_level: level_setting(settings.log_level)->Some_0,
    }
}

fn text_or_default(o: Option<String>, default: &str) -> (r: String)
    ensures
        r@ == text_or(o, default@),
{
    match o {
        Some(s) => s,
        None => String::from_str(default),
    }
}

fn as_str_option(o: &Option<String>) -> (r: Option<&str>)
    ensures
        match *o {
            Some(s) => r matches Some(t) && t@ == s@,
            None => r is None,
        },
{
    match o {
        Some(s) => Some(s.as_str()),
        None => None,
    }
}

/// The configuration of the JSON-RPC server: its web client and endpoint paths.
#[derive(Debug, Clone)]
pub struct RpcServerConfig {
    pub web_client: WebClient,
    pub version_path: String,
    pub vendor_path: String,
    pub product_prices_current_day_path: String,
}

/// Law: the web client of a configuration made from settings comes from a
/// fresh builder given no default header, then the total timeout of
/// `timeout_ms` and then the connect timeout of `connect_timeout_ms` (each in
/// milliseconds; 30000 and 10000 when not given), then the given proxy when
/// there is one, then verbose logging when the level is `Debug` or `Trace`,
/// and nothing else.
pub proof fn lemma_settings_reach_the_client(
    settings: ServerSettings,
    r: Result<RpcServerConfig, ConfigError>,
)
    requires
        call_ensures(RpcServerConfig::from_settings, (settings,), r),
        r is Ok,
    ensures
        settings.timeout_ms matches Some(t) ==> parses_as_u64(t@),
        settings.connect_timeout_ms matches Some(t) ==> parses_as_u64(t@),
        settings.proxy matches Some(p) ==> parsed_proxy(p@) is Some,
        exists|start: ClientBuilder, headers: HeaderMap|
            #![trigger builder_with_default_headers(start, headers)]
            {
                let timeout_ms: u64 = match settings.timeout_ms {
                    Some(t) => u64_value(t@) as u64,
                    None => 30000,
                };
                let connect_timeout_ms: u64 = match settings.connect_timeout_ms {
                    Some(t) => u64_value(t@) as u64,
                    None => 10000,
                };
                let timed = builder_with_connect_timeout(
                    builder_with_timeout(
                        builder_with_default_headers(start, headers),
                        duration_of_millis(timeout_ms),
                    ),
                    duration_of_millis(connect_timeout_ms),
                );
                let proxied = match settings.proxy {
                    Some(p) => builder_with_proxy(timed, parsed_proxy(p@)->Some_0),
                    None => timed,
                };
                let verbose = match settings.log_level {
                    Some(l) => eq_ignore_ascii_case(l@, "debug"@) || eq_ignore_ascii_case(
                        l@,
                        "trace"@,
                    ),
                    None => false,
                };
                &&& is_fresh_builder(start)
                &&& header_entries(headers) == Map::<Seq<u8>, Seq<Seq<u8>>>::empty()
                &&& built_from(
                    r->Ok_0.web_client.client_model(),
                    if verbose {
                        builder_with_connection_verbose(proxied, true)
                    } else {
                        proxied
                    },
                )
            },
{
    let c = r->Ok_0;
    lemma_built_with_applies_the_settings(c.web_client, settings_client_config(settings));
    match settings.log_level {
        Some(l) => lemma_level_names_exclusive(l@),
        None => {},
    }
}

/// A name that reads as `debug` or `trace` reads as none of the other levels.
proof fn lemma_level_names_exclusive(name: Seq<char>)
    ensures
        eq_ignore_ascii_case(name, "debug"@) ==> log_level_named(name) == Some(LogLevel::Debug),
        eq_ignore_ascii_case(name, "trace"@) ==> log_level_named(name) == Some(LogLevel::Trace),
        !eq_ignore_ascii_case(name, "debug"@) && !eq_ignore_ascii_case(name, "trace"@) ==> (
        log_level_named(name) != Some(LogLevel::Debug) && log_level_named(name) != Some(
            LogLevel::Trace,
        )),
{
    reveal_strlit("error");
    reveal_strlit("warn");
    reveal_strlit("info");
    reveal_strlit("debug");
    reveal_strlit("trace");
    assert("error"@.len() == 5 && "error"@[0] == 'e');
    assert("warn"@.len() == 4 && "info"@.len() == 4);
    assert("debug"@.len() == 5 && "debug"@[0] == 'd');
    assert("trace"@.len() == 5 && "trace"@[0] == 't');
    if eq_ignore_ascii_case(name, "debug"@) {
        assert(ascii_lower(name[0]) == ascii_lower('d'));
        assert(!eq_ignore_ascii_case(name, "error"@));
    }
    if eq_ignore_ascii_case(name, "trace"@) {
        assert(ascii_lower(name[0]) == ascii_lower('t'));
        assert(!eq_ignore_ascii_case(name, "error"@));
        assert(!eq_ignore_ascii_case(name, "debug"@));
    }
}

impl RpcServerConfig {
    /// Builds the configuration from raw settings. The timeouts are read
    /// first, then the connect timeout, then the log level; then the web
    /// client is built over the base URI (default `DEFAULT_BASE_URI`) with the
    /// proxy, if any. Paths not given take their defaults.
    pub fn from_settings(settings: ServerSettings) -> (r: Result<Self, ConfigError>)
        ensures
            number_setting(settings.timeout_ms, DEFAULT_TIMEOUT_MS) is None ==> (r matches Err(
                ConfigError::InvalidNumber(v),
            ) && v@ == TIMEOUT_VARIABLE@),
            number_setting(settings.timeout_ms, DEFAULT_TIMEOUT_MS) is Some && number_setting(
                settings.connect_timeout_ms,
                DEFAULT_CONNECT_TIMEOUT_MS,
            ) is None ==> (r matches Err(ConfigError::InvalidNumber(v)) && v@
                == CONNECT_TIMEOUT_VARIABLE@),
            number_setting(settings.timeout_ms, DEFAULT_TIMEOUT_MS) is Some && number_setting(
                settings.connect_timeout_ms,
                DEFAULT_CONNECT_TIMEOUT_MS,
            ) is Some && level_setting(settings.log_level) is None ==> (r matches Err(
                ConfigError::UnsupportedLogLevel(l),
            ) && Some(l@) == optional_string_view(settings.log_level)),
            number_setting(settings.timeout_ms, DEFAULT_TIMEOUT_MS) is Some && number_setting(
                settings.connect_timeout_ms,
                DEFAULT_CONNECT_TIMEOUT_MS,
            ) is Some && level_setting(settings.log_level) is Some ==> {
                let base = text_or(settings.base_uri, DEFAULT_BASE_URI@);
                &&& parsed_url(base) is None ==> (r matches Err(
                    ConfigError::WebClient(WebClientError::InvalidBaseUri(s)),
                ) && s@ == base)
                &&& parsed_url(base) is Some && proxy_refused(
                    optional_string_view(settings.proxy),
                ) ==> (r matches Err(ConfigError::WebClient(WebClientError::InvalidProxy(s)))
                    && Some(s@) == optional_string_view(settings.proxy))
                &&& parsed_url(base) is Some && !proxy_refused(
                    optional_string_view(settings.proxy),
                ) ==> (r is Ok || r matches Err(
                    ConfigError::WebClient(WebClientError::ClientBuild(_)),
                ))
            },
            r matches Ok(c) ==> {
                &&& c.web_client.base_uri_model() == parsed_url(
                    text_or(settings.base_uri, DEFAULT_BASE_URI@),
                )->Some_0
                &&& c.web_client.proxy_model() == optional_string_view(settings.proxy)
                &&& Some(c.web_client.log_level_model()) == level_setting(settings.log_level)
                &&& built_with(c.web_client, settings_client_config(settings))
                &&& c.version_path@ == text_or(settings.version_path, DEFAULT_VERSION_PATH@)
                &&& c.vendor_path@ == text_or(settings.vendor_path, DEFAULT_VENDOR_PATH@)
                &&& c.product_prices_current_day_path@ == text_or(
                    settings.product_prices_current_day_path,
                    DEFAULT_PRODUCT_PRICES_CURRENT_DAY_PATH@,
                )
            },
    {
        let timeout_ms = match parse_u64_setting(
            TIMEOUT_VARIABLE,
            as_str_option(&settings.timeout_ms),
            DEFAULT_TIMEOUT_MS,
        ) {
            Ok(n) => n,
            Err(e) => return Err(e),
        };
        let connect_timeout_ms = match parse_u64_setting(
            CONNECT_TIMEOUT_VARIABLE,
            as_str_option(&settings.connect_timeout_ms),
            DEFAULT_CONNECT_TIMEOUT_MS,
        ) {
            Ok(n) => n,
            Err(e) => return Err(e),
        };
        let log_level = match parse_log_level(as_str_option(&settings.log_level)) {
            Ok(l) => l,
            Err(e) => return Err(e),
        };
        let ServerSettings {
            base_uri,
            timeout_ms: _,
            connect_timeout_ms: _,
            log_level: _,
            proxy,
            version_path,
            vendor_path,
            product_prices_current_day_path,
        } = settings;
        let base_uri = text_or_default(base_uri, DEFAULT_BASE_URI);
        let mut config = WebClientConfig::new(base_uri.as_str()).set_timeout(
            duration_from_millis(timeout_ms),
        ).set_connect_timeout(duration_from_millis(connect_timeout_ms)).set_log_level(log_level);
        match &proxy {
            Some(p) => {
                config = config.set_proxy(p.as_str());
            },
            None => {},
        }
        let web_client = match config.build() {
            Ok(c) => c,
            Err(e) => return Err(ConfigError::WebClient(e)),
        };
        Ok(RpcServerConfig {
            web_client,
            version_path: text_or_default(version_path, DEFAULT_VERSION_PATH),
            vendor_path: text_or_default(vendor_path, DEFAULT_VENDOR_PATH),
            product_prices_current_day_path: text_or_default(
                product_prices_current_day_path,
                DEFAULT_PRODUCT_PRICES_CURRENT_DAY_PATH,
            ),
        })
    }
}

} // verus!
