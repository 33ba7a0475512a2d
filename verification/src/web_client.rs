//! The shared web client: its configuration (base URI, default headers,
//! timeouts, proxy, log level), the checks made when it is built, and the
//! resolution of endpoint paths against the base URI.
use vstd::prelude::*;
use vstd::string::StringSliceAdditionalSpecFns;

use reqwest::header::{HeaderMap, HeaderName, HeaderValue};
use reqwest::{Client, ClientBuilder, Proxy, Url};
use std::time::Duration;

verus! {

#[verifier::external_type_specification]
#[verifier::external_body]
pub struct ExClient(reqwest::Client);

#[verifier::external_type_specification]
#[verifier::external_body]
pub struct ExClientBuilder(reqwest::ClientBuilder);

#[verifier::external_type_specification]
#[verifier::external_body]
pub struct ExProxy(reqwest::Proxy);

#[verifier::external_type_specification]
#[verifier::external_body]
pub struct ExUrl(reqwest::Url);

#[verifier::external_type_specification]
#[verifier::external_body]
pub struct ExReqwestError(reqwest::Error);

#[verifier::external_type_specification]
#[verifier::external_body]
#[verifier::reject_recursive_types(T)]
pub struct ExHeaderMap<T>(reqwest::header::HeaderMap<T>);

#[verifier::external_type_specification]
#[verifier::external_body]
pub struct ExHeaderName(reqwest::header::HeaderName);

#[verifier::external_type_specification]
#[verifier::external_body]
pub struct ExHeaderValue(reqwest::header::HeaderValue);

/// Specifies `Clone::clone` of `Duration`; claims the copy equals the original
/// (`Duration` is `Copy`).
pub assume_specification[ <std::time::Duration as std::clone::Clone>::clone ](d: &std::time::Duration) -> (r: std::time::Duration)
    ensures
        r == *d,
;

/// Specifies the derived `Clone::clone` of `Url`; claims the copy equals the original.
pub assume_specification[ <reqwest::Url as std::clone::Clone>::clone ](u: &reqwest::Url) -> (r: reqwest::Url)
    ensures
        r == *u,
;

/// Specifies the derived `Clone::clone` of `Client`, which clones the `Arc`
/// it holds; claims the copy is the same handle to the same client.
pub assume_specification[ <reqwest::Client as std::clone::Clone>::clone ](c: &reqwest::Client) -> (r: reqwest::Client)
    ensures
        r == *c,
;

/// Specifies the derived `Clone::clone` of `HeaderMap`; nothing is claimed of
/// the copy, whose values are cloned by `T::clone`.
pub assume_specification<T> [ <reqwest::header::HeaderMap<T> as std::clone::Clone>::clone ](m: &reqwest::header::HeaderMap<T>) -> (r: reqwest::header::HeaderMap<T>)
    where
        T: std::clone::Clone,
;

/// What a header map holds: for each (lower-case) header name, its values in order.
pub uninterp spec fn header_entries(map: HeaderMap) -> Map<Seq<u8>, Seq<Seq<u8>>>;

/// The bytes of a header name (always in lower case).
pub uninterp spec fn header_name_bytes(name: HeaderName) -> Seq<u8>;

/// The bytes of a header value.
pub uninterp spec fn header_value_bytes(value: HeaderValue) -> Seq<u8>;

/// The URL that `Url::parse` makes of a text, if it accepts it.
pub uninterp spec fn parsed_url(text: Seq<char>) -> Option<Url>;

/// The URL that `Url::join` makes of a base URL and a path, if it accepts the path.
pub uninterp spec fn joined_url(base: Url, path: Seq<char>) -> Option<Url>;

/// The proxy that `Proxy::all` makes of a text, if it accepts it.
pub uninterp spec fn parsed_proxy(text: Seq<char>) -> Option<Proxy>;

/// The builder `ClientBuilder::default_headers` gives: `builder` with each
/// header of `headers` set.
pub uninterp spec fn builder_with_default_headers(builder: ClientBuilder, headers: HeaderMap) -> ClientBuilder;

/// The builder `ClientBuilder::timeout` gives: `builder` with the total timeout set.
pub uninterp spec fn builder_with_timeout(builder: ClientBuilder, timeout: Duration) -> ClientBuilder;

/// The builder `ClientBuilder::connect_timeout` gives: `builder` with the
/// connect timeout set.
pub uninterp spec fn builder_with_connect_timeout(builder: ClientBuilder, timeout: Duration) -> ClientBuilder;

/// The builder `ClientBuilder::proxy` gives: `builder` with `proxy` added.
pub uninterp spec fn builder_with_proxy(builder: ClientBuilder, proxy: Proxy) -> ClientBuilder;

/// The builder `ClientBuilder::connection_verbose` gives: `builder` with the
/// verbose flag set.
pub uninterp spec fn builder_with_connection_verbose(builder: ClientBuilder, verbose: bool) -> ClientBuilder;

/// Whether `builder` is a builder as `Client::builder` gives it, before any
/// setting is applied.
pub uninterp spec fn is_fresh_builder(builder: ClientBuilder) -> bool;

/// Whether `client` is a client that `ClientBuilder::build` made of `builder`.
pub uninterp spec fn built_from(client: Client, builder: ClientBuilder) -> bool;

/// The `Display` text of a `reqwest::Error`.
pub uninterp spec fn reqwest_error_display(error: reqwest::Error) -> Seq<char>;

/// The duration `Duration::from_secs` gives.
pub uninterp spec fn duration_of_secs(secs: u64) -> Duration;

/// The duration `Duration::from_millis` gives.
pub uninterp spec fn duration_of_millis(millis: u64) -> Duration;

/// Whether `b` may stand in a header name: an ASCII digit or letter, or one
/// of `! # $ % & ' * + - . ^ _` and the backquote, `|` and `~` (codes below).
pub open spec fn is_header_name_byte(b: u8) -> bool {
    ||| 48 <= b <= 57
    ||| 97 <= b <= 122
    ||| 65 <= b <= 90
    ||| b == 33 || b == 35 || b == 36 || b == 37 || b == 38 || b == 39
    ||| b == 42 || b == 43 || b == 45 || b == 46 || b == 94 || b == 95
    ||| b == 96 || b == 124 || b == 126
}

/// Whether `HeaderName::from_bytes` accepts `bytes`: between 1 and 65535
/// bytes, each allowed in a header name.
pub open spec fn is_header_name(bytes: Seq<u8>) -> bool {
    &&& 0 < bytes.len() <= 65535
    &&& forall|i: int| 0 <= i < bytes.len() ==> is_header_name_byte(#[trigger] bytes[i])
}

/// `b` with an ASCII upper-case letter turned into lower case.
pub open spec fn lower_byte(b: u8) -> u8 {
    if 65 <= b <= 90 {
        (b + 32) as u8
    } else {
        b
    }
}

/// Whether `HeaderValue::from_str` accepts `bytes`: every byte is a tab, or
/// at least 32 and not 127.
pub open spec fn is_header_value(bytes: Seq<u8>) -> bool {
    forall|i: int| 0 <= i < bytes.len() ==> {
        let b = #[trigger] bytes[i];
        (b >= 32 && b != 127) || b == 9
    }
}

/// Wraps `Duration::from_secs`; claims the result is the named duration of `secs`.
#[verifier::external_body]
fn duration_from_secs(secs: u64) -> (d: Duration)
    ensures
        d == duration_of_secs(secs),
{
    Duration::from_secs(secs)
}

/// Wraps `Duration::from_millis`; claims the result is the named duration of `millis`.
#[verifier::external_body]
pub(crate) fn duration_from_millis(millis: u64) -> (d: Duration)
    ensures
        d == duration_of_millis(millis),
{
    Duration::from_millis(millis)
}

/// Wraps `HeaderMap::new`; claims the new map holds no header.
#[verifier::external_body]
fn new_header_map() -> (m: HeaderMap)
    ensures
        header_entries(m).dom() == Set::<Seq<u8>>::empty(),
{
    HeaderMap::new()
}

/// Wraps `HeaderName::from_bytes` on the bytes of `name`; claims it succeeds
/// exactly on valid header names and gives their lower-case form.
#[verifier::external_body]
fn header_name_from_str(name: &str) -> (r: Option<HeaderName>)
    ensures
        r is Some <==> is_header_name(name.spec_bytes()),
        r matches Some(n) ==> header_name_bytes(n) == name.spec_bytes().map_values(
            |b: u8| lower_byte(b),
        ),
{
    HeaderName::from_bytes(name.as_bytes()).ok()
}

/// Wraps `HeaderValue::from_str`; claims it succeeds exactly on valid header
/// values and keeps their bytes.
#[verifier::external_body]
fn header_value_from_str(value: &str) -> (r: Option<HeaderValue>)
    ensures
        r is Some <==> is_header_value(value.spec_bytes()),
        r matches Some(v) ==> header_value_bytes(v) == value.spec_bytes(),
{
    HeaderValue::from_str(value).ok()
}

/// Wraps `HeaderMap::insert`; claims the name then holds exactly the new
/// value, all earlier values of the name removed, other names untouched.
/// The map panics past its maximum size; the bound on distinct names keeps
/// every insertion below it.
#[verifier::external_body]
fn insert_header(map: &mut HeaderMap, name: HeaderName, value: HeaderValue)
    requires
        header_entries(*old(map)).dom().len() < 6553,
    ensures
        header_entries(*final(map)) == header_entries(*old(map)).insert(
            header_name_bytes(name),
            seq![header_value_bytes(value)],
        ),
{
    map.insert(name, value);
}

/// Wraps `HeaderMap::keys_len`; claims the result is the number of distinct
/// header names the map holds.
#[verifier::external_body]
fn header_names_count(map: &HeaderMap) -> (r: usize)
    ensures
        r == header_entries(*map).dom().len(),
{
    map.keys_len()
}

/// Wraps `Url::parse`; claims the result is the named parse of `text`.
#[verifier::external_body]
fn parse_url(text: &str) -> (r: Option<Url>)
    ensures
        r == parsed_url(text@),
{
    Url::parse(text).ok()
}

/// Wraps `Url::join`; claims the result is the named join of `base` and `path`.
#[verifier::external_body]
fn join_url(base: &Url, path: &str) -> (r: Option<Url>)
    ensures
        r == joined_url(*base, path@),
{
    base.join(path).ok()
}

/// Wraps `Proxy::all`; claims the result is the named proxy of `text`.
#[verifier::external_body]
fn proxy_for_all(text: &str) -> (r: Option<Proxy>)
    ensures
        r == parsed_proxy(text@),
{
    Proxy::all(text).ok()
}

/// Wraps `Client::builder`; claims the result is a fresh builder.
#[verifier::external_body]
fn client_builder() -> (r: ClientBuilder)
    ensures
        is_fresh_builder(r),
{
    Client::builder()
}

/// Wraps `ClientBuilder::default_headers`; claims the result is the named
/// builder of `builder` and `headers`. A fresh builder's header map holds one
/// header of its own and panics past its maximum size; taking only a fresh
/// builder and bounding the distinct names keeps every insertion below it.
#[verifier::external_body]
fn builder_default_headers(builder: ClientBuilder, headers: HeaderMap) -> (r: ClientBuilder)
    requires
        is_fresh_builder(builder),
        header_entries(headers).dom().len() < 6553,
    ensures
        r == builder_with_default_headers(builder, headers),
{
    builder.default_headers(headers)
}

/// Wraps `ClientBuilder::timeout`; claims the result is the named builder of
/// `builder` and `timeout`.
#[verifier::external_body]
fn builder_timeout(builder: ClientBuilder, timeout: Duration) -> (r: ClientBuilder)
    ensures
        r == builder_with_timeout(builder, timeout),
{
    builder.timeout(timeout)
}

/// Wraps `ClientBuilder::connect_timeout`; claims the result is the named
/// builder of `builder` and `timeout`.
#[verifier::external_body]
fn builder_connect_timeout(builder: ClientBuilder, timeout: Duration) -> (r: ClientBuilder)
    ensures
        r == builder_with_connect_timeout(builder, timeout),
{
    builder.connect_timeout(timeout)
}

/// Wraps `ClientBuilder::proxy`; claims the result is the named builder of
/// `builder` and `proxy`.
#[verifier::external_body]
fn builder_proxy(builder: ClientBuilder, proxy: Proxy) -> (r: ClientBuilder)
    ensures
        r == builder_with_proxy(builder, proxy),
{
    builder.proxy(proxy)
}

/// Wraps `ClientBuilder::connection_verbose`; claims the result is the named
/// builder of `builder` and `verbose`.
#[verifier::external_body]
fn builder_connection_verbose(builder: ClientBuilder, verbose: bool) -> (r: ClientBuilder)
    ensures
        r == builder_with_connection_verbose(builder, verbose),
{
    builder.connection_verbose(verbose)
}

/// Wraps `ClientBuilder::build`; claims only that a client it returns was
/// built from `builder`. Whether it fails depends on the TLS backend and the
/// system, and is not claimed.
#[verifier::external_body]
fn build_client(builder: ClientBuilder) -> (r: Result<Client, reqwest::Error>)
    ensures
        r matches Ok(c) ==> built_from(c, builder),
{
    builder.build()
}

/// Wraps the `Display` text of a `reqwest::Error`; claims the text is the
/// named display text of `error`.
#[verifier::external_body]
fn reqwest_error_text(error: &reqwest::Error) -> (r: String)
    ensures
        r@ == reqwest_error_display(*error),
{
    format!("{}", error)
}

/// How much the transport logs.
#[derive(Debug, Clone, Copy, PartialEq, Eq, Structural)]
pub enum LogLevel {
    Error,
    Warn,
    Info,
    Debug,
    Trace,
}

impl Default for LogLevel {
    fn default() -> (r: Self)
        ensures
            r == LogLevel::Info,
    {
        LogLevel::Info
    }
}

/// Whether a client built at this level logs its connections.
pub open spec fn logs_connections(level: LogLevel) -> bool {
    level == LogLevel::Debug || level == LogLevel::Trace
}

/// Failures of configuring and using the web client.
#[derive(Debug, Clone, PartialEq, Eq)]
pub enum WebClientError {
    InvalidBaseUri(String),
    InvalidHeaderName(String),
    InvalidHeaderValue(String),
    InvalidProxy(String),
    ClientBuild(String),
    InvalidPath(String),
}

/// The message a web client error is displayed with.
pub open spec fn web_client_error_text(e: WebClientError) -> Seq<char> {
    match e {
        WebClientError::InvalidBaseUri(s) => "Invalid base URI: "@ + s@,
        WebClientError::InvalidHeaderName(s) => "Invalid header name: "@ + s@,
        WebClientError::InvalidHeaderValue(s) => "Invalid header value: "@ + s@,
        WebClientError::InvalidProxy(s) => "Invalid proxy: "@ + s@,
        WebClientError::ClientBuild(s) => "Unable to build web client: "@ + s@,
        WebClientError::InvalidPath(s) => "Invalid path for base URI: "@ + s@,
    }
}

fn prefixed(prefix: &str, s: &String) -> (r: String)
    ensures
        r@ == prefix@ + s@,
{
    let mut r = String::from_str(prefix);
    r.append(s.as_str());
    r
}

impl WebClientError {
    /// The message this error is displayed with.
    pub fn to_string(&self) -> (r: String)
        ensures
            r@ == web_client_error_text(*self),
    {
        match self {
            WebClientError::InvalidBaseUri(s) => prefixed("Invalid base URI: ", s),
            WebClientError::InvalidHeaderName(s) => prefixed("Invalid header name: ", s),
            WebClientError::InvalidHeaderValue(s) => prefixed("Invalid header value: ", s),
            WebClientError::InvalidProxy(s) => prefixed("Invalid proxy: ", s),
            WebClientError::ClientBuild(s) => prefixed("Unable to build web client: ", s),
            WebClientError::InvalidPath(s) => prefixed("Invalid path for base URI: ", s),
        }
    }
}

/// The content of a web client configuration.
pub struct WebClientConfigModel {
    pub base_uri: Seq<char>,
    pub default_headers: Map<Seq<u8>, Seq<Seq<u8>>>,
    pub timeout: Duration,
    pub connect_timeout: Duration,
    pub proxy: Option<Seq<char>>,
    pub log_level: LogLevel,
}

pub open spec fn optional_view(o: Option<String>) -> Option<Seq<char>> {
    match o {
        Some(s) => Some(s@),
        None => None,
    }
}

/// Law: a later default header replaces every earlier one of the same name,
/// whatever the case of either name; headers of other names stay.
pub proof fn lemma_later_header_replaces_earlier(
    headers: Map<Seq<u8>, Seq<Seq<u8>>>,
    first_name: Seq<u8>,
    first_value: Seq<u8>,
    second_name: Seq<u8>,
    second_value: Seq<u8>,
)
    requires
        first_name.map_values(|b: u8| lower_byte(b)) == second_name.map_values(
            |b: u8| lower_byte(b),
        ),
    ensures
        headers.insert(first_name.map_values(|b: u8| lower_byte(b)), seq![first_value]).insert(
            second_name.map_values(|b: u8| lower_byte(b)),
            seq![second_value],
        ) == headers.insert(second_name.map_values(|b: u8| lower_byte(b)), seq![second_value]),
{
    let key = second_name.map_values(|b: u8| lower_byte(b));
    assert(headers.insert(key, seq![first_value]).insert(key, seq![second_value]) =~= headers.insert(
        key,
        seq![second_value],
    ));
}

/// The settings a web client is built from.
#[derive(Debug, Clone)]
pub struct WebClientConfig {
    base_uri: String,
    default_headers: HeaderMap,
    timeout: Duration,
    connect_timeout: Duration,
    proxy: Option<String>,
    log_level: LogLevel,
}

impl View for WebClientConfig {
    type V = WebClientConfigModel;

    closed spec fn view(&self) -> WebClientConfigModel {
        WebClientConfigModel {
            base_uri: self.base_uri@,
            default_headers: header_entries(self.default_headers),
            timeout: self.timeout,
            connect_timeout: self.connect_timeout,
            proxy: optional_view(self.proxy),
            log_level: self.log_level,
        }
    }
}

/// Whether the configured proxy, if any, is refused by `Proxy::all`.
pub open spec fn proxy_refused(proxy: Option<Seq<char>>) -> bool {
    match proxy {
        Some(p) => parsed_proxy(p) is None,
        None => false,
    }
}

/// The builder a configuration asks for: `start` with the default headers
/// `headers`, the timeout, the connect timeout, the proxy if there is one, and
/// verbose connections at `Debug` and `Trace`, set in this order.
pub open spec fn configured_builder(
    start: ClientBuilder,
    headers: HeaderMap,
    config: WebClientConfigModel,
) -> ClientBuilder {
    let b = builder_with_connect_timeout(
        builder_with_timeout(builder_with_default_headers(start, headers), config.timeout),
        config.connect_timeout,
    );
    let b = match config.proxy {
        Some(p) => builder_with_proxy(b, parsed_proxy(p)->Some_0),
        None => b,
    };
    if logs_connections(config.log_level) {
        builder_with_connection_verbose(b, true)
    } else {
        b
    }
}

/// Whether the HTTP client of `client` was built with the settings of
/// `config`: from a fresh builder that the configuration's headers, timeouts,
/// proxy and log level were applied to, and nothing else.
pub open spec fn built_with(client: WebClient, config: WebClientConfigModel) -> bool {
    exists|start: ClientBuilder, headers: HeaderMap|
        is_fresh_builder(start) && header_entries(headers) == config.default_headers
            && #[trigger] built_from(
            client.client_model(),
            configured_builder(start, headers, config),
        )
}

/// What `built_with` says, setting by setting: the HTTP client comes from a
/// fresh builder given the default headers, the total timeout and the connect
/// timeout of `config` in this order, then its proxy when it has one, then
/// verbose logging when its level is `Debug` or `Trace`, and nothing else.
pub proof fn lemma_built_with_applies_the_settings(client: WebClient, config: WebClientConfigModel)
    requires
        built_with(client, config),
    ensures
        exists|start: ClientBuilder, headers: HeaderMap|
            #![trigger builder_with_default_headers(start, headers)]
            {
                let timed = builder_with_connect_timeout(
                    builder_with_timeout(
                        builder_with_default_headers(start, headers),
                        config.timeout,
                    ),
                    config.connect_timeout,
                );
                let proxied = match config.proxy {
                    Some(p) => builder_with_proxy(timed, parsed_proxy(p)->Some_0),
                    None => timed,
                };
                &&& is_fresh_builder(start)
                &&& header_entries(headers) == config.default_headers
                &&& built_from(
                    client.client_model(),
                    if config.log_level == LogLevel::Debug || config.log_level == LogLevel::Trace {
                        builder_with_connection_verbose(proxied, true)
                    } else {
                        proxied
                    },
                )
            },
{
    let (start, headers) = choose|start: ClientBuilder, headers: HeaderMap|
        is_fresh_builder(start) && header_entries(headers) == config.default_headers
            && #[trigger] built_from(client.client_model(), configured_builder(start, headers, config));
    assert(builder_with_default_headers(start, headers) == builder_with_default_headers(start, headers));
}

/// Law: the HTTP client of a built web client comes from a fresh builder
/// given the configured default headers, then the configured total timeout,
/// then the configured connect timeout; then the configured proxy, which
/// `Proxy::all` accepted, when one is configured and no proxy otherwise; then
/// verbose connection logging exactly when the level is `Debug` or `Trace`;
/// and nothing else.
pub proof fn lemma_build_applies_the_settings(
    config: WebClientConfig,
    r: Result<WebClient, WebClientError>,
)
    requires
        call_ensures(WebClientConfig::build, (config,), r),
        r is Ok,
    ensures
        config@.proxy matches Some(p) ==> parsed_proxy(p) is Some,
        exists|start: ClientBuilder, headers: HeaderMap|
            #![trigger builder_with_default_headers(start, headers)]
            {
                let timed = builder_with_connect_timeout(
                    builder_with_timeout(
                        builder_with_default_headers(start, headers),
                        config@.timeout,
                    ),
                    config@.connect_timeout,
                );
                let proxied = match config@.proxy {
                    Some(p) => builder_with_proxy(timed, parsed_proxy(p)->Some_0),
                    None => timed,
                };
                &&& is_fresh_builder(start)
                &&& header_entries(headers) == config@.default_headers
                &&& built_from(
                    r->Ok_0.client_model(),
                    if config@.log_level == LogLevel::Debug || config@.log_level == LogLevel::Trace {
                        builder_with_connection_verbose(proxied, true)
                    } else {
                        proxied
                    },
                )
            },
{
    lemma_built_with_applies_the_settings(r->Ok_0, config@);
}

impl WebClientConfig {
    /// A configuration for `base_uri` with no default header, a 30 s timeout,
    /// a 10 s connect timeout, no proxy and the `Info` log level.
    pub fn new(base_uri: &str) -> (r: Self)
        ensures
            r@ == (WebClientConfigModel {
                base_uri: base_uri@,
                default_headers: Map::empty(),
                timeout: duration_of_secs(30),
                connect_timeout: duration_of_secs(10),
                proxy: None,
                log_level: LogLevel::Info,
            }),
    {
        let default_headers = new_header_map();
        assert(header_entries(default_headers) =~= Map::empty());
        WebClientConfig {
            base_uri: String::from_str(base_uri),
            default_headers,
            timeout: duration_from_secs(30),
            connect_timeout: duration_from_secs(10),
            proxy: None,
            log_level: LogLevel::default(),
        }
    }

    pub fn set_base_uri(self, base_uri: &str) -> (r: Self)
        ensures
            r@ == (WebClientConfigModel { base_uri: base_uri@, ..self@ }),
    {
        let mut c = self;
        c.base_uri = String::from_str(base_uri);
        c
    }

    pub fn set_timeout(self, timeout: Duration) -> (r: Self)
        ensures
            r@ == (WebClientConfigModel { timeout, ..self@ }),
    {
        let mut c = self;
        c.timeout = timeout;
        c
    }

    pub fn set_connect_timeout(self, connect_timeout: Duration) -> (r: Self)
        ensures
            r@ == (WebClientConfigModel { connect_timeout, ..self@ }),
    {
        let mut c = self;
        c.connect_timeout = connect_timeout;
        c
    }

    pub fn set_proxy(self, proxy: &str) -> (r: Self)
        ensures
            r@ == (WebClientConfigModel { proxy: Some(proxy@), ..self@ }),
    {
        let mut c = self;
        c.proxy = Some(String::from_str(proxy));
        c
    }

    pub fn set_log_level(self, log_level: LogLevel) -> (r: Self)
        ensures
            r@ == (WebClientConfigModel { log_level, ..self@ }),
    {
        let mut c = self;
        c.log_level = log_level;
        c
    }

    /// Replaces all default headers with `headers`.
    pub fn set_default_headers(self, headers: HeaderMap) -> (r: Self)
        ensures
            r@ == (WebClientConfigModel { default_headers: header_entries(headers), ..self@ }),
    {
        let mut c = self;
        c.default_headers = headers;
        c
    }

    /// How many distinct names the default headers hold; `build` and
    /// `add_default_header` ask for fewer than 6553.
    pub fn default_header_count(&self) -> (r: usize)
        ensures
            r == self@.default_headers.dom().len(),
    {
        header_names_count(&self.default_headers)
    }

    /// Adds a default header, replacing any earlier values of the same name
    /// (names compare without case). Refuses an invalid name first, then an
    /// invalid value.
    pub fn add_default_header(self, name: &str, value: &str) -> (r: Result<Self, WebClientError>)
        requires
            self@.default_headers.dom().len() < 6553,
        ensures
            !is_header_name(name.spec_bytes()) ==> (r matches Err(
                WebClientError::InvalidHeaderName(s),
            ) && s@ == name@),
            is_header_name(name.spec_bytes()) && !is_header_value(value.spec_bytes()) ==> (r matches Err(
                WebClientError::InvalidHeaderValue(s),
            ) && s@ == value@),
            is_header_name(name.spec_bytes()) && is_header_value(value.spec_bytes()) ==> (r matches Ok(c)
                && c@ == (WebClientConfigModel {
                default_headers: self@.default_headers.insert(
                    name.spec_bytes().map_values(|b: u8| lower_byte(b)),
                    seq![value.spec_bytes()],
                ),
                ..self@
            })),
    {
        let header_name = match header_name_from_str(name) {
            Some(n) => n,
            None => return Err(WebClientError::InvalidHeaderName(String::from_str(name))),
        };
        let header_value = match header_value_from_str(value) {
            Some(v) => v,
            None => return Err(WebClientError::InvalidHeaderValue(String::from_str(value))),
        };
        let mut c = self;
        insert_header(&mut c.default_headers, header_name, header_value);
        Ok(c)
    }

    /// Builds the client: refuses a base URI that `Url::parse` refuses, then
    /// a proxy that `Proxy::all` refuses; a client that fails to build is
    /// reported as `ClientBuild`. Connections are logged at `Debug` and `Trace`.
    /// The default headers must name fewer than 6553 distinct headers, or the
    /// client builder's header map would overflow.
    pub fn build(self) -> (r: Result<WebClient, WebClientError>)
        requires
            self@.default_headers.dom().len() < 6553,
        ensures
            parsed_url(self@.base_uri) is None ==> (r matches Err(
                WebClientError::InvalidBaseUri(s),
            ) && s@ == self@.base_uri),
            parsed_url(self@.base_uri) is Some && proxy_refused(self@.proxy) ==> (r matches Err(
                WebClientError::InvalidProxy(s),
            ) && Some(s@) == self@.proxy),
            parsed_url(self@.base_uri) is Some && !proxy_refused(self@.proxy) ==> (r is Ok || r is Err
                && r->Err_0 is ClientBuild),
            r matches Ok(c) ==> c.base_uri_model() == parsed_url(self@.base_uri)->Some_0
                && c.proxy_model() == self@.proxy && c.log_level_model() == self@.log_level
                && built_with(c, self@),
            r matches Err(WebClientError::ClientBuild(s)) ==> exists|e: reqwest::Error|
                s@ == #[trigger] reqwest_error_display(e),
    {
        let ghost model = self@;
        let ghost headers = self.default_headers;
        let base_uri = match parse_url(self.base_uri.as_str()) {
            Some(u) => u,
            None => return Err(WebClientError::InvalidBaseUri(self.base_uri.clone())),
        };
        let WebClientConfig { base_uri: _, default_headers, timeout, connect_timeout, proxy, log_level } =
            self;
        let mut builder = client_builder();
        let ghost start = builder;
        builder = builder_default_headers(builder, default_headers);
        builder = builder_timeout(builder, timeout);
        builder = builder_connect_timeout(builder, connect_timeout);
        match &proxy {
            Some(p) => match proxy_for_all(p.as_str()) {
                Some(parsed) => {
                    builder = builder_proxy(builder, parsed);
                },
                None => return Err(WebClientError::InvalidProxy(p.clone())),
            },
            None => {},
        }
        match log_level {
            LogLevel::Debug | LogLevel::Trace => {
                builder = builder_connection_verbose(builder, true);
            },
            _ => {},
        }
        assert(builder == configured_builder(start, headers, model));
        match build_client(builder) {
            Ok(client) => {
                let c = WebClient { client, base_uri, proxy, log_level };
                assert(built_from(c.client_model(), configured_builder(start, headers, model)));
                Ok(c)
            },
            Err(error) => {
                let text = reqwest_error_text(&error);
                assert(text@ == reqwest_error_display(error));
                Err(WebClientError::ClientBuild(text))
            },
        }
    }
}

/// A built web client with its base URI.
#[derive(Debug, Clone)]
pub struct WebClient {
    client: Client,
    base_uri: Url,
    proxy: Option<String>,
    log_level: LogLevel,
}

impl WebClient {
    pub closed spec fn base_uri_model(&self) -> Url {
        self.base_uri
    }

    pub closed spec fn proxy_model(&self) -> Option<Seq<char>> {
        optional_view(self.proxy)
    }

    pub closed spec fn log_level_model(&self) -> LogLevel {
        self.log_level
    }

    pub closed spec fn client_model(&self) -> Client {
        self.client
    }

    /// The HTTP client requests are sent with.
    pub fn client(&self) -> (r: &Client)
        ensures
            *r == self.client_model(),
    {
        &self.client
    }

    pub fn base_uri(&self) -> (r: &Url)
        ensures
            *r == self.base_uri_model(),
    {
        &self.base_uri
    }

    pub fn proxy(&self) -> (r: Option<&str>)
        ensures
            match r {
                Some(p) => self.proxy_model() == Some(p@),
                None => self.proxy_model() is None,
            },
    {
        match &self.proxy {
            Some(p) => Some(p.as_str()),
            None => None,
        }
    }

    pub fn log_level(&self) -> (r: LogLevel)
        ensures
            r == self.log_level_model(),
    {
        self.log_level
    }

    /// The URL of `path` relative to the base URI, or `InvalidPath` when
    /// `Url::join` refuses the path.
    pub fn resolve_url(&self, path: &str) -> (r: Result<Url, WebClientError>)
        ensures
            joined_url(self.base_uri_model(), path@) matches Some(u) ==> r == Ok::<
                Url,
                WebClientError,
            >(u),
            joined_url(self.base_uri_model(), path@) is None ==> (r matches Err(
                WebClientError::InvalidPath(s),
            ) && s@ == path@),
    {
        match join_url(&self.base_uri, path) {
            Some(u) => Ok(u),
            None => Err(WebClientError::InvalidPath(String::from_str(path))),
        }
    }
}

} // verus!
