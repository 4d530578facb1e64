//! The DeepL provider: configuration, language codes, response
//! interpretation, error categories and a retry schedule bounded by the
//! overall time budget. The HTTP exchange itself is performed by the caller.

use vstd::prelude::*;
use crate::platform::{PlatformError, PlatformErrorView, TranslationResult, TranslationResultView};
use crate::text::{ascii_lower, ascii_upper, decimal, decimal_text, text_eq, to_ascii_lowercase, to_ascii_uppercase, trim, trimmed};
use crate::translation::{build_client, client_timeout, url_serialization, duration_debug, push_duration, delay_millis, delay_in_millis, parse_url, retry_delay, url_parses, url_scheme, RetryDelay, MAX_ATTEMPTS};
use crate::azure::{opt_view, result_view, NextStep};

verus! {

/// Why a DeepL translation attempt failed, kept inside the provider.
#[derive(Clone, Copy, Debug, PartialEq, Eq, Structural)]
pub enum DeepLError {
    Unauthorized,
    QuotaExceeded,
    RateLimited,
    Timeout,
    Network,
    UnsupportedLanguage,
    Server,
    InvalidResponse,
}

/// The failure category of an HTTP status that is not a success.
pub open spec fn deepl_status_kind(status: u16) -> DeepLError {
    if status == 401 || status == 403 {
        DeepLError::Unauthorized
    } else if status == 429 {
        DeepLError::RateLimited
    } else if status == 456 {
        DeepLError::QuotaExceeded
    } else if status == 400 {
        DeepLError::UnsupportedLanguage
    } else if 500 <= status <= 599 {
        DeepLError::Server
    } else {
        DeepLError::InvalidResponse
    }
}

impl DeepLError {
    pub fn from_status(status: u16) -> (e: Self)
        ensures
            e == deepl_status_kind(status),
    {
        if status == 401 || status == 403 {
            DeepLError::Unauthorized
        } else if status == 429 {
            DeepLError::RateLimited
        } else if status == 456 {
            DeepLError::QuotaExceeded
        } else if status == 400 {
            DeepLError::UnsupportedLanguage
        } else if 500 <= status && status <= 599 {
            DeepLError::Server
        } else {
            DeepLError::InvalidResponse
        }
    }

    pub open spec fn is_retryable(self) -> bool {
        self == DeepLError::RateLimited || self == DeepLError::Timeout || self == DeepLError::Network
            || self == DeepLError::Server
    }

    pub fn retryable(self) -> (r: bool)
        ensures
            r == self.is_retryable(),
    {
        match self {
            DeepLError::RateLimited | DeepLError::Timeout | DeepLError::Network | DeepLError::Server => true,
            _ => false,
        }
    }

    pub open spec fn diagnostic_text(self) -> Seq<char> {
        match self {
            DeepLError::Unauthorized => "deepl translation authentication failed"@,
            DeepLError::QuotaExceeded => "deepl translation quota is exhausted"@,
            DeepLError::RateLimited => "deepl translation was rate limited"@,
            DeepLError::Timeout => "deepl translation timed out"@,
            DeepLError::Network => "deepl translation network request failed"@,
            DeepLError::UnsupportedLanguage => "deepl translation language pair is unsupported"@,
            DeepLError::Server => "deepl translation service failed"@,
            DeepLError::InvalidResponse => "deepl translation returned an invalid response"@,
        }
    }

    pub fn diagnostic(self) -> (d: &'static str)
        ensures
            d@ == self.diagnostic_text(),
    {
        match self {
            DeepLError::Unauthorized => "deepl translation authentication failed",
            DeepLError::QuotaExceeded => "deepl translation quota is exhausted",
            DeepLError::RateLimited => "deepl translation was rate limited",
            DeepLError::Timeout => "deepl translation timed out",
            DeepLError::Network => "deepl translation network request failed",
            DeepLError::UnsupportedLanguage => "deepl translation language pair is unsupported",
            DeepLError::Server => "deepl translation service failed",
            DeepLError::InvalidResponse => "deepl translation returned an invalid response",
        }
    }

    pub fn into_platform_error(self) -> (e: PlatformError)
        ensures
            e@ == PlatformErrorView::Operation(self.diagnostic_text()),
    {
        PlatformError::operation(self.diagnostic())
    }
}

/// A failed attempt: its category and the server's `Retry-After` seconds.
#[derive(Clone, Copy, Debug)]
pub struct AttemptFailure {
    pub kind: DeepLError,
    pub retry_after_secs: Option<u64>,
}

impl AttemptFailure {
    pub fn new(kind: DeepLError) -> (f: Self)
        ensures
            f.kind == kind && f.retry_after_secs is None,
    {
        AttemptFailure { kind, retry_after_secs: None }
    }
}

/// A validated DeepL configuration.
pub struct DeepLTranslatorConfig {
    endpoint: String,
    key: String,
    timeout_secs: u64,
    timeout_nanos: u32,
}

pub open spec fn deepl_config_error(endpoint: Seq<char>, key: Seq<char>, timeout_secs: u64, timeout_nanos: u32, allow_http: bool) -> Option<Seq<char>> {
    if !url_parses(endpoint) {
        Some("deepl translation endpoint is invalid"@)
    } else if url_scheme(endpoint) != "https"@ && !(allow_http && url_scheme(endpoint) == "http"@) {
        Some("deepl translation endpoint must use HTTPS"@)
    } else if trimmed(key).len() == 0 {
        Some("deepl translation key is missing"@)
    } else if timeout_secs == 0 && timeout_nanos == 0 {
        Some("deepl translation timeout is invalid"@)
    } else {
        None
    }
}

impl DeepLTranslatorConfig {
    pub closed spec fn key_view(&self) -> Seq<char> {
        self.key@
    }

    /// A configuration's timeout is a `Duration`: whole seconds and the
    /// nanoseconds below one second.
    #[verifier::type_invariant]
    closed spec fn timeout_is_duration(&self) -> bool {
        self.timeout_nanos < 1_000_000_000
    }

    /// The timeout as whole seconds and nanoseconds.
    pub closed spec fn timeout_view(&self) -> (u64, u32) {
        (self.timeout_secs, self.timeout_nanos)
    }

    /// A production configuration (free or pro endpoint); HTTPS is required.
    pub fn new(endpoint: &str, key: String, timeout_secs: u64, timeout_nanos: u32) -> (r: Result<Self, PlatformError>)
        requires
            timeout_nanos < 1_000_000_000,
        ensures
            match deepl_config_error(endpoint@, key@, timeout_secs, timeout_nanos, false) {
                Some(m) => r is Err && r->Err_0@ == PlatformErrorView::Operation(m),
                None => r is Ok && r->Ok_0.key_view() == key@ && r->Ok_0.endpoint_text() == url_serialization(endpoint@) && r->Ok_0.timeout_view() == (timeout_secs, timeout_nanos),
            },
    {
        Self::parse(endpoint, key, timeout_secs, timeout_nanos, false)
    }

    /// A configuration for local test servers: plain HTTP is accepted.
    pub fn for_test(endpoint: &str, key: String, timeout_secs: u64, timeout_nanos: u32) -> (r: Result<Self, PlatformError>)
        requires
            timeout_nanos < 1_000_000_000,
        ensures
            match deepl_config_error(endpoint@, key@, timeout_secs, timeout_nanos, true) {
                Some(m) => r is Err && r->Err_0@ == PlatformErrorView::Operation(m),
                None => r is Ok && r->Ok_0.key_view() == key@ && r->Ok_0.endpoint_text() == url_serialization(endpoint@) && r->Ok_0.timeout_view() == (timeout_secs, timeout_nanos),
            },
    {
        Self::parse(endpoint, key, timeout_secs, timeout_nanos, true)
    }

    fn parse(endpoint: &str, key: String, timeout_secs: u64, timeout_nanos: u32, allow_http: bool) -> (r: Result<Self, PlatformError>)
        requires
            timeout_nanos < 1_000_000_000,
        ensures
            match deepl_config_error(endpoint@, key@, timeout_secs, timeout_nanos, allow_http) {
                Some(m) => r is Err && r->Err_0@ == PlatformErrorView::Operation(m),
                None => r is Ok && r->Ok_0.key_view() == key@ && r->Ok_0.endpoint_text() == url_serialization(endpoint@) && r->Ok_0.timeout_view() == (timeout_secs, timeout_nanos),
            },
    {
        let (url, scheme) = match parse_url(endpoint) {
            Some(p) => p,
            None => return Err(PlatformError::operation("deepl translation endpoint is invalid")),
        };
        if !text_eq(scheme.as_str(), "https") && !(allow_http && text_eq(scheme.as_str(), "http")) {
            return Err(PlatformError::operation("deepl translation endpoint must use HTTPS"));
        }
        let trimmed_key = trim(key.as_str());
        if trimmed_key.unicode_len() == 0 {
            return Err(PlatformError::operation("deepl translation key is missing"));
        }
        if timeout_secs == 0 && timeout_nanos == 0 {
            return Err(PlatformError::operation("deepl translation timeout is invalid"));
        }
        Ok(DeepLTranslatorConfig { endpoint: url, key, timeout_secs, timeout_nanos })
    }

    /// The endpoint the configuration was validated with, as the parsed URL
    /// serializes it.
    pub closed spec fn endpoint_text(&self) -> Seq<char> {
        self.endpoint@
    }

    /// The validated endpoint that requests are sent to.
    pub fn endpoint(&self) -> (u: &str)
        ensures
            u@ == self.endpoint_text(),
    {
        self.endpoint.as_str()
    }

    pub fn key(&self) -> (k: &str)
        ensures
            k@ == self.key_view(),
    {
        self.key.as_str()
    }

    /// The timeout as whole seconds and the nanoseconds below one second.
    pub fn timeout(&self) -> (t: (u64, u32))
        ensures
            t == self.timeout_view(),
            t.1 < 1_000_000_000,
    {
        proof {
            use_type_invariant(self);
        }
        (self.timeout_secs, self.timeout_nanos)
    }

    pub open spec fn redacted_text(timeout: (u64, u32)) -> Seq<char> {
        "DeepLTranslatorConfig { endpoint: \"<redacted>\", key: \"<redacted>\", timeout: "@
            + duration_debug(timeout.0 as nat, timeout.1 as nat) + " }"@
    }

    /// A description for diagnostics that shows neither the endpoint nor the
    /// key; the timeout is written as `Debug` writes a `Duration`.
    pub fn redacted(&self) -> (d: String)
        ensures
            d@ == Self::redacted_text(self.timeout_view()),
    {
        proof {
            use_type_invariant(self);
        }
        let mut d = String::from_str("DeepLTranslatorConfig { endpoint: \"<redacted>\", key: \"<redacted>\", timeout: ");
        push_duration(&mut d, self.timeout_secs, self.timeout_nanos);
        d.append(" }");
        d
    }
}

/// The DeepL provider: a configuration and its HTTP client.
pub struct DeepLTranslationProvider {
    client: reqwest::Client,
    config: DeepLTranslatorConfig,
}

impl DeepLTranslationProvider {
    pub fn new(config: DeepLTranslatorConfig) -> (r: Result<Self, PlatformError>)
        ensures
            r is Err ==> r->Err_0@ == PlatformErrorView::Operation("deepl translation client setup failed"@),
            r matches Ok(p) ==> p.configured() == config,
            r matches Ok(p) ==> client_timeout(p.http_client()) == config.timeout_view(),
    {
        proof {
            use_type_invariant(&config);
        }
        match build_client(config.timeout_secs, config.timeout_nanos) {
            Some(client) => Ok(DeepLTranslationProvider { client, config }),
            None => Err(PlatformError::operation("deepl translation client setup failed")),
        }
    }

    /// The client was built with the configuration's timeout.
    #[verifier::type_invariant]
    closed spec fn client_matches_config(&self) -> bool {
        client_timeout(self.client) == self.config.timeout_view()
    }

    /// The HTTP client the provider was built with.
    pub closed spec fn http_client(&self) -> reqwest::Client {
        self.client
    }

    /// The provider's HTTP client, built with the configured timeout.
    pub fn client(&self) -> (c: &reqwest::Client)
        ensures
            *c == self.http_client(),
            client_timeout(*c) == self.configured().timeout_view(),
    {
        proof {
            use_type_invariant(self);
        }
        &self.client
    }

    /// The configuration the provider was built with.
    pub closed spec fn configured(&self) -> DeepLTranslatorConfig {
        self.config
    }

    pub fn config(&self) -> (c: &DeepLTranslatorConfig)
        ensures
            *c == self.configured(),
    {
        &self.config
    }
}

/// DeepL's code for an application language code.
pub fn provider_language(language: &str) -> (r: String)
    ensures
        r@ == ascii_upper(language@),
{
    to_ascii_uppercase(language)
}

/// The application's code for a DeepL language code: Chinese variants keep
/// their script subtag, every other code is lowercase.
pub open spec fn app_language_of(language: Seq<char>) -> Seq<char> {
    let upper = ascii_upper(language);
    if upper == "ZH"@ || upper == "ZH-HANS"@ {
        "zh-Hans"@
    } else if upper == "ZH-HANT"@ {
        "zh-Hant"@
    } else {
        ascii_lower(upper)
    }
}

pub fn app_language(language: &str) -> (r: String)
    ensures
        r@ == app_language_of(language@),
{
    let upper = to_ascii_uppercase(language);
    if text_eq(upper.as_str(), "ZH") || text_eq(upper.as_str(), "ZH-HANS") {
        String::from_str("zh-Hans")
    } else if text_eq(upper.as_str(), "ZH-HANT") {
        String::from_str("zh-Hant")
    } else {
        to_ascii_lowercase(upper.as_str())
    }
}

/// The language fields of a translate request: no source language for
/// automatic detection, DeepL codes otherwise.
pub struct DeepLRequestLanguages {
    pub source_lang: Option<String>,
    pub target_lang: String,
}

pub fn request_languages(source: &str, target: &str) -> (r: DeepLRequestLanguages)
    ensures
        source@ == "auto"@ ==> r.source_lang is None,
        source@ != "auto"@ ==> r.source_lang is Some && r.source_lang->Some_0@ == ascii_upper(source@),
        r.target_lang@ == ascii_upper(target@),
{
    let source_lang = if text_eq(source, "auto") { None } else { Some(provider_language(source)) };
    DeepLRequestLanguages { source_lang, target_lang: provider_language(target) }
}

/// One translation of a decoded DeepL response.
pub struct DeepLTranslation {
    pub detected_source_language: String,
    pub text: String,
}

/// The portable result of a decoded response: the first translation must have
/// non-blank text; the detected language is mapped to the application's code
/// and the requested target is reported.
pub open spec fn deepl_result(translations: Seq<DeepLTranslation>, target: Seq<char>) -> Result<TranslationResultView, DeepLError> {
    if translations.len() == 0 || trimmed(translations[0].text@).len() == 0 {
        Err(DeepLError::InvalidResponse)
    } else {
        Ok(TranslationResultView {
            translated_text: translations[0].text@,
            source_language: app_language_of(translations[0].detected_source_language@),
            target_language: target,
        })
    }
}

pub fn interpret_response(translations: Vec<DeepLTranslation>, target: &str) -> (r: Result<TranslationResult, DeepLError>)
    ensures
        result_view(r) == deepl_result(translations@, target@),
{
    let mut translations = translations;
    if translations.len() == 0 {
        return Err(DeepLError::InvalidResponse);
    }
    let first = translations.swap_remove(0);
    let t = trim(first.text.as_str());
    if t.unicode_len() == 0 {
        return Err(DeepLError::InvalidResponse);
    }
    let source_language = app_language(first.detected_source_language.as_str());
    Ok(TranslationResult { translated_text: first.text, source_language, target_language: String::from_str(target) })
}

/// The retry decision after the failed attempt `attempt` when `remaining_ms`
/// of the overall budget are left: permanent failures and the last attempt
/// give up with the failure's diagnostic; a wait that would reach the
/// deadline gives up as a timeout; otherwise wait and retry.
pub fn next_step(attempt: usize, failure: AttemptFailure, remaining_ms: u64) -> (s: NextStep)
    requires
        attempt < MAX_ATTEMPTS,
    ensures
        (!failure.kind.is_retryable() || attempt + 1 == MAX_ATTEMPTS) ==> s is GiveUp
            && s->GiveUp_0@ == PlatformErrorView::Operation(failure.kind.diagnostic_text()),
        (failure.kind.is_retryable() && attempt + 1 < MAX_ATTEMPTS) ==> {
            let delay = match failure.retry_after_secs {
                Some(secs) => RetryDelay::ServerSeconds(secs),
                None => RetryDelay::BackoffMillis(crate::translation::backoff_millis(attempt as nat) as u64),
            };
            if delay_millis(delay) >= remaining_ms {
                s is GiveUp && s->GiveUp_0@ == PlatformErrorView::Operation(DeepLError::Timeout.diagnostic_text())
            } else {
                s == NextStep::Retry(delay)
            }
        },
{
    if !failure.kind.retryable() || attempt + 1 == MAX_ATTEMPTS {
        return NextStep::GiveUp(failure.kind.into_platform_error());
    }
    let delay = retry_delay(attempt, failure.retry_after_secs);
    if delay_in_millis(delay) >= remaining_ms {
        NextStep::GiveUp(DeepLError::Timeout.into_platform_error())
    } else {
        NextStep::Retry(delay)
    }
}

/// The error when an attempt outlives the overall budget.
pub fn budget_exhausted() -> (e: PlatformError)
    ensures
        e@ == PlatformErrorView::Operation(DeepLError::Timeout.diagnostic_text()),
{
    DeepLError::Timeout.into_platform_error()
}

/// The wait before the next attempt: the server's `Retry-After`, or else the
/// back-off for the failed attempt.
pub open spec fn deepl_wait(attempt: usize, failure: AttemptFailure) -> RetryDelay {
    match failure.retry_after_secs {
        Some(secs) => RetryDelay::ServerSeconds(secs),
        None => RetryDelay::BackoffMillis(crate::translation::backoff_millis(attempt as nat) as u64),
    }
}

/// Every HTTP status from 500 to 599 is a server failure.
pub proof fn server_statuses_are_server_failures(status: u16)
    requires
        500 <= status <= 599,
    ensures
        deepl_status_kind(status) == DeepLError::Server,
{
}

/// Timeouts, network failures, rate limits and server failures are
/// transient: after such a failure on an attempt that is not the last, when
/// the wait fits the remaining budget, the step that [`next_step`] returns
/// (`s`) waits and tries again.
pub proof fn transient_failures_are_retried(attempt: usize, failure: AttemptFailure, remaining_ms: u64, s: NextStep)
    requires
        attempt + 1 < MAX_ATTEMPTS,
        failure.kind == DeepLError::Timeout || failure.kind == DeepLError::Network
            || failure.kind == DeepLError::RateLimited || failure.kind == DeepLError::Server,
        delay_millis(deepl_wait(attempt, failure)) < remaining_ms,
        (!failure.kind.is_retryable() || attempt + 1 == MAX_ATTEMPTS) ==> s is GiveUp
            && s->GiveUp_0@ == PlatformErrorView::Operation(failure.kind.diagnostic_text()),
        (failure.kind.is_retryable() && attempt + 1 < MAX_ATTEMPTS) ==> {
            if delay_millis(deepl_wait(attempt, failure)) >= remaining_ms {
                s is GiveUp && s->GiveUp_0@ == PlatformErrorView::Operation(DeepLError::Timeout.diagnostic_text())
            } else {
                s == NextStep::Retry(deepl_wait(attempt, failure))
            }
        },
    ensures
        s == NextStep::Retry(deepl_wait(attempt, failure)),
{
}

/// Authentication, quota, language and response failures are lasting: they
/// are reported at once, with their own diagnostic.
pub proof fn lasting_failures_give_up(attempt: usize, failure: AttemptFailure, remaining_ms: u64, s: NextStep)
    requires
        failure.kind == DeepLError::Unauthorized || failure.kind == DeepLError::QuotaExceeded
            || failure.kind == DeepLError::UnsupportedLanguage || failure.kind == DeepLError::InvalidResponse,
        (!failure.kind.is_retryable() || attempt + 1 == MAX_ATTEMPTS) ==> s is GiveUp
            && s->GiveUp_0@ == PlatformErrorView::Operation(failure.kind.diagnostic_text()),
        (failure.kind.is_retryable() && attempt + 1 < MAX_ATTEMPTS) ==> {
            if delay_millis(deepl_wait(attempt, failure)) >= remaining_ms {
                s is GiveUp && s->GiveUp_0@ == PlatformErrorView::Operation(DeepLError::Timeout.diagnostic_text())
            } else {
                s == NextStep::Retry(deepl_wait(attempt, failure))
            }
        },
    ensures
        s is GiveUp && s->GiveUp_0@ == PlatformErrorView::Operation(failure.kind.diagnostic_text()),
{
}

} // verus!
