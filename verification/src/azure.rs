//! The Azure Translator provider: configuration, the protocol's request
//! parameters and response interpretation, error categories and the retry
//! schedule. The HTTP exchange itself is performed by the caller.

use vstd::prelude::*;
use crate::platform::{PlatformError, PlatformErrorView, TranslationResult, TranslationResultView};
use crate::text::{concat, decimal, decimal_text, text_eq, trim, trimmed};
use crate::translation::{build_client, client_timeout, url_serialization, duration_debug, push_duration, parse_url, retry_delay, url_parses, url_scheme, RetryDelay, MAX_ATTEMPTS};

verus! {

/// Why an Azure translation attempt failed, kept inside the provider.
#[derive(Clone, Copy, Debug, PartialEq, Eq, Structural)]
pub enum AzureTranslationError {
    Unauthorized,
    QuotaExceeded,
    RateLimited,
    Timeout,
    Network,
    UnsupportedLanguage,
    Server,
    InvalidResponse,
}

/// The failure category of an HTTP status that is not a success.
pub open spec fn azure_status_kind(status: u16) -> AzureTranslationError {
    if status == 401 || status == 403 {
        AzureTranslationError::Unauthorized
    } else if status == 429 {
        AzureTranslationError::RateLimited
    } else if status == 400 {
        AzureTranslationError::UnsupportedLanguage
    } else if status == 402 {
        AzureTranslationError::QuotaExceeded
    } else if 500 <= status <= 599 {
        AzureTranslationError::Server
    } else {
        AzureTranslationError::InvalidResponse
    }
}

impl AzureTranslationError {
    pub fn from_status(status: u16) -> (e: Self)
        ensures
            e == azure_status_kind(status),
    {
        if status == 401 || status == 403 {
            AzureTranslationError::Unauthorized
        } else if status == 429 {
            AzureTranslationError::RateLimited
        } else if status == 400 {
            AzureTranslationError::UnsupportedLanguage
        } else if status == 402 {
            AzureTranslationError::QuotaExceeded
        } else if 500 <= status && status <= 599 {
            AzureTranslationError::Server
        } else {
            AzureTranslationError::InvalidResponse
        }
    }

    /// Transient failures: worth another attempt.
    pub open spec fn is_retryable(self) -> bool {
        self == AzureTranslationError::RateLimited || self == AzureTranslationError::Timeout
            || self == AzureTranslationError::Network || self == AzureTranslationError::Server
    }

    pub fn retryable(self) -> (r: bool)
        ensures
            r == self.is_retryable(),
    {
        match self {
            AzureTranslationError::RateLimited | AzureTranslationError::Timeout | AzureTranslationError::Network
            | AzureTranslationError::Server => true,
            _ => false,
        }
    }

    /// The fixed, content-free diagnostic of the category.
    pub open spec fn diagnostic_text(self) -> Seq<char> {
        match self {
            AzureTranslationError::Unauthorized => "azure translation authentication failed"@,
            AzureTranslationError::QuotaExceeded => "azure translation quota is exhausted"@,
            AzureTranslationError::RateLimited => "azure translation was rate limited"@,
            AzureTranslationError::Timeout => "azure translation timed out"@,
            AzureTranslationError::Network => "azure translation network request failed"@,
            AzureTranslationError::UnsupportedLanguage => "azure translation language pair is unsupported"@,
            AzureTranslationError::Server => "azure translation service failed"@,
            AzureTranslationError::InvalidResponse => "azure translation returned an invalid response"@,
        }
    }

    pub fn diagnostic(self) -> (d: &'static str)
        ensures
            d@ == self.diagnostic_text(),
    {
        match self {
            AzureTranslationError::Unauthorized => "azure translation authentication failed",
            AzureTranslationError::QuotaExceeded => "azure translation quota is exhausted",
            AzureTranslationError::RateLimited => "azure translation was rate limited",
            AzureTranslationError::Timeout => "azure translation timed out",
            AzureTranslationError::Network => "azure translation network request failed",
            AzureTranslationError::UnsupportedLanguage => "azure translation language pair is unsupported",
            AzureTranslationError::Server => "azure translation service failed",
            AzureTranslationError::InvalidResponse => "azure translation returned an invalid response",
        }
    }

    /// The portable error the provider reports for this category.
    pub fn into_platform_error(self) -> (e: PlatformError)
        ensures
            e@ == PlatformErrorView::Operation(self.diagnostic_text()),
    {
        PlatformError::operation(self.diagnostic())
    }
}

/// A validated Azure Translator configuration. The endpoint and key are never
/// shown; see [`AzureTranslatorConfig::redacted`].
pub struct AzureTranslatorConfig {
    endpoint: String,
    key: String,
    region: Option<String>,
    timeout_secs: u64,
    timeout_nanos: u32,
}

/// The configuration error for an endpoint, key and timeout, if any.
pub open spec fn azure_config_error(endpoint: Seq<char>, key: Seq<char>, timeout_secs: u64, timeout_nanos: u32, allow_http: bool) -> Option<Seq<char>> {
    if !url_parses(endpoint) {
        Some("azure translation endpoint is invalid"@)
    } else if url_scheme(endpoint) != "https"@ && !(allow_http && url_scheme(endpoint) == "http"@) {
        Some("azure translation endpoint must use HTTPS"@)
    } else if trimmed(key).len() == 0 {
        Some("azure translation key is missing"@)
    } else if timeout_secs == 0 && timeout_nanos == 0 {
        Some("azure translation timeout is invalid"@)
    } else {
        None
    }
}

/// A region is only kept when it is not blank.
pub open spec fn kept_region(region: Option<Seq<char>>) -> Option<Seq<char>> {
    match region {
        Some(r) => if trimmed(r).len() > 0 { Some(r) } else { None },
        None => None,
    }
}

pub open spec fn opt_view(o: Option<String>) -> Option<Seq<char>> {
    match o {
        Some(s) => Some(s@),
        None => None,
    }
}

impl AzureTranslatorConfig {
    pub closed spec fn key_view(&self) -> Seq<char> {
        self.key@
    }

    pub closed spec fn region_view(&self) -> Option<Seq<char>> {
        opt_view(self.region)
    }

    /// A configuration's timeout is a `Duration`: whole seconds and the
    /// nanoseconds below one second.
    #[verifier::type_invariant]
    closed spec fn timeout_is_duration(&self) -> bool {
        self.timeout_nanos < 1_000_000_000
    }

    /// The timeout as whole seconds and nanoseconds.
    pub closed spec fn timeout_view(&self) -> (u64, u32) {
        (self.timeout_secs, self.timeout_nanos)
    }

    /// A production configuration: the endpoint must use HTTPS.
    pub fn new(endpoint: &str, key: String, region: Option<String>, timeout_secs: u64, timeout_nanos: u32) -> (r: Result<Self, PlatformError>)
        requires
            timeout_nanos < 1_000_000_000,
        ensures
            match azure_config_error(endpoint@, key@, timeout_secs, timeout_nanos, false) {
                Some(m) => r is Err && r->Err_0@ == PlatformErrorView::Operation(m),
                None => r is Ok && r->Ok_0.key_view() == key@ && r->Ok_0.endpoint_text() == url_serialization(endpoint@) && r->Ok_0.region_view() == kept_region(opt_view(region))
                    && r->Ok_0.timeout_view() == (timeout_secs, timeout_nanos),
            },
    {
        Self::parse(endpoint, key, region, timeout_secs, timeout_nanos, false)
    }

    /// A configuration for local test servers: plain HTTP is accepted.
    pub fn for_test(endpoint: &str, key: String, timeout_secs: u64, timeout_nanos: u32) -> (r: Result<Self, PlatformError>)
        requires
            timeout_nanos < 1_000_000_000,
        ensures
            match azure_config_error(endpoint@, key@, timeout_secs, timeout_nanos, true) {
                Some(m) => r is Err && r->Err_0@ == PlatformErrorView::Operation(m),
                None => r is Ok && r->Ok_0.key_view() == key@ && r->Ok_0.endpoint_text() == url_serialization(endpoint@) && r->Ok_0.region_view() is None
                    && r->Ok_0.timeout_view() == (timeout_secs, timeout_nanos),
            },
    {
        Self::parse(endpoint, key, None, timeout_secs, timeout_nanos, true)
    }

    /// Sets the region for a test configuration.
    pub fn with_test_region(self, region: String) -> (c: Self)
        ensures
            c.key_view() == self.key_view(),
            c.region_view() == Some(region@),
            c.timeout_view() == self.timeout_view(),
            c.endpoint_text() == self.endpoint_text(),
    {
        proof {
            use_type_invariant(&self);
        }
        AzureTranslatorConfig { region: Some(region), ..self }
    }

    fn parse(endpoint: &str, key: String, region: Option<String>, timeout_secs: u64, timeout_nanos: u32, allow_http: bool) -> (r: Result<Self, PlatformError>)
        requires
            timeout_nanos < 1_000_000_000,
        ensures
            match azure_config_error(endpoint@, key@, timeout_secs, timeout_nanos, allow_http) {
                Some(m) => r is Err && r->Err_0@ == PlatformErrorView::Operation(m),
                None => r is Ok && r->Ok_0.key_view() == key@ && r->Ok_0.endpoint_text() == url_serialization(endpoint@) && r->Ok_0.region_view() == kept_region(opt_view(region))
                    && r->Ok_0.timeout_view() == (timeout_secs, timeout_nanos),
            },
    {
        let (url, scheme) = match parse_url(endpoint) {
            Some(p) => p,
            None => return Err(PlatformError::operation("azure translation endpoint is invalid")),
        };
        if !text_eq(scheme.as_str(), "https") && !(allow_http && text_eq(scheme.as_str(), "http")) {
            return Err(PlatformError::operation("azure translation endpoint must use HTTPS"));
        }
        let trimmed_key = trim(key.as_str());
        if trimmed_key.unicode_len() == 0 {
            return Err(PlatformError::operation("azure translation key is missing"));
        }
        if timeout_secs == 0 && timeout_nanos == 0 {
            return Err(PlatformError::operation("azure translation timeout is invalid"));
        }
        let region = match region {
            Some(r) => {
                let t = trim(r.as_str());
                if t.unicode_len() > 0 { Some(r) } else { None }
            },
            None => None,
        };
        Ok(AzureTranslatorConfig { endpoint: url, key, region, timeout_secs, timeout_nanos })
    }

    /// The endpoint the configuration was validated with, as the parsed URL
    /// serializes it.
    pub closed spec fn endpoint_text(&self) -> Seq<char> {
        self.endpoint@
    }

    /// The validated endpoint that requests are sent to.
    pub fn endpoint(&self) -> (u: &str)
        ensures
            u@ == self.endpoint_text(),
    {
        self.endpoint.as_str()
    }

    pub fn key(&self) -> (k: &str)
        ensures
            k@ == self.key_view(),
    {
        self.key.as_str()
    }

    pub fn region(&self) -> (r: &Option<String>)
        ensures
            opt_view(*r) == self.region_view(),
    {
        &self.region
    }

    /// The timeout as whole seconds and the nanoseconds below one second.
    pub fn timeout(&self) -> (t: (u64, u32))
        ensures
            t == self.timeout_view(),
            t.1 < 1_000_000_000,
    {
        proof {
            use_type_invariant(self);
        }
        (self.timeout_secs, self.timeout_nanos)
    }

    /// The redacted description of the configuration.
    pub open spec fn redacted_text(region: Option<Seq<char>>, timeout: (u64, u32)) -> Seq<char> {
        "AzureTranslatorConfig { endpoint: \"<redacted>\", key: \"<redacted>\", region: "@ + (match region {
            Some(_) => "Some(\"<configured>\")"@,
            None => "None"@,
        }) + ", timeout: "@ + duration_debug(timeout.0 as nat, timeout.1 as nat) + " }"@
    }

    /// A description for diagnostics that shows neither the endpoint, the key
    /// nor the region; the timeout is written as `Debug` writes a `Duration`.
    pub fn redacted(&self) -> (d: String)
        ensures
            d@ == Self::redacted_text(self.region_view(), self.timeout_view()),
    {
        proof {
            use_type_invariant(self);
        }
        let mut d = String::from_str("AzureTranslatorConfig { endpoint: \"<redacted>\", key: \"<redacted>\", region: ");
        match &self.region {
            Some(_) => d.append("Some(\"<configured>\")"),
            None => d.append("None"),
        }
        d.append(", timeout: ");
        push_duration(&mut d, self.timeout_secs, self.timeout_nanos);
        d.append(" }");
        d
    }
}

/// The Azure Translator provider: a configuration and its HTTP client.
pub struct AzureTranslationProvider {
    client: reqwest::Client,
    config: AzureTranslatorConfig,
}

impl AzureTranslationProvider {
    /// Builds the HTTP client for a configuration; a client that cannot be
    /// built is reported without details.
    pub fn new(config: AzureTranslatorConfig) -> (r: Result<Self, PlatformError>)
        ensures
            r is Err ==> r->Err_0@ == PlatformErrorView::Operation("azure translation client setup failed"@),
            r matches Ok(p) ==> p.configured() == config,
            r matches Ok(p) ==> client_timeout(p.http_client()) == config.timeout_view(),
    {
        proof {
            use_type_invariant(&config);
        }
        match build_client(config.timeout_secs, config.timeout_nanos) {
            Some(client) => Ok(AzureTranslationProvider { client, config }),
            None => Err(PlatformError::operation("azure translation client setup failed")),
        }
    }

    /// The client was built with the configuration's timeout.
    #[verifier::type_invariant]
    closed spec fn client_matches_config(&self) -> bool {
        client_timeout(self.client) == self.config.timeout_view()
    }

    /// The HTTP client the provider was built with.
    pub closed spec fn http_client(&self) -> reqwest::Client {
        self.client
    }

    /// The provider's HTTP client, built with the configured timeout.
    pub fn client(&self) -> (c: &reqwest::Client)
        ensures
            *c == self.http_client(),
            client_timeout(*c) == self.configured().timeout_view(),
    {
        proof {
            use_type_invariant(self);
        }
        &self.client
    }

    /// The configuration the provider was built with.
    pub closed spec fn configured(&self) -> AzureTranslatorConfig {
        self.config
    }

    pub fn config(&self) -> (c: &AzureTranslatorConfig)
        ensures
            *c == self.configured(),
    {
        &self.config
    }
}

/// One query parameter of the translate request.
pub struct QueryPair {
    pub name: String,
    pub value: String,
}

/// The query of the translate request: API version, target language and,
/// unless the source is detected automatically, the source language.
pub fn translate_query(source: &str, target: &str) -> (q: Vec<QueryPair>)
    ensures
        q@.len() == (if source@ == "auto"@ { 2int } else { 3int }),
        q@[0].name@ == "api-version"@ && q@[0].value@ == "3.0"@,
        q@[1].name@ == "to"@ && q@[1].value@ == target@,
        source@ != "auto"@ ==> q@[2].name@ == "from"@ && q@[2].value@ == source@,
{
    let mut q: Vec<QueryPair> = Vec::new();
    q.push(QueryPair { name: String::from_str("api-version"), value: String::from_str("3.0") });
    q.push(QueryPair { name: String::from_str("to"), value: String::from_str(target) });
    if !text_eq(source, "auto") {
        q.push(QueryPair { name: String::from_str("from"), value: String::from_str(source) });
    }
    q
}

/// One translation in a response item.
pub struct AzureTranslation {
    pub text: String,
    pub to: String,
}

/// One item of the translate response.
pub struct AzureResponseItem {
    pub detected_language: Option<String>,
    pub translations: Vec<AzureTranslation>,
}

/// The portable result of a decoded response, or why it is invalid: the last
/// item is used, its first translation must not be empty, and a detected
/// source language is required when the source was `auto`.
pub open spec fn azure_result(payload: Seq<AzureResponseItem>, source: Seq<char>) -> Result<TranslationResultView, AzureTranslationError> {
    if payload.len() == 0 {
        Err(AzureTranslationError::InvalidResponse)
    } else if payload.last().translations@.len() == 0 || payload.last().translations@[0].text@.len() == 0 {
        Err(AzureTranslationError::InvalidResponse)
    } else if source == "auto"@ && (payload.last().detected_language is None
        || payload.last().detected_language->Some_0@.len() == 0) {
        Err(AzureTranslationError::InvalidResponse)
    } else {
        Ok(TranslationResultView {
            translated_text: payload.last().translations@[0].text@,
            source_language: if source == "auto"@ { payload.last().detected_language->Some_0@ } else { source },
            target_language: payload.last().translations@[0].to@,
        })
    }
}

pub open spec fn result_view<E>(r: Result<TranslationResult, E>) -> Result<TranslationResultView, E> {
    match r {
        Ok(t) => Ok(t@),
        Err(e) => Err(e),
    }
}

/// Interprets a decoded translate response.
pub fn interpret_response(payload: Vec<AzureResponseItem>, source: &str) -> (r: Result<TranslationResult, AzureTranslationError>)
    ensures
        result_view(r) == azure_result(payload@, source@),
{
    let mut payload = payload;
    let ghost p = payload@;
    let item = match payload.pop() {
        Some(item) => item,
        None => return Err(AzureTranslationError::InvalidResponse),
    };
    assert(item == p.last());
    let mut translations = item.translations;
    if translations.len() == 0 {
        return Err(AzureTranslationError::InvalidResponse);
    }
    let first = translations.swap_remove(0);
    if first.text.unicode_len() == 0 {
        return Err(AzureTranslationError::InvalidResponse);
    }
    let source_language = if text_eq(source, "auto") {
        match item.detected_language {
            Some(language) => {
                if language.unicode_len() == 0 {
                    return Err(AzureTranslationError::InvalidResponse);
                }
                language
            },
            None => return Err(AzureTranslationError::InvalidResponse),
        }
    } else {
        String::from_str(source)
    };
    Ok(TranslationResult { translated_text: first.text, source_language, target_language: first.to })
}

/// What the provider does after a failed attempt.
pub enum NextStep {
    /// Wait, then try again.
    Retry(RetryDelay),
    /// Stop and report the error.
    GiveUp(PlatformError),
}

/// The retry decision after the failed attempt `attempt` (counted from 0):
/// permanent failures and the last attempt give up with the failure's
/// diagnostic; transient failures wait for `Retry-After` or the back-off.
pub fn next_step(attempt: usize, failure: AzureTranslationError, retry_after_secs: Option<u64>) -> (s: NextStep)
    requires
        attempt < MAX_ATTEMPTS,
    ensures
        (!failure.is_retryable() || attempt + 1 == MAX_ATTEMPTS) ==> s is GiveUp
            && s->GiveUp_0@ == PlatformErrorView::Operation(failure.diagnostic_text()),
        (failure.is_retryable() && attempt + 1 < MAX_ATTEMPTS) ==> s == NextStep::Retry(match retry_after_secs {
            Some(secs) => RetryDelay::ServerSeconds(secs),
            None => RetryDelay::BackoffMillis(crate::translation::backoff_millis(attempt as nat) as u64),
        }),
{
    if !failure.retryable() || attempt + 1 == MAX_ATTEMPTS {
        NextStep::GiveUp(failure.into_platform_error())
    } else {
        NextStep::Retry(retry_delay(attempt, retry_after_secs))
    }
}

/// The wait before the next attempt: the server's `Retry-After`, or else the
/// back-off for the failed attempt.
pub open spec fn azure_wait(attempt: usize, retry_after_secs: Option<u64>) -> RetryDelay {
    match retry_after_secs {
        Some(secs) => RetryDelay::ServerSeconds(secs),
        None => RetryDelay::BackoffMillis(crate::translation::backoff_millis(attempt as nat) as u64),
    }
}

/// Every HTTP status from 500 to 599 is a server failure.
pub proof fn server_statuses_are_server_failures(status: u16)
    requires
        500 <= status <= 599,
    ensures
        azure_status_kind(status) == AzureTranslationError::Server,
{
}

/// Timeouts, network failures, rate limits and server failures are
/// transient: after such a failure on an attempt that is not the last, the
/// step that [`next_step`] returns (`s`) waits and tries again.
pub proof fn transient_failures_are_retried(attempt: usize, failure: AzureTranslationError, retry_after_secs: Option<u64>, s: NextStep)
    requires
        attempt + 1 < MAX_ATTEMPTS,
        failure == AzureTranslationError::Timeout || failure == AzureTranslationError::Network
            || failure == AzureTranslationError::RateLimited || failure == AzureTranslationError::Server,
        (!failure.is_retryable() || attempt + 1 == MAX_ATTEMPTS) ==> s is GiveUp
            && s->GiveUp_0@ == PlatformErrorView::Operation(failure.diagnostic_text()),
        (failure.is_retryable() && attempt + 1 < MAX_ATTEMPTS) ==> s == NextStep::Retry(azure_wait(attempt, retry_after_secs)),
    ensures
        s == NextStep::Retry(azure_wait(attempt, retry_after_secs)),
{
}

/// A response with a 5xx status is retried on every attempt but the last.
pub proof fn server_statuses_are_retried(status: u16, attempt: usize, retry_after_secs: Option<u64>, s: NextStep)
    requires
        500 <= status <= 599,
        attempt + 1 < MAX_ATTEMPTS,
        (!azure_status_kind(status).is_retryable() || attempt + 1 == MAX_ATTEMPTS) ==> s is GiveUp
            && s->GiveUp_0@ == PlatformErrorView::Operation(azure_status_kind(status).diagnostic_text()),
        (azure_status_kind(status).is_retryable() && attempt + 1 < MAX_ATTEMPTS)
            ==> s == NextStep::Retry(azure_wait(attempt, retry_after_secs)),
    ensures
        s is Retry,
{
    server_statuses_are_server_failures(status);
}

/// Authentication, quota, language and response failures are lasting: they
/// are reported at once, with their own diagnostic.
pub proof fn lasting_failures_give_up(attempt: usize, failure: AzureTranslationError, retry_after_secs: Option<u64>, s: NextStep)
    requires
        failure == AzureTranslationError::Unauthorized || failure == AzureTranslationError::QuotaExceeded
            || failure == AzureTranslationError::UnsupportedLanguage || failure == AzureTranslationError::InvalidResponse,
        (!failure.is_retryable() || attempt + 1 == MAX_ATTEMPTS) ==> s is GiveUp
            && s->GiveUp_0@ == PlatformErrorView::Operation(failure.diagnostic_text()),
        (failure.is_retryable() && attempt + 1 < MAX_ATTEMPTS) ==> s == NextStep::Retry(azure_wait(attempt, retry_after_secs)),
    ensures
        s is GiveUp && s->GiveUp_0@ == PlatformErrorView::Operation(failure.diagnostic_text()),
{
}

} // verus!
