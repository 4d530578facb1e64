use vocab::azure::{self, AzureResponseItem, AzureTranslation, AzureTranslationError, AzureTranslatorConfig};
use vocab::deepl::{self, app_language, provider_language, request_languages, AttemptFailure, DeepLError, DeepLTranslation, DeepLTranslatorConfig};
use vocab::platform::PlatformError;
use vocab::translation::{delay_in_millis, parse_u64, retry_delay, RetryDelay, MAX_ATTEMPTS};

#[test]
fn status_codes_keep_actionable_categories_inside_the_provider() {
    assert_eq!(AzureTranslationError::from_status(401), AzureTranslationError::Unauthorized);
    assert_eq!(AzureTranslationError::from_status(429), AzureTranslationError::RateLimited);
    assert_eq!(AzureTranslationError::from_status(402), AzureTranslationError::QuotaExceeded);
    assert_eq!(AzureTranslationError::from_status(400), AzureTranslationError::UnsupportedLanguage);
    assert_eq!(AzureTranslationError::from_status(502), AzureTranslationError::Server);
    assert_eq!(AzureTranslationError::from_status(404), AzureTranslationError::InvalidResponse);
    assert!(AzureTranslationError::RateLimited.retryable());
    assert!(AzureTranslationError::Timeout.retryable());
    assert!(AzureTranslationError::Network.retryable());
    assert!(!AzureTranslationError::Unauthorized.retryable());
}

#[test]
fn deepl_status_codes_keep_their_categories() {
    assert_eq!(DeepLError::from_status(403), DeepLError::Unauthorized);
    assert_eq!(DeepLError::from_status(456), DeepLError::QuotaExceeded);
    assert_eq!(DeepLError::from_status(429), DeepLError::RateLimited);
    assert_eq!(DeepLError::from_status(400), DeepLError::UnsupportedLanguage);
    assert_eq!(DeepLError::from_status(503), DeepLError::Server);
    assert_eq!(DeepLError::from_status(418), DeepLError::InvalidResponse);
    assert!(DeepLError::Server.retryable());
    assert!(!DeepLError::QuotaExceeded.retryable());
    assert_eq!(
        DeepLError::Timeout.into_platform_error(),
        PlatformError::Operation("deepl translation timed out".into())
    );
}

#[test]
fn configuration_rejects_insecure_endpoints_and_redacts_secrets() {
    let key = "developer-secret-key";
    let error = AzureTranslatorConfig::new("http://translator.example.test", key.into(), Some("westeurope".into()), 2, 0)
        .err()
        .unwrap();
    assert!(!error.message().contains(key));
    assert!(!format!("{error:?}").contains(key));

    let config =
        AzureTranslatorConfig::new("https://translator.example.test", key.into(), Some("westeurope".into()), 2, 0).unwrap();
    let diagnostic = config.redacted();
    assert!(!diagnostic.contains(key));
    assert!(!diagnostic.contains("translator.example.test"));
}

#[test]
fn azure_configuration_errors_are_reported_in_order() {
    let message = |r: Result<AzureTranslatorConfig, PlatformError>| r.err().unwrap();
    assert_eq!(
        message(AzureTranslatorConfig::new("not a url", "key".into(), None, 2, 0)),
        PlatformError::Operation("azure translation endpoint is invalid".into())
    );
    assert_eq!(
        message(AzureTranslatorConfig::new("http://x.test", "key".into(), None, 2, 0)),
        PlatformError::Operation("azure translation endpoint must use HTTPS".into())
    );
    assert_eq!(
        message(AzureTranslatorConfig::new("https://x.test", "  ".into(), None, 2, 0)),
        PlatformError::Operation("azure translation key is missing".into())
    );
    assert_eq!(
        message(AzureTranslatorConfig::new("https://x.test", "key".into(), None, 0, 0)),
        PlatformError::Operation("azure translation timeout is invalid".into())
    );
    let test_config = AzureTranslatorConfig::for_test("http://127.0.0.1:9", "key".into(), 2, 0).unwrap();
    assert_eq!(test_config.region(), &None);
    let with_region = test_config.with_test_region("westeurope".into());
    assert_eq!(with_region.region().as_deref(), Some("westeurope"));
    let blank_region = AzureTranslatorConfig::new("https://x.test", "key".into(), Some(" ".into()), 2, 0).unwrap();
    assert_eq!(blank_region.region(), &None);
    assert_eq!(
        blank_region.redacted(),
        "AzureTranslatorConfig { endpoint: \"<redacted>\", key: \"<redacted>\", region: None, timeout: 2s }"
    );
}

#[test]
fn configuration_accepts_free_and_pro_https_endpoints_and_redacts_values() {
    for endpoint in ["https://api-free.deepl.com", "https://api.deepl.com"] {
        let config = DeepLTranslatorConfig::new(endpoint, "private-key".into(), 2, 0).unwrap();
        let debug = config.redacted();
        assert!(!debug.contains("private-key"));
        assert!(!debug.contains("deepl.com"));
    }
    assert!(DeepLTranslatorConfig::new("http://api-free.deepl.com", "key".into(), 2, 0).is_err());
}

#[test]
fn azure_query_names_the_source_only_when_it_is_not_detected() {
    let automatic = azure::translate_query("auto", "de");
    assert_eq!(automatic.len(), 2);
    assert_eq!((automatic[0].name.as_str(), automatic[0].value.as_str()), ("api-version", "3.0"));
    assert_eq!((automatic[1].name.as_str(), automatic[1].value.as_str()), ("to", "de"));
    let explicit = azure::translate_query("en", "de");
    assert_eq!(explicit.len(), 3);
    assert_eq!((explicit[2].name.as_str(), explicit[2].value.as_str()), ("from", "en"));
}

#[test]
fn azure_response_reports_the_detected_source_of_the_last_item() {
    let item = |detected: Option<&str>, text: &str| AzureResponseItem {
        detected_language: detected.map(String::from),
        translations: vec![AzureTranslation { text: text.into(), to: "de".into() }],
    };
    let result = azure::interpret_response(vec![item(Some("fr"), "ignored"), item(Some("en"), "Straße")], "auto").unwrap();
    assert_eq!(result.translated_text, "Straße");
    assert_eq!(result.source_language, "en");
    assert_eq!(result.target_language, "de");
    let explicit = azure::interpret_response(vec![item(None, "Straße")], "en").unwrap();
    assert_eq!(explicit.source_language, "en");
    assert_eq!(azure::interpret_response(vec![item(None, "Straße")], "auto"), Err(AzureTranslationError::InvalidResponse));
    assert_eq!(azure::interpret_response(vec![item(Some("en"), "")], "auto"), Err(AzureTranslationError::InvalidResponse));
    assert_eq!(azure::interpret_response(vec![], "en"), Err(AzureTranslationError::InvalidResponse));
}

#[test]
fn transient_failures_retry_with_backoff_then_give_up() {
    assert_eq!(MAX_ATTEMPTS, 3);
    assert_eq!(retry_delay(0, None), RetryDelay::BackoffMillis(25));
    assert_eq!(retry_delay(1, None), RetryDelay::BackoffMillis(50));
    assert_eq!(retry_delay(2, None), RetryDelay::BackoffMillis(100));
    assert_eq!(retry_delay(0, Some(3)), RetryDelay::ServerSeconds(3));
    assert_eq!(delay_in_millis(RetryDelay::ServerSeconds(3)), 3000);
    assert_eq!(delay_in_millis(RetryDelay::ServerSeconds(u64::MAX)), u64::MAX);
    match azure::next_step(0, AzureTranslationError::Server, None) {
        azure::NextStep::Retry(delay) => assert_eq!(delay, RetryDelay::BackoffMillis(25)),
        azure::NextStep::GiveUp(_) => panic!("a transient failure is retried"),
    }
    match azure::next_step(2, AzureTranslationError::Server, None) {
        azure::NextStep::GiveUp(e) => assert_eq!(e, PlatformError::Operation("azure translation service failed".into())),
        azure::NextStep::Retry(_) => panic!("the last attempt gives up"),
    }
    match azure::next_step(0, AzureTranslationError::Unauthorized, Some(1)) {
        azure::NextStep::GiveUp(e) => {
            assert_eq!(e, PlatformError::Operation("azure translation authentication failed".into()))
        },
        azure::NextStep::Retry(_) => panic!("authentication failures are not retried"),
    }
}

#[test]
fn deepl_retry_after_cannot_exceed_the_overall_budget() {
    let failure = AttemptFailure { kind: DeepLError::RateLimited, retry_after_secs: Some(5) };
    match deepl::next_step(0, failure, 2000) {
        azure::NextStep::GiveUp(e) => assert_eq!(e, PlatformError::Operation("deepl translation timed out".into())),
        azure::NextStep::Retry(_) => panic!("a wait past the deadline gives up"),
    }
    match deepl::next_step(1, AttemptFailure::new(DeepLError::Network), 2000) {
        azure::NextStep::Retry(delay) => assert_eq!(delay, RetryDelay::BackoffMillis(50)),
        azure::NextStep::GiveUp(_) => panic!("a wait inside the budget is retried"),
    }
    assert_eq!(deepl::budget_exhausted(), PlatformError::Operation("deepl translation timed out".into()));
}

#[test]
fn deepl_languages_are_adapted_both_ways() {
    assert_eq!(provider_language("en-gb"), "EN-GB");
    assert_eq!(app_language("ZH"), "zh-Hans");
    assert_eq!(app_language("zh-hant"), "zh-Hant");
    assert_eq!(app_language("EN-US"), "en-us");
    let automatic = request_languages("auto", "de");
    assert_eq!(automatic.source_lang, None);
    assert_eq!(automatic.target_lang, "DE");
    let explicit = request_languages("en", "de");
    assert_eq!(explicit.source_lang.as_deref(), Some("EN"));
    let result = deepl::interpret_response(
        vec![DeepLTranslation { detected_source_language: "EN".into(), text: "Straße".into() }],
        "de",
    )
    .unwrap();
    assert_eq!((result.translated_text.as_str(), result.source_language.as_str(), result.target_language.as_str()), ("Straße", "en", "de"));
    assert_eq!(
        deepl::interpret_response(vec![DeepLTranslation { detected_source_language: "EN".into(), text: "  ".into() }], "de"),
        Err(DeepLError::InvalidResponse)
    );
}

#[test]
fn retry_after_seconds_parse_as_std_does() {
    assert_eq!(parse_u64("120"), Some(120));
    assert_eq!(parse_u64("+7"), Some(7));
    assert_eq!(parse_u64(""), None);
    assert_eq!(parse_u64("1.5"), None);
    assert_eq!(parse_u64("18446744073709551615"), Some(u64::MAX));
    assert_eq!(parse_u64("18446744073709551616"), None);
}

#[test]
fn timeouts_are_durations_and_are_shown_as_debug_shows_them() {
    let shown = |secs: u64, nanos: u32| DeepLTranslatorConfig::new("https://api.deepl.com", "key".into(), secs, nanos).unwrap().redacted();
    let suffix = |text: &str| format!("DeepLTranslatorConfig {{ endpoint: \"<redacted>\", key: \"<redacted>\", timeout: {text} }}");
    assert_eq!(shown(2, 0), suffix("2s"));
    assert_eq!(shown(1, 500_000_000), suffix("1.5s"));
    assert_eq!(shown(3, 1), suffix("3.000000001s"));
    assert_eq!(shown(0, 1_500_000), suffix("1.5ms"));
    assert_eq!(shown(0, 250_000_000), suffix("250ms"));
    assert_eq!(shown(0, 2_500), suffix("2.5\u{b5}s"));
    assert_eq!(shown(0, 1), suffix("1ns"));
    for (secs, nanos) in [(2, 0), (1, 500_000_000), (3, 1), (0, 1_500_000), (0, 2_500), (0, 1)] {
        assert_eq!(shown(secs, nanos), suffix(&format!("{:?}", std::time::Duration::new(secs, nanos))));
    }
    let config = AzureTranslatorConfig::new("https://x.test", "key".into(), None, 0, 1).unwrap();
    assert_eq!(config.timeout(), (0, 1));
    assert!(config.redacted().ends_with("timeout: 1ns }"));
    assert_eq!(
        DeepLTranslatorConfig::new("https://api.deepl.com", "key".into(), 0, 0).err(),
        Some(PlatformError::Operation("deepl translation timeout is invalid".into()))
    );
}

#[test]
fn configurations_keep_the_endpoint_as_the_parsed_url_writes_it() {
    let azure = AzureTranslatorConfig::new("https://X.test", "key".into(), None, 2, 0).unwrap();
    assert_eq!(azure.endpoint(), "https://x.test/");
    let deepl = DeepLTranslatorConfig::new("https://api.deepl.com/v2/../", "key".into(), 2, 0).unwrap();
    assert_eq!(deepl.endpoint(), "https://api.deepl.com/");
}
