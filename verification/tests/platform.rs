use vocab::macos::{check_translation_arguments, decode_response, map_native_error, parse_permission_status, permission_code, BridgeResponse, MacPlatform};
use vocab::platform::{Capability, PermissionKind, PermissionStatus, PlatformCapabilities, PlatformError};
use vocab::windows_ocr::{
    clamp_crop, first_tag_segment, missing_ocr_language_message, ocr_engine_choice, ocr_upscale, select_ocr_language, tag_base,
    OcrDiagnostics, OcrEngineChoice, PixelCrop,
};
use vocab::windows_platform::{
    capture_window_extended_style, ocr_source_window, permission_capability, preferred_ocr_source, record_source_window,
    NativeWindowHandle,
    UnsupportedPermissionProvider, UnsupportedTranslationProvider, UnsupportedWindowProvider, WindowsPlatform,
};
use vocab::windows_discovery::{DiscoveryWalk, Inspection, WalkRequest};
use vocab::windows_selection::{
    fixture_discovery_order, selection_sentence, sentence_containing, traversal_limits, utf16_length, DiscoveryDiagnostics, TraversalLimits,
};

fn bridge_error(json: &str) -> PlatformError {
    let value: serde_json::Value = serde_json::from_str(json).unwrap();
    let response: BridgeResponse<()> = BridgeResponse {
        ok: value["ok"].as_bool().unwrap(),
        payload: None,
        error: value["error"].as_str().map(String::from),
    };
    decode_response(response).unwrap_err()
}

#[test]
fn mac_platform_advertises_the_capabilities_backed_by_the_native_bridge() {
    let services = MacPlatform::new().unwrap();

    assert!(services.capabilities.selection_capture);
    assert!(services.capabilities.selection_bounds);
    assert!(services.capabilities.screenshot_ocr);
    assert!(services.capabilities.translation);
    assert!(services.capabilities.non_activating_window);
}

#[test]
fn maps_no_selection_to_a_typed_error() {
    let error = bridge_error(r#"{"ok":false,"payload":null,"error":"noSelection"}"#);

    assert_eq!(error, PlatformError::EmptySelection);
}

#[test]
fn maps_accessibility_permission_requirement_to_a_typed_error() {
    let error = bridge_error(r#"{"ok":false,"payload":null,"error":"accessibilityPermissionRequired"}"#);

    assert_eq!(error, PlatformError::PermissionRequired(PermissionKind::Accessibility));
}

#[test]
fn maps_screen_recording_permission_requirement_to_a_typed_error() {
    let error = bridge_error(r#"{"ok":false,"payload":null,"error":"screenRecordingPermissionRequired"}"#);

    assert_eq!(error, PlatformError::PermissionRequired(PermissionKind::ScreenRecording));
}

#[test]
fn native_errors_do_not_display_bridge_payloads() {
    let error = bridge_error(r#"{"ok":false,"payload":null,"error":"native failure: secret selection text"}"#);

    for secret in ["native failure", "secret selection text"] {
        assert!(!error.message().contains(secret));
        assert!(!format!("{error:?}").contains(secret));
    }
}

#[test]
fn every_native_error_code_maps_to_its_typed_error() {
    let cases = [
        ("noTextFound", PlatformError::EmptySelection),
        ("noFocusedElement", PlatformError::UnsupportedElement),
        ("invalidSelectionRange", PlatformError::InvalidSelectionRange),
        ("accessibilityPermissionDenied", PlatformError::PermissionDenied(PermissionKind::Accessibility)),
        ("screenRecordingPermissionDenied", PlatformError::PermissionDenied(PermissionKind::ScreenRecording)),
        ("cancelled", PlatformError::Cancelled),
        ("translationUnavailable", PlatformError::Unsupported(Capability::Translation)),
        ("screenshotUnavailable", PlatformError::Operation("native screenshot is unavailable".into())),
        ("ocrUnavailable", PlatformError::Operation("native OCR is unavailable".into())),
        ("translationTimedOut", PlatformError::Operation("native translation timed out".into())),
    ];
    for (code, expected) in cases {
        assert_eq!(map_native_error(&Some(code.to_string())), expected);
    }
    assert_eq!(map_native_error(&None), PlatformError::Operation("native bridge operation failed".into()));
}

#[test]
fn successful_envelope_returns_its_payload_or_reports_a_missing_one() {
    let ok = BridgeResponse { ok: true, payload: Some(7u32), error: None };
    assert_eq!(decode_response(ok), Ok(7));
    let missing: BridgeResponse<u32> = BridgeResponse { ok: true, payload: None, error: None };
    assert_eq!(
        decode_response(missing),
        Err(PlatformError::Operation("native bridge omitted its result".into()))
    );
}

#[test]
fn permission_words_and_codes_follow_the_bridge_abi() {
    assert_eq!(parse_permission_status("granted"), Ok(PermissionStatus::Granted));
    assert_eq!(parse_permission_status("denied"), Ok(PermissionStatus::Denied));
    assert_eq!(parse_permission_status("notDetermined"), Ok(PermissionStatus::NotDetermined));
    assert_eq!(parse_permission_status("restricted"), Ok(PermissionStatus::Restricted));
    assert_eq!(
        parse_permission_status("Granted"),
        Err(PlatformError::Operation("native bridge returned an unknown permission status".into()))
    );
    assert_eq!(permission_code(PermissionKind::Accessibility), 0);
    assert_eq!(permission_code(PermissionKind::ScreenRecording), 1);
}

#[test]
fn translation_arguments_with_a_nul_character_are_refused_in_order() {
    assert_eq!(check_translation_arguments("word", "en", "de"), Ok(()));
    assert_eq!(
        check_translation_arguments("wo\0rd", "e\0n", "de"),
        Err(PlatformError::Operation("text contains an invalid null byte".into()))
    );
    assert_eq!(
        check_translation_arguments("word", "e\0n", "d\0e"),
        Err(PlatformError::Operation("source language is invalid".into()))
    );
    assert_eq!(
        check_translation_arguments("word", "en", "d\0e"),
        Err(PlatformError::Operation("target language is invalid".into()))
    );
}

#[test]
fn source_language_selects_the_recognizer_instead_of_windows_profile_order() {
    let tags = ["zh-Hans-CN", "de-DE", "en-US", "en-GB"].map(String::from);
    assert_eq!(select_ocr_language("en-GB", &tags), Some(3));
    assert_eq!(select_ocr_language("en", &tags), Some(2));
    assert_eq!(select_ocr_language("de", &tags), Some(1));
    assert_eq!(select_ocr_language("zh", &tags), Some(0));
    assert_eq!(select_ocr_language("en", &tags[..2]), None);
    assert_eq!(select_ocr_language("en", &tags[..1]), None);
    assert_eq!(select_ocr_language("ja", &tags), None);
    assert_eq!(select_ocr_language("en", &[]), None);
}

#[test]
fn language_tags_are_compared_by_their_first_segment() {
    assert_eq!(first_tag_segment("en-US"), "en");
    assert_eq!(first_tag_segment("zh_Hans"), "zh");
    assert_eq!(tag_base("EN-gb"), "en");
    assert_eq!(select_ocr_language("EN-us", &["en-US".to_string()]), Some(0));
}

#[test]
fn missing_language_message_names_the_pack_to_install() {
    let message = missing_ocr_language_message("en");
    assert!(message.contains("English"));
    assert!(message.ends_with("then try again."));
}

#[test]
fn ocr_diagnostics_report_only_sizes_and_counts() {
    let line = OcrDiagnostics { region_width: 640, region_height: 360, candidate_count: 1 }.to_line();
    assert_eq!(line, "windows_ocr region_width=640 region_height=360 candidate_count=1");
}

#[test]
fn discovery_uses_the_focused_fast_path_then_stops_at_the_first_selected_node() {
    let order = fixture_discovery_order(
        &[&[1, 2][..], &[3][..], &[][..], &[][..]],
        0,
        Some(2),
        TraversalLimits { max_depth: 3, max_nodes: 8, max_ancestors: 2 },
    );

    assert_eq!(order, vec![0, 1, 2]);
}

#[test]
fn discovery_never_exceeds_depth_node_or_ancestor_limits() {
    let order = fixture_discovery_order(
        &[&[1, 2][..], &[3][..], &[4][..], &[5][..], &[6][..], &[7][..], &[8][..], &[][..], &[][..]],
        0,
        None,
        TraversalLimits { max_depth: 1, max_nodes: 3, max_ancestors: 0 },
    );

    assert_eq!(order, vec![0, 1, 2]);
}

#[test]
fn discovery_caps_a_wide_focused_subtree_before_visiting_every_sibling() {
    let wide_children: Vec<usize> = (1..100).collect();
    let order = fixture_discovery_order(
        &[wide_children.as_slice()],
        0,
        None,
        TraversalLimits { max_depth: 1, max_nodes: 4, max_ancestors: 0 },
    );

    assert_eq!(order, vec![0, 1, 2, 3]);
}

#[test]
fn discovery_stops_below_the_depth_limit_even_with_budget_left() {
    let order = fixture_discovery_order(
        &[&[1][..], &[2][..], &[3][..], &[][..]],
        0,
        None,
        TraversalLimits { max_depth: 2, max_nodes: 64, max_ancestors: 4 },
    );
    assert_eq!(order, vec![0, 1, 2]);
    let limits = traversal_limits();
    assert_eq!((limits.max_depth, limits.max_nodes, limits.max_ancestors), (4, 64, 4));
}

#[test]
fn diagnostics_report_lengths_and_metadata_without_captured_content() {
    let diagnostic = DiscoveryDiagnostics {
        pattern: Some("TextPattern2"),
        examined_nodes: 4,
        traversal_capped: false,
        selected_utf16_length: 18,
        rectangle_count: 2,
        has_source_app: true,
        has_source_title: false,
        outcome: "selected",
    }
    .to_line();

    assert!(diagnostic.contains("selected_utf16_length=18"));
    assert!(diagnostic.contains("rectangle_count=2"));
    assert!(!diagnostic.contains("private selected text"));
    assert!(!diagnostic.contains("private reading context"));
}

#[test]
fn rejects_whitespace_only_selection_with_a_typed_error() {
    assert_eq!(selection_sentence(" \r\n\t", &None), Err(PlatformError::EmptySelection));
}

#[test]
fn repeated_selection_keeps_the_enclosing_context_instead_of_guessing_an_occurrence() {
    let sentence = selection_sentence("repeat", &Some("First repeat. The selected repeat is here.".into())).unwrap();

    assert_eq!(sentence, "First repeat. The selected repeat is here.");
}

#[test]
fn unicode_selection_takes_its_exact_sentence() {
    let sentence = sentence_containing("Before. naïve—CAFÉ 👩🏽\u{200d}💻 remains exact. After.", "naïve—CAFÉ 👩🏽\u{200d}💻");
    assert_eq!(sentence.as_deref(), Some("naïve—CAFÉ 👩🏽\u{200d}💻 remains exact."));
    assert_eq!(selection_sentence("portable", &None), Ok("portable".to_string()));
    assert_eq!(sentence_containing("No match here.", "absent").as_deref(), Some("No match here."));
    assert_eq!(sentence_containing("   ", "absent"), None);
}

#[test]
fn recorded_source_window_wins_over_a_later_foreground_window() {
    let recorded = NativeWindowHandle::new(101);
    let later_foreground = NativeWindowHandle::new(202);

    assert_eq!(preferred_ocr_source(Some(recorded), later_foreground), recorded);
    assert_eq!(preferred_ocr_source(None, later_foreground), later_foreground);
}

#[test]
fn capture_window_style_is_tool_window_that_can_activate_after_passive_show() {
    const WS_EX_APPWINDOW: u32 = 0x0004_0000;
    const WS_EX_TOOLWINDOW: u32 = 0x0000_0080;
    const WS_EX_NOACTIVATE: u32 = 0x0800_0000;

    let style = capture_window_extended_style(WS_EX_APPWINDOW);

    assert_eq!(style & WS_EX_APPWINDOW, 0);
    assert_ne!(style & WS_EX_TOOLWINDOW, 0);
    assert_eq!(style & WS_EX_NOACTIVATE, 0);
}

#[test]
fn only_physically_verified_native_capabilities_are_enabled() {
    let services = WindowsPlatform::new();

    assert_eq!(
        services.capabilities,
        PlatformCapabilities { selection_capture: true, selection_bounds: true, ..PlatformCapabilities::default() }
    );
}

struct ConfiguredTranslation;

impl ConfiguredTranslation {
    fn translate(&self, _text: &str, source: &str, target: &str) -> (String, String, String) {
        ("configured".into(), source.into(), target.into())
    }
}

#[test]
fn injected_translation_provider_enables_only_translation_capability() {
    let services = WindowsPlatform::with_translation(ConfiguredTranslation);

    assert_eq!(
        services.capabilities,
        PlatformCapabilities {
            selection_capture: true,
            selection_bounds: true,
            translation: true,
            ..PlatformCapabilities::default()
        }
    );
    assert_eq!(services.translation.unwrap().translate("word", "en", "de").0, "configured");
}

#[test]
fn deferred_providers_return_capability_specific_unsupported_errors() {
    let services = WindowsPlatform::new();

    assert!(services.translation.is_none());
    assert_eq!(
        UnsupportedTranslationProvider.translate("word", "en", "de"),
        Err(PlatformError::Unsupported(Capability::Translation))
    );
    assert_eq!(
        services.permissions.status(PermissionKind::Accessibility),
        Err(PlatformError::Unsupported(Capability::Selection))
    );
    assert_eq!(
        services.permissions.request(PermissionKind::Accessibility),
        Err(PlatformError::Unsupported(Capability::Selection))
    );
    assert_eq!(
        services.permissions.status(PermissionKind::ScreenRecording),
        Err(PlatformError::Unsupported(Capability::ScreenshotOcr))
    );
    assert_eq!(
        UnsupportedPermissionProvider.request(PermissionKind::ScreenRecording),
        Err(PlatformError::Unsupported(Capability::ScreenshotOcr))
    );
    assert_eq!(
        services.window.configure_capture_window(),
        Err(PlatformError::Unsupported(Capability::NonActivatingWindow))
    );
    assert_eq!(
        UnsupportedWindowProvider.configure_capture_window(),
        Err(PlatformError::Unsupported(Capability::NonActivatingWindow))
    );
    assert_eq!(permission_capability(PermissionKind::ScreenRecording), Capability::ScreenshotOcr);
}

#[test]
fn configured_ocr_capability_matches_the_developer_gate() {
    assert!(WindowsPlatform::configured::<ConfiguredTranslation>(None, true).capabilities.screenshot_ocr);
    assert!(!WindowsPlatform::configured::<ConfiguredTranslation>(None, false).capabilities.screenshot_ocr);
    assert!(!WindowsPlatform::new().capabilities.screenshot_ocr);
}

/// Drives a discovery walk over a fixture tree: `children[n]` lists the
/// children of `n`, `parents[n]` its parent and `selected` the nodes whose
/// text pattern holds a selection (`with_pattern` those with an empty one).
fn drive_walk(
    children: &[&[usize]],
    parents: &[Option<usize>],
    selected: &[usize],
    with_pattern: &[usize],
    focused: usize,
    limits: TraversalLimits,
) -> (WalkRequest, Vec<usize>, DiscoveryWalk) {
    let inspect = |n: usize| {
        if selected.contains(&n) {
            Inspection::Selected
        } else if with_pattern.contains(&n) {
            Inspection::EmptySelection
        } else {
            Inspection::NoTextPattern
        }
    };
    let mut walk = DiscoveryWalk::start(limits, inspect(focused));
    let mut ancestor = focused;
    let mut visited = Vec::new();
    let mut last_inspected = focused;
    let mut held: Option<(usize, usize)> = None;
    let mut queue = std::collections::VecDeque::new();
    loop {
        match walk.request {
            WalkRequest::Parent => match parents[ancestor] {
                Some(p) => {
                    ancestor = p;
                    walk.parent_found(true);
                },
                None => walk.parent_found(false),
            },
            WalkRequest::InspectParent => {
                visited.push(ancestor);
                walk.inspected(inspect(ancestor));
            },
            WalkRequest::FirstChildOfFocused | WalkRequest::FirstChildOfInspected(_) => {
                let parent = if walk.request == WalkRequest::FirstChildOfFocused { focused } else { last_inspected };
                held = if children[parent].is_empty() { None } else { Some((parent, 0)) };
                walk.child_found(held.is_some());
            },
            WalkRequest::QueueAndNextSibling(_) => {
                let (parent, index) = held.unwrap();
                queue.push_back(children[parent][index]);
                held = if index + 1 < children[parent].len() { Some((parent, index + 1)) } else { None };
                walk.child_found(held.is_some());
            },
            WalkRequest::InspectNext(_) => {
                let n = queue.pop_front().unwrap();
                visited.push(n);
                last_inspected = n;
                walk.inspected(inspect(n));
            },
            WalkRequest::Found | WalkRequest::Exhausted => return (walk.request, visited, walk),
        }
    }
}

#[test]
fn selection_walk_stops_at_a_selected_focus_or_ancestor() {
    let limits = TraversalLimits { max_depth: 4, max_nodes: 64, max_ancestors: 4 };
    let (end, visited, walk) = drive_walk(&[&[][..]], &[None], &[0], &[], 0, limits);
    assert_eq!((end, visited.len(), walk.examined_nodes), (WalkRequest::Found, 0, 1));

    let children: [&[usize]; 3] = [&[][..], &[0][..], &[1][..]];
    let (end, visited, walk) = drive_walk(&children, &[Some(1), Some(2), None], &[2], &[1], 0, limits);
    assert_eq!((end, visited, walk.examined_nodes), (WalkRequest::Found, vec![1, 2], 3));
    assert!(walk.saw_text_pattern);
}

#[test]
fn selection_walk_searches_the_focused_subtree_within_its_budgets() {
    let children: [&[usize]; 6] = [&[1, 2][..], &[3][..], &[][..], &[4][..], &[5][..], &[][..]];
    let parents = [None, Some(0), Some(0), Some(1), Some(3), Some(4)];
    let limits = TraversalLimits { max_depth: 2, max_nodes: 64, max_ancestors: 4 };
    let (end, visited, walk) = drive_walk(&children, &parents, &[], &[2], 0, limits);
    assert_eq!(end, WalkRequest::Exhausted);
    assert_eq!(visited, vec![1, 2, 3]);
    assert_eq!(walk.examined_nodes, 4);
    assert!(walk.traversal_capped);
    assert_eq!(walk.failure(), PlatformError::EmptySelection);
    let diagnostics = walk.exhausted_diagnostics();
    assert_eq!(diagnostics.outcome, "empty_selection");
    assert!(diagnostics.traversal_capped);

    let narrow = TraversalLimits { max_depth: 4, max_nodes: 3, max_ancestors: 0 };
    let (end, visited, walk) = drive_walk(&children, &parents, &[5], &[], 0, narrow);
    assert_eq!(end, WalkRequest::Exhausted);
    assert_eq!(visited, vec![1, 2]);
    assert_eq!(walk.examined_nodes, 3);
    assert_eq!(walk.failure(), PlatformError::UnsupportedElement);

    let deep = TraversalLimits { max_depth: 4, max_nodes: 64, max_ancestors: 0 };
    let (end, visited, _) = drive_walk(&children, &parents, &[5], &[], 0, deep);
    assert_eq!((end, visited), (WalkRequest::Found, vec![1, 2, 3, 4, 5]));
}

#[test]
fn selection_lengths_are_counted_in_utf16_units() {
    assert_eq!(utf16_length("naïve"), 5);
    assert_eq!(utf16_length("👩🏽\u{200d}💻"), 7);
    assert_eq!(utf16_length(""), 0);
}

#[test]
fn short_ocr_crops_are_enlarged_within_the_recognizer_limit() {
    assert_eq!(ocr_upscale(200, 40, 10_000), 3);
    assert_eq!(ocr_upscale(4_000, 40, 10_000), 2);
    assert_eq!(ocr_upscale(20_000, 40, 10_000), 1);
    assert_eq!(ocr_upscale(200, 64, 10_000), 1);
}

#[test]
fn crops_are_clamped_into_the_captured_frame() {
    let crop = |x, y, width, height| PixelCrop { x, y, width, height };
    assert_eq!(clamp_crop(crop(90, 140, 800, 450), 1_225, 850), crop(90, 140, 800, 450));
    assert_eq!(clamp_crop(crop(1_000, 700, 800, 450), 1_225, 850), crop(1_000, 700, 225, 150));
    assert_eq!(clamp_crop(crop(5_000, 5_000, 10, 10), 100, 50), crop(99, 49, 1, 1));
    assert_eq!(clamp_crop(crop(3, 3, 0, 0), 0, 0), crop(0, 0, 1, 1));
}

#[test]
fn automatic_source_keeps_the_profile_recognizer() {
    let tags = ["de-DE", "en-US"].map(String::from);
    assert_eq!(ocr_engine_choice("AUTO", &tags), OcrEngineChoice::UserProfile);
    assert_eq!(ocr_engine_choice("en", &tags), OcrEngineChoice::Recognizer(1));
    match ocr_engine_choice("ja", &tags) {
        OcrEngineChoice::Missing(PlatformError::Operation(message)) => assert!(message.starts_with("ja OCR language pack")),
        other => panic!("unexpected choice {other:?}"),
    }
}

#[test]
fn ocr_reads_a_real_window_only() {
    let recorded = NativeWindowHandle::new(7);
    assert_eq!(ocr_source_window(Some(recorded), NativeWindowHandle::new(9)), Ok(recorded));
    assert_eq!(ocr_source_window(None, NativeWindowHandle::new(9)), Ok(NativeWindowHandle::new(9)));
    assert_eq!(
        ocr_source_window(None, NativeWindowHandle::new(0)),
        Err(PlatformError::Operation("OCR source window is unavailable".into()))
    );
}

#[test]
fn error_messages_never_carry_captured_content() {
    assert_eq!(PlatformError::EmptySelection.message(), "no text is selected");
    assert_eq!(PlatformError::Unsupported(Capability::Translation).message(), "capability is unsupported on this platform");
    assert_eq!(PlatformError::Operation("native OCR is unavailable".into()).message(), "native OCR is unavailable");
}

#[test]
fn showing_the_capture_window_records_the_source_window() {
    let source = NativeWindowHandle::new(11);
    let capture = NativeWindowHandle::new(22);
    assert_eq!(record_source_window(None, source, capture), Some(source));
    assert_eq!(record_source_window(Some(source), capture, capture), Some(source));
    assert_eq!(record_source_window(None, capture, capture), None);
}
