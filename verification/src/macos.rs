//! The macOS adapter: interpretation of the JSON envelope that the native
//! bridge returns, and the capabilities the bridge backs.

use vstd::prelude::*;
use crate::platform::{Capability, PermissionKind, PermissionStatus, PlatformCapabilities, PlatformError, PlatformErrorView};
use crate::text::text_eq;

verus! {

/// The content-free error that a native bridge error code stands for.
pub open spec fn native_error(code: Option<Seq<char>>) -> PlatformErrorView {
    match code {
        Some(c) => {
            if c == "noSelection"@ || c == "noTextFound"@ {
                PlatformErrorView::EmptySelection
            } else if c == "noFocusedElement"@ {
                PlatformErrorView::UnsupportedElement
            } else if c == "invalidSelectionRange"@ {
                PlatformErrorView::InvalidSelectionRange
            } else if c == "accessibilityPermissionRequired"@ {
                PlatformErrorView::PermissionRequired(PermissionKind::Accessibility)
            } else if c == "screenRecordingPermissionRequired"@ {
                PlatformErrorView::PermissionRequired(PermissionKind::ScreenRecording)
            } else if c == "accessibilityPermissionDenied"@ {
                PlatformErrorView::PermissionDenied(PermissionKind::Accessibility)
            } else if c == "screenRecordingPermissionDenied"@ {
                PlatformErrorView::PermissionDenied(PermissionKind::ScreenRecording)
            } else if c == "cancelled"@ {
                PlatformErrorView::Cancelled
            } else if c == "translationUnavailable"@ {
                PlatformErrorView::Unsupported(Capability::Translation)
            } else if c == "screenshotUnavailable"@ {
                PlatformErrorView::Operation("native screenshot is unavailable"@)
            } else if c == "ocrUnavailable"@ {
                PlatformErrorView::Operation("native OCR is unavailable"@)
            } else if c == "translationTimedOut"@ {
                PlatformErrorView::Operation("native translation timed out"@)
            } else {
                PlatformErrorView::Operation("native bridge operation failed"@)
            }
        },
        None => PlatformErrorView::Operation("native bridge operation failed"@),
    }
}

/// The errors a native code maps to carry none of the code's text: every
/// operation error has one of the bridge adapter's own fixed diagnostics.
pub proof fn native_errors_are_content_free(code: Option<Seq<char>>)
    ensures
        native_error(code) matches PlatformErrorView::Operation(m) ==> (m == "native screenshot is unavailable"@
            || m == "native OCR is unavailable"@ || m == "native translation timed out"@
            || m == "native bridge operation failed"@),
{
}

pub open spec fn option_text_view(o: Option<String>) -> Option<Seq<char>> {
    match o {
        Some(s) => Some(s@),
        None => None,
    }
}

fn is(code: &String, literal: &str) -> (r: bool)
    ensures
        r == (code@ == literal@),
{
    text_eq(code.as_str(), literal)
}

/// Maps a native bridge error code to a typed, content-free error; unknown
/// codes never leak into the diagnostic.
pub fn map_native_error(code: &Option<String>) -> (e: PlatformError)
    ensures
        e@ == native_error(option_text_view(*code)),
{
    match code {
        Some(c) => {
            if is(c, "noSelection") || is(c, "noTextFound") {
                PlatformError::EmptySelection
            } else if is(c, "noFocusedElement") {
                PlatformError::UnsupportedElement
            } else if is(c, "invalidSelectionRange") {
                PlatformError::InvalidSelectionRange
            } else if is(c, "accessibilityPermissionRequired") {
                PlatformError::PermissionRequired(PermissionKind::Accessibility)
            } else if is(c, "screenRecordingPermissionRequired") {
                PlatformError::PermissionRequired(PermissionKind::ScreenRecording)
            } else if is(c, "accessibilityPermissionDenied") {
                PlatformError::PermissionDenied(PermissionKind::Accessibility)
            } else if is(c, "screenRecordingPermissionDenied") {
                PlatformError::PermissionDenied(PermissionKind::ScreenRecording)
            } else if is(c, "cancelled") {
                PlatformError::Cancelled
            } else if is(c, "translationUnavailable") {
                PlatformError::Unsupported(Capability::Translation)
            } else if is(c, "screenshotUnavailable") {
                PlatformError::operation("native screenshot is unavailable")
            } else if is(c, "ocrUnavailable") {
                PlatformError::operation("native OCR is unavailable")
            } else if is(c, "translationTimedOut") {
                PlatformError::operation("native translation timed out")
            } else {
                PlatformError::operation("native bridge operation failed")
            }
        },
        None => PlatformError::operation("native bridge operation failed"),
    }
}

/// The fields of a native bridge response envelope.
pub struct BridgeResponse<T> {
    pub ok: bool,
    pub payload: Option<T>,
    pub error: Option<String>,
}

/// Interprets a decoded bridge envelope: a successful envelope must carry its
/// payload; a failed one is mapped to a typed error without its text.
pub fn decode_response<T>(response: BridgeResponse<T>) -> (r: Result<T, PlatformError>)
    ensures
        response.ok ==> (match response.payload {
            Some(p) => r == Ok::<T, PlatformError>(p),
            None => r is Err && r->Err_0@ == PlatformErrorView::Operation("native bridge omitted its result"@),
        }),
        !response.ok ==> r is Err && r->Err_0@ == native_error(option_text_view(response.error)),
{
    if response.ok {
        match response.payload {
            Some(p) => Ok(p),
            None => Err(PlatformError::operation("native bridge omitted its result")),
        }
    } else {
        Err(map_native_error(&response.error))
    }
}

/// The error for bytes that are not a bridge envelope at all.
pub fn invalid_bridge_data() -> (e: PlatformError)
    ensures
        e@ == PlatformErrorView::Operation("native bridge returned invalid data"@),
{
    PlatformError::operation("native bridge returned invalid data")
}

/// The permission status that a native status word stands for.
pub open spec fn permission_status_of(raw: Seq<char>) -> Option<PermissionStatus> {
    if raw == "granted"@ {
        Some(PermissionStatus::Granted)
    } else if raw == "denied"@ {
        Some(PermissionStatus::Denied)
    } else if raw == "notDetermined"@ {
        Some(PermissionStatus::NotDetermined)
    } else if raw == "restricted"@ {
        Some(PermissionStatus::Restricted)
    } else {
        None
    }
}

/// Parses the permission status word returned by the native bridge.
pub fn parse_permission_status(raw: &str) -> (r: Result<PermissionStatus, PlatformError>)
    ensures
        match permission_status_of(raw@) {
            Some(s) => r == Ok::<PermissionStatus, PlatformError>(s),
            None => r is Err && r->Err_0@ == PlatformErrorView::Operation(
                "native bridge returned an unknown permission status"@),
        },
{
    if text_eq(raw, "granted") {
        Ok(PermissionStatus::Granted)
    } else if text_eq(raw, "denied") {
        Ok(PermissionStatus::Denied)
    } else if text_eq(raw, "notDetermined") {
        Ok(PermissionStatus::NotDetermined)
    } else if text_eq(raw, "restricted") {
        Ok(PermissionStatus::Restricted)
    } else {
        Err(PlatformError::operation("native bridge returned an unknown permission status"))
    }
}

/// The code that selects a permission in the native bridge ABI.
pub fn permission_code(kind: PermissionKind) -> (code: i32)
    ensures
        code == (if kind == PermissionKind::Accessibility { 0i32 } else { 1i32 }),
{
    match kind {
        PermissionKind::Accessibility => 0,
        PermissionKind::ScreenRecording => 1,
    }
}

/// Whether a text holds a NUL character, which a C string cannot carry.
pub open spec fn has_nul(s: Seq<char>) -> bool {
    s.contains('\0')
}

fn holds_nul(s: &str) -> (r: bool)
    ensures
        r == has_nul(s@),
{
    let chars = crate::text::chars_of(s);
    let mut i: usize = 0;
    while i < chars.len()
        invariant
            i <= chars@.len(),
            chars@ == s@,
            forall|j: int| 0 <= j < i ==> chars@[j] != '\0',
        decreases chars.len() - i,
    {
        if chars[i] == '\0' {
            assert(s@[i as int] == '\0');
            return true;
        }
        i = i + 1;
    }
    false
}

/// The texts of a translation request cross the bridge as C strings: the
/// first one that holds a NUL character refuses the request.
pub fn check_translation_arguments(text: &str, source: &str, target: &str) -> (r: Result<(), PlatformError>)
    ensures
        has_nul(text@) ==> r is Err && r->Err_0@ == PlatformErrorView::Operation("text contains an invalid null byte"@),
        !has_nul(text@) && has_nul(source@) ==> r is Err && r->Err_0@ == PlatformErrorView::Operation("source language is invalid"@),
        !has_nul(text@) && !has_nul(source@) && has_nul(target@) ==> r is Err
            && r->Err_0@ == PlatformErrorView::Operation("target language is invalid"@),
        !has_nul(text@) && !has_nul(source@) && !has_nul(target@) ==> r is Ok,
{
    if holds_nul(text) {
        return Err(PlatformError::operation("text contains an invalid null byte"));
    }
    if holds_nul(source) {
        return Err(PlatformError::operation("source language is invalid"));
    }
    if holds_nul(target) {
        return Err(PlatformError::operation("target language is invalid"));
    }
    Ok(())
}

/// The macOS selection provider (backed by the Accessibility bridge).
#[derive(Clone, Copy, Debug, Default)]
pub struct MacSelectionProvider;

/// The macOS OCR provider (backed by the Vision bridge).
#[derive(Clone, Copy, Debug, Default)]
pub struct MacOcrProvider;

/// The macOS translation provider (backed by the Translation framework bridge).
#[derive(Clone, Copy, Debug, Default)]
pub struct MacTranslationProvider;

/// The macOS permission provider.
#[derive(Clone, Copy, Debug, Default)]
pub struct MacPermissionProvider;

/// The macOS capture-window provider.
#[derive(Clone, Copy, Debug, Default)]
pub struct MacWindowProvider;

/// The macOS service bundle.
pub struct MacServices {
    pub capabilities: PlatformCapabilities,
    pub selection: MacSelectionProvider,
    pub ocr: MacOcrProvider,
    pub translation: MacTranslationProvider,
    pub permissions: MacPermissionProvider,
    pub window: MacWindowProvider,
}

/// The macOS implementation of the portable platform service bundle.
#[derive(Clone, Copy, Debug, Default)]
pub struct MacPlatform;

impl MacPlatform {
    /// The service bundle backed by the native bridge: every capability is on.
    pub fn new() -> (r: Result<MacServices, PlatformError>)
        ensures
            r is Ok,
            r matches Ok(s) ==> s.capabilities.selection_capture && s.capabilities.selection_bounds
                && s.capabilities.screenshot_ocr && s.capabilities.translation
                && s.capabilities.non_activating_window,
    {
        Ok(MacServices {
            capabilities: PlatformCapabilities {
                selection_capture: true,
                selection_bounds: true,
                screenshot_ocr: true,
                translation: true,
                non_activating_window: true,
            },
            selection: MacSelectionProvider,
            ocr: MacOcrProvider,
            translation: MacTranslationProvider,
            permissions: MacPermissionProvider,
            window: MacWindowProvider,
        })
    }
}

} // verus!
