//! The portable platform contract shared by the native adapters and the
//! translation providers: capabilities, permissions, errors and results.

use vstd::prelude::*;

verus! {

/// A capability that a platform adapter may or may not offer.
#[derive(Clone, Copy, Debug, PartialEq, Eq, Structural)]
pub enum Capability {
    Selection,
    SelectionBounds,
    ScreenshotOcr,
    Translation,
    NonActivatingWindow,
}

/// A system permission that capture features depend on.
#[derive(Clone, Copy, Debug, PartialEq, Eq, Structural)]
pub enum PermissionKind {
    Accessibility,
    ScreenRecording,
}

/// The state of a system permission.
#[derive(Clone, Copy, Debug, PartialEq, Eq, Structural)]
pub enum PermissionStatus {
    Granted,
    Denied,
    NotDetermined,
    Restricted,
}

/// A content-free error of a platform operation. `Operation` carries a fixed
/// diagnostic, never user text or upstream payloads.
#[derive(Clone, Debug, PartialEq, Eq)]
pub enum PlatformError {
    Unsupported(Capability),
    PermissionRequired(PermissionKind),
    PermissionDenied(PermissionKind),
    EmptySelection,
    UnsupportedElement,
    InvalidSelectionRange,
    Cancelled,
    Operation(String),
}

/// The mathematical value of a [`PlatformError`].
pub enum PlatformErrorView {
    Unsupported(Capability),
    PermissionRequired(PermissionKind),
    PermissionDenied(PermissionKind),
    EmptySelection,
    UnsupportedElement,
    InvalidSelectionRange,
    Cancelled,
    Operation(Seq<char>),
}

impl View for PlatformError {
    type V = PlatformErrorView;

    open spec fn view(&self) -> PlatformErrorView {
        match self {
            PlatformError::Unsupported(c) => PlatformErrorView::Unsupported(*c),
            PlatformError::PermissionRequired(k) => PlatformErrorView::PermissionRequired(*k),
            PlatformError::PermissionDenied(k) => PlatformErrorView::PermissionDenied(*k),
            PlatformError::EmptySelection => PlatformErrorView::EmptySelection,
            PlatformError::UnsupportedElement => PlatformErrorView::UnsupportedElement,
            PlatformError::InvalidSelectionRange => PlatformErrorView::InvalidSelectionRange,
            PlatformError::Cancelled => PlatformErrorView::Cancelled,
            PlatformError::Operation(m) => PlatformErrorView::Operation(m@),
        }
    }
}

impl PlatformError {
    /// An operation error with a fixed diagnostic.
    pub fn operation(message: &str) -> (e: PlatformError)
        ensures
            e@ == PlatformErrorView::Operation(message@),
    {
        PlatformError::Operation(String::from_str(message))
    }

    /// The diagnostic text of the error, as shown to users and logs.
    pub fn message(&self) -> (m: String)
        ensures
            m@ == message_text(self@),
    {
        match self {
            PlatformError::Unsupported(_) => String::from_str("capability is unsupported on this platform"),
            PlatformError::PermissionRequired(_) => String::from_str("permission is required"),
            PlatformError::PermissionDenied(_) => String::from_str("permission was denied"),
            PlatformError::EmptySelection => String::from_str("no text is selected"),
            PlatformError::UnsupportedElement => String::from_str("the focused element does not expose text"),
            PlatformError::InvalidSelectionRange => String::from_str("the selection range is invalid"),
            PlatformError::Cancelled => String::from_str("the operation was cancelled"),
            PlatformError::Operation(m) => m.clone(),
        }
    }
}

/// The text shown for an error: a fixed text per kind, the diagnostic of an
/// operation error.
pub open spec fn message_text(e: PlatformErrorView) -> Seq<char> {
    match e {
        PlatformErrorView::Unsupported(_) => "capability is unsupported on this platform"@,
        PlatformErrorView::PermissionRequired(_) => "permission is required"@,
        PlatformErrorView::PermissionDenied(_) => "permission was denied"@,
        PlatformErrorView::EmptySelection => "no text is selected"@,
        PlatformErrorView::UnsupportedElement => "the focused element does not expose text"@,
        PlatformErrorView::InvalidSelectionRange => "the selection range is invalid"@,
        PlatformErrorView::Cancelled => "the operation was cancelled"@,
        PlatformErrorView::Operation(m) => m,
    }
}

/// Which platform features are backed by a verified native implementation.
#[derive(Clone, Copy, Debug, PartialEq, Eq, Structural)]
pub struct PlatformCapabilities {
    pub selection_capture: bool,
    pub selection_bounds: bool,
    pub screenshot_ocr: bool,
    pub translation: bool,
    pub non_activating_window: bool,
}

impl PlatformCapabilities {
    /// No capability at all.
    pub fn none() -> (c: PlatformCapabilities)
        ensures
            !c.selection_capture && !c.selection_bounds && !c.screenshot_ocr && !c.translation
                && !c.non_activating_window,
    {
        PlatformCapabilities {
            selection_capture: false,
            selection_bounds: false,
            screenshot_ocr: false,
            translation: false,
            non_activating_window: false,
        }
    }
}

impl Default for PlatformCapabilities {
    /// No capability at all.
    fn default() -> (c: PlatformCapabilities)
        ensures
            !c.selection_capture && !c.selection_bounds && !c.screenshot_ocr && !c.translation
                && !c.non_activating_window,
    {
        PlatformCapabilities::none()
    }
}

/// The portable result of a translation.
#[derive(Clone, Debug, PartialEq, Eq)]
pub struct TranslationResult {
    pub translated_text: String,
    pub source_language: String,
    pub target_language: String,
}

/// The mathematical value of a [`TranslationResult`].
pub struct TranslationResultView {
    pub translated_text: Seq<char>,
    pub source_language: Seq<char>,
    pub target_language: Seq<char>,
}

impl View for TranslationResult {
    type V = TranslationResultView;

    open spec fn view(&self) -> TranslationResultView {
        TranslationResultView {
            translated_text: self.translated_text@,
            source_language: self.source_language@,
            target_language: self.target_language@,
        }
    }
}

} // verus!
