//! Decisions of the Windows platform adapter that do not touch the native APIs.

use vstd::prelude::*;
use crate::platform::{Capability, PermissionKind, PermissionStatus, PlatformCapabilities, PlatformError, PlatformErrorView};

verus! {

/// Extended window style bit that keeps a window out of the taskbar.
pub const WS_EX_TOOLWINDOW: u32 = 0x0000_0080;

/// Extended window style bit that forces a taskbar button.
pub const WS_EX_APPWINDOW: u32 = 0x0004_0000;

/// Extended window style bit that prevents activation by clicks.
pub const WS_EX_NOACTIVATE: u32 = 0x0800_0000;

/// An opaque native window handle value.
#[derive(Clone, Copy, Debug, PartialEq, Eq, Structural)]
pub struct NativeWindowHandle(pub isize);

impl NativeWindowHandle {
    pub fn new(value: isize) -> (handle: Self)
        ensures
            handle.0 == value,
    {
        NativeWindowHandle(value)
    }
}

/// The three style bits that the capture window sets or clears.
pub open spec fn capture_style_mask() -> u32 {
    WS_EX_TOOLWINDOW | WS_EX_APPWINDOW | WS_EX_NOACTIVATE
}

/// The extended style of the capture window: a tool window that is neither an
/// app window nor permanently non-activating; all other bits are kept.
pub fn capture_window_extended_style(current: u32) -> (style: u32)
    ensures
        style & WS_EX_TOOLWINDOW == WS_EX_TOOLWINDOW,
        style & WS_EX_APPWINDOW == 0,
        style & WS_EX_NOACTIVATE == 0,
        style & !capture_style_mask() == current & !capture_style_mask(),
{
    let style = (current | WS_EX_TOOLWINDOW) & !WS_EX_APPWINDOW & !WS_EX_NOACTIVATE;
    assert(style & 0x80u32 == 0x80u32 && style & 0x0004_0000u32 == 0 && style & 0x0800_0000u32 == 0
        && style & !(0x80u32 | 0x0004_0000u32 | 0x0800_0000u32) == current & !(0x80u32
        | 0x0004_0000u32 | 0x0800_0000u32)) by (bit_vector)
        requires
            style == (current | 0x80u32) & !0x0004_0000u32 & !0x0800_0000u32,
    ;
    style
}

/// The window that OCR should read: the source window recorded when the capture
/// window was shown wins over whatever is in the foreground now.
pub fn preferred_ocr_source(recorded: Option<NativeWindowHandle>, foreground: NativeWindowHandle) -> (source: NativeWindowHandle)
    ensures
        source == (match recorded {
            Some(r) => r,
            None => foreground,
        }),
{
    match recorded {
        Some(source) => source,
        None => foreground,
    }
}

/// The source window after the capture window is shown: the foreground
/// window is recorded unless it is the capture window itself, in which case
/// the earlier record stays.
pub open spec fn recorded_after_show(recorded: Option<NativeWindowHandle>, foreground: NativeWindowHandle, capture_window: NativeWindowHandle) -> Option<NativeWindowHandle> {
    if foreground != capture_window { Some(foreground) } else { recorded }
}

pub fn record_source_window(recorded: Option<NativeWindowHandle>, foreground: NativeWindowHandle, capture_window: NativeWindowHandle) -> (r: Option<NativeWindowHandle>)
    ensures
        r == recorded_after_show(recorded, foreground, capture_window),
{
    if foreground.0 != capture_window.0 { Some(foreground) } else { recorded }
}

/// OCR reads the window the user captured from: once the capture window was
/// shown over a source window, a later foreground window does not replace it.
pub proof fn ocr_reads_the_window_shown_over(recorded: Option<NativeWindowHandle>, source: NativeWindowHandle, capture_window: NativeWindowHandle, later: NativeWindowHandle)
    requires
        source != capture_window,
    ensures
        (match recorded_after_show(recorded, source, capture_window) { Some(r) => r, None => later }) == source,
{
}

/// The window that OCR reads, given the recorded source window and the
/// current foreground window; a null handle means there is none.
pub fn ocr_source_window(recorded: Option<NativeWindowHandle>, foreground: NativeWindowHandle) -> (r: Result<NativeWindowHandle, PlatformError>)
    ensures
        ({
            let source = match recorded { Some(h) => h, None => foreground };
            &&& source.0 == 0 ==> r is Err && r->Err_0@ == PlatformErrorView::Operation("OCR source window is unavailable"@)
            &&& source.0 != 0 ==> r == Ok::<NativeWindowHandle, PlatformError>(source)
        }),
{
    let source = preferred_ocr_source(recorded, foreground);
    if source.0 == 0 {
        Err(PlatformError::operation("OCR source window is unavailable"))
    } else {
        Ok(source)
    }
}

/// The capability whose permission a permission kind guards on Windows.
pub fn permission_capability(kind: PermissionKind) -> (c: Capability)
    ensures
        c == (match kind {
            PermissionKind::Accessibility => Capability::Selection,
            PermissionKind::ScreenRecording => Capability::ScreenshotOcr,
        }),
{
    match kind {
        PermissionKind::Accessibility => Capability::Selection,
        PermissionKind::ScreenRecording => Capability::ScreenshotOcr,
    }
}

/// The translation provider used when none is configured.
#[derive(Clone, Copy, Debug, Default)]
pub struct UnsupportedTranslationProvider;

impl UnsupportedTranslationProvider {
    /// Always refuses with the capability that is missing.
    pub fn translate(&self, text: &str, source: &str, target: &str) -> (r: Result<crate::platform::TranslationResult, PlatformError>)
        ensures
            r is Err && r->Err_0@ == PlatformErrorView::Unsupported(Capability::Translation),
    {
        Err(PlatformError::Unsupported(Capability::Translation))
    }
}

/// The permission provider of an adapter without permission support.
#[derive(Clone, Copy, Debug, Default)]
pub struct UnsupportedPermissionProvider;

impl UnsupportedPermissionProvider {
    /// Refuses with the capability that the permission guards.
    pub fn status(&self, kind: PermissionKind) -> (r: Result<PermissionStatus, PlatformError>)
        ensures
            r is Err && r->Err_0@ == PlatformErrorView::Unsupported(match kind {
                PermissionKind::Accessibility => Capability::Selection,
                PermissionKind::ScreenRecording => Capability::ScreenshotOcr,
            }),
    {
        Err(PlatformError::Unsupported(permission_capability(kind)))
    }

    /// Refuses with the capability that the permission guards.
    pub fn request(&self, kind: PermissionKind) -> (r: Result<PermissionStatus, PlatformError>)
        ensures
            r is Err && r->Err_0@ == PlatformErrorView::Unsupported(match kind {
                PermissionKind::Accessibility => Capability::Selection,
                PermissionKind::ScreenRecording => Capability::ScreenshotOcr,
            }),
    {
        Err(PlatformError::Unsupported(permission_capability(kind)))
    }
}

/// The capture-window provider of an adapter without a non-activating window.
#[derive(Clone, Copy, Debug, Default)]
pub struct UnsupportedWindowProvider;

impl UnsupportedWindowProvider {
    pub fn configure_capture_window(&self) -> (r: Result<(), PlatformError>)
        ensures
            r is Err && r->Err_0@ == PlatformErrorView::Unsupported(Capability::NonActivatingWindow),
    {
        Err(PlatformError::Unsupported(Capability::NonActivatingWindow))
    }
}

/// The Windows service bundle; `translation` is `None` when translation is
/// served by [`UnsupportedTranslationProvider`].
pub struct WindowsServices<T> {
    pub capabilities: PlatformCapabilities,
    pub translation: Option<T>,
    pub permissions: UnsupportedPermissionProvider,
    pub window: UnsupportedWindowProvider,
}

/// The capabilities that the Windows adapter backs: selection capture and
/// bounds always; translation and OCR only when configured.
pub open spec fn windows_capabilities(translation: bool, screenshot_ocr: bool) -> PlatformCapabilities {
    PlatformCapabilities {
        selection_capture: true,
        selection_bounds: true,
        screenshot_ocr: screenshot_ocr,
        translation: translation,
        non_activating_window: false,
    }
}

/// Builds the Windows provider bundle with only physically verified capabilities enabled.
#[derive(Clone, Copy, Debug, Default)]
pub struct WindowsPlatform;

impl WindowsPlatform {
    pub fn new() -> (s: WindowsServices<UnsupportedTranslationProvider>)
        ensures
            s.capabilities == windows_capabilities(false, false),
            s.translation is None,
    {
        Self::services(None, false)
    }

    pub fn with_translation<T>(translation: T) -> (s: WindowsServices<T>)
        ensures
            s.capabilities == windows_capabilities(true, false),
            s.translation == Some(translation),
    {
        Self::services(Some(translation), false)
    }

    /// Builds Windows services with capabilities controlled by development configuration.
    pub fn configured<T>(translation: Option<T>, screenshot_ocr: bool) -> (s: WindowsServices<T>)
        ensures
            s.capabilities == windows_capabilities(translation is Some, screenshot_ocr),
            s.translation == translation,
    {
        Self::services(translation, screenshot_ocr)
    }

    fn services<T>(translation: Option<T>, screenshot_ocr: bool) -> (s: WindowsServices<T>)
        ensures
            s.capabilities == windows_capabilities(translation is Some, screenshot_ocr),
            s.translation == translation,
    {
        let translation_enabled = translation.is_some();
        WindowsServices {
            capabilities: PlatformCapabilities {
                selection_capture: true,
                selection_bounds: true,
                screenshot_ocr,
                translation: translation_enabled,
                non_activating_window: false,
            },
            translation,
            permissions: UnsupportedPermissionProvider,
            window: UnsupportedWindowProvider,
        }
    }
}

} // verus!
