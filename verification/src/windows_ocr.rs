//! Decisions of the Windows OCR provider that do not touch the native APIs:
//! which recognizer language serves a request, the installation hint when none
//! does, and content-free diagnostics.

use vstd::prelude::*;
use crate::text::{ascii_lower, chars_of, concat, decimal, decimal_text, eq_ignore_ascii_case, text_eq_ignore_ascii_case, text_of, to_ascii_lowercase};

verus! {

pub open spec fn tag_separator(c: char) -> bool {
    c == '-' || c == '_'
}

/// `k` is where the first segment of a language tag ends.
pub open spec fn segment_end(t: Seq<char>, k: int) -> bool {
    &&& 0 <= k <= t.len()
    &&& forall|j: int| 0 <= j < k ==> !tag_separator(#[trigger] t[j])
    &&& (k == t.len() || tag_separator(t[k]))
}

/// The first segment of a language tag (before any `-` or `_`).
pub open spec fn first_segment(t: Seq<char>) -> Seq<char> {
    t.take(choose|k: int| segment_end(t, k))
}

/// The language of a tag: its first segment, ASCII lowercase.
pub open spec fn base_language(t: Seq<char>) -> Seq<char> {
    ascii_lower(first_segment(t))
}

proof fn lemma_segment_end_unique(t: Seq<char>, a: int, b: int)
    requires
        segment_end(t, a),
        segment_end(t, b),
    ensures
        a == b,
{
    if a < b {
        assert(!tag_separator(t[a]));
    } else if b < a {
        assert(!tag_separator(t[b]));
    }
}

/// The first segment of a language tag.
pub fn first_tag_segment(tag: &str) -> (r: String)
    ensures
        r@ == first_segment(tag@),
{
    let t = chars_of(tag);
    let n = t.len();
    let mut k: usize = 0;
    let mut found = false;
    while !found && k < n
        invariant
            n == t@.len(),
            k <= n,
            found ==> k < n && tag_separator(t@[k as int]),
            forall|j: int| 0 <= j < k ==> !tag_separator(#[trigger] t@[j]),
        decreases n - k + (if found { 0int } else { 1int }),
    {
        if t[k] == '-' || t[k] == '_' {
            found = true;
        } else {
            k = k + 1;
        }
    }
    proof {
        assert(segment_end(t@, k as int));
        let c = choose|c: int| segment_end(t@, c);
        lemma_segment_end_unique(t@, k as int, c);
    }
    text_of(&t, 0, k)
}

/// The language of a tag.
pub fn tag_base(tag: &str) -> (r: String)
    ensures
        r@ == base_language(tag@),
{
    let seg = first_tag_segment(tag);
    to_ascii_lowercase(seg.as_str())
}

/// The recognizer that serves a requested language: an exact tag match
/// (ignoring ASCII case) wins; otherwise the first tag with the same base
/// language; otherwise none.
pub open spec fn ocr_language_choice(requested: Seq<char>, available: Seq<Seq<char>>, r: Option<usize>) -> bool {
    let exact = exists|i: int| 0 <= i < available.len() && eq_ignore_ascii_case(#[trigger] available[i], requested);
    let same_base = exists|i: int| 0 <= i < available.len() && #[trigger] base_language(available[i]) == base_language(requested);
    match r {
        Some(i) => {
            &&& i < available.len()
            &&& if exact {
                &&& eq_ignore_ascii_case(available[i as int], requested)
                &&& forall|j: int| 0 <= j < i ==> !eq_ignore_ascii_case(#[trigger] available[j], requested)
            } else {
                &&& base_language(available[i as int]) == base_language(requested)
                &&& forall|j: int| 0 <= j < i ==> #[trigger] base_language(available[j]) != base_language(requested)
            }
        },
        None => !exact && !same_base,
    }
}

pub open spec fn texts_view(v: Seq<String>) -> Seq<Seq<char>> {
    v.map_values(|s: String| s@)
}

/// Selects the installed OCR recognizer for the requested source language.
pub fn select_ocr_language(requested: &str, available: &[String]) -> (r: Option<usize>)
    ensures
        ocr_language_choice(requested@, texts_view(available@), r),
{
    let ghost av = texts_view(available@);
    let n = available.len();
    let mut i: usize = 0;
    while i < n
        invariant
            n == available@.len(),
            av == texts_view(available@),
            i <= n,
            forall|j: int| 0 <= j < i ==> !eq_ignore_ascii_case(#[trigger] av[j], requested@),
        decreases n - i,
    {
        if text_eq_ignore_ascii_case(available[i].as_str(), requested) {
            return Some(i);
        }
        i = i + 1;
    }
    let wanted = tag_base(requested);
    let mut i: usize = 0;
    while i < n
        invariant
            n == available@.len(),
            av == texts_view(available@),
            i <= n,
            wanted@ == base_language(requested@),
            forall|j: int| 0 <= j < n ==> !eq_ignore_ascii_case(#[trigger] av[j], requested@),
            forall|j: int| 0 <= j < i ==> #[trigger] base_language(av[j]) != base_language(requested@),
        decreases n - i,
    {
        let b = tag_base(available[i].as_str());
        if b == wanted {
            return Some(i);
        }
        i = i + 1;
    }
    None
}

/// The language named in the installation hint.
pub open spec fn hint_language(requested: Seq<char>) -> Seq<char> {
    if eq_ignore_ascii_case(first_segment(requested), "en"@) { "English"@ } else { requested }
}

/// The message shown when no OCR recognizer serves the requested language.
pub open spec fn missing_language_message(requested: Seq<char>) -> Seq<char> {
    hint_language(requested) + " OCR language pack is not installed. Open Windows language settings, add "@
        + hint_language(requested)
        + " and install its Optical Character Recognition (OCR) feature, then try again."@
}

pub fn missing_ocr_language_message(requested: &str) -> (m: String)
    ensures
        m@ == missing_language_message(requested@),
{
    let seg = first_tag_segment(requested);
    let language = if text_eq_ignore_ascii_case(seg.as_str(), "en") {
        String::from_str("English")
    } else {
        String::from_str(requested)
    };
    let mut m = concat(language.as_str(), " OCR language pack is not installed. Open Windows language settings, add ");
    m.append(language.as_str());
    m.append(" and install its Optical Character Recognition (OCR) feature, then try again.");
    m
}

/// The factor by which a short crop is enlarged before recognition: crops
/// under 64 pixels high are scaled up to three times, as far as the
/// recognizer's maximum image dimension allows, and never below 1.
pub open spec fn upscale_factor(width: u32, height: u32, max: u32) -> u32 {
    if height < 64 {
        let f = if 3 <= max / width { 3 } else { max / width };
        let g = if f <= max / height { f } else { max / height };
        if g >= 1 { g as u32 } else { 1 }
    } else {
        1
    }
}

pub fn ocr_upscale(width: u32, height: u32, max: u32) -> (f: u32)
    requires
        width > 0,
        height > 0,
    ensures
        f == upscale_factor(width, height, max),
        1 <= f <= 3,
{
    if height < 64 {
        let f = if 3 <= max / width { 3 } else { max / width };
        let g = if f <= max / height { f } else { max / height };
        if g >= 1 { g } else { 1 }
    } else {
        1
    }
}

/// A crop rectangle in frame pixels.
#[derive(Clone, Copy, Debug, PartialEq, Eq, Structural)]
pub struct PixelCrop {
    pub x: u32,
    pub y: u32,
    pub width: u32,
    pub height: u32,
}

/// The crop moved and shrunk into a frame of the given size: the origin
/// stays inside the frame and the crop is at least one pixel wide and high.
pub open spec fn clamped_crop(c: PixelCrop, frame_width: u32, frame_height: u32) -> PixelCrop {
    let max_x = if frame_width == 0 { 0 } else { frame_width - 1 };
    let max_y = if frame_height == 0 { 0 } else { frame_height - 1 };
    let x = if c.x <= max_x { c.x } else { max_x as u32 };
    let y = if c.y <= max_y { c.y } else { max_y as u32 };
    let room_x = if frame_width >= x { frame_width - x } else { 0 };
    let room_y = if frame_height >= y { frame_height - y } else { 0 };
    let w = if c.width <= room_x { c.width } else { room_x as u32 };
    let h = if c.height <= room_y { c.height } else { room_y as u32 };
    PixelCrop { x: x as u32, y: y as u32, width: if w >= 1 { w as u32 } else { 1 }, height: if h >= 1 { h as u32 } else { 1 } }
}

pub fn clamp_crop(crop: PixelCrop, frame_width: u32, frame_height: u32) -> (r: PixelCrop)
    ensures
        r == clamped_crop(crop, frame_width, frame_height),
        frame_width > 0 ==> r.x + r.width <= frame_width,
        frame_height > 0 ==> r.y + r.height <= frame_height,
{
    let x = if crop.x <= frame_width.saturating_sub(1) { crop.x } else { frame_width.saturating_sub(1) };
    let y = if crop.y <= frame_height.saturating_sub(1) { crop.y } else { frame_height.saturating_sub(1) };
    let room_x = frame_width.saturating_sub(x);
    let room_y = frame_height.saturating_sub(y);
    let w = if crop.width <= room_x { crop.width } else { room_x };
    let h = if crop.height <= room_y { crop.height } else { room_y };
    PixelCrop { x, y, width: if w >= 1 { w } else { 1 }, height: if h >= 1 { h } else { 1 } }
}

/// How the OCR engine is chosen for a requested language.
#[derive(Debug, PartialEq, Eq)]
pub enum OcrEngineChoice {
    /// Automatic source detection: the Windows profile languages decide.
    UserProfile,
    /// The installed recognizer at this index of the available tags.
    Recognizer(usize),
    /// No installed recognizer serves the language.
    Missing(crate::platform::PlatformError),
}

/// Chooses the OCR engine: `auto` (in any ASCII case) keeps the profile
/// choice; otherwise the recognizer of [`select_ocr_language`], or the
/// installation hint when there is none.
pub fn ocr_engine_choice(requested: &str, available: &[String]) -> (r: OcrEngineChoice)
    ensures
        eq_ignore_ascii_case(requested@, "auto"@) ==> r == OcrEngineChoice::UserProfile,
        !eq_ignore_ascii_case(requested@, "auto"@) ==> match r {
            OcrEngineChoice::Recognizer(i) => ocr_language_choice(requested@, texts_view(available@), Some(i)),
            OcrEngineChoice::Missing(e) => ocr_language_choice(requested@, texts_view(available@), None)
                && e@ == crate::platform::PlatformErrorView::Operation(missing_language_message(requested@)),
            OcrEngineChoice::UserProfile => false,
        },
{
    if text_eq_ignore_ascii_case(requested, "auto") {
        return OcrEngineChoice::UserProfile;
    }
    match select_ocr_language(requested, available) {
        Some(i) => OcrEngineChoice::Recognizer(i),
        None => {
            let m = missing_ocr_language_message(requested);
            OcrEngineChoice::Missing(crate::platform::PlatformError::Operation(m))
        },
    }
}

/// Content-free diagnostics of one OCR recognition.
pub struct OcrDiagnostics {
    pub region_width: u32,
    pub region_height: u32,
    pub candidate_count: usize,
}

impl OcrDiagnostics {
    pub open spec fn line(&self) -> Seq<char> {
        "windows_ocr region_width="@ + decimal(self.region_width as nat) + " region_height="@
            + decimal(self.region_height as nat) + " candidate_count="@ + decimal(self.candidate_count as nat)
    }

    /// The one-line diagnostic: only sizes and counts, never recognized text.
    pub fn to_line(&self) -> (r: String)
        ensures
            r@ == self.line(),
    {
        let mut line = String::from_str("windows_ocr region_width=");
        let t = decimal_text(self.region_width as u64);
        line.append(t.as_str());
        line.append(" region_height=");
        let t = decimal_text(self.region_height as u64);
        line.append(t.as_str());
        line.append(" candidate_count=");
        let t = decimal_text(self.candidate_count as u64);
        line.append(t.as_str());
        line
    }
}

} // verus!
