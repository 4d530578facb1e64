//! What a capture hands to the store.

use vstd::prelude::*;
use crate::domain::CaptureOrigin;

verus! {

/// A capture of a word in context, as the capture window submits it.
#[derive(Debug)]
pub struct CaptureRecord {
    pub selected_text: String,
    pub lemma: String,
    pub sentence: String,
    pub source_language: String,
    pub target_language: String,
    pub translation: Option<String>,
    pub part_of_speech: Option<String>,
    pub source_app: Option<String>,
    pub source_title: Option<String>,
    pub source_url: Option<String>,
    pub capture_origin: CaptureOrigin,
    pub captured_at: i64,
}

} // verus!
