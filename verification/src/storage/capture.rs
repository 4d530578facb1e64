//! What a capture stores: the Vocabulary Item it joins or creates, the new
//! Encounter, and the rules that guard Achieved items and stale restores.

use vstd::prelude::*;
use crate::domain::{copy_text, Encounter, OwnerScope, RepositoryError, RepositoryErrorView, ReviewState, SavedTranslation, Word, WordStatus};
use crate::storage::identity::{normalize_language, normalize_lemma, normalized};
use crate::storage::record::CaptureRecord;
use crate::storage::translations::{apply_saved_translation, saved_translation};
use crate::text::{trim, trimmed};

verus! {

/// The version field of a UUID given as its 128-bit big-endian value.
pub open spec fn uuid_version(id: u128) -> u128 {
    (id >> 76u128) & 0xfu128
}

/// Calls `uuid::Uuid::now_v7()`: a fresh time-ordered identifier. Its value
/// depends on the clock and on chance; only its version is stated.
#[verifier::external_body]
pub(crate) fn new_id() -> (id: u128)
    ensures
        uuid_version(id) == 7,
{
    uuid::Uuid::now_v7().as_u128()
}

/// Restoring an Achieved item must capture into the very item that the user
/// confirmed; anything else means the item changed since the notice.
pub fn check_expected(expected: Option<u128>, current: &Option<Word>) -> (r: Result<(), RepositoryError>)
    ensures
        match expected {
            None => r is Ok,
            Some(id) => match current {
                Some(w) => if w.id == id { r is Ok } else { r is Err && r->Err_0@ == RepositoryErrorView::Persistence(
                    "Vocabulary Item changed; recheck the capture before saving"@) },
                None => r is Err && r->Err_0@ == RepositoryErrorView::Persistence(
                    "Vocabulary Item changed; recheck the capture before saving"@),
            },
        },
{
    match expected {
        None => Ok(()),
        Some(id) => match current {
            Some(w) => if w.id == id {
                Ok(())
            } else {
                Err(RepositoryError::persistence("Vocabulary Item changed; recheck the capture before saving"))
            },
            None => Err(RepositoryError::persistence("Vocabulary Item changed; recheck the capture before saving")),
        },
    }
}

/// A new item for a capture: a guest Learning item with the normalized lemma
/// and languages, the trimmed selection as display form, due for review at
/// capture time.
pub open spec fn fresh_word(w: Word, input: CaptureRecord) -> bool {
    &&& uuid_version(w.id) == 7
    &&& w.owner_scope == OwnerScope::Guest
    &&& w.lemma@ == normalized(input.lemma@)
    &&& w.display_form@ == trimmed(input.selected_text@)
    &&& w.source_language@ == normalized(input.source_language@)
    &&& w.target_language@ == normalized(input.target_language@)
    &&& w.translation == input.translation
    &&& w.part_of_speech == input.part_of_speech
    &&& w.status == WordStatus::Learning
    &&& w.created_at == input.captured_at
    &&& w.updated_at == input.captured_at
    &&& w.deleted_at is None
    &&& w.mastered_at is None
    &&& w.achieved_at is None
    &&& w.delete_after is None
    &&& w.review_state == Some(ReviewState { due_at: input.captured_at })
}

/// A capture of an Achieved item brings it back to Learning, due at once.
pub open spec fn revived(w: Word, t: i64) -> Word {
    if w.achieved() {
        Word {
            status: WordStatus::Learning,
            mastered_at: None,
            achieved_at: None,
            delete_after: None,
            updated_at: t,
            review_state: Some(ReviewState { due_at: t }),
            ..w
        }
    } else {
        w
    }
}

/// The item after a saved translation (if any) was applied.
pub open spec fn with_translation(w: Word, value: Option<SavedTranslation>, t: i64) -> Word {
    match value {
        Some(v) => Word { target_language: v.target_language, translation: Some(v.text), updated_at: t, ..w },
        None => w,
    }
}

/// The new Encounter of a capture (before a translation snapshot is added).
pub open spec fn fresh_encounter(e: Encounter, input: CaptureRecord, word_id: u128) -> bool {
    &&& uuid_version(e.id) == 7
    &&& e.word_id == word_id
    &&& e.selected_text@ == trimmed(input.selected_text@)
    &&& e.sentence == input.sentence
    &&& e.source_app == input.source_app
    &&& e.source_title == input.source_title
    &&& e.source_url == input.source_url
    &&& e.capture_origin == input.capture_origin
    &&& e.captured_at == input.captured_at
    &&& e.updated_at == input.captured_at
    &&& e.deleted_at is None
}

/// What a capture writes.
pub struct StoredCapture {
    pub word: Word,
    pub encounter: Encounter,
    pub is_existing_word: bool,
}

fn fresh(input: &CaptureRecord) -> (w: Word)
    ensures
        fresh_word(w, *input),
{
    Word {
        id: new_id(),
        owner_scope: OwnerScope::Guest,
        lemma: normalize_lemma(input.lemma.as_str()),
        display_form: trim(input.selected_text.as_str()),
        source_language: normalize_language(input.source_language.as_str()),
        target_language: normalize_language(input.target_language.as_str()),
        translation: copy_text(&input.translation),
        part_of_speech: copy_text(&input.part_of_speech),
        status: WordStatus::Learning,
        created_at: input.captured_at,
        updated_at: input.captured_at,
        deleted_at: None,
        mastered_at: None,
        achieved_at: None,
        delete_after: None,
        review_state: Some(ReviewState::initial(input.captured_at)),
    }
}

/// Prepares a capture into `existing` (the item the capture resolved to, if
/// any). A plain capture never silently revives an Achieved item; a restore
/// (`restoring`) does, bringing it back to Learning.
pub fn prepare_capture(input: &CaptureRecord, restoring: bool, existing: Option<Word>, saved_at: i64) -> (r: Result<StoredCapture, RepositoryError>)
    ensures
        (!restoring && (existing matches Some(e) && e.achieved())) ==> r is Err && r->Err_0@ == RepositoryErrorView::Achieved,
        !(!restoring && (existing matches Some(e) && e.achieved())) ==> r is Ok && {
            let p = r->Ok_0;
            &&& p.is_existing_word == existing is Some
            &&& exists|base: Word| #[trigger] revived(base, input.captured_at) == revived(base, input.captured_at)
                && (match existing { Some(e) => base == e, None => fresh_word(base, *input) })
                && p.word == with_translation(revived(base, input.captured_at), p.encounter.saved_translation, input.captured_at)
                && fresh_encounter(p.encounter, *input, base.id)
            &&& match input.translation {
                None => p.encounter.saved_translation is None,
                Some(t) => if trimmed(t@).len() == 0 { p.encounter.saved_translation is None } else {
                    p.encounter.saved_translation is Some && p.encounter.saved_translation->Some_0.text@ == trimmed(t@)
                        && p.encounter.saved_translation->Some_0.target_language@ == normalized(input.target_language@)
                        && p.encounter.saved_translation->Some_0.saved_at == saved_at
                },
            }
        },
{
    if !restoring {
        if let Some(e) = &existing {
            if e.is_achieved() {
                return Err(RepositoryError::Achieved);
            }
        }
    }
    let is_existing_word = existing.is_some();
    let mut word = match existing {
        Some(e) => e,
        None => fresh(input),
    };
    let ghost base = word;
    if word.is_achieved() {
        word.unmaster(input.captured_at, WordStatus::Learning);
        word.review_state = Some(ReviewState::initial(input.captured_at));
    }
    assert(word == revived(base, input.captured_at));
    let mut encounter = Encounter {
        id: new_id(),
        word_id: word.id,
        selected_text: trim(input.selected_text.as_str()),
        sentence: input.sentence.clone(),
        source_app: copy_text(&input.source_app),
        source_title: copy_text(&input.source_title),
        source_url: copy_text(&input.source_url),
        capture_origin: input.capture_origin,
        saved_translation: None,
        captured_at: input.captured_at,
        updated_at: input.captured_at,
        deleted_at: None,
    };
    let value = saved_translation(input, saved_at);
    match value {
        Some(v) => {
            apply_saved_translation(&mut word, &mut encounter, v, input.captured_at);
        },
        None => {},
    }
    Ok(StoredCapture { word, encounter, is_existing_word })
}

} // verus!
