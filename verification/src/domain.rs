//! The vocabulary domain: Vocabulary Items (words), Encounters, saved
//! translations and the repository errors. Timestamps are microseconds since
//! the Unix epoch; identifiers are the 128-bit values of UUIDs.

use vstd::prelude::*;

verus! {

/// The learning state of a Vocabulary Item.
#[derive(Clone, Copy, Debug, PartialEq, Eq, Structural)]
pub enum WordStatus {
    Learning,
    Paused,
    Mastered,
}

/// Whose data a record is.
#[derive(Clone, Copy, Debug, PartialEq, Eq, Structural)]
pub enum OwnerScope {
    Guest,
    Account,
}

/// How an Encounter was captured.
#[derive(Clone, Copy, Debug, PartialEq, Eq, Structural)]
pub enum CaptureOrigin {
    Manual,
    Accessibility,
    Ocr,
}

/// The spaced-review schedule of a Vocabulary Item.
#[derive(Clone, Copy, Debug, PartialEq, Eq, Structural)]
pub struct ReviewState {
    pub due_at: i64,
}

impl ReviewState {
    /// A new schedule: the item is due at once.
    pub fn initial(now: i64) -> (s: ReviewState)
        ensures
            s.due_at == now,
    {
        ReviewState { due_at: now }
    }
}

/// A Vocabulary Item.
#[derive(Debug)]
pub struct Word {
    pub id: u128,
    pub owner_scope: OwnerScope,
    pub lemma: String,
    pub display_form: String,
    pub source_language: String,
    pub target_language: String,
    pub translation: Option<String>,
    pub part_of_speech: Option<String>,
    pub status: WordStatus,
    pub created_at: i64,
    pub updated_at: i64,
    pub deleted_at: Option<i64>,
    pub mastered_at: Option<i64>,
    pub achieved_at: Option<i64>,
    pub delete_after: Option<i64>,
    pub review_state: Option<ReviewState>,
}

/// A copy of an optional text.
pub fn copy_text(o: &Option<String>) -> (r: Option<String>)
    ensures
        r == *o,
{
    match o {
        Some(s) => Some(s.clone()),
        None => None,
    }
}

impl Word {
    /// An Achieved item has been retired with a deletion deadline.
    pub open spec fn achieved(&self) -> bool {
        self.achieved_at is Some && self.delete_after is Some
    }

    pub fn is_achieved(&self) -> (r: bool)
        ensures
            r == self.achieved(),
    {
        self.achieved_at.is_some() && self.delete_after.is_some()
    }

    /// An exact copy.
    pub fn duplicate(&self) -> (w: Word)
        ensures
            w == *self,
    {
        Word {
            id: self.id,
            owner_scope: self.owner_scope,
            lemma: self.lemma.clone(),
            display_form: self.display_form.clone(),
            source_language: self.source_language.clone(),
            target_language: self.target_language.clone(),
            translation: copy_text(&self.translation),
            part_of_speech: copy_text(&self.part_of_speech),
            status: self.status,
            created_at: self.created_at,
            updated_at: self.updated_at,
            deleted_at: self.deleted_at,
            mastered_at: self.mastered_at,
            achieved_at: self.achieved_at,
            delete_after: self.delete_after,
            review_state: self.review_state,
        }
    }

    /// Leaves the Mastered/Achieved lifecycle: the item returns to `status`
    /// with no mastery or retirement dates.
    pub fn unmaster(&mut self, now: i64, status: WordStatus)
        ensures
            final(self).status == status,
            final(self).mastered_at is None,
            final(self).achieved_at is None,
            final(self).delete_after is None,
            final(self).updated_at == now,
            final(self).id == old(self).id,
            final(self).owner_scope == old(self).owner_scope,
            final(self).lemma == old(self).lemma,
            final(self).display_form == old(self).display_form,
            final(self).source_language == old(self).source_language,
            final(self).target_language == old(self).target_language,
            final(self).translation == old(self).translation,
            final(self).part_of_speech == old(self).part_of_speech,
            final(self).created_at == old(self).created_at,
            final(self).deleted_at == old(self).deleted_at,
            final(self).review_state == old(self).review_state,
    {
        self.status = status;
        self.mastered_at = None;
        self.achieved_at = None;
        self.delete_after = None;
        self.updated_at = now;
    }
}

/// A translation saved with a capture.
#[derive(Debug)]
pub struct SavedTranslation {
    pub target_language: String,
    pub text: String,
    pub saved_at: i64,
}

impl SavedTranslation {
    pub fn duplicate(&self) -> (t: SavedTranslation)
        ensures
            t == *self,
    {
        SavedTranslation { target_language: self.target_language.clone(), text: self.text.clone(), saved_at: self.saved_at }
    }
}

/// One sighting of a Vocabulary Item in context.
#[derive(Debug)]
pub struct Encounter {
    pub id: u128,
    pub word_id: u128,
    pub selected_text: String,
    pub sentence: String,
    pub source_app: Option<String>,
    pub source_title: Option<String>,
    pub source_url: Option<String>,
    pub capture_origin: CaptureOrigin,
    pub saved_translation: Option<SavedTranslation>,
    pub captured_at: i64,
    pub updated_at: i64,
    pub deleted_at: Option<i64>,
}

/// Why a repository operation failed.
#[derive(Clone, Debug, PartialEq, Eq)]
pub enum RepositoryError {
    Persistence(String),
    NotFound,
    Achieved,
    StaleLearningStatusUndo,
}

pub enum RepositoryErrorView {
    Persistence(Seq<char>),
    NotFound,
    Achieved,
    StaleLearningStatusUndo,
}

impl View for RepositoryError {
    type V = RepositoryErrorView;

    open spec fn view(&self) -> RepositoryErrorView {
        match self {
            RepositoryError::Persistence(m) => RepositoryErrorView::Persistence(m@),
            RepositoryError::NotFound => RepositoryErrorView::NotFound,
            RepositoryError::Achieved => RepositoryErrorView::Achieved,
            RepositoryError::StaleLearningStatusUndo => RepositoryErrorView::StaleLearningStatusUndo,
        }
    }
}

impl RepositoryError {
    pub fn persistence(message: &str) -> (e: RepositoryError)
        ensures
            e@ == RepositoryErrorView::Persistence(message@),
    {
        RepositoryError::Persistence(String::from_str(message))
    }
}

} // verus!
