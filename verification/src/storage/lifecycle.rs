//! Lifecycle operations on Vocabulary Items: learning-status changes and
//! their Undo, returning Achieved items, and permanent deletion of Achieved
//! items into the lifetime archive.

use vstd::prelude::*;
use crate::domain::{RepositoryError, RepositoryErrorView, ReviewState, Word, WordStatus};

verus! {

/// What a learning-status Undo puts back.
#[derive(Clone, Copy, Debug, PartialEq, Eq, Structural)]
pub struct LearningSnapshot {
    pub status: WordStatus,
    pub review_state: Option<ReviewState>,
    pub mastered_at: Option<i64>,
}

pub open spec fn snapshot_of(w: Word) -> LearningSnapshot {
    LearningSnapshot { status: w.status, review_state: w.review_state, mastered_at: w.mastered_at }
}

/// The learning state of `word`, kept for an Undo.
pub fn snapshot(word: &Word) -> (s: LearningSnapshot)
    ensures
        s == snapshot_of(*word),
{
    LearningSnapshot { status: word.status, review_state: word.review_state, mastered_at: word.mastered_at }
}

/// The item whose learning status may change: a live item that is not
/// Achieved.
pub fn learning_status_target(word: Option<Word>) -> (r: Result<Word, RepositoryError>)
    ensures
        match word {
            None => r is Err && r->Err_0@ == RepositoryErrorView::NotFound,
            Some(w) => if w.deleted_at is Some {
                r is Err && r->Err_0@ == RepositoryErrorView::NotFound
            } else if w.achieved() {
                r is Err && r->Err_0@ == RepositoryErrorView::Achieved
            } else {
                r == Ok::<Word, RepositoryError>(w)
            },
        },
{
    match word {
        None => Err(RepositoryError::NotFound),
        Some(w) => if w.deleted_at.is_some() {
            Err(RepositoryError::NotFound)
        } else if w.is_achieved() {
            Err(RepositoryError::Achieved)
        } else {
            Ok(w)
        },
    }
}

/// An item moved to `status` at `now`: it is Mastered since `now` exactly
/// when `status` is Mastered.
pub open spec fn with_status(w: Word, status: WordStatus, now: i64) -> Word {
    Word {
        status: status,
        mastered_at: if status == WordStatus::Mastered { Some(now) } else { None },
        updated_at: now,
        ..w
    }
}

/// Moves the item to `status`; says whether anything changed (a change to the
/// status it already has changes nothing).
pub fn change_learning_status(word: &mut Word, status: WordStatus, now: i64) -> (changed: bool)
    ensures
        changed == (old(word).status != status),
        changed ==> *final(word) == with_status(*old(word), status, now),
        !changed ==> *final(word) == *old(word),
{
    if word.status == status {
        return false;
    }
    word.status = status;
    word.mastered_at = if status == WordStatus::Mastered { Some(now) } else { None };
    word.updated_at = now;
    true
}

/// A learning-status Undo is owed only while the item has not changed since
/// (`revisions` holds the revision saved with the Undo and the current one).
pub fn check_learning_undo(revisions: Option<(i64, i64)>) -> (r: Result<(), RepositoryError>)
    ensures
        r is Ok <==> (revisions matches Some(p) && p.0 == p.1),
        r is Err ==> r->Err_0@ == RepositoryErrorView::StaleLearningStatusUndo,
{
    match revisions {
        Some((saved, current)) => if saved == current {
            Ok(())
        } else {
            Err(RepositoryError::StaleLearningStatusUndo)
        },
        None => Err(RepositoryError::StaleLearningStatusUndo),
    }
}

/// The item an Undo applies to: it must still be live and not Achieved.
pub fn learning_undo_target(word: Option<Word>) -> (r: Result<Word, RepositoryError>)
    ensures
        match word {
            Some(w) => if w.deleted_at is None && !w.achieved() {
                r == Ok::<Word, RepositoryError>(w)
            } else {
                r is Err && r->Err_0@ == RepositoryErrorView::StaleLearningStatusUndo
            },
            None => r is Err && r->Err_0@ == RepositoryErrorView::StaleLearningStatusUndo,
        },
{
    match word {
        Some(w) => if w.deleted_at.is_none() && !w.is_achieved() {
            Ok(w)
        } else {
            Err(RepositoryError::StaleLearningStatusUndo)
        },
        None => Err(RepositoryError::StaleLearningStatusUndo),
    }
}

/// An item with a learning state put back at `now`.
pub open spec fn restored(w: Word, s: LearningSnapshot, now: i64) -> Word {
    Word { status: s.status, review_state: s.review_state, mastered_at: s.mastered_at, updated_at: now, ..w }
}

/// Puts back the learning state kept in `before`.
pub fn restore_learning_state(word: &mut Word, before: &LearningSnapshot, now: i64)
    ensures
        *final(word) == restored(*old(word), *before, now),
{
    word.status = before.status;
    word.review_state = before.review_state;
    word.mastered_at = before.mastered_at;
    word.updated_at = now;
}

/// Undo after a learning-status change gives the item back its status,
/// review schedule and mastery date; every other field but the update time
/// is as before the change.
pub proof fn undo_restores_learning_state(w: Word, status: WordStatus, changed_at: i64, undone_at: i64)
    ensures
        ({
            let back = restored(with_status(w, status, changed_at), snapshot_of(w), undone_at);
            back == Word { updated_at: undone_at, ..w }
        }),
{
}

/// Returning an Achieved item: it stays Mastered but leaves the deletion
/// schedule.
pub open spec fn unachieved(w: Word, now: i64) -> Word {
    Word { achieved_at: None, delete_after: None, updated_at: now, ..w }
}

/// Takes every item back out of Achieved, checking all of them first: a
/// missing item gives NotFound and an item that is not Achieved is refused,
/// and then nothing changes.
pub fn unachieve_words(words: &Vec<Option<Word>>, now: i64) -> (r: Result<Vec<Word>, RepositoryError>)
    ensures
        r is Ok <==> (forall|i: int| 0 <= i < words@.len() ==> #[trigger] deletable(words@[i])),
        r matches Ok(v) ==> v@.len() == words@.len()
            && forall|i: int| 0 <= i < words@.len() ==> #[trigger] v@[i] == unachieved(words@[i]->Some_0, now),
        r is Err ==> first_refusal(words@, r->Err_0, "Vocabulary Item is not Achieved"@),
{
    let mut out: Vec<Word> = Vec::new();
    let mut k: usize = 0;
    while k < words.len()
        invariant
            k <= words@.len(),
            out@.len() == k,
            forall|i: int| 0 <= i < k ==> #[trigger] deletable(words@[i]),
            forall|i: int| 0 <= i < k ==> #[trigger] out@[i] == unachieved(words@[i]->Some_0, now),
        decreases words.len() - k,
    {
        match &words[k] {
            None => {
                assert(!deletable(words@[k as int]));
                return Err(RepositoryError::NotFound);
            },
            Some(w) => {
                if !w.is_achieved() {
                    assert(!deletable(words@[k as int]));
                    return Err(RepositoryError::persistence("Vocabulary Item is not Achieved"));
                }
                let mut back = w.duplicate();
                back.achieved_at = None;
                back.delete_after = None;
                back.updated_at = now;
                out.push(back);
            },
        }
        k = k + 1;
    }
    Ok(out)
}

/// An item that exists and is Achieved.
pub open spec fn deletable(o: Option<Word>) -> bool {
    o matches Some(w) && w.achieved()
}

/// `e` is the error for the first item that is not Achieved: NotFound for a
/// missing item, a Persistence error with `message` for a live one.
pub open spec fn first_refusal(s: Seq<Option<Word>>, e: RepositoryError, message: Seq<char>) -> bool {
    exists|k: int|
        0 <= k < s.len() && !deletable(#[trigger] s[k]) && (forall|j: int| 0 <= j < k ==> deletable(s[j]))
            && if s[k] is None { e@ == RepositoryErrorView::NotFound } else { e@ == RepositoryErrorView::Persistence(message) }
}

/// Permanent deletion is only for Achieved items; all of them are checked
/// before anything is deleted.
pub fn check_deletable(words: &Vec<Option<Word>>) -> (r: Result<(), RepositoryError>)
    ensures
        r is Ok <==> (forall|i: int| 0 <= i < words@.len() ==> #[trigger] deletable(words@[i])),
        r is Err ==> first_refusal(words@, r->Err_0, "only Achieved Vocabulary Items can be permanently deleted"@),
{
    let mut k: usize = 0;
    while k < words.len()
        invariant
            k <= words@.len(),
            forall|i: int| 0 <= i < k ==> #[trigger] deletable(words@[i]),
        decreases words.len() - k,
    {
        match &words[k] {
            None => {
                assert(!deletable(words@[k as int]));
                return Err(RepositoryError::NotFound);
            },
            Some(w) => {
                if !w.is_achieved() {
                    assert(!deletable(words@[k as int]));
                    return Err(RepositoryError::persistence("only Achieved Vocabulary Items can be permanently deleted"));
                }
            },
        }
        k = k + 1;
    }
    Ok(())
}

/// Totals kept of permanently deleted Vocabulary Items.
#[derive(Clone, Copy, Debug, PartialEq, Eq, Structural)]
pub struct LifetimeArchive {
    pub vocabulary_count: i64,
    pub encounter_count: i64,
    pub review_count: i64,
    pub remembered_count: i64,
    pub forgotten_count: i64,
    pub rating_breakdown_complete: bool,
}

/// What one deleted item had.
#[derive(Clone, Copy, Debug, PartialEq, Eq, Structural)]
pub struct DeletedCounts {
    pub encounters: i64,
    pub reviews: i64,
    pub remembered: i64,
    pub forgotten: i64,
}

/// The archive after one more item was deleted (a first deletion starts
/// from zero with a complete rating breakdown).
pub open spec fn archived(a: Option<LifetimeArchive>, c: DeletedCounts) -> LifetimeArchive {
    match a {
        None => LifetimeArchive {
            vocabulary_count: 1,
            encounter_count: c.encounters,
            review_count: c.reviews,
            remembered_count: c.remembered,
            forgotten_count: c.forgotten,
            rating_breakdown_complete: true,
        },
        Some(a) => LifetimeArchive {
            vocabulary_count: (a.vocabulary_count + 1) as i64,
            encounter_count: (a.encounter_count + c.encounters) as i64,
            review_count: (a.review_count + c.reviews) as i64,
            remembered_count: (a.remembered_count + c.remembered) as i64,
            forgotten_count: (a.forgotten_count + c.forgotten) as i64,
            rating_breakdown_complete: a.rating_breakdown_complete,
        },
    }
}

/// Whether the sums of `archived` fit the archive's 64-bit columns.
pub open spec fn archive_fits(a: Option<LifetimeArchive>, c: DeletedCounts) -> bool {
    match a {
        None => true,
        Some(a) => {
            &&& i64::MIN <= a.vocabulary_count + 1 <= i64::MAX
            &&& i64::MIN <= a.encounter_count + c.encounters <= i64::MAX
            &&& i64::MIN <= a.review_count + c.reviews <= i64::MAX
            &&& i64::MIN <= a.remembered_count + c.remembered <= i64::MAX
            &&& i64::MIN <= a.forgotten_count + c.forgotten <= i64::MAX
        },
    }
}

/// Adds a deleted item to the archive.
pub fn archive_deleted(archive: Option<LifetimeArchive>, counts: DeletedCounts) -> (a: LifetimeArchive)
    requires
        archive_fits(archive, counts),
    ensures
        a == archived(archive, counts),
{
    match archive {
        None => LifetimeArchive {
            vocabulary_count: 1,
            encounter_count: counts.encounters,
            review_count: counts.reviews,
            remembered_count: counts.remembered,
            forgotten_count: counts.forgotten,
            rating_breakdown_complete: true,
        },
        Some(a) => LifetimeArchive {
            vocabulary_count: a.vocabulary_count + 1,
            encounter_count: a.encounter_count + counts.encounters,
            review_count: a.review_count + counts.reviews,
            remembered_count: a.remembered_count + counts.remembered,
            forgotten_count: a.forgotten_count + counts.forgotten,
            rating_breakdown_complete: a.rating_breakdown_complete,
        },
    }
}

/// The totals before a deletion: the archive's, or zero (with a complete
/// rating breakdown) before the first one.
pub open spec fn totals_before(archive: Option<LifetimeArchive>) -> LifetimeArchive {
    match archive {
        Some(a) => a,
        None => LifetimeArchive {
            vocabulary_count: 0,
            encounter_count: 0,
            review_count: 0,
            remembered_count: 0,
            forgotten_count: 0,
            rating_breakdown_complete: true,
        },
    }
}

/// Deleting an item adds it to the archive: the item count grows by one and
/// every other total by exactly the deleted item's count (its Encounters,
/// reviews, and remembered and forgotten reviews); whether the rating
/// breakdown is complete does not change.
pub proof fn archiving_adds_the_deleted_items_counts(archive: Option<LifetimeArchive>, counts: DeletedCounts, after: LifetimeArchive)
    requires
        archive_fits(archive, counts),
        after == archived(archive, counts),
    ensures
        after.vocabulary_count == totals_before(archive).vocabulary_count + 1,
        after.encounter_count == totals_before(archive).encounter_count + counts.encounters,
        after.review_count == totals_before(archive).review_count + counts.reviews,
        after.remembered_count == totals_before(archive).remembered_count + counts.remembered,
        after.forgotten_count == totals_before(archive).forgotten_count + counts.forgotten,
        after.rating_breakdown_complete == totals_before(archive).rating_breakdown_complete,
{
}

/// Two deletions in turn archive the sum of both items' counts.
pub proof fn archiving_accumulates(archive: Option<LifetimeArchive>, first: DeletedCounts, second: DeletedCounts)
    requires
        archive_fits(archive, first),
        archive_fits(Some(archived(archive, first)), second),
    ensures
        archived(Some(archived(archive, first)), second).remembered_count
            == totals_before(archive).remembered_count + first.remembered + second.remembered,
        archived(Some(archived(archive, first)), second).forgotten_count
            == totals_before(archive).forgotten_count + first.forgotten + second.forgotten,
        archived(Some(archived(archive, first)), second).review_count
            == totals_before(archive).review_count + first.reviews + second.reviews,
        archived(Some(archived(archive, first)), second).encounter_count
            == totals_before(archive).encounter_count + first.encounters + second.encounters,
        archived(Some(archived(archive, first)), second).vocabulary_count == totals_before(archive).vocabulary_count + 2,
{
}

/// A capture's Undo is owed only while the item has not changed since the
/// capture; `saved` holds the snapshot taken before the capture with the
/// revision saved then and the current revision. No snapshot means the
/// capture made no identity change to put back.
pub fn check_capture_undo<T>(saved: Option<(T, i64, i64)>) -> (r: Result<Option<T>, RepositoryError>)
    ensures
        match saved {
            None => r matches Ok(None),
            Some(p) => if p.1 != p.2 {
                r is Err && r->Err_0@ == RepositoryErrorView::Persistence(
                    "Cannot undo: this Vocabulary Item changed after the capture. No changes were undone."@)
            } else {
                r matches Ok(Some(b)) && b == p.0
            },
        },
{
    match saved {
        None => Ok(None),
        Some((before, expected, current)) => if expected != current {
            Err(RepositoryError::persistence("Cannot undo: this Vocabulary Item changed after the capture. No changes were undone."))
        } else {
            Ok(Some(before))
        },
    }
}

/// The outbox entity type whose queued payloads follow a remapped reference
/// in `table`, if any.
pub fn outbox_entity_type(table: &str) -> (r: Option<&'static str>)
    ensures
        table@ == "encounters"@ ==> r == Some("encounter"),
        table@ == "review_logs"@ ==> r == Some("review_log"),
        table@ != "encounters"@ && table@ != "review_logs"@ ==> r is None,
{
    proof {
        reveal_strlit("encounters");
        reveal_strlit("review_logs");
        assert("review_logs"@.len() != "encounters"@.len());
    }
    if crate::text::text_eq(table, "encounters") {
        Some("encounter")
    } else if crate::text::text_eq(table, "review_logs") {
        Some("review_log")
    } else {
        None
    }
}

} // verus!
