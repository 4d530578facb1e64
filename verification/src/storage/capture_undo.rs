//! A capture's Undo: what the capture changed is recorded before it runs.
//! Undo always soft-deletes the capture's Encounter; an item the capture
//! created stays as it is, while items the capture joined are written back and
//! their encounters, reviews and saved translations point at them again.

use vstd::prelude::*;
use crate::domain::Word;

verus! {

/// What a capture found before it ran: the items it joined (and merged), and
/// for each table the rows that pointed at them, as (row key, item id) texts.
pub struct BeforeCapture {
    pub words: Vec<Word>,
    pub encounters: Vec<(String, String)>,
    pub reviews: Vec<(String, String)>,
    pub translations: Vec<(String, String)>,
}

/// One row to point back at the item it belonged to before the capture:
/// `UPDATE {table} SET word_id = {word_id} WHERE {key_column} = {row}`.
/// `review_payload` says that the review's stored result names the item too;
/// `outbox_payload` that queued upserts of the row name it.
pub struct Repoint {
    pub table: &'static str,
    pub key_column: &'static str,
    pub row: String,
    pub word_id: String,
    pub review_payload: bool,
    pub outbox_payload: bool,
}

/// What an Undo does besides soft-deleting the Encounter.
pub enum CaptureUndoPlan {
    /// The capture created the item: it stays, unchanged and listed, and no
    /// change of it is queued.
    KeepItem,
    /// The capture joined existing items: the items are written back as they
    /// were, in their order, and then the rows are pointed back at them.
    Restore { words: Vec<Word>, repoints: Vec<Repoint> },
}

/// `m` points row `r.0` of `table` (keyed by `key`) back at item `r.1`.
pub open spec fn points_back(m: Repoint, table: Seq<char>, key: Seq<char>, r: (String, String)) -> bool {
    &&& m.table@ == table
    &&& m.key_column@ == key
    &&& m.row == r.0
    &&& m.word_id == r.1
    &&& m.review_payload == (table == "review_logs"@)
    &&& m.outbox_payload == (table != "translation_history"@)
}

/// `ms[start..start + refs.len()]` points each of `refs` back, in order.
pub open spec fn points_all_back(ms: Seq<Repoint>, start: int, table: Seq<char>, key: Seq<char>, refs: Seq<(String, String)>) -> bool {
    forall|i: int| 0 <= i < refs.len() ==> #[trigger] points_back(ms[start + i], table, key, refs[i])
}

/// The rows put back by an Undo: the encounters (by `id`), then the reviews
/// (by `id`), then the saved translations (by `event_id`), each at the item
/// it pointed at before the capture.
pub open spec fn repoints_all(ms: Seq<Repoint>, before: BeforeCapture) -> bool {
    let e = before.encounters@.len();
    let r = before.reviews@.len();
    let t = before.translations@.len();
    &&& ms.len() == e + r + t
    &&& points_all_back(ms, 0, "encounters"@, "id"@, before.encounters@)
    &&& points_all_back(ms, e as int, "review_logs"@, "id"@, before.reviews@)
    &&& points_all_back(ms, (e + r) as int, "translation_history"@, "event_id"@, before.translations@)
}

/// The Undo of a capture, from what was recorded before it.
pub open spec fn undoes(p: CaptureUndoPlan, before: BeforeCapture) -> bool {
    if before.words@.len() == 0 {
        p is KeepItem
    } else {
        &&& p matches CaptureUndoPlan::Restore { words, repoints }
        &&& words@ == before.words@
        &&& repoints_all(repoints@, before)
    }
}

fn push_repoints(
    ms: &mut Vec<Repoint>,
    table: &'static str,
    key_column: &'static str,
    refs: &Vec<(String, String)>,
)
    ensures
        final(ms)@.len() == old(ms)@.len() + refs@.len(),
        final(ms)@.subrange(0, old(ms)@.len() as int) == old(ms)@,
        points_all_back(final(ms)@, old(ms)@.len() as int, table@, key_column@, refs@),
{
    proof {
        reveal_strlit("review_logs");
        reveal_strlit("translation_history");
    }
    let review_payload = crate::text::text_eq(table, "review_logs");
    let outbox_payload = !crate::text::text_eq(table, "translation_history");
    let ghost start = ms@.len();
    let mut i: usize = 0;
    while i < refs.len()
        invariant
            i <= refs@.len(),
            ms@.len() == start + i,
            ms@.subrange(0, start as int) == old(ms)@,
            start == old(ms)@.len(),
            review_payload == (table@ == "review_logs"@),
            outbox_payload == (table@ != "translation_history"@),
            forall|j: int| 0 <= j < i ==> #[trigger] points_back(ms@[start + j], table@, key_column@, refs@[j]),
        decreases refs@.len() - i,
    {
        let m = Repoint {
            table,
            key_column,
            row: refs[i].0.clone(),
            word_id: refs[i].1.clone(),
            review_payload,
            outbox_payload,
        };
        ms.push(m);
        proof {
            assert(ms@.subrange(0, start as int) =~= old(ms)@);
            assert(points_back(ms@[start + i], table@, key_column@, refs@[i as int]));
        }
        i = i + 1;
    }
}

/// The Undo of a capture, from what was recorded before it: with nothing
/// joined, the item the capture created is kept as it is; otherwise the
/// recorded items come back unchanged (an Achieved item stays Achieved) and
/// every recorded encounter, review and saved translation points back at the
/// item it belonged to.
pub fn capture_undo_plan(before: BeforeCapture) -> (p: CaptureUndoPlan)
    ensures
        undoes(p, before),
{
    if before.words.len() == 0 {
        return CaptureUndoPlan::KeepItem;
    }
    proof {
        reveal_strlit("encounters");
        reveal_strlit("review_logs");
        reveal_strlit("translation_history");
        reveal_strlit("id");
        reveal_strlit("event_id");
    }
    let mut repoints: Vec<Repoint> = Vec::new();
    push_repoints(&mut repoints, "encounters", "id", &before.encounters);
    let ghost after_encounters = repoints@;
    push_repoints(&mut repoints, "review_logs", "id", &before.reviews);
    let ghost after_reviews = repoints@;
    push_repoints(&mut repoints, "translation_history", "event_id", &before.translations);
    proof {
        let e = before.encounters@.len();
        let r = before.reviews@.len();
        assert forall|i: int| 0 <= i < e implies #[trigger] points_back(repoints@[0 + i], "encounters"@, "id"@, before.encounters@[i]) by {
            assert(after_encounters[0 + i] == after_reviews[0 + i]);
            assert(after_reviews[0 + i] == repoints@[0 + i]);
        }
        assert forall|i: int| 0 <= i < r implies #[trigger] points_back(repoints@[e + i], "review_logs"@, "id"@, before.reviews@[i]) by {
            assert(after_reviews[e + i] == repoints@[e + i]);
        }
    }
    CaptureUndoPlan::Restore { words: before.words, repoints }
}

/// Undo puts back what the capture changed: with nothing joined, the
/// created item is left alone; otherwise every recorded item comes back
/// exactly as it was, and every recorded row is pointed back at the item it
/// belonged to.
pub proof fn undo_restores_what_the_capture_changed(p: CaptureUndoPlan, before: BeforeCapture)
    requires
        undoes(p, before),
    ensures
        before.words@.len() == 0 ==> p is KeepItem,
        before.words@.len() > 0 ==> (p matches CaptureUndoPlan::Restore { words, repoints } && {
            &&& forall|i: int| 0 <= i < before.words@.len() ==> #[trigger] words@[i] == before.words@[i]
            &&& forall|i: int| 0 <= i < before.encounters@.len() ==> #[trigger] repoints@[i].row == before.encounters@[i].0
                && repoints@[i].word_id == before.encounters@[i].1
            &&& forall|i: int| 0 <= i < before.translations@.len() ==> {
                let m = #[trigger] repoints@[before.encounters@.len() + before.reviews@.len() + i];
                m.row == before.translations@[i].0 && m.word_id == before.translations@[i].1
            }
        }),
{
    if before.words@.len() > 0 {
        if let CaptureUndoPlan::Restore { words, repoints } = p {
            assert forall|i: int| 0 <= i < before.encounters@.len() implies #[trigger] repoints@[i].row == before.encounters@[i].0
                && repoints@[i].word_id == before.encounters@[i].1 by {
                assert(points_back(repoints@[0 + i], "encounters"@, "id"@, before.encounters@[i]));
            }
            assert forall|i: int| 0 <= i < before.translations@.len() implies ({
                let m = #[trigger] repoints@[before.encounters@.len() + before.reviews@.len() + i];
                m.row == before.translations@[i].0 && m.word_id == before.translations@[i].1
            }) by {
                assert(points_back(repoints@[before.encounters@.len() + before.reviews@.len() + i], "translation_history"@, "event_id"@, before.translations@[i]));
            }
        }
    }
}

} // verus!
