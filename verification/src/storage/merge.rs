//! Merging duplicate Vocabulary Items into one survivor.

use vstd::prelude::*;
use crate::domain::{copy_text, ReviewState, SavedTranslation, Word, WordStatus};

verus! {

/// How far along the learning lifecycle an item is; a merge keeps the least
/// advanced state.
pub open spec fn rank(w: Word) -> int {
    if w.achieved() {
        3
    } else {
        match w.status {
            WordStatus::Learning => 0,
            WordStatus::Paused => 1,
            WordStatus::Mastered => 2,
        }
    }
}

/// The order of `Option` values: nothing comes first.
pub open spec fn opt_lt(a: Option<i64>, b: Option<i64>) -> bool {
    match (a, b) {
        (None, Some(_)) => true,
        (Some(x), Some(y)) => x < y,
        _ => false,
    }
}

pub open spec fn due(w: Word) -> Option<i64> {
    match w.review_state {
        Some(s) => Some(s.due_at),
        None => None,
    }
}

/// `a` comes before `b` in the order (rank, due date, identifier).
pub open spec fn state_before(a: Word, b: Word) -> bool {
    rank(a) < rank(b) || (rank(a) == rank(b) && (opt_lt(due(a), due(b)) || (due(a) == due(b) && a.id < b.id)))
}

/// `a` retires before `b`: earlier deletion deadline, then smaller identifier.
pub open spec fn retires_before(a: Word, b: Word) -> bool {
    opt_lt(a.delete_after, b.delete_after) || (a.delete_after == b.delete_after && a.id < b.id)
}

/// `k` is the item whose identity survives: the smallest identifier, the
/// first of equal ones (items are taken in identifier order, keeping their
/// order among equals).
pub open spec fn smallest_id(words: Seq<Word>, k: int) -> bool {
    &&& 0 <= k < words.len()
    &&& forall|j: int| 0 <= j < words.len() ==> words[k].id <= #[trigger] words[j].id
    &&& forall|j: int| 0 <= j < k ==> words[k].id < #[trigger] words[j].id
}

/// `k` is the first item in the state order.
pub open spec fn state_source(words: Seq<Word>, k: int) -> bool {
    &&& 0 <= k < words.len()
    &&& forall|j: int| 0 <= j < words.len() ==> !state_before(#[trigger] words[j], words[k])
    &&& forall|j: int| 0 <= j < k ==> state_before(words[k], #[trigger] words[j])
}

/// `k` is the item that retires last (the last of equal ones).
pub open spec fn retires_last(words: Seq<Word>, k: int) -> bool {
    &&& 0 <= k < words.len()
    &&& forall|j: int| 0 <= j < words.len() ==> !retires_before(words[k], #[trigger] words[j])
    &&& forall|j: int| k < j < words.len() ==> retires_before(#[trigger] words[j], words[k])
}

pub open spec fn all_achieved(words: Seq<Word>) -> bool {
    forall|i: int| 0 <= i < words.len() ==> (#[trigger] words[i]).achieved()
}

/// The merged item: the survivor's identity and content with the learning
/// state of the least advanced item; when every item is Achieved, the
/// retirement dates of the item that retires last.
pub open spec fn merged(survivor: Word, state: Word, latest: Word, all_done: bool) -> Word {
    Word {
        status: state.status,
        review_state: state.review_state,
        mastered_at: state.mastered_at,
        achieved_at: if all_done { latest.achieved_at } else { state.achieved_at },
        delete_after: if all_done { latest.delete_after } else { state.delete_after },
        ..survivor
    }
}

fn rank_of(w: &Word) -> (r: u8)
    ensures
        r as int == rank(*w),
{
    if w.is_achieved() {
        3
    } else {
        match w.status {
            WordStatus::Learning => 0,
            WordStatus::Paused => 1,
            WordStatus::Mastered => 2,
        }
    }
}

fn opt_less(a: Option<i64>, b: Option<i64>) -> (r: bool)
    ensures
        r == opt_lt(a, b),
{
    match (a, b) {
        (None, Some(_)) => true,
        (Some(x), Some(y)) => x < y,
        _ => false,
    }
}

fn due_of(w: &Word) -> (d: Option<i64>)
    ensures
        d == due(*w),
{
    match w.review_state {
        Some(s) => Some(s.due_at),
        None => None,
    }
}

fn is_state_before(a: &Word, b: &Word) -> (r: bool)
    ensures
        r == state_before(*a, *b),
{
    let ra = rank_of(a);
    let rb = rank_of(b);
    let da = due_of(a);
    let db = due_of(b);
    ra < rb || (ra == rb && (opt_less(da, db) || (da == db && a.id < b.id)))
}

fn is_retired_before(a: &Word, b: &Word) -> (r: bool)
    ensures
        r == retires_before(*a, *b),
{
    opt_less(a.delete_after, b.delete_after) || (a.delete_after == b.delete_after && a.id < b.id)
}

/// The merge of duplicate items: the one with the smallest identifier
/// survives; see [`merged`].
pub fn merge_words(words: &Vec<Word>) -> (w: Word)
    requires
        words@.len() > 0,
    ensures
        exists|s: int, t: int, l: int|
            #![trigger smallest_id(words@, s), state_source(words@, t), retires_last(words@, l)]
            smallest_id(words@, s) && state_source(words@, t) && retires_last(words@, l)
                && w == merged(words@[s], words@[t], words@[l], all_achieved(words@)),
{
    let n = words.len();
    let mut s: usize = 0;
    let mut t: usize = 0;
    let mut l: usize = 0;
    let mut all_done = words[0].is_achieved();
    let mut i: usize = 1;
    while i < n
        invariant
            n == words@.len(),
            1 <= i <= n,
            s < i && t < i && l < i,
            all_done == forall|j: int| 0 <= j < i ==> (#[trigger] words@[j]).achieved(),
            forall|j: int| 0 <= j < i ==> words@[s as int].id <= #[trigger] words@[j].id,
            forall|j: int| 0 <= j < s ==> words@[s as int].id < #[trigger] words@[j].id,
            forall|j: int| 0 <= j < i ==> !state_before(#[trigger] words@[j], words@[t as int]),
            forall|j: int| 0 <= j < t ==> state_before(words@[t as int], #[trigger] words@[j]),
            forall|j: int| 0 <= j < i ==> !retires_before(words@[l as int], #[trigger] words@[j]),
            forall|j: int| l < j < i ==> retires_before(#[trigger] words@[j], words@[l as int]),
        decreases n - i,
    {
        if words[i].id < words[s].id {
            s = i;
        }
        if is_state_before(&words[i], &words[t]) {
            t = i;
        }
        if !is_retired_before(&words[i], &words[l]) {
            l = i;
        }
        if !words[i].is_achieved() {
            all_done = false;
        }
        i = i + 1;
    }
    let mut w = words[s].duplicate();
    w.status = words[t].status;
    w.review_state = words[t].review_state;
    w.mastered_at = words[t].mastered_at;
    if all_done {
        w.achieved_at = words[l].achieved_at;
        w.delete_after = words[l].delete_after;
    } else {
        w.achieved_at = words[t].achieved_at;
        w.delete_after = words[t].delete_after;
    }
    proof {
        assert(smallest_id(words@, s as int));
        assert(state_source(words@, t as int));
        assert(retires_last(words@, l as int));
    }
    w
}

/// After a merge, the most recently saved translation (if any) becomes the
/// item's translation and target language.
pub fn adopt_latest_translation(word: &mut Word, latest: Option<&SavedTranslation>)
    ensures
        match latest {
            Some(t) => final(word).target_language == t.target_language
                && final(word).translation == Some(t.text)
                && *final(word) == (Word { target_language: t.target_language, translation: Some(t.text), ..*old(word) }),
            None => *final(word) == *old(word),
        },
{
    if let Some(t) = latest {
        word.target_language = t.target_language.clone();
        word.translation = Some(t.text.clone());
    }
}

} // verus!
