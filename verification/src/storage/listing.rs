//! The vocabulary list: one row per live, not Achieved Vocabulary Item, with
//! its preferred translation and Encounter count, most recently seen first.

use vstd::prelude::*;
use crate::domain::{Word, WordStatus};
use crate::text::{lowercased, to_lowercase};
use vstd::multiset::Multiset;

verus! {

broadcast use vstd::seq_lib::to_multiset_build, vstd::seq_lib::to_multiset_insert;

/// One row of the vocabulary list.
#[derive(Debug)]
pub struct WordListItem {
    pub id: u128,
    pub display_form: String,
    pub translation: Option<String>,
    pub translation_language: Option<String>,
    pub status: WordStatus,
    pub encounter_count: usize,
    pub next_review_at: Option<i64>,
    pub last_seen_at: i64,
    pub achieved_at: Option<i64>,
    pub delete_after: Option<i64>,
}

/// What the store holds about one item for the list: the item, how many live
/// Encounters it has, when the latest was captured, and its preferred saved
/// translation (text and language).
pub struct ListingRow {
    pub word: Word,
    pub encounter_count: usize,
    pub last_captured_at: Option<i64>,
    pub translation: Option<String>,
    pub translation_language: Option<String>,
}

/// The index of the latest entry of `history` (target language, text) in
/// `language`, if any.
pub open spec fn last_in_language(history: Seq<(String, String)>, language: Seq<char>) -> Option<int>
    decreases history.len(),
{
    if history.len() == 0 {
        None
    } else if history.last().0@ == language {
        Some(history.len() - 1)
    } else {
        last_in_language(history.drop_last(), language)
    }
}

/// The translation shown for an item: the latest saved one in the user's
/// target language, else the latest saved one.
pub open spec fn preferred_index(history: Seq<(String, String)>, target: Seq<char>) -> Option<int> {
    match last_in_language(history, lowercased(target)) {
        Some(i) => Some(i),
        None => if history.len() > 0 { Some(history.len() - 1) } else { None },
    }
}

proof fn lemma_last_in_prefix(history: Seq<(String, String)>, language: Seq<char>, i: int)
    requires
        0 <= i <= history.len(),
        forall|j: int| i <= j < history.len() ==> (#[trigger] history[j]).0@ != language,
    ensures
        last_in_language(history, language) == last_in_language(history.subrange(0, i), language),
    decreases history.len(),
{
    if i == history.len() {
        assert(history.subrange(0, i) =~= history);
    } else {
        assert(history.last() == history[history.len() - 1]);
        lemma_last_in_prefix(history.drop_last(), language, i);
        assert(history.drop_last().subrange(0, i) =~= history.subrange(0, i));
    }
}

/// Picks the translation to show from an item's saved translations, oldest
/// first, given as (target language, text).
pub fn preferred_translation(history: &Vec<(String, String)>, target: &str) -> (r: Option<(String, String)>)
    ensures
        match preferred_index(history@, target@) {
            None => r is None,
            Some(i) => r matches Some(p) && p.0@ == history@[i].1@ && p.1@ == history@[i].0@,
        },
{
    let language = to_lowercase(target);
    let mut i: usize = history.len();
    while i > 0
        invariant
            i <= history@.len(),
            language@ == lowercased(target@),
            forall|j: int| i <= j < history@.len() ==> (#[trigger] history@[j]).0@ != language@,
        decreases i,
    {
        if history[i - 1].0 == language {
            proof {
                lemma_last_in_prefix(history@, language@, i as int);
                let p = history@.subrange(0, i as int);
                assert(p.last() == history@[i - 1]);
                assert(last_in_language(p, language@) == Some(i - 1));
                assert(preferred_index(history@, target@) == Some(i - 1));
            }
            return Some((history[i - 1].1.clone(), history[i - 1].0.clone()));
        }
        i = i - 1;
    }
    proof {
        lemma_last_in_prefix(history@, language@, 0);
        assert(history@.subrange(0, 0).len() == 0);
    }
    let n = history.len();
    if n > 0 {
        Some((history[n - 1].1.clone(), history[n - 1].0.clone()))
    } else {
        None
    }
}

/// The list row of an item.
pub open spec fn listed(r: ListingRow) -> (WordListItem, String) {
    (WordListItem {
        id: r.word.id,
        display_form: r.word.display_form,
        translation: r.translation,
        translation_language: r.translation_language,
        status: r.word.status,
        encounter_count: r.encounter_count,
        next_review_at: match r.word.review_state {
            Some(s) => Some(s.due_at),
            None => None,
        },
        last_seen_at: match r.last_captured_at {
            Some(t) => t,
            None => r.word.updated_at,
        },
        achieved_at: r.word.achieved_at,
        delete_after: r.word.delete_after,
    }, r.word.source_language)
}

/// Items that appear in the list: live and not Achieved.
pub open spec fn shown(r: ListingRow) -> bool {
    r.word.deleted_at is None && r.word.achieved_at is None
}

/// Whether `a` comes before `b`: seen later, or seen at the same time with a
/// smaller id.
pub open spec fn listed_before(a: WordListItem, b: WordListItem) -> bool {
    a.last_seen_at > b.last_seen_at || (a.last_seen_at == b.last_seen_at && a.id < b.id)
}

/// Whether a list is in display order.
pub open spec fn in_list_order(s: Seq<(WordListItem, String)>) -> bool {
    forall|i: int, j: int| 0 <= i < j < s.len() ==> !listed_before(#[trigger] s[j].0, #[trigger] s[i].0)
}

/// The rows of `rows` that are shown, as list rows.
pub open spec fn shown_rows(rows: Seq<ListingRow>) -> Seq<(WordListItem, String)>
    decreases rows.len(),
{
    if rows.len() == 0 {
        Seq::empty()
    } else if shown(rows.last()) {
        shown_rows(rows.drop_last()).push(listed(rows.last()))
    } else {
        shown_rows(rows.drop_last())
    }
}

fn list_row(row: ListingRow) -> (r: (WordListItem, String))
    ensures
        r == listed(row),
{
    let next_review_at = match row.word.review_state {
        Some(s) => Some(s.due_at),
        None => None,
    };
    let last_seen_at = match row.last_captured_at {
        Some(t) => t,
        None => row.word.updated_at,
    };
    let w = row.word;
    (WordListItem {
        id: w.id,
        display_form: w.display_form,
        translation: row.translation,
        translation_language: row.translation_language,
        status: w.status,
        encounter_count: row.encounter_count,
        next_review_at,
        last_seen_at,
        achieved_at: w.achieved_at,
        delete_after: w.delete_after,
    }, w.source_language)
}

/// Inserts `x` into the ordered list `out`, after every row that comes
/// before it.
fn insert_ordered(out: &mut Vec<(WordListItem, String)>, x: (WordListItem, String))
    requires
        in_list_order(old(out)@),
    ensures
        in_list_order(final(out)@),
        final(out)@.to_multiset() == old(out)@.to_multiset().insert(x),
{
    let mut p: usize = 0;
    while p < out.len() && !(x.0.last_seen_at > out[p].0.last_seen_at || (x.0.last_seen_at == out[p].0.last_seen_at && x.0.id < out[p].0.id))
        invariant
            p <= out@.len(),
            forall|j: int| 0 <= j < p ==> !listed_before(x.0, #[trigger] out@[j].0),
        decreases out.len() - p,
    {
        p = p + 1;
    }
    let ghost before = out@;
    out.insert(p, x);
    proof {
        let s = out@;
        assert(s == before.insert(p as int, x));
        assert forall|i: int, j: int| 0 <= i < j < s.len() implies !listed_before(#[trigger] s[j].0, #[trigger] s[i].0) by {
            if j < p {
                assert(s[i] == before[i] && s[j] == before[j]);
            } else if j == p {
                assert(s[i] == before[i]);
            } else if i == p {
                assert(s[j] == before[j - 1]);
                if p < before.len() {
                    assert(listed_before(x.0, before[p as int].0));
                    assert(!listed_before(before[j - 1].0, before[p as int].0));
                }
            } else if i < p {
                assert(s[i] == before[i] && s[j] == before[j - 1]);
            } else {
                assert(s[i] == before[i - 1] && s[j] == before[j - 1]);
            }
        }
    }
}

/// The vocabulary list from the store's rows: the shown rows, each as a list
/// row with the item's source language, most recently seen first (ties by
/// id).
pub fn vocabulary_listing(rows: Vec<ListingRow>) -> (v: Vec<(WordListItem, String)>)
    ensures
        in_list_order(v@),
        v@.to_multiset() == shown_rows(rows@).to_multiset(),
{
    let ghost all = rows@;
    let mut rest = rows;
    let mut out: Vec<(WordListItem, String)> = Vec::new();
    proof {
        out@.to_multiset_ensures();
        assert(out@.to_multiset() =~= Multiset::empty());
        assert(rest@ == all.subrange(0, all.len() as int));
    }
    while rest.len() > 0
        invariant
            rest@ == all.subrange(0, rest@.len() as int),
            rest@.len() <= all.len(),
            all == rows@,
            in_list_order(out@),
            out@.to_multiset().add(shown_rows(rest@).to_multiset()) == shown_rows(all).to_multiset(),
        decreases rest.len(),
    {
        let ghost before = rest@;
        let row = rest.pop().unwrap();
        proof {
            assert(before.drop_last() == rest@);
            assert(before.last() == row);
            assert(rest@ == all.subrange(0, rest@.len() as int));
        }
        if row.word.deleted_at.is_none() && row.word.achieved_at.is_none() {
            let ghost row_view = row;
            let item = list_row(row);
            proof {
                assert(shown_rows(before) == shown_rows(rest@).push(listed(row_view)));
                assert(shown_rows(before).to_multiset() == shown_rows(rest@).to_multiset().insert(listed(row_view)));
            }
            let ghost old_out = out@;
            insert_ordered(&mut out, item);
            proof {
                assert(out@.to_multiset().add(shown_rows(rest@).to_multiset()) =~=
                    old_out.to_multiset().add(shown_rows(before).to_multiset()));
            }
        } else {
            proof {
                assert(shown_rows(before) == shown_rows(rest@));
            }
        }
    }
    proof {
        shown_rows(rest@).to_multiset_ensures();
        assert(shown_rows(rest@).to_multiset() =~= Multiset::empty());
        assert(out@.to_multiset().add(Multiset::empty()) =~= out@.to_multiset());
    }
    out
}

/// The list rows that `shown_rows` keeps are exactly those of the live, not
/// Achieved items.
proof fn lemma_shown_rows_members(rows: Seq<ListingRow>)
    ensures
        forall|i: int| 0 <= i < rows.len() && rows[i].word.deleted_at is None && rows[i].word.achieved_at is None
            ==> shown_rows(rows).contains(#[trigger] listed(rows[i])),
        forall|x: (WordListItem, String)| shown_rows(rows).contains(x) ==> exists|i: int| 0 <= i < rows.len()
            && rows[i].word.deleted_at is None && rows[i].word.achieved_at is None && x == #[trigger] listed(rows[i]),
    decreases rows.len(),
{
    if rows.len() > 0 {
        let init = rows.drop_last();
        lemma_shown_rows_members(init);
        assert forall|i: int| 0 <= i < rows.len() && rows[i].word.deleted_at is None && rows[i].word.achieved_at is None
            implies shown_rows(rows).contains(#[trigger] listed(rows[i])) by {
            if i < rows.len() - 1 {
                assert(init[i] == rows[i]);
                let k = choose|k: int| 0 <= k < shown_rows(init).len() && shown_rows(init)[k] == listed(init[i]);
                if shown(rows.last()) {
                    assert(shown_rows(rows)[k] == listed(rows[i]));
                } else {
                    assert(shown_rows(rows)[k] == listed(rows[i]));
                }
            } else {
                assert(shown(rows.last()));
                let s = shown_rows(rows);
                assert(s[s.len() - 1] == listed(rows[i]));
            }
        }
        assert forall|x: (WordListItem, String)| shown_rows(rows).contains(x) implies exists|i: int| 0 <= i < rows.len()
            && rows[i].word.deleted_at is None && rows[i].word.achieved_at is None && x == #[trigger] listed(rows[i]) by {
            let s = shown_rows(rows);
            let k = choose|k: int| 0 <= k < s.len() && s[k] == x;
            if shown(rows.last()) && k == s.len() - 1 {
                assert(x == listed(rows[rows.len() - 1]));
            } else {
                assert(shown_rows(init)[k] == x);
                assert(shown_rows(init).contains(x));
                let i = choose|i: int| 0 <= i < init.len() && init[i].word.deleted_at is None && init[i].word.achieved_at is None
                    && x == #[trigger] listed(init[i]);
                assert(rows[i] == init[i]);
            }
        }
    }
}

/// The vocabulary list `v` of `rows` (as [`vocabulary_listing`] returns it)
/// holds every item that is live and not Achieved, whatever its learning
/// status, with its own id, status and Encounter count, and no other item.
pub proof fn listing_holds_exactly_the_live_unachieved_items(rows: Seq<ListingRow>, v: Seq<(WordListItem, String)>)
    requires
        v.to_multiset() == shown_rows(rows).to_multiset(),
    ensures
        forall|i: int| #![trigger rows[i]] 0 <= i < rows.len() && rows[i].word.deleted_at is None && rows[i].word.achieved_at is None
            ==> exists|j: int| #![trigger v[j]] 0 <= j < v.len() && v[j].0.id == rows[i].word.id && v[j].0.status == rows[i].word.status
                && v[j].0.encounter_count == rows[i].encounter_count,
        forall|j: int| #![trigger v[j]] 0 <= j < v.len() ==> exists|i: int| #![trigger rows[i]] 0 <= i < rows.len()
            && rows[i].word.deleted_at is None && rows[i].word.achieved_at is None && v[j].0.id == rows[i].word.id,
{
    broadcast use vstd::seq_lib::to_multiset_contains;
    lemma_shown_rows_members(rows);
    assert forall|i: int| #![trigger rows[i]] 0 <= i < rows.len() && rows[i].word.deleted_at is None && rows[i].word.achieved_at is None
        implies exists|j: int| #![trigger v[j]] 0 <= j < v.len() && v[j].0.id == rows[i].word.id && v[j].0.status == rows[i].word.status
            && v[j].0.encounter_count == rows[i].encounter_count by {
        let x = listed(rows[i]);
        assert(shown_rows(rows).contains(x));
        assert(shown_rows(rows).to_multiset().count(x) > 0);
        assert(v.to_multiset().count(x) > 0);
        assert(v.contains(x));
        let j = choose|j: int| 0 <= j < v.len() && v[j] == x;
        assert(v[j].0.id == rows[i].word.id);
    }
    assert forall|j: int| #![trigger v[j]] 0 <= j < v.len() implies exists|i: int| #![trigger rows[i]] 0 <= i < rows.len()
        && rows[i].word.deleted_at is None && rows[i].word.achieved_at is None && v[j].0.id == rows[i].word.id by {
        let x = v[j];
        assert(v.contains(x));
        assert(v.to_multiset().count(x) > 0);
        assert(shown_rows(rows).to_multiset().count(x) > 0);
        assert(shown_rows(rows).contains(x));
        let i = choose|i: int| 0 <= i < rows.len() && rows[i].word.deleted_at is None && rows[i].word.achieved_at is None
            && x == #[trigger] listed(rows[i]);
        assert(v[j].0.id == rows[i].word.id);
    }
}

/// A list in display order shows the most recently seen items first, and
/// among items seen at the same time the smaller id first.
pub proof fn listing_is_most_recent_first(v: Seq<(WordListItem, String)>)
    requires
        in_list_order(v),
    ensures
        forall|i: int, j: int| 0 <= i < j < v.len() ==> #[trigger] v[i].0.last_seen_at >= #[trigger] v[j].0.last_seen_at,
        forall|i: int, j: int| 0 <= i < j < v.len() && v[i].0.last_seen_at == v[j].0.last_seen_at
            ==> #[trigger] v[i].0.id <= #[trigger] v[j].0.id,
{
    assert forall|i: int, j: int| 0 <= i < j < v.len() implies #[trigger] v[i].0.last_seen_at >= #[trigger] v[j].0.last_seen_at by {
        assert(!listed_before(v[j].0, v[i].0));
    }
    assert forall|i: int, j: int| 0 <= i < j < v.len() && v[i].0.last_seen_at == v[j].0.last_seen_at
        implies #[trigger] v[i].0.id <= #[trigger] v[j].0.id by {
        assert(!listed_before(v[j].0, v[i].0));
    }
}

} // verus!
