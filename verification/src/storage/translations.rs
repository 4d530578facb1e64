//! Saved translations: the history kept per Vocabulary Item, the current
//! translation of each target language, and what a capture or its Undo does
//! to the item's translation.

use vstd::prelude::*;
use crate::domain::{Encounter, SavedTranslation, Word};
use crate::storage::identity::{normalize_language, normalized};
use crate::storage::record::CaptureRecord;
use crate::text::{trim, trimmed};

verus! {

/// The latest saved translation of each target language: `history` is newest
/// first, and only the first entry of each language is kept, in order.
pub open spec fn latest_per_language(history: Seq<SavedTranslation>) -> Seq<SavedTranslation>
    decreases history.len(),
{
    if history.len() == 0 {
        Seq::empty()
    } else {
        let rest = latest_per_language(history.drop_last());
        if exists|j: int| 0 <= j < history.len() - 1 && (#[trigger] history[j]).target_language@
            == history.last().target_language@ {
            rest
        } else {
            rest.push(history.last())
        }
    }
}

proof fn lemma_latest_languages(history: Seq<SavedTranslation>, lang: Seq<char>)
    ensures
        (exists|j: int| 0 <= j < history.len() && (#[trigger] history[j]).target_language@ == lang) <==> (exists|k: int|
            0 <= k < latest_per_language(history).len() && (#[trigger] latest_per_language(history)[k]).target_language@ == lang),
    decreases history.len(),
{
    if history.len() > 0 {
        let h = history.drop_last();
        lemma_latest_languages(h, lang);
        lemma_latest_languages(h, history.last().target_language@);
        let rest = latest_per_language(h);
        if exists|j: int| 0 <= j < history.len() && (#[trigger] history[j]).target_language@ == lang {
            let j = choose|j: int| 0 <= j < history.len() && (#[trigger] history[j]).target_language@ == lang;
            if j < history.len() - 1 {
                assert(h[j] == history[j]);
                let k = choose|k: int| 0 <= k < rest.len() && (#[trigger] rest[k]).target_language@ == lang;
                assert(latest_per_language(history)[k] == rest[k]);
            } else {
                if exists|j2: int| 0 <= j2 < history.len() - 1 && (#[trigger] history[j2]).target_language@
                    == history.last().target_language@ {
                    let j2 = choose|j2: int| 0 <= j2 < history.len() - 1 && (#[trigger] history[j2]).target_language@
                        == history.last().target_language@;
                    assert(h[j2] == history[j2]);
                    let k = choose|k: int| 0 <= k < rest.len() && (#[trigger] rest[k]).target_language@ == lang;
                    assert(latest_per_language(history)[k] == rest[k]);
                } else {
                    assert(latest_per_language(history)[rest.len() as int] == history.last());
                }
            }
        }
        if exists|k: int| 0 <= k < latest_per_language(history).len() && (#[trigger] latest_per_language(history)[k]).target_language@ == lang {
            let k = choose|k: int| 0 <= k < latest_per_language(history).len() && (#[trigger] latest_per_language(history)[k]).target_language@ == lang;
            if k < rest.len() {
                assert(latest_per_language(history)[k] == rest[k]);
                let j = choose|j: int| 0 <= j < h.len() && (#[trigger] h[j]).target_language@ == lang;
                assert(history[j] == h[j]);
            } else {
                assert(history[history.len() - 1].target_language@ == lang);
            }
        }
    }
}

/// Whether some saved translation is in `lang`.
pub open spec fn has_language(s: Seq<SavedTranslation>, lang: Seq<char>) -> bool {
    exists|j: int| 0 <= j < s.len() && (#[trigger] s[j]).target_language@ == lang
}

/// The current translations name every target language at most once, and
/// every language that has a saved translation.
pub proof fn current_translations_cover_each_language_once(history: Seq<SavedTranslation>)
    ensures
        forall|i: int, j: int| 0 <= i < j < latest_per_language(history).len()
            ==> (#[trigger] latest_per_language(history)[i]).target_language@ != (#[trigger] latest_per_language(history)[j]).target_language@,
        forall|lang: Seq<char>| #[trigger] has_language(history, lang) <==> has_language(latest_per_language(history), lang),
    decreases history.len(),
{
    assert forall|lang: Seq<char>| #[trigger] has_language(history, lang) <==> has_language(latest_per_language(history), lang) by {
        lemma_latest_languages(history, lang);
    }
    if history.len() > 0 {
        let h = history.drop_last();
        current_translations_cover_each_language_once(h);
        let rest = latest_per_language(h);
        let lang = history.last().target_language@;
        lemma_latest_languages(h, lang);
        if !(exists|j: int| 0 <= j < history.len() - 1 && (#[trigger] history[j]).target_language@ == lang) {
            let all = latest_per_language(history);
            assert(all == rest.push(history.last()));
            assert forall|i: int, j: int| 0 <= i < j < all.len()
                implies (#[trigger] all[i]).target_language@ != (#[trigger] all[j]).target_language@ by {
                if j == rest.len() {
                    assert(all[j] == history.last());
                    assert(all[i] == rest[i]);
                    if rest[i].target_language@ == lang {
                        let j2 = choose|j2: int| 0 <= j2 < h.len() && (#[trigger] h[j2]).target_language@ == lang;
                        assert(history[j2] == h[j2]);
                    }
                } else {
                    assert(all[i] == rest[i] && all[j] == rest[j]);
                }
            }
        }
    }
}

/// The current translation of each target language, newest first.
pub fn current_translations(history: &Vec<SavedTranslation>) -> (r: Vec<SavedTranslation>)
    ensures
        r@ == latest_per_language(history@),
{
    let mut r: Vec<SavedTranslation> = Vec::new();
    let mut i: usize = 0;
    while i < history.len()
        invariant
            i <= history@.len(),
            r@ == latest_per_language(history@.take(i as int)),
        decreases history@.len() - i,
    {
        let ghost h = history@.take(i as int);
        let mut seen = false;
        let mut k: usize = 0;
        while k < r.len()
            invariant
                i < history@.len(),
                k <= r@.len(),
                r@ == latest_per_language(h),
                seen == exists|m: int| 0 <= m < k && (#[trigger] r@[m]).target_language@ == history@[i as int].target_language@,
            decreases r@.len() - k,
        {
            if r[k].target_language == history[i].target_language {
                seen = true;
            }
            k = k + 1;
        }
        proof {
            lemma_latest_languages(h, history@[i as int].target_language@);
            assert(history@.take(i + 1).drop_last() =~= h);
            assert(history@.take(i + 1).last() == history@[i as int]);
            assert((exists|j: int| 0 <= j < h.len() && (#[trigger] h[j]).target_language@ == history@[i as int].target_language@)
                == (exists|j: int| 0 <= j < history@.take(i + 1).len() - 1 && (#[trigger] history@.take(i + 1)[j]).target_language@
                == history@.take(i + 1).last().target_language@)) by {
                if exists|j: int| 0 <= j < h.len() && (#[trigger] h[j]).target_language@ == history@[i as int].target_language@ {
                    let j = choose|j: int| 0 <= j < h.len() && (#[trigger] h[j]).target_language@ == history@[i as int].target_language@;
                    assert(history@.take(i + 1)[j] == h[j]);
                }
                if exists|j: int| 0 <= j < history@.take(i + 1).len() - 1 && (#[trigger] history@.take(i + 1)[j]).target_language@
                    == history@.take(i + 1).last().target_language@ {
                    let j = choose|j: int| 0 <= j < history@.take(i + 1).len() - 1 && (#[trigger] history@.take(i + 1)[j]).target_language@
                        == history@.take(i + 1).last().target_language@;
                    assert(history@.take(i + 1)[j] == h[j]);
                }
            }
        }
        if !seen {
            r.push(history[i].duplicate());
        }
        i = i + 1;
    }
    assert(history@.take(history@.len() as int) =~= history@);
    r
}

/// The translation a capture saves: its trimmed text, when not blank, for the
/// capture's normalized target language.
pub fn saved_translation(input: &CaptureRecord, saved_at: i64) -> (r: Option<SavedTranslation>)
    ensures
        match input.translation {
            None => r is None,
            Some(t) => if trimmed(t@).len() == 0 { r is None } else {
                r is Some && r->Some_0.text@ == trimmed(t@)
                    && r->Some_0.target_language@ == normalized(input.target_language@)
                    && r->Some_0.saved_at == saved_at
            },
        },
{
    match &input.translation {
        None => None,
        Some(t) => {
            let text = trim(t.as_str());
            if text.unicode_len() == 0 {
                None
            } else {
                Some(SavedTranslation { target_language: normalize_language(input.target_language.as_str()), text, saved_at })
            }
        },
    }
}

/// A saved translation becomes the item's translation and the encounter's
/// snapshot; the item counts as updated at capture time.
pub fn apply_saved_translation(word: &mut Word, encounter: &mut Encounter, value: SavedTranslation, captured_at: i64)
    ensures
        *final(word) == (Word {
            target_language: value.target_language,
            translation: Some(value.text),
            updated_at: captured_at,
            ..*old(word)
        }),
        *final(encounter) == (Encounter { saved_translation: Some(value), ..*old(encounter) }),
{
    word.target_language = value.target_language.clone();
    word.translation = Some(value.text.clone());
    word.updated_at = captured_at;
    encounter.saved_translation = Some(value);
}

/// After the translation saved by an undone capture is removed, the item takes
/// the latest remaining translation (or none; the target language then stays).
pub fn restore_latest_translation(word: &mut Word, latest: Option<&SavedTranslation>, now: i64)
    ensures
        match latest {
            Some(t) => *final(word) == (Word {
                translation: Some(t.text),
                target_language: t.target_language,
                updated_at: now,
                ..*old(word)
            }),
            None => *final(word) == (Word { translation: None, updated_at: now, ..*old(word) }),
        },
{
    match latest {
        Some(t) => {
            word.translation = Some(t.text.clone());
            word.target_language = t.target_language.clone();
        },
        None => {
            word.translation = None;
        },
    }
    word.updated_at = now;
}

} // verus!
