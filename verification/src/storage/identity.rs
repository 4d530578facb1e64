//! Identity of Vocabulary Items: normalization, which stored items a capture
//! refers to, deduplication keys, and the state a merge keeps.

use vstd::prelude::*;
use crate::domain::{OwnerScope, ReviewState, Word, WordStatus};
use crate::storage::record::CaptureRecord;
use crate::text::{chars_of, concat, lowercased, text_eq, text_of, to_lowercase, trim, trimmed};

verus! {

/// The normalized form of a lemma: trimmed and lowercase.
pub open spec fn normalized(s: Seq<char>) -> Seq<char> {
    lowercased(trimmed(s))
}

pub fn normalize_lemma(s: &str) -> (r: String)
    ensures
        r@ == normalized(s@),
{
    let t = trim(s);
    to_lowercase(t.as_str())
}

/// The normalized form of a language code: trimmed and lowercase.
pub fn normalize_language(s: &str) -> (r: String)
    ensures
        r@ == normalized(s@),
{
    let t = trim(s);
    to_lowercase(t.as_str())
}

/// The deduplication key of a lemma in a source language.
pub open spec fn dedupe_key_of(lemma: Seq<char>, source: Seq<char>) -> Seq<char> {
    normalized(lemma) + "|"@ + normalized(source)
}

pub fn dedupe_key(lemma: &str, source: &str) -> (k: String)
    ensures
        k@ == dedupe_key_of(lemma@, source@),
{
    let l = normalize_lemma(lemma);
    let mut k = concat(l.as_str(), "|");
    let s = normalize_language(source);
    k.append(s.as_str());
    k
}

/// The JSON word of an owner scope as it is stored.
pub open spec fn owner_scope_json(o: OwnerScope) -> Seq<char> {
    match o {
        OwnerScope::Guest => "\"guest\""@,
        OwnerScope::Account => "\"account\""@,
    }
}

/// The lowercase hexadecimal digit of a value below 16.
pub open spec fn hex_digit(n: int) -> char {
    if n < 10 {
        (48 + n) as char
    } else {
        (87 + n) as char
    }
}

/// The `k`-th of the 32 hexadecimal digits of `id`, most significant first.
pub open spec fn id_digit(id: u128, k: int) -> char {
    hex_digit(((id >> ((124 - 4 * k) as u128)) & 0xfu128) as int)
}

/// The hyphenated lowercase text of an identifier: its 32 hexadecimal
/// digits in groups of 8, 4, 4, 4 and 12, joined by hyphens.
pub open spec fn uuid_text(id: u128) -> Seq<char> {
    Seq::new(36, |i: int|
        if i == 8 || i == 13 || i == 18 || i == 23 {
            '-'
        } else {
            id_digit(id, i - (if i < 8 { 0int } else if i < 13 { 1int } else if i < 18 { 2int } else if i < 23 { 3int } else { 4int }))
        }
    )
}

/// Calls `uuid::Uuid::from_u128(id).to_string()`: `Display` writes the
/// hyphenated lowercase form of the identifier's big-endian bytes, which is
/// [`uuid_text`].
#[verifier::external_body]
pub(crate) fn id_text(id: u128) -> (r: String)
    ensures
        r@ == uuid_text(id),
{
    uuid::Uuid::from_u128(id).to_string()
}

/// The key a word occupies in the unique key column: deleted words are keyed
/// by their identifier so that they never block a live item; live words by
/// owner and deduplication key.
pub open spec fn scoped_key_of(word: Word, key: Seq<char>) -> Seq<char> {
    if word.deleted_at is Some {
        "deleted:"@ + uuid_text(word.id)
    } else {
        owner_scope_json(word.owner_scope) + "|"@ + key
    }
}

pub fn scoped_key(word: &Word, key: &str) -> (k: String)
    ensures
        k@ == scoped_key_of(*word, key@),
{
    if word.deleted_at.is_some() {
        let id = id_text(word.id);
        concat("deleted:", id.as_str())
    } else {
        let owner = match word.owner_scope {
            OwnerScope::Guest => "\"guest\"",
            OwnerScope::Account => "\"account\"",
        };
        let mut k = concat(owner, "|");
        k.append(key);
        k
    }
}

/// A stored word is a live guest item with the capture's lemma.
pub open spec fn lemma_match(w: Word, lemma: Seq<char>) -> bool {
    w.deleted_at is None && w.owner_scope == OwnerScope::Guest && w.lemma@ == lemma
}

/// A word whose source language is known (not automatic detection).
pub open spec fn known(w: Word) -> bool {
    w.source_language@ != "auto"@
}

pub open spec fn some_known(m: Seq<Word>) -> bool {
    exists|i: int| 0 <= i < m.len() && known(#[trigger] m[i])
}

/// Every known source language among `m` is `l`, and `l` occurs.
pub open spec fn only_known(m: Seq<Word>, l: Seq<char>) -> bool {
    &&& l != "auto"@
    &&& exists|i: int| 0 <= i < m.len() && (#[trigger] m[i]).source_language@ == l
    &&& forall|i: int| 0 <= i < m.len() && known(#[trigger] m[i]) ==> m[i].source_language@ == l
}

/// The source language a capture resolves to: an automatic capture adopts the
/// single known language of its matches; otherwise its own language.
pub open spec fn resolved_source(m: Seq<Word>, source: Seq<char>) -> Seq<char> {
    if source == "auto"@ && exists|l: Seq<char>| only_known(m, l) {
        choose|l: Seq<char>| only_known(m, l)
    } else {
        source
    }
}

/// Items captured with automatic detection may join the resolved language
/// when no other known language competes.
pub open spec fn allow_unknown(m: Seq<Word>, resolved: Seq<char>) -> bool {
    !some_known(m) || only_known(m, resolved)
}

pub open spec fn lemma_matches(all: Seq<Word>, lemma: Seq<char>) -> Seq<Word> {
    all.filter(|w: Word| lemma_match(w, lemma))
}

pub open spec fn joins(w: Word, resolved: Seq<char>, allow: bool) -> bool {
    w.source_language@ == resolved || (allow && w.source_language@ == "auto"@)
}

pub open spec fn joining(m: Seq<Word>, resolved: Seq<char>, allow: bool) -> Seq<Word> {
    m.filter(|w: Word| joins(w, resolved, allow))
}

/// The stored items that a capture refers to, in stored order.
pub open spec fn candidate_words(all: Seq<Word>, lemma: Seq<char>, source: Seq<char>) -> Seq<Word> {
    joining(
        lemma_matches(all, normalized(lemma)),
        resolved_source(lemma_matches(all, normalized(lemma)), normalized(source)),
        allow_unknown(
            lemma_matches(all, normalized(lemma)),
            resolved_source(lemma_matches(all, normalized(lemma)), normalized(source)),
        ),
    )
}

proof fn lemma_only_known_unique(m: Seq<Word>, a: Seq<char>, b: Seq<char>)
    requires
        only_known(m, a),
        only_known(m, b),
    ensures
        a == b,
{
    let i = choose|i: int| 0 <= i < m.len() && (#[trigger] m[i]).source_language@ == a;
    assert(known(m[i]));
}

fn copy_words(v: &Vec<Word>) -> (r: Vec<Word>)
    ensures
        r@ == v@,
{
    let mut r: Vec<Word> = Vec::new();
    let mut i: usize = 0;
    while i < v.len()
        invariant
            i <= v@.len(),
            r@ == v@.take(i as int),
        decreases v@.len() - i,
    {
        r.push(v[i].duplicate());
        assert(v@.take(i + 1) =~= v@.take(i as int).push(v@[i as int]));
        i = i + 1;
    }
    assert(v@.take(v@.len() as int) =~= v@);
    r
}

/// The live guest items with a lemma, in stored order.
fn matching_lemma(all: &Vec<Word>, lemma: &String) -> (r: Vec<Word>)
    ensures
        r@ == lemma_matches(all@, lemma@),
{
    let mut r: Vec<Word> = Vec::new();
    let mut i: usize = 0;
    while i < all.len()
        invariant
            i <= all@.len(),
            r@ == all@.take(i as int).filter(|w: Word| lemma_match(w, lemma@)),
        decreases all@.len() - i,
    {
        reveal_with_fuel(Seq::filter, 1);
        let w = &all[i];
        if w.deleted_at.is_none() && w.owner_scope == OwnerScope::Guest && w.lemma == *lemma {
            r.push(w.duplicate());
        }
        assert(all@.take(i + 1).drop_last() =~= all@.take(i as int));
        i = i + 1;
    }
    assert(all@.take(all@.len() as int) =~= all@);
    r
}

/// The words of `m` that join the resolved language, in order.
fn joining_words(m: &Vec<Word>, resolved: &String, allow: bool) -> (r: Vec<Word>)
    ensures
        r@ == joining(m@, resolved@, allow),
{
    let auto = String::from_str("auto");
    let mut r: Vec<Word> = Vec::new();
    let mut i: usize = 0;
    while i < m.len()
        invariant
            i <= m@.len(),
            auto@ == "auto"@,
            r@ == m@.take(i as int).filter(|w: Word| joins(w, resolved@, allow)),
        decreases m@.len() - i,
    {
        reveal_with_fuel(Seq::filter, 1);
        let w = &m[i];
        if w.source_language == *resolved || (allow && w.source_language == auto) {
            r.push(w.duplicate());
        }
        assert(m@.take(i + 1).drop_last() =~= m@.take(i as int));
        i = i + 1;
    }
    assert(m@.take(m@.len() as int) =~= m@);
    r
}

/// The stored items that a capture refers to. Items with the capture's lemma
/// are candidates when their source language is the resolved one; items
/// captured with automatic detection join unless another known language
/// competes.
pub fn candidates(all: &Vec<Word>, input: &CaptureRecord) -> (r: Vec<Word>)
    ensures
        r@ == candidate_words(all@, input.lemma@, input.source_language@),
{
    let lemma = normalize_lemma(input.lemma.as_str());
    let source = normalize_language(input.source_language.as_str());
    let m = matching_lemma(all, &lemma);
    let auto = String::from_str("auto");
    // The first known language, and whether a different known language exists.
    let mut first_known: Option<usize> = None;
    let mut mixed = false;
    let mut i: usize = 0;
    while i < m.len()
        invariant
            i <= m@.len(),
            auto@ == "auto"@,
            match first_known {
                None => !mixed && forall|j: int| 0 <= j < i ==> !known(#[trigger] m@[j]),
                Some(k) => k < i && known(m@[k as int]) && (forall|j: int| 0 <= j < k ==> !known(#[trigger] m@[j]))
                    && (!mixed ==> forall|j: int| 0 <= j < i && known(#[trigger] m@[j]) ==> m@[j].source_language@ == m@[k as int].source_language@)
                    && (mixed ==> exists|j: int| 0 <= j < m@.len() && known(#[trigger] m@[j]) && m@[j].source_language@ != m@[k as int].source_language@),
            },
        decreases m@.len() - i,
    {
        if m[i].source_language != auto {
            match first_known {
                None => {
                    first_known = Some(i);
                },
                Some(k) => {
                    if m[i].source_language != m[k].source_language {
                        mixed = true;
                    }
                },
            }
        }
        i = i + 1;
    }
    let ghost mv = m@;
    let single: Option<usize> = if mixed { None } else { first_known };
    proof {
        match single {
            Some(k) => {
                assert(only_known(mv, mv[k as int].source_language@));
            },
            None => {
                assert forall|l: Seq<char>| !only_known(mv, l) by {
                    if only_known(mv, l) {
                        match first_known {
                            Some(k) => {
                                let j = choose|j: int| 0 <= j < mv.len() && known(#[trigger] mv[j]) && mv[j].source_language@ != mv[k as int].source_language@;
                                assert(known(mv[k as int]));
                            },
                            None => {
                                let j = choose|j: int| 0 <= j < mv.len() && (#[trigger] mv[j]).source_language@ == l;
                                assert(known(mv[j]));
                            },
                        }
                    }
                }
            },
        }
    }
    let resolved = if source == auto && single.is_some() {
        let k = single.unwrap();
        proof {
            let l = choose|l: Seq<char>| only_known(mv, l);
            lemma_only_known_unique(mv, l, mv[k as int].source_language@);
        }
        m[k].source_language.clone()
    } else {
        source
    };
    let allow = match first_known {
        None => true,
        Some(k) => !mixed && m[k].source_language == resolved,
    };
    proof {
        let rv = resolved_source(mv, normalized(input.source_language@));
        assert(resolved@ == rv);
        match first_known {
            None => {
                assert(!some_known(mv));
            },
            Some(k) => {
                assert(some_known(mv));
                if allow {
                    assert(only_known(mv, resolved@));
                } else if only_known(mv, resolved@) {
                    if !mixed {
                        assert(known(mv[k as int]));
                    } else {
                        let j = choose|j: int| 0 <= j < mv.len() && known(#[trigger] mv[j]) && mv[j].source_language@ != mv[k as int].source_language@;
                        assert(known(mv[k as int]));
                    }
                }
            },
        }
        assert(allow == allow_unknown(mv, rv));
    }
    joining_words(&m, &resolved, allow)
}

/// A capture joins the live item that an earlier capture of the same lemma
/// in the same source language stored: that item is among its candidates,
/// so a repeated capture keeps one item and adds a context.
pub proof fn recapture_joins_the_stored_item(all: Seq<Word>, k: int, lemma: Seq<char>, source: Seq<char>)
    requires
        0 <= k < all.len(),
        lemma_match(all[k], normalized(lemma)),
        all[k].source_language@ == normalized(source),
    ensures
        candidate_words(all, lemma, source).contains(all[k]),
{
    let l = normalized(lemma);
    let m = lemma_matches(all, l);
    all.lemma_filter_contains(|w: Word| lemma_match(w, l), k);
    let j = choose|j: int| 0 <= j < m.len() && m[j] == all[k];
    let resolved = resolved_source(m, normalized(source));
    let allow = allow_unknown(m, resolved);
    if normalized(source) == "auto"@ && exists|x: Seq<char>| only_known(m, x) {
        assert(only_known(m, resolved));
        assert(allow);
    }
    assert(joins(m[j], resolved, allow));
    m.lemma_filter_contains(|w: Word| joins(w, resolved, allow), j);
}

/// The item a capture notice describes: an Achieved candidate first (a
/// Learning alias must not conceal it), otherwise the first candidate.
pub open spec fn notice_word(c: Seq<Word>) -> Option<Word> {
    if exists|i: int| 0 <= i < c.len() && (#[trigger] c[i]).achieved() {
        Some(c[choose|i: int| 0 <= i < c.len() && (#[trigger] c[i]).achieved() && forall|j: int| 0 <= j < i ==> !(#[trigger] c[j]).achieved()])
    } else if c.len() > 0 {
        Some(c[0])
    } else {
        None
    }
}

/// The matched item reported to the user before a capture is saved.
pub fn capture_match(all: &Vec<Word>, input: &CaptureRecord) -> (r: Option<Word>)
    ensures
        r == notice_word(candidate_words(all@, input.lemma@, input.source_language@)),
{
    let c = candidates(all, input);
    let mut i: usize = 0;
    while i < c.len()
        invariant
            i <= c@.len(),
            c@ == candidate_words(all@, input.lemma@, input.source_language@),
            forall|j: int| 0 <= j < i ==> !(#[trigger] c@[j]).achieved(),
        decreases c@.len() - i,
    {
        if c[i].is_achieved() {
            proof {
                assert(c@[i as int].achieved());
                assert(exists|i: int| 0 <= i < c@.len() && (#[trigger] c@[i]).achieved());
                assert(0 <= i < c@.len() && c@[i as int].achieved() && forall|j: int| 0 <= j < i ==> !(#[trigger] c@[j]).achieved());
                let k = choose|k: int| 0 <= k < c@.len() && (#[trigger] c@[k]).achieved() && forall|j: int| 0 <= j < k ==> !(#[trigger] c@[j]).achieved();
                if k < i {
                    assert(!c@[k].achieved());
                } else if k > i {
                    assert(!c@[i as int].achieved());
                }
                assert(k == i);
            }
            return Some(c[i].duplicate());
        }
        i = i + 1;
    }
    if c.len() > 0 {
        Some(c[0].duplicate())
    } else {
        None
    }
}


/// The prefix of the lemmas of old QA fixtures.
pub open spec fn fixture_prefix() -> Seq<char> {
    "qa-fixture-"@
}

/// The index of the first hyphen in a text.
pub open spec fn first_hyphen(s: Seq<char>) -> Option<int>
    decreases s.len(),
{
    if s.len() == 0 {
        None
    } else if s[0] == '-' {
        Some(0)
    } else {
        match first_hyphen(s.drop_first()) {
            Some(i) => Some(i + 1),
            None => None,
        }
    }
}

/// An old QA fixture lemma `qa-fixture-<n>-<text>` whose text is the item's
/// normalized display form (`<n>` a `u32`).
pub open spec fn fixture_lemma_of(lemma: Seq<char>, display: Seq<char>) -> bool {
    lemma.len() >= 11 && lemma.subrange(0, 11) == fixture_prefix() && ({
        let tail = lemma.subrange(11, lemma.len() as int);
        first_hyphen(tail) matches Some(k) && (crate::translation::parsed_u64(tail.subrange(0, k)) matches Some(n) && n <= u32::MAX)
            && tail.subrange(k + 1, tail.len() as int) == normalized(display)
    })
}

/// The lemma an item has after the identity reconciliation (an old QA
/// fixture takes its normalized display form, which is normalized again
/// with every lemma).
pub open spec fn reconciled_lemma(lemma: Seq<char>, display: Seq<char>) -> Seq<char> {
    if fixture_lemma_of(lemma, display) { normalized(normalized(display)) } else { normalized(lemma) }
}

proof fn lemma_first_hyphen(s: Seq<char>, k: int)
    requires
        0 <= k <= s.len(),
        forall|j: int| 0 <= j < k ==> s[j] != '-',
    ensures
        k < s.len() && s[k] == '-' ==> first_hyphen(s) == Some(k),
        k == s.len() ==> first_hyphen(s) is None,
    decreases k,
{
    if k > 0 {
        lemma_first_hyphen(s.drop_first(), k - 1);
    }
}

fn is_fixture_lemma(lemma: &str, display: &str) -> (r: bool)
    ensures
        r == fixture_lemma_of(lemma@, display@),
{
    proof {
        reveal_strlit("qa-fixture-");
    }
    let prefix = chars_of("qa-fixture-");
    assert(prefix@.len() == 11);
    let chars = chars_of(lemma);
    if chars.len() < 11 {
        return false;
    }
    let mut i: usize = 0;
    while i < 11
        invariant
            i <= 11 <= chars@.len(),
            prefix@ == fixture_prefix(),
            prefix@.len() == 11,
            chars@ == lemma@,
            forall|j: int| 0 <= j < i ==> chars@[j] == prefix@[j],
        decreases 11 - i,
    {
        if chars[i] != prefix[i] {
            proof {
                assert(chars@.subrange(0, 11)[i as int] != fixture_prefix()[i as int]);
                assert(lemma@.subrange(0, 11) != fixture_prefix());
            }
            return false;
        }
        i = i + 1;
    }
    proof {
        assert(chars@.subrange(0, 11) =~= fixture_prefix());
    }
    let ghost tail = chars@.subrange(11, chars@.len() as int);
    let mut k: usize = 11;
    while k < chars.len() && chars[k] != '-'
        invariant
            11 <= k <= chars@.len(),
            chars@ == lemma@,
            tail == chars@.subrange(11, chars@.len() as int),
            forall|j: int| 11 <= j < k ==> chars@[j] != '-',
        decreases chars.len() - k,
    {
        k = k + 1;
    }
    proof {
        assert forall|j: int| 0 <= j < k - 11 implies tail[j] != '-' by {
            assert(tail[j] == chars@[j + 11]);
        }
        lemma_first_hyphen(tail, k - 11);
    }
    if k == chars.len() {
        return false;
    }
    let number = text_of(&chars, 11, k);
    let n = crate::translation::parse_u64(number.as_str());
    let number_ok = match n {
        Some(v) => v <= 4294967295u64,
        None => false,
    };
    let text = text_of(&chars, k + 1, chars.len());
    let shown = normalize_lemma(display);
    proof {
        assert(tail.subrange(0, k - 11) =~= chars@.subrange(11, k as int));
        assert(tail.subrange(k - 11 + 1, tail.len() as int) =~= chars@.subrange(k + 1, chars@.len() as int));
    }
    number_ok && text == shown
}

/// An item as the identity reconciliation stores it: the lemma of an old QA
/// fixture becomes its display form, and lemma and source language are
/// normalized.
pub fn reconcile_identity(word: &mut Word)
    ensures
        final(word).lemma@ == reconciled_lemma(old(word).lemma@, old(word).display_form@),
        final(word).source_language@ == normalized(old(word).source_language@),
        *final(word) == (Word { lemma: final(word).lemma, source_language: final(word).source_language, ..*old(word) }),
{
    if is_fixture_lemma(word.lemma.as_str(), word.display_form.as_str()) {
        word.lemma = normalize_lemma(word.display_form.as_str());
    }
    word.lemma = normalize_lemma(word.lemma.as_str());
    word.source_language = normalize_language(word.source_language.as_str());
}


/// The source language of a resolved item: the first candidate's known
/// language, else the capture's normalized source language.
pub open spec fn resolved_language_of(candidates: Seq<Word>, input_source: Seq<char>) -> Seq<char> {
    if exists|i: int| 0 <= i < candidates.len() && known(#[trigger] candidates[i]) {
        candidates[choose|i: int| 0 <= i < candidates.len() && known(#[trigger] candidates[i])
            && forall|j: int| 0 <= j < i ==> !known(#[trigger] candidates[j])].source_language@
    } else {
        normalized(input_source)
    }
}

pub fn resolved_source_language(candidates: &Vec<Word>, input_source: &str) -> (r: String)
    ensures
        r@ == resolved_language_of(candidates@, input_source@),
{
    let auto = String::from_str("auto");
    proof {
        reveal_strlit("auto");
    }
    let mut i: usize = 0;
    while i < candidates.len()
        invariant
            i <= candidates@.len(),
            auto@ == "auto"@,
            forall|j: int| 0 <= j < i ==> !known(#[trigger] candidates@[j]),
        decreases candidates.len() - i,
    {
        if candidates[i].source_language != auto {
            proof {
                assert(known(candidates@[i as int]));
                let k = choose|k: int| 0 <= k < candidates@.len() && known(#[trigger] candidates@[k])
                    && forall|j: int| 0 <= j < k ==> !known(#[trigger] candidates@[j]);
                if k < i {
                    assert(!known(candidates@[k]));
                } else if k > i {
                    assert(!known(candidates@[i as int]));
                }
            }
            return candidates[i].source_language.clone();
        }
        i = i + 1;
    }
    normalize_language(input_source)
}

} // verus!
