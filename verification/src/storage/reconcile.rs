//! The identity reconciliation of an upgraded store: every item is
//! normalized and the items that share a deduplication key are grouped, in
//! ascending order of their keys, to be merged into one.

use vstd::prelude::*;
use vstd::multiset::Multiset;
use crate::domain::Word;
use crate::storage::identity::{dedupe_key, dedupe_key_of, reconcile_identity, reconciled_lemma, normalized, scoped_key, scoped_key_of};
use crate::text::chars_of;

verus! {

broadcast use vstd::multiset::group_multiset_axioms;

/// `a` and `b` agree on their first `k` characters.
pub open spec fn agree_below(a: Seq<char>, b: Seq<char>, k: int) -> bool {
    0 <= k <= a.len() && k <= b.len() && forall|j: int| 0 <= j < k ==> a[j] == b[j]
}

/// The order of texts by code point, as `str` orders them: at the first
/// difference the smaller character wins, and a proper prefix comes first.
pub open spec fn text_before(a: Seq<char>, b: Seq<char>) -> bool {
    exists|k: int| #[trigger] agree_below(a, b, k) && ((k == a.len() && k < b.len()) || (k < a.len() && k < b.len() && a[k] < b[k]))
}

proof fn lemma_before_transitive(a: Seq<char>, b: Seq<char>, c: Seq<char>)
    requires
        text_before(a, b),
        text_before(b, c),
    ensures
        text_before(a, c),
{
    let i = choose|k: int| #[trigger] agree_below(a, b, k) && ((k == a.len() && k < b.len()) || (k < a.len() && k < b.len() && a[k] < b[k]));
    let j = choose|k: int| #[trigger] agree_below(b, c, k) && ((k == b.len() && k < c.len()) || (k < b.len() && k < c.len() && b[k] < c[k]));
    if i <= j {
        assert(agree_below(a, c, i));
    } else {
        assert(agree_below(a, c, j));
    }
}

/// Compares two texts: -1 when `a` comes first, 0 when they are equal, 1
/// when `b` comes first.
fn compare_texts(a: &Vec<char>, b: &Vec<char>) -> (c: i8)
    ensures
        c == -1 || c == 0 || c == 1,
        c == -1 ==> text_before(a@, b@),
        c == 0 ==> a@ == b@,
        c == 1 ==> text_before(b@, a@),
{
    let mut i: usize = 0;
    while i < a.len() && i < b.len() && a[i] == b[i]
        invariant
            agree_below(a@, b@, i as int),
        decreases a.len() - i,
    {
        i = i + 1;
    }
    proof {
        assert(agree_below(b@, a@, i as int));
    }
    if i == a.len() && i == b.len() {
        assert(a@ =~= b@);
        0
    } else if i == a.len() {
        -1
    } else if i == b.len() {
        1
    } else if a[i] < b[i] {
        -1
    } else {
        1
    }
}

/// The key under which the reconciliation groups an item.
pub open spec fn reconciliation_key(w: Word) -> Seq<char> {
    scoped_key_of(w, dedupe_key_of(w.lemma@, w.source_language@))
}

fn key_of(w: &Word) -> (k: Vec<char>)
    ensures
        k@ == reconciliation_key(*w),
{
    let d = dedupe_key(w.lemma.as_str(), w.source_language.as_str());
    let s = scoped_key(w, d.as_str());
    chars_of(s.as_str())
}

/// The items that share one key.
pub struct IdentityGroup {
    pub key: Vec<char>,
    pub words: Vec<Word>,
}

/// All members of a list of groups, as a multiset.
pub open spec fn pooled(g: Seq<IdentityGroup>) -> Multiset<Word>
    decreases g.len(),
{
    if g.len() == 0 {
        Multiset::empty()
    } else {
        pooled(g.drop_last()).add(g.last().words@.to_multiset())
    }
}

proof fn lemma_pooled_update(g: Seq<IdentityGroup>, i: int, x: IdentityGroup)
    requires
        0 <= i < g.len(),
    ensures
        pooled(g.update(i, x)).add(g[i].words@.to_multiset()) == pooled(g).add(x.words@.to_multiset()),
    decreases g.len(),
{
    let u = g.update(i, x);
    let gi = g[i].words@.to_multiset();
    let xm = x.words@.to_multiset();
    let dl = g.drop_last();
    if i == g.len() - 1 {
        assert(u.drop_last() =~= dl);
        assert(u.last() == x);
        assert(pooled(u) == pooled(dl).add(xm));
        assert(pooled(g) == pooled(dl).add(gi));
        assert forall|v: Word| #[trigger] pooled(u).add(gi).count(v) == pooled(g).add(xm).count(v) by {
            assert(pooled(u).add(gi).count(v) == pooled(u).count(v) + gi.count(v));
            assert(pooled(u).count(v) == pooled(dl).count(v) + xm.count(v));
            assert(pooled(g).count(v) == pooled(dl).count(v) + gi.count(v));
        }
    } else {
        let lm = g.last().words@.to_multiset();
        assert(u.drop_last() =~= dl.update(i, x));
        assert(u.last() == g.last());
        lemma_pooled_update(dl, i, x);
        assert(dl[i] == g[i]);
        assert(pooled(u) == pooled(dl.update(i, x)).add(lm));
        assert(pooled(g) == pooled(dl).add(lm));
        assert forall|v: Word| #[trigger] pooled(u).add(gi).count(v) == pooled(g).add(xm).count(v) by {
            assert(pooled(u).add(gi).count(v) == pooled(u).count(v) + gi.count(v));
            assert(pooled(u).count(v) == pooled(dl.update(i, x)).count(v) + lm.count(v));
            assert(pooled(dl.update(i, x)).add(gi).count(v) == pooled(dl).add(xm).count(v));
            assert(pooled(dl.update(i, x)).add(gi).count(v) == pooled(dl.update(i, x)).count(v) + gi.count(v));
            assert(pooled(dl).add(xm).count(v) == pooled(dl).count(v) + xm.count(v));
            assert(pooled(g).count(v) == pooled(dl).count(v) + lm.count(v));
        }
    }
    assert(pooled(u).add(gi) =~= pooled(g).add(xm));
}

proof fn lemma_pooled_insert(g: Seq<IdentityGroup>, p: int, x: IdentityGroup)
    requires
        0 <= p <= g.len(),
    ensures
        pooled(g.insert(p, x)) == pooled(g).add(x.words@.to_multiset()),
    decreases g.len(),
{
    let s = g.insert(p, x);
    if p == g.len() {
        assert(s.drop_last() =~= g);
        assert(s.last() == x);
    } else {
        assert(s.drop_last() =~= g.drop_last().insert(p, x));
        assert(s.last() == g.last());
        lemma_pooled_insert(g.drop_last(), p, x);
    }
    assert(pooled(s) =~= pooled(g).add(x.words@.to_multiset()));
}

/// Groups in ascending order of distinct keys, each with at least one member
/// and only members of its key.
pub open spec fn well_grouped(g: Seq<IdentityGroup>) -> bool {
    &&& forall|i: int, j: int| 0 <= i < j < g.len() ==> text_before(#[trigger] g[i].key@, #[trigger] g[j].key@)
    &&& forall|i: int| 0 <= i < g.len() ==> (#[trigger] g[i]).words@.len() > 0
    &&& forall|i: int, m: int| 0 <= i < g.len() && 0 <= m < g[i].words@.len()
        ==> reconciliation_key(#[trigger] g[i].words@[m]) == g[i].key@
}

fn add_to_groups(groups: &mut Vec<IdentityGroup>, w: Word)
    requires
        well_grouped(old(groups)@),
    ensures
        well_grouped(final(groups)@),
        pooled(final(groups)@) == pooled(old(groups)@).insert(w),
{
    let k = key_of(&w);
    let mut p: usize = 0;
    while p < groups.len() && compare_texts(&k, &groups[p].key) == 1
        invariant
            p <= groups@.len(),
            k@ == reconciliation_key(w),
            forall|i: int| 0 <= i < p ==> text_before(#[trigger] groups@[i].key@, k@),
        decreases groups.len() - p,
    {
        p = p + 1;
    }
    let c: i8 = if p < groups.len() { compare_texts(&k, &groups[p].key) } else { -1 };
    let ghost before = groups@;
    if p < groups.len() && c == 0 {
        let mut g = groups.remove(p);
        let ghost old_group = g;
        assert(old_group == before[p as int]);
        g.words.push(w);
        let ghost new_group = g;
        groups.insert(p, g);
        proof {
            assert(groups@ =~= before.update(p as int, new_group));
            lemma_pooled_update(before, p as int, new_group);
            assert(new_group.words@ == old_group.words@.push(w));
            vstd::seq_lib::to_multiset_build(old_group.words@, w);
            let o = old_group.words@.to_multiset();
            assert(pooled(groups@).add(o) == pooled(before).add(o.insert(w)));
            assert forall|v: Word| #[trigger] pooled(groups@).count(v) == pooled(before).insert(w).count(v) by {
                assert(pooled(groups@).add(o).count(v) == pooled(before).add(o.insert(w)).count(v));
                assert(pooled(groups@).add(o).count(v) == pooled(groups@).count(v) + o.count(v));
                assert(pooled(before).add(o.insert(w)).count(v) == pooled(before).count(v) + o.insert(w).count(v));
            }
            assert(pooled(groups@) =~= pooled(before).insert(w));
            assert forall|i: int, m: int| 0 <= i < groups@.len() && 0 <= m < groups@[i].words@.len()
                implies reconciliation_key(#[trigger] groups@[i].words@[m]) == groups@[i].key@ by {
                if i == p {
                    if m < old_group.words@.len() {
                        assert(groups@[i].words@[m] == old_group.words@[m]);
                    }
                }
            }
        }
    } else {
        let mut words: Vec<Word> = Vec::new();
        words.push(w);
        let g = IdentityGroup { key: k, words };
        let ghost new_group = g;
        groups.insert(p, g);
        proof {
            lemma_pooled_insert(before, p as int, new_group);
            assert(new_group.words@ =~= seq![w]);
            vstd::seq_lib::to_multiset_build(Seq::<Word>::empty(), w);
            assert(Seq::<Word>::empty().push(w) =~= seq![w]);
            Seq::<Word>::empty().to_multiset_ensures();
            assert(pooled(groups@) =~= pooled(before).insert(w));
            let s = groups@;
            assert forall|i: int, j: int| 0 <= i < j < s.len() implies text_before(#[trigger] s[i].key@, #[trigger] s[j].key@) by {
                if j < p {
                    assert(s[i] == before[i] && s[j] == before[j]);
                } else if j == p {
                    assert(s[i] == before[i]);
                } else if i == p {
                    assert(s[j] == before[j - 1]);
                    assert(text_before(k@, before[p as int].key@));
                    if j - 1 > p {
                        lemma_before_transitive(k@, before[p as int].key@, before[j - 1].key@);
                    }
                } else if i < p {
                    assert(s[i] == before[i] && s[j] == before[j - 1]);
                    assert(text_before(before[i].key@, k@));
                    assert(text_before(k@, before[p as int].key@));
                    lemma_before_transitive(before[i].key@, k@, before[p as int].key@);
                    if j - 1 > p {
                        lemma_before_transitive(before[i].key@, before[p as int].key@, before[j - 1].key@);
                    }
                } else {
                    assert(s[i] == before[i - 1] && s[j] == before[j - 1]);
                }
            }
            assert forall|i: int, m: int| 0 <= i < s.len() && 0 <= m < s[i].words@.len()
                implies reconciliation_key(#[trigger] s[i].words@[m]) == s[i].key@ by {
                if i < p {
                    assert(s[i] == before[i]);
                } else if i > p {
                    assert(s[i] == before[i - 1]);
                }
            }
            assert forall|i: int| 0 <= i < s.len() implies (#[trigger] s[i]).words@.len() > 0 by {
                if i < p {
                    assert(s[i] == before[i]);
                } else if i > p {
                    assert(s[i] == before[i - 1]);
                }
            }
        }
    }
}

/// An item as the reconciliation stores it, relative to the item before.
pub open spec fn reconciled(after: Word, before: Word) -> bool {
    &&& after.lemma@ == reconciled_lemma(before.lemma@, before.display_form@)
    &&& after.source_language@ == normalized(before.source_language@)
    &&& after == (Word { lemma: after.lemma, source_language: after.source_language, ..before })
}

/// Reconciles every item and groups the items by key: the groups come in
/// ascending order of distinct keys, each holds only items of its key, and
/// together they hold exactly the reconciled items.
pub fn identity_groups(words: &Vec<Word>) -> (groups: Vec<IdentityGroup>)
    ensures
        well_grouped(groups@),
        exists|r: Seq<Word>| #![trigger r.to_multiset()]
            r.len() == words@.len() && (forall|i: int| 0 <= i < r.len() ==> reconciled(#[trigger] r[i], words@[i]))
                && pooled(groups@) == r.to_multiset(),
{
    let mut groups: Vec<IdentityGroup> = Vec::new();
    let ghost mut done: Seq<Word> = Seq::empty();
    proof {
        Seq::<Word>::empty().to_multiset_ensures();
        assert(pooled(groups@) =~= done.to_multiset());
    }
    let mut i: usize = 0;
    while i < words.len()
        invariant
            i <= words@.len(),
            done.len() == i,
            forall|j: int| 0 <= j < i ==> reconciled(#[trigger] done[j], words@[j]),
            well_grouped(groups@),
            pooled(groups@) == done.to_multiset(),
        decreases words.len() - i,
    {
        let mut w = words[i].duplicate();
        reconcile_identity(&mut w);
        let ghost fixed = w;
        add_to_groups(&mut groups, w);
        proof {
            vstd::seq_lib::to_multiset_build(done, fixed);
            done = done.push(fixed);
        }
        i = i + 1;
    }
    groups
}

} // verus!
