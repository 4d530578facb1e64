//! Decisions of the Windows UI Automation selection provider that do not touch
//! the native APIs: sentence context, bounded discovery order and content-free
//! diagnostics.

use vstd::prelude::*;
use crate::platform::{PlatformError, PlatformErrorView};
use crate::text::{chars_of, concat, decimal, decimal_text, text_of, trim, trimmed};

verus! {

/// Characters that end a sentence in the supported scripts.
pub open spec fn sentence_end(c: char) -> bool {
    c == '.' || c == '!' || c == '?' || c == '\n' || c == '\r' || c == '。' || c == '！' || c == '？'
}

pub fn is_sentence_end(c: char) -> (r: bool)
    ensures
        r == sentence_end(c),
{
    c == '.' || c == '!' || c == '?' || c == '\n' || c == '\r' || c == '。' || c == '！' || c == '？'
}

/// `s` occurs in `d` at character index `i`.
pub open spec fn occurs_at(d: Seq<char>, s: Seq<char>, i: int) -> bool {
    0 <= i && i + s.len() <= d.len() && d.subrange(i, i + s.len()) == s
}

/// `s` occurs at least twice in `d` without overlapping.
pub open spec fn occurs_twice(d: Seq<char>, s: Seq<char>) -> bool {
    exists|i: int, j: int| #[trigger] occurs_at(d, s, i) && #[trigger] occurs_at(d, s, j) && i < j && j >= i + s.len()
}

/// `s` occurs exactly once in `d` (counting non-overlapping occurrences).
pub open spec fn occurs_once(d: Seq<char>, s: Seq<char>) -> bool {
    (exists|i: int| #[trigger] occurs_at(d, s, i)) && !occurs_twice(d, s)
}

/// `f` is the first occurrence of `s` in `d`.
pub open spec fn first_occurrence(d: Seq<char>, s: Seq<char>, f: int) -> bool {
    occurs_at(d, s, f) && forall|j: int| 0 <= j < f ==> !#[trigger] occurs_at(d, s, j)
}

/// Where the sentence around index `f` starts: just after the last sentence end
/// before `f`, or at the start of the document.
pub open spec fn sentence_start(d: Seq<char>, f: int, start: int) -> bool {
    &&& 0 <= start <= f
    &&& (start == 0 || sentence_end(d[start - 1]))
    &&& forall|k: int| start <= k < f ==> !sentence_end(#[trigger] d[k])
}

/// Where the sentence after index `e` ends: just after the first sentence end at
/// or after `e`, or at the end of the document.
pub open spec fn sentence_stop(d: Seq<char>, e: int, stop: int) -> bool {
    &&& e <= stop <= d.len()
    &&& (stop == d.len() && forall|k: int| e <= k < d.len() ==> !sentence_end(#[trigger] d[k])) || (
    e < stop && sentence_end(d[stop - 1]) && forall|k: int| e <= k < stop - 1 ==> !sentence_end(#[trigger] d[k]))
}

/// A non-empty text as an option.
pub open spec fn non_empty(t: Seq<char>) -> Option<Seq<char>> {
    if t.len() > 0 { Some(t) } else { None }
}

pub open spec fn option_view(o: Option<String>) -> Option<Seq<char>> {
    match o {
        Some(s) => Some(s@),
        None => None,
    }
}

fn matches_at(d: &Vec<char>, s: &Vec<char>, i: usize) -> (r: bool)
    ensures
        r == occurs_at(d@, s@, i as int),
{
    if i > d.len() || s.len() > d.len() - i {
        return false;
    }
    let m = s.len();
    let mut k: usize = 0;
    while k < m
        invariant
            m == s@.len(),
            i + m <= d@.len(),
            d@.len() == d.len(),
            k <= m,
            d@.subrange(i as int, i + k) == s@.subrange(0, k as int),
        decreases m - k,
    {
        if d[i + k] != s[k] {
            assert(d@.subrange(i as int, i + m)[k as int] != s@[k as int]);
            return false;
        }
        assert(d@.subrange(i as int, i + k + 1) == d@.subrange(i as int, i + k).push(d@[i + k]));
        assert(s@.subrange(0, k + 1) == s@.subrange(0, k as int).push(s@[k as int]));
        k = k + 1;
    }
    assert(s@.subrange(0, m as int) == s@);
    true
}

/// The first occurrence of `s` in `d` at or after `from`.
fn find_from(d: &Vec<char>, s: &Vec<char>, from: usize) -> (r: Option<usize>)
    ensures
        match r {
            Some(i) => from <= i && occurs_at(d@, s@, i as int) && forall|j: int| from <= j < i ==> !#[trigger] occurs_at(d@, s@, j),
            None => forall|j: int| from <= j ==> !#[trigger] occurs_at(d@, s@, j),
        },
{
    if s.len() > d.len() {
        return None;
    }
    let last = d.len() - s.len();
    let mut i = from;
    loop
        invariant
            last == d@.len() - s@.len(),
            from <= i,
            forall|j: int| from <= j < i ==> !#[trigger] occurs_at(d@, s@, j),
        decreases last + 1 - i,
    {
        if i > last {
            return None;
        }
        if matches_at(d, s, i) {
            return Some(i);
        }
        if i == last {
            return None;
        }
        i = i + 1;
    }
}

/// The sentence context of a selection: `r` is what [`sentence_containing`]
/// returns for the document and the selection.
pub open spec fn sentence_of(d: Seq<char>, s: Seq<char>, r: Option<Seq<char>>) -> bool {
    if !occurs_once(d, s) {
        r == non_empty(trimmed(d))
    } else {
        exists|f: int, start: int, stop: int|
            #![trigger first_occurrence(d, s, f), sentence_start(d, f, start), sentence_stop(d, f + s.len(), stop)]
            first_occurrence(d, s, f) && sentence_start(d, f, start) && sentence_stop(d, f + s.len(), stop)
                && r == non_empty(trimmed(d.subrange(start, stop)))
    }
}

/// The sentence of `document` that contains the selection. When the selection
/// does not occur exactly once, the whole (trimmed) context is kept rather than
/// guessing an occurrence.
pub fn sentence_containing(document: &str, selection: &str) -> (r: Option<String>)
    ensures
        sentence_of(document@, selection@, option_view(r)),
{
    let d = chars_of(document);
    let s = chars_of(selection);
    if s.len() == 0 {
        proof {
            if d@.len() > 0 {
                assert(d@.subrange(0, 0) =~= s@ && d@.subrange(1, 1) =~= s@);
                assert(occurs_at(d@, s@, 0) && occurs_at(d@, s@, 1));
            } else {
                assert(d@.subrange(0, 0) =~= s@);
                assert(occurs_at(d@, s@, 0));
                assert forall|i: int, j: int| #[trigger] occurs_at(d@, s@, i) && #[trigger] occurs_at(d@, s@, j) && i < j implies false by {}
                assert(first_occurrence(d@, s@, 0));
                assert(sentence_start(d@, 0, 0));
                assert(sentence_stop(d@, 0, 0));
                assert(d@.subrange(0, 0) =~= d@);
            }
        }
        let t = trim(document);
        return if t.unicode_len() > 0 { Some(t) } else { None };
    }
    let first = find_from(&d, &s, 0);
    let f = match first {
        None => {
            let t = trim(document);
            return if t.unicode_len() > 0 { Some(t) } else { None };
        },
        Some(f) => f,
    };
    let dlen = d.len();
    let slen = s.len();
    assert(f + slen <= dlen);
    let after = f + slen;
    let second = find_from(&d, &s, after);
    if second.is_some() {
        proof {
            let j = second->Some_0 as int;
            assert(occurs_at(d@, s@, f as int) && occurs_at(d@, s@, j));
        }
        let t = trim(document);
        return if t.unicode_len() > 0 { Some(t) } else { None };
    }
    proof {
        assert forall|i: int, j: int| #[trigger] occurs_at(d@, s@, i) && #[trigger] occurs_at(d@, s@, j) && i < j implies j < i + s@.len() by {
            if j >= i + s@.len() {
                assert(j >= f + s@.len());
                assert(!occurs_at(d@, s@, j));
            }
        }
    }
    // Scan back for the end of the previous sentence.
    let mut start = f;
    let mut at_boundary = false;
    while !at_boundary && start > 0
        invariant
            start <= f <= d@.len(),
            at_boundary ==> start > 0 && sentence_end(d@[start - 1]),
            forall|k: int| start <= k < f ==> !sentence_end(#[trigger] d@[k]),
        decreases start + (if at_boundary { 0int } else { 1int }),
    {
        if is_sentence_end(d[start - 1]) {
            at_boundary = true;
        } else {
            start = start - 1;
        }
    }
    // Scan forward for the end of this sentence.
    let mut stop = after;
    let mut found = false;
    while !found && stop < d.len()
        invariant
            after <= stop <= d@.len(),
            after == f + s@.len(),
            found ==> stop < d@.len() && sentence_end(d@[stop as int]),
            forall|k: int| after <= k < stop ==> !sentence_end(#[trigger] d@[k]),
        decreases d@.len() - stop + (if found { 0int } else { 1int }),
    {
        if is_sentence_end(d[stop]) {
            found = true;
        } else {
            stop = stop + 1;
        }
    }
    let end = if found { assert(stop < dlen); stop + 1 } else { stop };
    let t = text_of(&d, start, end);
    let t = trim(t.as_str());
    proof {
        assert(first_occurrence(d@, s@, f as int));
        assert(sentence_start(d@, f as int, start as int));
        assert(sentence_stop(d@, f + s@.len(), end as int));
    }
    if t.unicode_len() > 0 { Some(t) } else { None }
}

/// The normalized text of a captured selection: the sentence that gives it
/// context, or the selection itself when no sentence is found.
/// Whitespace-only selections are refused.
pub fn selection_sentence(selected_text: &str, document_text: &Option<String>) -> (r: Result<String, PlatformError>)
    ensures
        trimmed(selected_text@).len() == 0 ==> r is Err && r->Err_0@ == PlatformErrorView::EmptySelection,
        trimmed(selected_text@).len() > 0 ==> r is Ok && (match document_text {
            Some(d) => exists|o: Option<Seq<char>>| #[trigger] sentence_of(d@, selected_text@, o)
                && r->Ok_0@ == (match o { Some(t) => t, None => selected_text@ }),
            None => r->Ok_0@ == selected_text@,
        }),
{
    let t = trim(selected_text);
    if t.unicode_len() == 0 {
        return Err(PlatformError::EmptySelection);
    }
    match document_text {
        Some(d) => match sentence_containing(d.as_str(), selected_text) {
            Some(sentence) => Ok(sentence),
            None => Ok(String::from_str(selected_text)),
        },
        None => Ok(String::from_str(selected_text)),
    }
}

/// Bounds on the UI Automation tree walk around the focused element.
#[derive(Clone, Copy, Debug)]
pub struct TraversalLimits {
    pub max_depth: usize,
    pub max_nodes: usize,
    pub max_ancestors: usize,
}

/// The limits the selection provider uses.
pub fn traversal_limits() -> (l: TraversalLimits)
    ensures
        l.max_depth == 4 && l.max_nodes == 64 && l.max_ancestors == 4,
{
    TraversalLimits { max_depth: 4, max_nodes: 64, max_ancestors: 4 }
}

/// The children of a node in a fixture tree (none for unknown nodes).
pub open spec fn kids(children: Seq<&[usize]>, n: usize) -> Seq<usize> {
    if n < children.len() { children[n as int]@ } else { Seq::empty() }
}

/// The queue entries a visited entry adds: its children one level deeper,
/// unless the entry is already at the depth limit.
pub open spec fn expansion(children: Seq<&[usize]>, entry: (usize, usize), max_depth: usize) -> Seq<(usize, usize)> {
    if entry.1 < max_depth {
        kids(children, entry.0).map_values(|c: usize| (c, (entry.1 + 1) as usize))
    } else {
        Seq::empty()
    }
}

/// The breadth-first tape after `k` entries were visited: it starts with the
/// focused node at depth 0 and every visited entry appends its expansion.
pub open spec fn bfs_tape(children: Seq<&[usize]>, focused: usize, max_depth: usize, k: nat) -> Seq<(usize, usize)>
    decreases k,
{
    if k == 0 {
        seq![(focused, 0usize)]
    } else {
        let t = bfs_tape(children, focused, max_depth, (k - 1) as nat);
        if k - 1 < t.len() {
            t + expansion(children, t[k - 1], max_depth)
        } else {
            t
        }
    }
}

/// The breadth-first order in which discovery visits a fixture tree: nodes in
/// tape order, never more than `max_nodes`, never expanding below
/// `max_depth`, and stopping at the first selected node.
pub fn fixture_discovery_order(children: &[&[usize]], focused: usize, selected: Option<usize>, limits: TraversalLimits) -> (order: Vec<usize>)
    ensures
        order@.len() <= limits.max_nodes,
        order@.len() <= bfs_tape(children@, focused, limits.max_depth, order@.len()).len(),
        forall|i: int| 0 <= i < order@.len() ==> order@[i] == #[trigger] bfs_tape(children@, focused, limits.max_depth, order@.len())[i].0,
        forall|i: int| 0 <= i < order@.len() - 1 ==> selected != Some(#[trigger] order@[i]),
        order@.len() == limits.max_nodes
            || (order@.len() > 0 && selected == Some(order@[order@.len() - 1]))
            || order@.len() == bfs_tape(children@, focused, limits.max_depth, order@.len()).len(),
{
    let mut order: Vec<usize> = Vec::new();
    let mut queue: Vec<(usize, usize)> = Vec::new();
    queue.push((focused, 0));
    let mut head: usize = 0;
    let ghost tape0 = bfs_tape(children@, focused, limits.max_depth, 0);
    assert(queue@ =~= tape0);
    let mut done = false;
    while !done && head < queue.len()
        invariant
            queue@ == bfs_tape(children@, focused, limits.max_depth, head as nat),
            head <= queue@.len(),
            order@.len() == head,
            head <= limits.max_nodes,
            forall|i: int| 0 <= i < head ==> order@[i] == #[trigger] queue@[i].0,
            forall|i: int| 0 <= i < head - 1 ==> selected != Some(#[trigger] order@[i]),
            !done ==> forall|i: int| 0 <= i < head ==> selected != Some(#[trigger] order@[i]),
            done ==> head == limits.max_nodes || (head > 0 && selected == Some(order@[head - 1])),
        decreases limits.max_nodes - head, (if done { 0int } else { 1int }),
    {
        if head >= limits.max_nodes {
            done = true;
        } else {
            let (node, depth) = queue[head];
            order.push(node);
            let ghost t = queue@;
            if depth < limits.max_depth {
                let kid_list: &[usize] = if node < children.len() { children[node] } else { &[] };
                let n = kid_list.len();
                let mut j: usize = 0;
                while j < n
                    invariant
                        n == kid_list@.len(),
                        kid_list@ == kids(children@, node),
                        depth < limits.max_depth,
                        j <= n,
                        queue@ == t + kid_list@.take(j as int).map_values(|c: usize| (c, (depth + 1) as usize)),
                    decreases n - j,
                {
                    queue.push((kid_list[j], depth + 1));
                    assert(kid_list@.take(j + 1) == kid_list@.take(j as int).push(kid_list@[j as int]));
                    assert(kid_list@.take(j + 1).map_values(|c: usize| (c, (depth + 1) as usize)) =~= kid_list@.take(j as int).map_values(|c: usize| (c, (depth + 1) as usize)).push((kid_list@[j as int], (depth + 1) as usize)));
                    j = j + 1;
                }
                assert(kid_list@.take(n as int) == kid_list@);
            }
            proof {
                let tn = bfs_tape(children@, focused, limits.max_depth, (head + 1) as nat);
                assert(t[head as int] == (node, depth));
                assert(queue@ =~= tn);
                assert forall|i: int| 0 <= i < head + 1 implies order@[i] == #[trigger] queue@[i].0 by {
                    if i < head {
                        assert(queue@[i] == t[i]);
                    }
                }
            }
            head = head + 1;
            if selected == Some(node) {
                done = true;
            }
        }
    }
    order
}

/// Discovery never queues a node below the depth limit: every entry of the
/// breadth-first tape is at most `max_depth` deep.
pub proof fn discovery_respects_depth_limit(children: Seq<&[usize]>, focused: usize, max_depth: usize, k: nat)
    ensures
        forall|i: int| 0 <= i < bfs_tape(children, focused, max_depth, k).len()
            ==> (#[trigger] bfs_tape(children, focused, max_depth, k)[i]).1 <= max_depth,
    decreases k,
{
    if k > 0 {
        discovery_respects_depth_limit(children, focused, max_depth, (k - 1) as nat);
        let t = bfs_tape(children, focused, max_depth, (k - 1) as nat);
        if k - 1 < t.len() {
            let e = expansion(children, t[k - 1], max_depth);
            let all = bfs_tape(children, focused, max_depth, k);
            assert(all == t + e);
            assert forall|i: int| 0 <= i < all.len() implies (#[trigger] all[i]).1 <= max_depth by {
                if i >= t.len() {
                    assert(all[i] == e[i - t.len()]);
                }
            }
        }
    }
}

/// The number of UTF-16 code units of a text.
pub open spec fn utf16_units(s: Seq<char>) -> nat
    decreases s.len(),
{
    if s.len() == 0 {
        0
    } else {
        utf16_units(s.drop_last()) + if (s.last() as u32) < 0x10000 { 1nat } else { 2nat }
    }
}

/// The UTF-16 length of a selection, as the diagnostics report it.
pub fn utf16_length(s: &str) -> (n: usize)
    requires
        2 * s@.len() <= usize::MAX,
    ensures
        n == utf16_units(s@),
{
    let chars = crate::text::chars_of(s);
    let mut n: usize = 0;
    let mut i: usize = 0;
    while i < chars.len()
        invariant
            i <= chars@.len(),
            chars@ == s@,
            2 * s@.len() <= usize::MAX,
            n == utf16_units(chars@.take(i as int)),
            n <= 2 * i,
        decreases chars.len() - i,
    {
        assert(chars@.take(i + 1).drop_last() =~= chars@.take(i as int));
        if (chars[i] as u32) < 0x10000 {
            n = n + 1;
        } else {
            n = n + 2;
        }
        i = i + 1;
    }
    assert(chars@.take(chars@.len() as int) =~= chars@);
    n
}

/// Content-free diagnostics of one selection discovery.
#[derive(Debug)]
pub struct DiscoveryDiagnostics {
    pub pattern: Option<&'static str>,
    pub examined_nodes: usize,
    pub traversal_capped: bool,
    pub selected_utf16_length: usize,
    pub rectangle_count: usize,
    pub has_source_app: bool,
    pub has_source_title: bool,
    pub outcome: &'static str,
}

pub open spec fn bool_word(b: bool) -> Seq<char> {
    if b { "true"@ } else { "false"@ }
}

fn bool_text(b: bool) -> (r: String)
    ensures
        r@ == bool_word(b),
{
    if b { String::from_str("true") } else { String::from_str("false") }
}

fn append_decimal(line: &mut String, n: usize)
    ensures
        final(line)@ == old(line)@ + decimal(n as nat),
{
    let t = decimal_text(n as u64);
    line.append(t.as_str());
}

impl DiscoveryDiagnostics {
    /// The one-line diagnostic: only lengths, counts and flags, never captured text.
    pub open spec fn line(&self) -> Seq<char> {
        "uia_selection outcome="@ + self.outcome@ + " pattern="@ + (match self.pattern {
            Some(p) => p@,
            None => "none"@,
        }) + " examined_nodes="@ + decimal(self.examined_nodes as nat) + " traversal_capped="@
            + bool_word(self.traversal_capped) + " selected_utf16_length="@ + decimal(
            self.selected_utf16_length as nat) + " rectangle_count="@ + decimal(self.rectangle_count as nat)
            + " source_app_present="@ + bool_word(self.has_source_app) + " source_title_present="@
            + bool_word(self.has_source_title)
    }

    pub fn to_line(&self) -> (r: String)
        ensures
            r@ == self.line(),
    {
        let mut line = String::from_str("uia_selection outcome=");
        line.append(self.outcome);
        line.append(" pattern=");
        match self.pattern {
            Some(p) => line.append(p),
            None => line.append("none"),
        }
        line.append(" examined_nodes=");
        append_decimal(&mut line, self.examined_nodes);
        line.append(" traversal_capped=");
        let b = bool_text(self.traversal_capped);
        line.append(b.as_str());
        line.append(" selected_utf16_length=");
        append_decimal(&mut line, self.selected_utf16_length);
        line.append(" rectangle_count=");
        append_decimal(&mut line, self.rectangle_count);
        line.append(" source_app_present=");
        let b = bool_text(self.has_source_app);
        line.append(b.as_str());
        line.append(" source_title_present=");
        let b = bool_text(self.has_source_title);
        line.append(b.as_str());
        line
    }
}

} // verus!
