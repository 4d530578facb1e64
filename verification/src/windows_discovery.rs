//! The bounded search for a selection near the focused UI Automation
//! element, as a state machine: the caller walks the native tree and reports
//! what it found; the walk decides what to look at next. Nearby ancestors
//! come first (they often own the document's text pattern), then the
//! focused subtree breadth-first, within depth and node budgets.

use vstd::prelude::*;
use crate::platform::{PlatformError, PlatformErrorView};
use crate::windows_selection::{DiscoveryDiagnostics, TraversalLimits};

verus! {

/// What inspecting one element found.
#[derive(Clone, Copy, Debug, PartialEq, Eq, Structural)]
pub enum Inspection {
    /// A text pattern with a non-blank selection.
    Selected,
    /// A text pattern without a usable selection.
    EmptySelection,
    /// No text pattern at all.
    NoTextPattern,
}

/// What the caller does next.
#[derive(Clone, Copy, Debug, PartialEq, Eq, Structural)]
pub enum WalkRequest {
    /// Fetch the parent of the current ancestor; answer with `parent_found`.
    Parent,
    /// Inspect the parent just fetched; answer with `inspected`.
    InspectParent,
    /// Fetch the first child of the focused element; answer with `child_found`.
    FirstChildOfFocused,
    /// Fetch the first child of the element just inspected (its children
    /// are at the given depth); answer with `child_found`.
    FirstChildOfInspected(usize),
    /// Queue the child just fetched at the given depth, then fetch its next
    /// sibling; answer with `child_found`.
    QueueAndNextSibling(usize),
    /// Take the front of the queue (at the given depth) and inspect it;
    /// answer with `inspected`.
    InspectNext(usize),
    /// The last inspected element holds the selection.
    Found,
    /// No selection was found.
    Exhausted,
}

/// The state of a walk.
pub struct DiscoveryWalk {
    pub limits: TraversalLimits,
    pub examined_nodes: usize,
    pub saw_text_pattern: bool,
    pub traversal_capped: bool,
    pub ancestors_visited: usize,
    /// The depths of the queued elements, front first.
    pub queue: Vec<usize>,
    pub request: WalkRequest,
}

/// The mathematical value of a walk.
pub struct WalkView {
    pub limits: TraversalLimits,
    pub examined_nodes: nat,
    pub saw_text_pattern: bool,
    pub traversal_capped: bool,
    pub ancestors_visited: nat,
    pub queue: Seq<usize>,
    pub request: WalkRequest,
}

impl View for DiscoveryWalk {
    type V = WalkView;

    open spec fn view(&self) -> WalkView {
        WalkView {
            limits: self.limits,
            examined_nodes: self.examined_nodes as nat,
            saw_text_pattern: self.saw_text_pattern,
            traversal_capped: self.traversal_capped,
            ancestors_visited: self.ancestors_visited as nat,
            queue: self.queue@,
            request: self.request,
        }
    }
}

/// The next step of the breadth-first phase: stop when the queue is empty or
/// the node budget is spent (the latter caps the walk), else inspect the
/// front of the queue.
pub open spec fn queue_step(s: WalkView) -> WalkView {
    if s.queue.len() == 0 {
        WalkView { request: WalkRequest::Exhausted, ..s }
    } else if s.examined_nodes >= s.limits.max_nodes {
        WalkView { queue: s.queue.remove(0), traversal_capped: true, request: WalkRequest::Exhausted, ..s }
    } else {
        WalkView { queue: s.queue.remove(0), request: WalkRequest::InspectNext(s.queue[0]), ..s }
    }
}

/// The start of the focused subtree: its children are queued when depth and
/// budget allow.
pub open spec fn subtree_step(s: WalkView) -> WalkView {
    if s.limits.max_depth > 0 && s.examined_nodes < s.limits.max_nodes {
        WalkView { request: WalkRequest::FirstChildOfFocused, ..s }
    } else {
        queue_step(s)
    }
}

/// The next step of the ancestor phase.
pub open spec fn ancestor_step(s: WalkView) -> WalkView {
    if s.ancestors_visited < s.limits.max_ancestors {
        if s.examined_nodes >= s.limits.max_nodes {
            subtree_step(WalkView { traversal_capped: true, ..s })
        } else {
            WalkView { request: WalkRequest::Parent, ..s }
        }
    } else {
        subtree_step(s)
    }
}

/// The walk's invariant: the node budget is never exceeded (the focused
/// element itself always counts), queued elements never lie below the depth
/// limit, and an inspection is only requested within the budget.
pub open spec fn walk_ok(s: WalkView) -> bool {
    let budget = if s.limits.max_nodes >= 1 { s.limits.max_nodes as nat } else { 1nat };
    &&& s.examined_nodes >= 1
    &&& s.examined_nodes + s.queue.len() + (if s.request is InspectNext { 1nat } else { 0nat }) <= budget
    &&& forall|i: int| 0 <= i < s.queue.len() ==> 1 <= #[trigger] s.queue[i] <= s.limits.max_depth
    &&& (s.request is InspectParent || s.request is InspectNext) ==> s.examined_nodes < s.limits.max_nodes
    &&& s.request matches WalkRequest::InspectNext(d) ==> 1 <= d <= s.limits.max_depth
    &&& s.request matches WalkRequest::FirstChildOfInspected(d) ==> 1 <= d <= s.limits.max_depth
    &&& s.request matches WalkRequest::QueueAndNextSibling(d) ==> 1 <= d <= s.limits.max_depth
    &&& s.request is FirstChildOfFocused ==> s.limits.max_depth >= 1
    &&& s.request is Parent ==> s.examined_nodes < s.limits.max_nodes
    &&& (s.request is Parent || s.request is InspectParent) ==> s.queue.len() == 0 && s.ancestors_visited < s.limits.max_ancestors
    &&& s.request is QueueAndNextSibling ==> s.examined_nodes + s.queue.len() < s.limits.max_nodes
}

/// The walk after the caller reported whether the current ancestor has a
/// parent.
pub open spec fn after_parent(s: WalkView, found: bool) -> WalkView {
    if found { WalkView { request: WalkRequest::InspectParent, ..s } } else { subtree_step(s) }
}

/// The walk after an inspection.
pub open spec fn after_inspection(s: WalkView, result: Inspection) -> WalkView {
    let t = WalkView {
        examined_nodes: s.examined_nodes + 1,
        saw_text_pattern: s.saw_text_pattern || result == Inspection::EmptySelection,
        ..s
    };
    if result == Inspection::Selected {
        WalkView { request: WalkRequest::Found, ..t }
    } else {
        match s.request {
            WalkRequest::InspectNext(d) => if d >= s.limits.max_depth {
                queue_step(WalkView { traversal_capped: true, ..t })
            } else {
                WalkView { request: WalkRequest::FirstChildOfInspected((d + 1) as usize), ..t }
            },
            _ => ancestor_step(WalkView { ancestors_visited: s.ancestors_visited + 1, ..t }),
        }
    }
}

/// The depth of the children being listed.
pub open spec fn listed_depth(r: WalkRequest) -> usize {
    match r {
        WalkRequest::FirstChildOfInspected(d) => d,
        WalkRequest::QueueAndNextSibling(d) => d,
        _ => 1,
    }
}

/// The walk after the caller reported whether there is a (next) child. A
/// child is queued only while the queue and the examined nodes stay under
/// the node budget; otherwise the walk is capped.
pub open spec fn after_child(s: WalkView, found: bool) -> WalkView {
    let s1 = match s.request {
        WalkRequest::QueueAndNextSibling(d) => WalkView { queue: s.queue.push(d), ..s },
        _ => s,
    };
    if !found {
        queue_step(s1)
    } else if s1.examined_nodes + s1.queue.len() >= s1.limits.max_nodes {
        queue_step(WalkView { traversal_capped: true, ..s1 })
    } else {
        WalkView { request: WalkRequest::QueueAndNextSibling(listed_depth(s.request)), ..s1 }
    }
}

proof fn lemma_queue_step_ok(s: WalkView)
    requires
        walk_ok(WalkView { request: WalkRequest::Exhausted, ..s }),
    ensures
        walk_ok(queue_step(s)),
{
    if s.queue.len() > 0 {
        let q = s.queue.remove(0);
        assert forall|i: int| 0 <= i < q.len() implies 1 <= #[trigger] q[i] <= s.limits.max_depth by {
            assert(q[i] == s.queue[i + 1]);
        }
    }
}

proof fn lemma_subtree_step_ok(s: WalkView)
    requires
        walk_ok(WalkView { request: WalkRequest::Exhausted, ..s }),
    ensures
        walk_ok(subtree_step(s)),
{
    lemma_queue_step_ok(s);
}

proof fn lemma_ancestor_step_ok(s: WalkView)
    requires
        walk_ok(WalkView { request: WalkRequest::Exhausted, ..s }),
        s.queue.len() == 0,
    ensures
        walk_ok(ancestor_step(s)),
{
    lemma_subtree_step_ok(s);
    lemma_subtree_step_ok(WalkView { traversal_capped: true, ..s });
}

impl DiscoveryWalk {
    /// The walk after the focused element was inspected: a selection there
    /// needs no walk; otherwise the ancestors are visited first.
    pub fn start(limits: TraversalLimits, focused: Inspection) -> (w: DiscoveryWalk)
        ensures
            walk_ok(w@),
            w@.examined_nodes == 1,
            w@.limits == limits,
            focused == Inspection::Selected ==> w@.request == WalkRequest::Found && !w@.traversal_capped,
            focused != Inspection::Selected ==> w@ == ancestor_step(WalkView {
                limits,
                examined_nodes: 1,
                saw_text_pattern: focused == Inspection::EmptySelection,
                traversal_capped: false,
                ancestors_visited: 0,
                queue: Seq::empty(),
                request: WalkRequest::Exhausted,
            }),
    {
        let mut w = DiscoveryWalk {
            limits,
            examined_nodes: 1,
            saw_text_pattern: focused == Inspection::EmptySelection,
            traversal_capped: false,
            ancestors_visited: 0,
            queue: Vec::new(),
            request: WalkRequest::Found,
        };
        if focused != Inspection::Selected {
            proof {
                lemma_ancestor_step_ok(WalkView { request: WalkRequest::Exhausted, ..w@ });
                assert(w@.queue =~= Seq::empty());
            }
            w.ancestor_step();
        }
        w
    }

    fn queue_step(&mut self)
        requires
            walk_ok(WalkView { request: WalkRequest::Exhausted, ..old(self)@ }),
        ensures
            final(self)@ == queue_step(old(self)@),
    {
        if self.queue.len() == 0 {
            self.request = WalkRequest::Exhausted;
        } else {
            let d = self.queue.remove(0);
            if self.examined_nodes >= self.limits.max_nodes {
                self.traversal_capped = true;
                self.request = WalkRequest::Exhausted;
            } else {
                self.request = WalkRequest::InspectNext(d);
            }
        }
    }

    fn subtree_step(&mut self)
        requires
            walk_ok(WalkView { request: WalkRequest::Exhausted, ..old(self)@ }),
        ensures
            final(self)@ == subtree_step(old(self)@),
    {
        if self.limits.max_depth > 0 && self.examined_nodes < self.limits.max_nodes {
            self.request = WalkRequest::FirstChildOfFocused;
        } else {
            self.queue_step();
        }
    }

    fn ancestor_step(&mut self)
        requires
            walk_ok(WalkView { request: WalkRequest::Exhausted, ..old(self)@ }),
            old(self)@.queue.len() == 0,
        ensures
            final(self)@ == ancestor_step(old(self)@),
    {
        if self.ancestors_visited < self.limits.max_ancestors {
            if self.examined_nodes >= self.limits.max_nodes {
                self.traversal_capped = true;
                self.subtree_step();
            } else {
                self.request = WalkRequest::Parent;
            }
        } else {
            self.subtree_step();
        }
    }

    /// Reports whether the current ancestor has a parent.
    pub fn parent_found(&mut self, found: bool)
        requires
            walk_ok(old(self)@),
            old(self)@.request == WalkRequest::Parent,
        ensures
            walk_ok(final(self)@),
            final(self)@ == after_parent(old(self)@, found),
    {
        if found {
            self.request = WalkRequest::InspectParent;
        } else {
            proof {
                lemma_subtree_step_ok(self@);
            }
            self.subtree_step();
        }
    }

    /// Reports what inspecting the requested element found.
    pub fn inspected(&mut self, result: Inspection)
        requires
            walk_ok(old(self)@),
            old(self)@.request is InspectParent || old(self)@.request is InspectNext,
        ensures
            walk_ok(final(self)@),
            final(self)@ == after_inspection(old(self)@, result),
    {
        let ghost s = self@;
        self.examined_nodes = self.examined_nodes + 1;
        if result == Inspection::EmptySelection {
            self.saw_text_pattern = true;
        }
        if result == Inspection::Selected {
            self.request = WalkRequest::Found;
            return;
        }
        match self.request {
            WalkRequest::InspectNext(d) => {
                if d >= self.limits.max_depth {
                    self.traversal_capped = true;
                    proof {
                        lemma_queue_step_ok(WalkView { request: WalkRequest::Exhausted, ..self@ });
                    }
                    self.queue_step();
                } else {
                    self.request = WalkRequest::FirstChildOfInspected(d + 1);
                }
            },
            _ => {
                self.ancestors_visited = self.ancestors_visited + 1;
                proof {
                    lemma_ancestor_step_ok(WalkView { request: WalkRequest::Exhausted, ..self@ });
                }
                self.ancestor_step();
            },
        }
    }

    /// Reports whether the requested child or sibling exists.
    pub fn child_found(&mut self, found: bool)
        requires
            walk_ok(old(self)@),
            old(self)@.request is FirstChildOfFocused || old(self)@.request is FirstChildOfInspected
                || old(self)@.request is QueueAndNextSibling,
        ensures
            walk_ok(final(self)@),
            final(self)@ == after_child(old(self)@, found),
    {
        let ghost s = self@;
        let depth = match self.request {
            WalkRequest::FirstChildOfInspected(d) => d,
            WalkRequest::QueueAndNextSibling(d) => d,
            _ => 1,
        };
        if let WalkRequest::QueueAndNextSibling(d) = self.request {
            self.queue.push(d);
        }
        proof {
            assert forall|i: int| 0 <= i < self.queue@.len() implies 1 <= #[trigger] self.queue@[i] <= self.limits.max_depth by {
                if i < s.queue.len() {
                    assert(self.queue@[i] == s.queue[i]);
                }
            }
        }
        if !found {
            proof {
                lemma_queue_step_ok(WalkView { request: WalkRequest::Exhausted, ..self@ });
            }
            self.queue_step();
        } else if self.examined_nodes >= self.limits.max_nodes || self.queue.len() >= self.limits.max_nodes - self.examined_nodes {
            self.traversal_capped = true;
            proof {
                lemma_queue_step_ok(WalkView { request: WalkRequest::Exhausted, ..self@ });
            }
            self.queue_step();
        } else {
            self.request = WalkRequest::QueueAndNextSibling(depth);
        }
    }

    /// The error of a walk that found nothing: an empty selection when some
    /// element had a text pattern, else an unsupported element.
    pub fn failure(&self) -> (e: PlatformError)
        ensures
            e@ == if self.saw_text_pattern { PlatformErrorView::EmptySelection } else { PlatformErrorView::UnsupportedElement },
    {
        if self.saw_text_pattern { PlatformError::EmptySelection } else { PlatformError::UnsupportedElement }
    }

    /// The content-free diagnostics of a walk that found nothing.
    pub fn exhausted_diagnostics(&self) -> (d: DiscoveryDiagnostics)
        ensures
            d.pattern is None,
            d.examined_nodes == self.examined_nodes,
            d.traversal_capped == (self.traversal_capped || self.queue@.len() > 0),
            d.selected_utf16_length == 0,
            d.rectangle_count == 0,
            !d.has_source_app,
            !d.has_source_title,
            d.outcome@ == if self.saw_text_pattern { "empty_selection"@ } else { "unsupported_element"@ },
    {
        DiscoveryDiagnostics {
            pattern: None,
            examined_nodes: self.examined_nodes,
            traversal_capped: self.traversal_capped || self.queue.len() > 0,
            selected_utf16_length: 0,
            rectangle_count: 0,
            has_source_app: false,
            has_source_title: false,
            outcome: if self.saw_text_pattern { "empty_selection" } else { "unsupported_element" },
        }
    }
}

/// The walk never inspects more elements than its node budget allows (the
/// focused element counts as one) and never queues an element below the
/// depth limit, whatever the tree reports.
pub proof fn walk_stays_within_limits(s: WalkView)
    requires
        walk_ok(s),
    ensures
        s.examined_nodes <= if s.limits.max_nodes >= 1 { s.limits.max_nodes as nat } else { 1nat },
        forall|i: int| 0 <= i < s.queue.len() ==> #[trigger] s.queue[i] <= s.limits.max_depth,
{
}

} // verus!
