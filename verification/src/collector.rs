//! Discovery of candidate elements: a bounded, cycle-safe, depth-first walk
//! over an accessibility tree that lives behind a query interface.
//!
//! The walk is a state machine. [`Collector::poll`] says which query to make
//! next, the caller makes it and hands the outcome to [`Collector::answer`].

use crate::element::{
    element_views, plausible_box, ClickableElement, ElementView, MAX_ELEMENT_HEIGHT,
    MAX_ELEMENT_WIDTH,
};
use crate::role::{role_name, Role, RoleFilter};
use vstd::hash_set::StringHashSet;
use vstd::prelude::*;
use vstd::string::StringExecFns;

verus! {

/// Nodes deeper than this are not visited. Top-level nodes have depth 0.
pub const MAX_DEPTH: usize = 20;

/// Once this many elements are found, no further node is visited.
pub const MAX_ELEMENTS: usize = 500;

/// A reference to an accessible object: the application that owns it and its
/// path within that application's tree.
#[derive(Debug)]
pub struct NodeRef {
    pub dest: String,
    pub path: String,
}

/// A node reference as mathematical values.
pub struct NodeRefView {
    pub dest: Seq<char>,
    pub path: Seq<char>,
}

impl View for NodeRef {
    type V = NodeRefView;

    open spec fn view(&self) -> NodeRefView {
        NodeRefView { dest: self.dest@, path: self.path@ }
    }
}

impl Clone for NodeRef {
    fn clone(&self) -> (copy: Self)
        ensures
            copy == *self,
    {
        NodeRef { dest: self.dest.clone(), path: self.path.clone() }
    }
}

/// The mathematical values of a sequence of node references.
pub open spec fn node_views(nodes: Seq<NodeRef>) -> Seq<NodeRefView> {
    nodes.map_values(|n: NodeRef| n@)
}

/// The identity of a node within one walk: owner, a colon, path.
pub open spec fn node_key(node: NodeRefView) -> Seq<char> {
    node.dest + seq![':'] + node.path
}

/// The four things that can be asked about a node.
#[derive(Debug, Clone, Copy, PartialEq, Eq, Structural)]
pub enum QueryKind {
    Role,
    Extents,
    Name,
    Children,
}

/// A query that the caller is to make on the collector's behalf.
#[derive(Debug)]
pub struct Query {
    pub kind: QueryKind,
    pub node: NodeRef,
}

/// A query as mathematical values.
pub struct QueryView {
    pub kind: QueryKind,
    pub node: NodeRefView,
}

/// The outcome of a query.
#[derive(Debug)]
pub enum Answer {
    /// The node's kind.
    Role(Role),
    /// The node's bounding box on screen: x, y, width, height.
    Extents(i32, i32, i32, i32),
    /// The node's display name.
    Name(String),
    /// The node's children, in order.
    Children(Vec<NodeRef>),
    /// The query gave no answer.
    Failed,
}

/// An answer as mathematical values.
pub enum AnswerView {
    Role(Role),
    Extents(int, int, int, int),
    Name(Seq<char>),
    Children(Seq<NodeRefView>),
    Failed,
}

impl View for Answer {
    type V = AnswerView;

    open spec fn view(&self) -> AnswerView {
        match self {
            Answer::Role(role) => AnswerView::Role(*role),
            Answer::Extents(x, y, w, h) => AnswerView::Extents(
                *x as int,
                *y as int,
                *w as int,
                *h as int,
            ),
            Answer::Name(name) => AnswerView::Name(name@),
            Answer::Children(children) => AnswerView::Children(node_views(children@)),
            Answer::Failed => AnswerView::Failed,
        }
    }
}

/// A node that waits to be visited, or is being visited, with its depth.
pub struct Visit {
    pub node: NodeRefView,
    pub depth: nat,
}

/// Where the walk stands within the visit of one node.
pub enum Phase {
    /// No node is being visited; the next one is taken from the stack.
    Idle,
    /// The node's kind has been asked for.
    Role(Visit),
    /// The node's kind passed the filter and its bounding box has been asked for.
    Extents(Visit, Role),
    /// The bounding box is plausible and the node's name has been asked for.
    Name(Visit, Role, int, int, int, int),
    /// The node's children have been asked for.
    Children(Visit),
}

/// The state of a walk, as mathematical values.
pub struct CollectorView {
    /// The nodes still to visit; the last one is visited next.
    pub pending: Seq<Visit>,
    /// The keys of the nodes visited so far.
    pub visited: Set<Seq<char>>,
    /// The elements found so far.
    pub elements: Seq<ElementView>,
    /// The predicate that picks candidates by kind.
    pub filter: RoleFilter,
    pub phase: Phase,
    /// How many queries have failed so far.
    pub failures: nat,
}

/// The stack entries for `nodes` at `depth`: the first node ends up on top.
pub open spec fn stacked(nodes: Seq<NodeRefView>, depth: nat) -> Seq<Visit> {
    Seq::new(nodes.len(), |i: int| Visit { node: nodes[nodes.len() - 1 - i], depth })
}

/// The state in which a walk starts.
pub open spec fn initial(roots: Seq<NodeRefView>, filter: RoleFilter) -> CollectorView {
    CollectorView {
        pending: stacked(roots, 0),
        visited: Set::empty(),
        elements: Seq::empty(),
        filter,
        phase: Phase::Idle,
        failures: 0,
    }
}

/// Whether a node taken from the stack is visited: it is not too deep, the
/// result is not full, and its key has not been seen.
pub open spec fn admissible(entry: Visit, visited: Set<Seq<char>>, found: nat) -> bool {
    &&& entry.depth <= MAX_DEPTH
    &&& found < MAX_ELEMENTS
    &&& !visited.contains(node_key(entry.node))
}

/// The stack without the entries on top of it that are not visited.
pub open spec fn settle(pending: Seq<Visit>, visited: Set<Seq<char>>, found: nat) -> Seq<Visit>
    decreases pending.len(),
{
    if pending.len() == 0 || admissible(pending.last(), visited, found) {
        pending
    } else {
        settle(pending.drop_last(), visited, found)
    }
}

/// The state after the collector has been polled. While a query is
/// outstanding nothing changes. Otherwise the next node that is to be visited
/// is taken from the stack and marked as visited, or the stack runs empty.
pub open spec fn polled(s: CollectorView) -> CollectorView {
    if s.phase is Idle {
        let rest = settle(s.pending, s.visited, s.elements.len());
        if rest.len() == 0 {
            CollectorView { pending: rest, ..s }
        } else {
            CollectorView {
                pending: rest.drop_last(),
                visited: s.visited.insert(node_key(rest.last().node)),
                phase: Phase::Role(rest.last()),
                ..s
            }
        }
    } else {
        s
    }
}

/// The query that is outstanding in a state, if any.
pub open spec fn outstanding(s: CollectorView) -> Option<QueryView> {
    match s.phase {
        Phase::Idle => None,
        Phase::Role(visit) => Some(QueryView { kind: QueryKind::Role, node: visit.node }),
        Phase::Extents(visit, _) => Some(QueryView { kind: QueryKind::Extents, node: visit.node }),
        Phase::Name(visit, _, _, _, _, _) => Some(
            QueryView { kind: QueryKind::Name, node: visit.node },
        ),
        Phase::Children(visit) => Some(QueryView { kind: QueryKind::Children, node: visit.node }),
    }
}

/// The state after the outstanding query has been answered. An answer of
/// another kind than the one asked for counts as a failed query.
///
/// - A node whose kind cannot be had is dropped, with everything below it.
/// - A node whose kind passes the filter is asked for its bounding box, and
///   if that is plausible, for its name; it then becomes an element. A name
///   that cannot be had is empty.
/// - Every node whose kind is known is asked for its children, which go on
///   the stack one level deeper.
/// - Failed queries are counted.
pub open spec fn answered(s: CollectorView, answer: AnswerView) -> CollectorView {
    CollectorView {
        failures: if failed(s.phase, answer) {
            one_more(s.failures)
        } else {
            s.failures
        },
        ..advanced(s, answer)
    }
}

/// Whether an answer is a failure of the query that is outstanding: it is of
/// another kind than the one asked for.
pub open spec fn failed(phase: Phase, answer: AnswerView) -> bool {
    match phase {
        Phase::Idle => false,
        Phase::Role(_) => !(answer is Role),
        Phase::Extents(_, _) => !(answer is Extents),
        Phase::Name(_, _, _, _, _, _) => !(answer is Name),
        Phase::Children(_) => !(answer is Children),
    }
}

/// A count of failures with one more, as far as 64 bits hold it.
pub open spec fn one_more(failures: nat) -> nat {
    if failures < u64::MAX {
        failures + 1
    } else {
        failures
    }
}

/// Where the walk stands after an answer.
pub open spec fn advanced(s: CollectorView, answer: AnswerView) -> CollectorView {
    match s.phase {
        Phase::Idle => s,
        Phase::Role(visit) => match answer {
            AnswerView::Role(role) => if s.filter.admits_spec(role) {
                CollectorView { phase: Phase::Extents(visit, role), ..s }
            } else {
                CollectorView { phase: Phase::Children(visit), ..s }
            },
            _ => CollectorView { phase: Phase::Idle, ..s },
        },
        Phase::Extents(visit, role) => match answer {
            AnswerView::Extents(x, y, w, h) => if plausible_box(x, y, w, h) {
                CollectorView { phase: Phase::Name(visit, role, x, y, w, h), ..s }
            } else {
                CollectorView { phase: Phase::Children(visit), ..s }
            },
            _ => CollectorView { phase: Phase::Children(visit), ..s },
        },
        Phase::Name(visit, role, x, y, w, h) => {
            let name = match answer {
                AnswerView::Name(text) => text,
                _ => Seq::empty(),
            };
            CollectorView {
                elements: s.elements.push(
                    ElementView { name, role: role_name(role), x, y, width: w, height: h },
                ),
                phase: Phase::Children(visit),
                ..s
            }
        },
        Phase::Children(visit) => match answer {
            AnswerView::Children(children) => CollectorView {
                pending: s.pending + stacked(children, visit.depth + 1),
                phase: Phase::Idle,
                ..s
            },
            _ => CollectorView { phase: Phase::Idle, ..s },
        },
    }
}

/// What holds of every state that a walk reaches.
pub open spec fn walk_invariant(s: CollectorView) -> bool {
    &&& s.elements.len() <= MAX_ELEMENTS
    &&& forall|i: int| 0 <= i < s.elements.len() ==> (#[trigger] s.elements[i]).plausible()
    &&& forall|i: int| 0 <= i < s.pending.len() ==> (#[trigger] s.pending[i]).depth <= MAX_DEPTH + 1
    &&& match s.phase {
        Phase::Idle => true,
        Phase::Role(visit) => {
            &&& visit.depth <= MAX_DEPTH
            &&& s.visited.contains(node_key(visit.node))
            &&& s.elements.len() < MAX_ELEMENTS
        },
        Phase::Extents(visit, _) => {
            &&& visit.depth <= MAX_DEPTH
            &&& s.visited.contains(node_key(visit.node))
            &&& s.elements.len() < MAX_ELEMENTS
        },
        Phase::Name(visit, _, x, y, w, h) => {
            &&& visit.depth <= MAX_DEPTH
            &&& s.visited.contains(node_key(visit.node))
            &&& s.elements.len() < MAX_ELEMENTS
            &&& plausible_box(x, y, w, h)
        },
        Phase::Children(visit) => {
            &&& visit.depth <= MAX_DEPTH
            &&& s.visited.contains(node_key(visit.node))
        },
    }
}

/// A node on the stack.
struct PendingNode {
    node: NodeRef,
    depth: usize,
}

impl View for PendingNode {
    type V = Visit;

    closed spec fn view(&self) -> Visit {
        Visit { node: self.node@, depth: self.depth as nat }
    }
}

/// The mathematical values of a stack of nodes.
spec fn visits(pending: Seq<PendingNode>) -> Seq<Visit> {
    pending.map_values(|p: PendingNode| p@)
}

/// A walk over an accessibility tree.
pub struct Collector {
    pending: Vec<PendingNode>,
    visited: StringHashSet,
    elements: Vec<ClickableElement>,
    filter: RoleFilter,
    /// The kind of the outstanding query, if there is one.
    awaiting: Option<QueryKind>,
    /// The node that is being visited while a query is outstanding.
    current: PendingNode,
    /// The kind of that node, once it is known.
    role: Role,
    /// The bounding box of that node, once it is known.
    extents: (i32, i32, i32, i32),
    /// How many queries have failed.
    failures: u64,
}

impl View for Collector {
    type V = CollectorView;

    closed spec fn view(&self) -> CollectorView {
        CollectorView {
            pending: visits(self.pending@),
            visited: self.visited@,
            elements: element_views(self.elements@),
            filter: self.filter,
            phase: match self.awaiting {
                None => Phase::Idle,
                Some(QueryKind::Role) => Phase::Role(self.current@),
                Some(QueryKind::Extents) => Phase::Extents(self.current@, self.role),
                Some(QueryKind::Name) => Phase::Name(
                    self.current@,
                    self.role,
                    self.extents.0 as int,
                    self.extents.1 as int,
                    self.extents.2 as int,
                    self.extents.3 as int,
                ),
                Some(QueryKind::Children) => Phase::Children(self.current@),
            },
            failures: self.failures as nat,
        }
    }
}

/// The mathematical value of the query that a poll hands out.
pub open spec fn query_view(query: Option<Query>) -> Option<QueryView> {
    match query {
        Some(q) => Some(QueryView { kind: q.kind, node: q.node@ }),
        None => None,
    }
}

/// The key of a node, as a string.
fn key_of(node: &NodeRef) -> (key: String)
    ensures
        key@ == node_key(node@),
{
    let mut key = node.dest.clone();
    key.push(':');
    key.append(node.path.as_str());
    key
}

impl Collector {
    #[verifier::type_invariant]
    spec fn well_formed(&self) -> bool {
        walk_invariant(self@)
    }

    /// A walk that starts at `roots`, the first of them first, and collects
    /// the nodes whose kind passes `filter`.
    pub fn new(roots: Vec<NodeRef>, filter: RoleFilter) -> (collector: Collector)
        ensures
            collector@ == initial(node_views(roots@), filter),
    {
        let mut roots = roots;
        let ghost all = node_views(roots@);
        let mut pending: Vec<PendingNode> = Vec::new();
        while roots.len() > 0
            invariant
                roots.len() <= all.len(),
                node_views(roots@) == all.take(roots.len() as int),
                pending.len() == all.len() - roots.len(),
                visits(pending@) == stacked(all, 0).take(pending.len() as int),
            decreases roots.len(),
        {
            let ghost left = node_views(roots@);
            let node = roots.pop().unwrap();
            assert(node@ == left[left.len() - 1]);
            pending.push(PendingNode { node, depth: 0 });
        }
        assert(visits(pending@) =~= stacked(all, 0));
        let collector = Collector {
            pending,
            visited: StringHashSet::new(),
            elements: Vec::new(),
            filter,
            awaiting: None,
            current: PendingNode {
                node: NodeRef { dest: String::new(), path: String::new() },
                depth: 0,
            },
            role: Role::Other,
            extents: (0, 0, 0, 0),
            failures: 0,
        };
        assert(collector@.elements =~= Seq::empty());
        collector
    }

    /// Says which query is to be made next, or `None` once the walk is over.
    ///
    /// While a query is outstanding it is handed out again. Otherwise nodes
    /// are taken from the stack until one is to be visited: not deeper than
    /// [`MAX_DEPTH`], not seen before, and only while fewer than
    /// [`MAX_ELEMENTS`] elements are found. That node is marked as visited and
    /// its kind is asked for.
    pub fn poll(&mut self) -> (query: Option<Query>)
        ensures
            final(self)@ == polled(old(self)@),
            query_view(query) == outstanding(final(self)@),
    {
        proof {
            use_type_invariant(&*self);
        }
        match self.awaiting {
            Some(kind) => {
                return Some(Query { kind, node: self.current.node.clone() });
            },
            None => {},
        }
        let ghost start = self@;
        let mut pending: Vec<PendingNode> = Vec::new();
        core::mem::swap(&mut self.pending, &mut pending);
        let mut next: Option<(PendingNode, String)> = None;
        while pending.len() > 0 && next.is_none()
            invariant
                self.visited@ == old(self).visited@,
                self.elements@ == old(self).elements@,
                start.visited == self.visited@,
                start.elements.len() == self.elements.len(),
                forall|i: int|
                    0 <= i < pending.len() ==> (#[trigger] visits(pending@)[i]).depth <= MAX_DEPTH
                        + 1,
                match next {
                    None => settle(visits(pending@), start.visited, start.elements.len())
                        == settle(start.pending, start.visited, start.elements.len()),
                    Some((entry, key)) => {
                        &&& settle(start.pending, start.visited, start.elements.len()) == visits(
                            pending@,
                        ).push(entry@)
                        &&& admissible(entry@, start.visited, start.elements.len())
                        &&& key@ == node_key(entry@.node)
                    },
                },
            decreases pending.len() + (if next is None { 1nat } else { 0nat }),
        {
            let ghost stack = visits(pending@);
            let entry = pending.pop().unwrap();
            assert(visits(pending@) =~= stack.drop_last());
            if entry.depth <= MAX_DEPTH && self.elements.len() < MAX_ELEMENTS {
                let key = key_of(&entry.node);
                if !self.visited.contains(key.as_str()) {
                    next = Some((entry, key));
                }
            }
        }
        core::mem::swap(&mut self.pending, &mut pending);
        match next {
            Some((entry, key)) => {
                let mut visited = StringHashSet::new();
                core::mem::swap(&mut self.visited, &mut visited);
                visited.insert(key);
                core::mem::swap(&mut self.visited, &mut visited);
                let node = entry.node.clone();
                let ghost rest = settle(start.pending, start.visited, start.elements.len());
                assert(rest.drop_last() =~= self@.pending);
                self.current = entry;
                self.awaiting = Some(QueryKind::Role);
                Some(Query { kind: QueryKind::Role, node })
            },
            None => {
                None
            },
        }
    }

    /// Takes the outcome of the outstanding query and moves on within the
    /// visit of the current node. An answer of another kind than the one
    /// asked for counts as a failed query; without an outstanding query the
    /// answer is ignored.
    pub fn answer(&mut self, answer: Answer)
        ensures
            final(self)@ == answered(old(self)@, answer@),
    {
        proof {
            use_type_invariant(&*self);
        }
        let failed = match (self.awaiting, &answer) {
            (None, _) => false,
            (Some(QueryKind::Role), Answer::Role(_)) => false,
            (Some(QueryKind::Extents), Answer::Extents(_, _, _, _)) => false,
            (Some(QueryKind::Name), Answer::Name(_)) => false,
            (Some(QueryKind::Children), Answer::Children(_)) => false,
            _ => true,
        };
        if failed && self.failures < u64::MAX {
            self.failures = self.failures + 1;
        }
        match self.awaiting {
            None => {},
            Some(QueryKind::Role) => {
                match answer {
                    Answer::Role(role) => {
                        if self.filter.admits(role) {
                            self.role = role;
                            self.awaiting = Some(QueryKind::Extents);
                        } else {
                            self.awaiting = Some(QueryKind::Children);
                        }
                    },
                    _ => {
                        self.awaiting = None;
                    },
                }
            },
            Some(QueryKind::Extents) => {
                match answer {
                    Answer::Extents(x, y, w, h) => {
                        if w > 0 && h > 0 && x >= 0 && y >= 0 && w < MAX_ELEMENT_WIDTH && h
                            < MAX_ELEMENT_HEIGHT {
                            self.extents = (x, y, w, h);
                            self.awaiting = Some(QueryKind::Name);
                        } else {
                            self.awaiting = Some(QueryKind::Children);
                        }
                    },
                    _ => {
                        self.awaiting = Some(QueryKind::Children);
                    },
                }
            },
            Some(QueryKind::Name) => {
                let name = match answer {
                    Answer::Name(text) => text,
                    _ => String::new(),
                };
                let element = ClickableElement {
                    name,
                    role: self.role.name(),
                    x: self.extents.0,
                    y: self.extents.1,
                    width: self.extents.2,
                    height: self.extents.3,
                };
                let ghost found = element_views(self.elements@);
                self.awaiting = Some(QueryKind::Children);
                let mut elements: Vec<ClickableElement> = Vec::new();
                core::mem::swap(&mut self.elements, &mut elements);
                elements.push(element);
                assert(element_views(elements@) =~= found.push(element@));
                core::mem::swap(&mut self.elements, &mut elements);
            },
            Some(QueryKind::Children) => {
                self.awaiting = None;
                match answer {
                    Answer::Children(children) => {
                        let mut children = children;
                        let depth: usize = self.current.depth + 1;
                        let ghost all = node_views(children@);
                        let ghost below = stacked(all, depth as nat);
                        let ghost stack = self@.pending;
                        let mut pending: Vec<PendingNode> = Vec::new();
                        core::mem::swap(&mut self.pending, &mut pending);
                        while children.len() > 0
                            invariant
                                depth <= MAX_DEPTH + 1,
                                children.len() <= all.len(),
                                node_views(children@) == all.take(children.len() as int),
                                below == stacked(all, depth as nat),
                                visits(pending@) == stack + below.take(all.len() - children.len()),
                                forall|i: int|
                                    0 <= i < stack.len() ==> (#[trigger] stack[i]).depth
                                        <= MAX_DEPTH + 1,
                            decreases children.len(),
                        {
                            let ghost before = visits(pending@);
                            let ghost left = node_views(children@);
                            let node = children.pop().unwrap();
                            assert(node@ == left[left.len() - 1]);
                            pending.push(PendingNode { node, depth });
                            assert(visits(pending@) =~= before.push(
                                Visit { node: node@, depth: depth as nat },
                            ));
                        }
                        assert(below.take(all.len() as int) =~= below);
                        core::mem::swap(&mut self.pending, &mut pending);
                    },
                    _ => {},
                }
            },
        }
    }

    /// How many queries have failed so far.
    pub fn failures(&self) -> (failures: u64)
        ensures
            failures == self@.failures,
    {
        self.failures
    }

    /// The elements found so far, in the order in which they were found.
    pub fn elements(&self) -> (elements: &Vec<ClickableElement>)
        ensures
            element_views(elements@) == self@.elements,
            elements.len() <= MAX_ELEMENTS,
            forall|i: int| 0 <= i < elements.len() ==> (#[trigger] elements[i]).plausible(),
    {
        proof {
            use_type_invariant(self);
            assert forall|i: int| 0 <= i < self.elements.len() implies (
            #[trigger] self.elements[i]).plausible() by {
                assert(self@.elements[i].plausible());
            }
        }
        &self.elements
    }

    /// Ends the walk and hands out what it found.
    pub fn into_elements(self) -> (elements: Vec<ClickableElement>)
        ensures
            element_views(elements@) == self@.elements,
            elements.len() <= MAX_ELEMENTS,
            forall|i: int| 0 <= i < elements.len() ==> (#[trigger] elements[i]).plausible(),
    {
        proof {
            use_type_invariant(&self);
            assert forall|i: int| 0 <= i < self.elements.len() implies (
            #[trigger] self.elements[i]).plausible() by {
                assert(self@.elements[i].plausible());
            }
        }
        self.elements
    }
}

/// What settling leaves: a lower part of the stack whose top is to be visited.
pub proof fn lemma_settle(pending: Seq<Visit>, visited: Set<Seq<char>>, found: nat)
    ensures
        settle(pending, visited, found).len() <= pending.len(),
        settle(pending, visited, found) == pending.take(
            settle(pending, visited, found).len() as int,
        ),
        settle(pending, visited, found).len() > 0 ==> admissible(
            settle(pending, visited, found).last(),
            visited,
            found,
        ),
    decreases pending.len(),
{
    if pending.len() == 0 || admissible(pending.last(), visited, found) {
        assert(pending.take(pending.len() as int) =~= pending);
    } else {
        lemma_settle(pending.drop_last(), visited, found);
    }
}

/// A walk starts in a state of which the invariant holds.
pub proof fn lemma_initial_invariant(roots: Seq<NodeRefView>, filter: RoleFilter)
    ensures
        walk_invariant(initial(roots, filter)),
{
}

/// Polling keeps the invariant.
pub proof fn lemma_polled_invariant(s: CollectorView)
    requires
        walk_invariant(s),
    ensures
        walk_invariant(polled(s)),
{
    if s.phase is Idle {
        lemma_settle(s.pending, s.visited, s.elements.len());
    }
}

/// Answering keeps the invariant.
pub proof fn lemma_answered_invariant(s: CollectorView, answer: AnswerView)
    requires
        walk_invariant(s),
    ensures
        walk_invariant(answered(s, answer)),
{
}

/// No node is visited twice: when a poll starts the visit of a node, the
/// node's key is not among the keys visited before, and it is recorded as
/// visited from then on. The node is at most [`MAX_DEPTH`] deep and fewer than
/// [`MAX_ELEMENTS`] elements have been found.
pub proof fn lemma_visits_are_fresh(s: CollectorView)
    requires
        walk_invariant(s),
        s.phase is Idle,
        outstanding(polled(s)) is Some,
    ensures
        polled(s).phase is Role,
        outstanding(polled(s))->0.kind == QueryKind::Role,
        !s.visited.contains(node_key(outstanding(polled(s))->0.node)),
        polled(s).visited == s.visited.insert(node_key(outstanding(polled(s))->0.node)),
        polled(s).phase->Role_0.depth <= MAX_DEPTH,
        s.elements.len() < MAX_ELEMENTS,
{
    lemma_settle(s.pending, s.visited, s.elements.len());
    lemma_polled_invariant(s);
}

/// Only the start of a visit adds to the visited keys, and only the answer
/// to a name query adds an element: one that satisfies the geometric
/// invariant and belongs to a node at most [`MAX_DEPTH`] deep.
pub proof fn lemma_elements_come_from_visits(s: CollectorView, answer: AnswerView)
    requires
        walk_invariant(s),
    ensures
        answered(s, answer).visited == s.visited,
        polled(s).elements == s.elements,
        !(s.phase is Name) ==> answered(s, answer).elements == s.elements,
        s.phase is Name ==> {
            &&& s.phase->Name_0.depth <= MAX_DEPTH
            &&& answered(s, answer).elements.len() == s.elements.len() + 1
            &&& answered(s, answer).elements.drop_last() == s.elements
            &&& answered(s, answer).elements.last().plausible()
        },
{
    if s.phase is Name {
        assert(answered(s, answer).elements.drop_last() =~= s.elements);
    }
}

} // verus!
