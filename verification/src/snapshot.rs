//! Discovery over an accessibility tree that is held in memory: every query
//! is answered from a list of records, so a whole walk is one function.

use crate::collector::{
    answered, initial, lemma_answered_invariant, lemma_initial_invariant, lemma_polled_invariant,
    node_views, outstanding, polled, walk_invariant, Answer, AnswerView, Collector, CollectorView,
    NodeRef, NodeRefView, Query, QueryKind, QueryView, MAX_ELEMENTS,
};
use crate::element::{element_views, ClickableElement};
use crate::role::{Role, RoleFilter};
use crate::walk::{finished, lemma_round_descends, load, nearer, rank};
use vstd::prelude::*;

verus! {

/// What the queries about one node return. A field that is `None` stands for
/// a query that fails.
#[derive(Debug)]
pub struct NodeRecord {
    pub node: NodeRef,
    pub role: Option<Role>,
    pub extents: Option<(i32, i32, i32, i32)>,
    pub name: Option<String>,
    pub children: Option<Vec<NodeRef>>,
}

/// A record as mathematical values.
pub struct NodeRecordView {
    pub node: NodeRefView,
    pub role: Option<Role>,
    pub extents: Option<(int, int, int, int)>,
    pub name: Option<Seq<char>>,
    pub children: Option<Seq<NodeRefView>>,
}

impl View for NodeRecord {
    type V = NodeRecordView;

    open spec fn view(&self) -> NodeRecordView {
        NodeRecordView {
            node: self.node@,
            role: self.role,
            extents: match self.extents {
                Some(e) => Some((e.0 as int, e.1 as int, e.2 as int, e.3 as int)),
                None => None,
            },
            name: match self.name {
                Some(text) => Some(text@),
                None => None,
            },
            children: match self.children {
                Some(children) => Some(node_views(children@)),
                None => None,
            },
        }
    }
}

/// The mathematical values of a list of records.
pub open spec fn record_views(tree: Seq<NodeRecord>) -> Seq<NodeRecordView> {
    tree.map_values(|r: NodeRecord| r@)
}

/// The position of the first record at or after `from` that is about `node`,
/// or the length of the list where there is none.
pub open spec fn record_of(tree: Seq<NodeRecordView>, node: NodeRefView, from: int) -> int
    decreases tree.len() - from,
{
    if from < 0 || from >= tree.len() {
        tree.len() as int
    } else if tree[from].node == node {
        from
    } else {
        record_of(tree, node, from + 1)
    }
}

/// The answer that the tree gives to a query: what the first record about
/// the node holds, or a failure where the node has no record.
pub open spec fn replied(tree: Seq<NodeRecordView>, query: QueryView) -> AnswerView {
    let i = record_of(tree, query.node, 0);
    if i >= tree.len() {
        AnswerView::Failed
    } else {
        match query.kind {
            QueryKind::Role => match tree[i].role {
                Some(role) => AnswerView::Role(role),
                None => AnswerView::Failed,
            },
            QueryKind::Extents => match tree[i].extents {
                Some(e) => AnswerView::Extents(e.0, e.1, e.2, e.3),
                None => AnswerView::Failed,
            },
            QueryKind::Name => match tree[i].name {
                Some(text) => AnswerView::Name(text),
                None => AnswerView::Failed,
            },
            QueryKind::Children => match tree[i].children {
                Some(children) => AnswerView::Children(children),
                None => AnswerView::Failed,
            },
        }
    }
}

/// One round of a walk over the tree: a poll, and the tree's answer to the
/// query that the poll hands out.
pub open spec fn step(tree: Seq<NodeRecordView>, s: CollectorView) -> CollectorView {
    match outstanding(polled(s)) {
        Some(query) => answered(polled(s), replied(tree, query)),
        None => polled(s),
    }
}

/// The state after `rounds` rounds.
pub open spec fn walked(tree: Seq<NodeRecordView>, s: CollectorView, rounds: nat) -> CollectorView
    decreases rounds,
{
    if rounds == 0 {
        s
    } else {
        step(tree, walked(tree, s, (rounds - 1) as nat))
    }
}

/// A copy of a list of node references.
fn copy_nodes(nodes: &Vec<NodeRef>) -> (copy: Vec<NodeRef>)
    ensures
        node_views(copy@) == node_views(nodes@),
{
    let mut copy: Vec<NodeRef> = Vec::new();
    let mut i: usize = 0;
    while i < nodes.len()
        invariant
            i <= nodes.len(),
            copy.len() == i,
            forall|j: int| 0 <= j < i ==> copy[j]@ == nodes[j]@,
        decreases nodes.len() - i,
    {
        copy.push(nodes[i].clone());
        i += 1;
    }
    copy
}

/// Answers a query from the records.
pub fn respond(tree: &[NodeRecord], query: &Query) -> (answer: Answer)
    ensures
        answer@ == replied(record_views(tree@), QueryView { kind: query.kind, node: query.node@ }),
{
    let ghost records = record_views(tree@);
    let mut i: usize = 0;
    while i < tree.len()
        invariant
            i <= tree.len(),
            records == record_views(tree@),
            record_of(records, query.node@, 0) == record_of(records, query.node@, i as int),
        decreases tree.len() - i,
    {
        let record = &tree[i];
        if record.node.dest == query.node.dest && record.node.path == query.node.path {
            return match query.kind {
                QueryKind::Role => match record.role {
                    Some(role) => Answer::Role(role),
                    None => Answer::Failed,
                },
                QueryKind::Extents => match record.extents {
                    Some(e) => Answer::Extents(e.0, e.1, e.2, e.3),
                    None => Answer::Failed,
                },
                QueryKind::Name => match &record.name {
                    Some(text) => Answer::Name(text.clone()),
                    None => Answer::Failed,
                },
                QueryKind::Children => match &record.children {
                    Some(children) => Answer::Children(copy_nodes(children)),
                    None => Answer::Failed,
                },
            };
        }
        i += 1;
    }
    Answer::Failed
}

/// The invariant of the walk holds after every number of rounds over every
/// tree: the node under visit is recorded as visited and is at most
/// twenty levels deep, at most [`MAX_ELEMENTS`] elements are found, and each
/// of them satisfies the geometric invariant.
pub proof fn lemma_walked_invariant(
    tree: Seq<NodeRecordView>,
    roots: Seq<NodeRefView>,
    filter: RoleFilter,
    rounds: nat,
)
    ensures
        walk_invariant(walked(tree, initial(roots, filter), rounds)),
    decreases rounds,
{
    if rounds == 0 {
        lemma_initial_invariant(roots, filter);
    } else {
        let before = walked(tree, initial(roots, filter), (rounds - 1) as nat);
        lemma_walked_invariant(tree, roots, filter, (rounds - 1) as nat);
        lemma_polled_invariant(before);
        match outstanding(polled(before)) {
            Some(query) => {
                lemma_answered_invariant(polled(before), replied(tree, query));
            },
            None => {},
        }
    }
}

/// Walks the tree from `roots`, the first of them first, and returns the
/// elements whose kind passes `filter`.
///
/// The walk ends on every tree, whatever its shape: no node deeper than the
/// depth bound is visited, and no node is visited twice.
pub fn collect_elements(tree: &[NodeRecord], roots: Vec<NodeRef>, filter: RoleFilter) -> (elements:
    Vec<ClickableElement>)
    ensures
        exists|rounds: nat|
            {
                let end = #[trigger] walked(
                    record_views(tree@),
                    initial(node_views(roots@), filter),
                    rounds,
                );
                finished(end) && walk_invariant(end) && element_views(elements@) == end.elements
            },
        elements.len() <= MAX_ELEMENTS,
        forall|i: int| 0 <= i < elements.len() ==> (#[trigger] elements[i]).plausible(),
{
    let ghost records = record_views(tree@);
    let ghost start = initial(node_views(roots@), filter);
    let ghost mut rounds: nat = 0;
    let mut collector = Collector::new(roots, filter);
    proof {
        lemma_initial_invariant(node_views(roots@), filter);
    }
    loop
        invariant_except_break
            records == record_views(tree@),
            collector@ == walked(records, start, rounds),
            walk_invariant(collector@),
        ensures
            finished(walked(records, start, rounds)),
            walk_invariant(walked(records, start, rounds)),
            collector@.elements == walked(records, start, rounds).elements,
        decreases
                load(collector@, 0),
                load(collector@, 1),
                load(collector@, 2),
                load(collector@, 3),
                load(collector@, 4),
                load(collector@, 5),
                load(collector@, 6),
                load(collector@, 7),
                load(collector@, 8),
                load(collector@, 9),
                load(collector@, 10),
                load(collector@, 11),
                load(collector@, 12),
                load(collector@, 13),
                load(collector@, 14),
                load(collector@, 15),
                load(collector@, 16),
                load(collector@, 17),
                load(collector@, 18),
                load(collector@, 19),
                load(collector@, 20),
                load(collector@, 21),
                rank(collector@.phase),
    {
        let ghost before = collector@;
        match collector.poll() {
            Some(query) => {
                let answer = respond(tree, &query);
                collector.answer(answer);
                proof {
                    lemma_polled_invariant(before);
                    lemma_answered_invariant(polled(before), answer@);
                    lemma_round_descends(before, answer@);
                    reveal_with_fuel(nearer, 24);
                    rounds = rounds + 1;
                }
            },
            None => {
                break ;
            },
        }
    }
    collector.into_elements()
}

} // verus!
