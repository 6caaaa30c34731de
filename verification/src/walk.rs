//! That a walk ends, however its queries are answered.
//!
//! A walk has no say in what the tree answers: a node may name any number
//! of children, and the same node may turn up again and again. What bounds
//! the walk is that no node deeper than the depth bound is visited. The
//! nodes that are still to be dealt with, counted depth by depth, fall with
//! every round in the order that compares the shallowest depth first.

use crate::collector::{
    answered, lemma_answered_invariant, lemma_polled_invariant, lemma_settle, outstanding, polled,
    settle, stacked, walk_invariant, AnswerView, CollectorView, NodeRefView, Phase, Visit,
    MAX_DEPTH,
};
use vstd::prelude::*;

verus! {

/// How many of the nodes on the stack are `depth` deep.
pub open spec fn count_at(pending: Seq<Visit>, depth: nat) -> nat
    decreases pending.len(),
{
    if pending.len() == 0 {
        0
    } else {
        count_at(pending.drop_last(), depth) + if pending.last().depth == depth {
            1nat
        } else {
            0nat
        }
    }
}

/// The node that is being visited, if one is.
pub open spec fn visiting(phase: Phase) -> Option<Visit> {
    match phase {
        Phase::Idle => None,
        Phase::Role(visit) => Some(visit),
        Phase::Extents(visit, _) => Some(visit),
        Phase::Name(visit, _, _, _, _, _) => Some(visit),
        Phase::Children(visit) => Some(visit),
    }
}

/// How many nodes that are `depth` deep are still to be dealt with: those on
/// the stack and the one that is being visited.
pub open spec fn load(s: CollectorView, depth: nat) -> nat {
    count_at(s.pending, depth) + match visiting(s.phase) {
        Some(visit) => if visit.depth == depth {
            1nat
        } else {
            0nat
        },
        None => 0nat,
    }
}

/// How many answers the visit of the node at hand can still take; between
/// two visits, more than any visit takes.
pub open spec fn rank(phase: Phase) -> nat {
    match phase {
        Phase::Idle => 5,
        Phase::Role(_) => 4,
        Phase::Extents(_, _) => 3,
        Phase::Name(_, _, _, _, _, _) => 2,
        Phase::Children(_) => 1,
    }
}

/// Whether `after` comes before `before` in the order of walks, looking at
/// the depths from `depth` on: at the first depth where the loads differ,
/// `after` has the smaller one; where none differ, it has the smaller rank.
pub open spec fn nearer(after: CollectorView, before: CollectorView, depth: nat) -> bool
    decreases MAX_DEPTH + 2 - depth,
{
    if depth > MAX_DEPTH + 1 {
        rank(after.phase) < rank(before.phase)
    } else {
        load(after, depth) < load(before, depth) || (load(after, depth) == load(before, depth)
            && nearer(after, before, depth + 1))
    }
}

/// Whether the walk is over: a poll hands out no query.
pub open spec fn finished(s: CollectorView) -> bool {
    outstanding(polled(s)) is None
}

/// One round of a walk: a poll, and an answer to the query that the poll
/// hands out.
pub open spec fn round(s: CollectorView, answer: AnswerView) -> CollectorView {
    answered(polled(s), answer)
}

/// The state after `rounds` rounds whose queries are answered by
/// `answers(from)`, `answers(from + 1)` and so on. A walk that is over stays
/// as it is.
pub open spec fn run(
    s: CollectorView,
    answers: spec_fn(nat) -> AnswerView,
    from: nat,
    rounds: nat,
) -> CollectorView
    decreases rounds,
{
    if rounds == 0 || finished(s) {
        s
    } else {
        run(round(s, answers(from)), answers, from + 1, (rounds - 1) as nat)
    }
}

proof fn lemma_count_take(pending: Seq<Visit>, upto: int, depth: nat)
    requires
        0 <= upto <= pending.len(),
    ensures
        count_at(pending.take(upto), depth) <= count_at(pending, depth),
        upto < pending.len() && pending.last().depth == depth ==> count_at(
            pending.take(upto),
            depth,
        ) < count_at(pending, depth),
    decreases pending.len(),
{
    if upto < pending.len() {
        assert(pending.drop_last().take(upto) =~= pending.take(upto));
        lemma_count_take(pending.drop_last(), upto, depth);
    } else {
        assert(pending.take(upto) =~= pending);
    }
}

proof fn lemma_count_stacked(
    pending: Seq<Visit>,
    children: Seq<NodeRefView>,
    below: nat,
    depth: nat,
)
    ensures
        count_at(pending + stacked(children, below), depth) == count_at(pending, depth) + if depth
            == below {
            children.len()
        } else {
            0
        },
    decreases children.len(),
{
    let all = pending + stacked(children, below);
    if children.len() == 0 {
        assert(all =~= pending);
    } else {
        // The first child is the last to go on the stack.
        let rest = children.drop_first();
        assert(all.drop_last() =~= pending + stacked(rest, below));
        assert(all.last().depth == below);
        lemma_count_stacked(pending, rest, below, depth);
    }
}

/// Loads that nowhere rise and somewhere fall, or stay and leave a smaller
/// rank, come before.
proof fn lemma_nearer_below(after: CollectorView, before: CollectorView, depth: nat)
    requires
        forall|e: nat| depth <= e <= MAX_DEPTH + 1 ==> load(after, e) <= load(before, e),
        rank(after.phase) < rank(before.phase) || exists|e: nat|
            depth <= e <= MAX_DEPTH + 1 && load(after, e) < load(before, e),
    ensures
        nearer(after, before, depth),
    decreases MAX_DEPTH + 2 - depth,
{
    if depth <= MAX_DEPTH + 1 && load(after, depth) == load(before, depth) {
        lemma_nearer_below(after, before, depth + 1);
    }
}

/// Loads that stay down to a depth and fall there come before, whatever
/// they do further down.
proof fn lemma_nearer_at(after: CollectorView, before: CollectorView, depth: nat, falls: nat)
    requires
        depth <= falls <= MAX_DEPTH + 1,
        forall|e: nat| depth <= e < falls ==> load(after, e) == load(before, e),
        load(after, falls) < load(before, falls),
    ensures
        nearer(after, before, depth),
    decreases falls - depth,
{
    if depth < falls {
        lemma_nearer_at(after, before, depth + 1, falls);
    }
}

/// Every round brings a walk nearer to its end: the state after it comes
/// before the state in which it began.
pub proof fn lemma_round_descends(s: CollectorView, answer: AnswerView)
    requires
        walk_invariant(s),
        !finished(s),
    ensures
        nearer(round(s, answer), s, 0),
{
    let p = polled(s);
    let next = round(s, answer);
    lemma_polled_invariant(s);
    if s.phase is Idle {
        // The poll takes nodes from the stack; the last of them is visited.
        lemma_settle(s.pending, s.visited, s.elements.len());
        let rest = settle(s.pending, s.visited, s.elements.len());
        assert forall|e: nat| e <= MAX_DEPTH + 1 implies #[trigger] load(next, e) <= load(s, e) by {
            lemma_count_take(s.pending, rest.len() as int, e);
            assert(load(p, e) == count_at(rest, e));
            assert(load(next, e) <= load(p, e));
        }
        if next.phase is Idle {
            let fallen = rest.last().depth;
            lemma_count_take(s.pending, rest.len() as int, fallen);
            assert(load(p, fallen) == count_at(rest, fallen));
            assert(load(next, fallen) < load(s, fallen));
        }
        lemma_nearer_below(next, s, 0);
    } else if s.phase is Children {
        // The node leaves; its children come one level further down.
        let visit = s.phase->Children_0;
        match answer {
            AnswerView::Children(children) => {
                assert forall|e: nat| e <= visit.depth implies load(next, e) == count_at(
                    s.pending,
                    e,
                ) by {
                    lemma_count_stacked(s.pending, children, visit.depth + 1, e);
                }
            },
            _ => {},
        }
        lemma_nearer_at(next, s, 0, visit.depth);
    } else {
        // The visit moves on, or the node is dropped.
        let visit = visiting(s.phase)->0;
        assert forall|e: nat| e <= MAX_DEPTH + 1 implies load(next, e) <= load(s, e) by {}
        if next.phase is Idle {
            assert(load(next, visit.depth) < load(s, visit.depth));
        }
        lemma_nearer_below(next, s, 0);
    }
}

/// A walk ends, however its queries are answered: after some number of
/// rounds a poll hands out no query. This holds of every sequence of
/// answers, of any kind and with any number of children in each, so it holds
/// of every tree, finite or not, with or without cycles.
pub proof fn lemma_walk_ends(s: CollectorView, answers: spec_fn(nat) -> AnswerView, from: nat)
    requires
        walk_invariant(s),
    ensures
        exists|rounds: nat| finished(#[trigger] run(s, answers, from, rounds)),
    decreases
            load(s, 0),
            load(s, 1),
            load(s, 2),
            load(s, 3),
            load(s, 4),
            load(s, 5),
            load(s, 6),
            load(s, 7),
            load(s, 8),
            load(s, 9),
            load(s, 10),
            load(s, 11),
            load(s, 12),
            load(s, 13),
            load(s, 14),
            load(s, 15),
            load(s, 16),
            load(s, 17),
            load(s, 18),
            load(s, 19),
            load(s, 20),
            load(s, 21),
            rank(s.phase),
{
    if finished(s) {
        assert(finished(run(s, answers, from, 0)));
    } else {
        let next = round(s, answers(from));
        lemma_polled_invariant(s);
        lemma_answered_invariant(polled(s), answers(from));
        lemma_round_descends(s, answers(from));
        reveal_with_fuel(nearer, 24);
        lemma_walk_ends(next, answers, from + 1);
        let rest = choose|rounds: nat| finished(#[trigger] run(next, answers, from + 1, rounds));
        assert(run(s, answers, from, rest + 1) == run(next, answers, from + 1, rest));
    }
}

} // verus!
