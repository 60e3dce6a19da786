//! The engine's guarantees, stated and proved over the spec-level protocol.
//!
//! [`pass_step`] is one whole verify-then-compute pass over a branch: what
//! [`Branch::verify`](crate::branch::Branch::verify) followed by the reads of
//! the recomputation and by [`Branch::commit`](crate::branch::Branch::commit)
//! do to the branch, by those functions' own contracts, when the reads
//! aggregate to `aggregate(seed, reads)`. The lemmas here say why the
//! protocol recomputes exactly when it must: at most once per revision, never
//! for a dependency it did not read, always for one that moved.

use vstd::prelude::*;

use crate::branch::{pass_recomputes, pass_step, verify_starts, BranchView};
use crate::stamp::rev_max;

verus! {

/// The aggregate a branch-bound token holds after a recomputation seeded at
/// `seed` has read dependencies with the revisions `reads`, in order: the
/// maximum of the seed and of every revision read.
pub open spec fn aggregate(seed: int, reads: Seq<int>) -> int
    decreases reads.len(),
{
    if reads.len() == 0 {
        seed
    } else {
        rev_max(aggregate(seed, reads.drop_last()), reads.last())
    }
}

/// Folding is commutative: reading two dependencies in either order leaves
/// the token at the same aggregate.
pub proof fn lemma_token_fold_commutative(acc: int, rev1: int, rev2: int)
    ensures
        rev_max(rev_max(acc, rev1), rev2) == rev_max(rev_max(acc, rev2), rev1),
{
}

/// Folding is idempotent: reading the same dependency twice leaves the token
/// where one read left it.
pub proof fn lemma_token_fold_idempotent(acc: int, rev: int)
    ensures
        rev_max(rev_max(acc, rev), rev) == rev_max(acc, rev),
{
}

/// The aggregate never falls below its seed.
pub proof fn lemma_aggregate_ge_seed(seed: int, reads: Seq<int>)
    ensures
        aggregate(seed, reads) >= seed,
    decreases reads.len(),
{
    if reads.len() > 0 {
        lemma_aggregate_ge_seed(seed, reads.drop_last());
    }
}

/// The aggregate never rises above a bound that the seed and every read
/// respect — in particular, never above the graph revision that stamped
/// them all.
pub proof fn lemma_aggregate_le_bound(seed: int, reads: Seq<int>, bound: int)
    requires
        seed <= bound,
        forall|i: int| 0 <= i < reads.len() ==> reads[i] <= bound,
    ensures
        aggregate(seed, reads) <= bound,
    decreases reads.len(),
{
    if reads.len() > 0 {
        lemma_aggregate_le_bound(seed, reads.drop_last(), bound);
    }
}

/// The aggregate exceeds the seed exactly when some single read does: a
/// maximum of revisions, never a sum, so only a genuinely newer dependency
/// can push it up.
pub proof fn lemma_aggregate_exceeds_iff(seed: int, reads: Seq<int>)
    ensures
        aggregate(seed, reads) > seed <==> exists|i: int|
            0 <= i < reads.len() && reads[i] > seed,
    decreases reads.len(),
{
    if reads.len() > 0 {
        lemma_aggregate_exceeds_iff(seed, reads.drop_last());
        if aggregate(seed, reads) > seed {
            if reads.last() > seed {
                assert(reads[reads.len() - 1] > seed);
            } else {
                let i = choose|i: int| 0 <= i < reads.len() - 1 && reads.drop_last()[i] > seed;
                assert(reads[i] > seed);
            }
        }
        if exists|i: int| 0 <= i < reads.len() && reads[i] > seed {
            let i = choose|i: int| 0 <= i < reads.len() && reads[i] > seed;
            if i < reads.len() - 1 {
                assert(reads.drop_last()[i] > seed);
                lemma_aggregate_ge_seed(seed, reads.drop_last());
            }
        }
    }
}

/// Idempotence: once a pass has run over a branch at some graph revision, a
/// second pass at the same revision is a no-op — it opens no recomputation,
/// whatever it would have read or produced, and the value it hands out is
/// the value the first pass left behind. Between two checks with no
/// intervening leaf write, the branch recomputes at most once.
pub proof fn lemma_verify_idempotent<T>(
    b: BranchView<T>,
    g: int,
    m1: int,
    v1: T,
    m2: int,
    v2: T,
)
    requires
        !b.in_progress,
        b.last_verified <= g,
    ensures
        ({
            let once = pass_step(b, g, m1, v1);
            &&& pass_step(once, g, m2, v2) == once
            &&& !pass_recomputes(once, g, m2)
        }),
{
}

/// Diamond reuse: a branch that two sibling readers reach within one pass —
/// at one graph revision — recomputes at most once for that pass, and the
/// second sibling observes exactly the cached value and the computed stamp
/// the first one saw.
pub proof fn lemma_diamond_reuse<T>(b: BranchView<T>, g: int, m1: int, v1: T, m2: int, v2: T)
    requires
        !b.in_progress,
        b.last_verified <= g,
    ensures
        ({
            let once = pass_step(b, g, m1, v1);
            let again = pass_step(once, g, m2, v2);
            &&& !pass_recomputes(once, g, m2)
            &&& again.cached == once.cached
            &&& again.last_modified == once.last_modified
        }),
{
}

/// Minimal recomputation: a pass whose reads all carry revisions at or below
/// the branch's computed stamp — every dependency the branch actually read
/// is unchanged since its last recomputation, whatever happened to leaves
/// outside that set — leaves the cached value and the computed stamp
/// untouched, even though the staleness check itself still runs.
pub proof fn lemma_minimal_recomputation<T>(
    b: BranchView<T>,
    g: int,
    reads: Seq<int>,
    candidate: T,
)
    requires
        forall|i: int| 0 <= i < reads.len() ==> reads[i] <= b.last_modified,
    ensures
        !pass_recomputes(b, g, aggregate(b.last_modified, reads)),
        pass_step(b, g, aggregate(b.last_modified, reads), candidate).cached == b.cached,
        pass_step(b, g, aggregate(b.last_modified, reads), candidate).last_modified
            == b.last_modified,
{
    lemma_aggregate_ge_seed(b.last_modified, reads);
    lemma_aggregate_le_bound(b.last_modified, reads, b.last_modified);
}

/// A pass recomputes if and only if it had to: exactly when the branch had
/// not been checked at this revision yet, and some dependency it actually
/// read this time carries a revision newer than its last recomputation.
pub proof fn lemma_recomputes_iff_dependency_changed<T>(b: BranchView<T>, g: int, reads: Seq<int>)
    ensures
        pass_recomputes(b, g, aggregate(b.last_modified, reads)) <==> (verify_starts(b, g)
            && exists|i: int| 0 <= i < reads.len() && reads[i] > b.last_modified),
{
    lemma_aggregate_exceeds_iff(b.last_modified, reads);
}

/// Dynamic dependencies: a recomputation that reads a selector and then the
/// one dependency the selector chose aggregates over those two revisions
/// alone. The revision of the dependency that was not selected does not
/// occur in the pass at all, so mutating it cannot make the pass recompute;
/// mutating the selector, or the selected dependency, past the branch's
/// computed stamp must.
pub proof fn lemma_dynamic_dependency_selection<T>(
    b: BranchView<T>,
    g: int,
    selector_rev: int,
    chosen_rev: int,
    candidate: T,
)
    ensures
        ({
            let m = aggregate(b.last_modified, seq![selector_rev, chosen_rev]);
            &&& (selector_rev <= b.last_modified && chosen_rev <= b.last_modified) ==> (
            !pass_recomputes(b, g, m) && pass_step(b, g, m, candidate).cached == b.cached)
            &&& (verify_starts(b, g) && chosen_rev > b.last_modified) ==> pass_recomputes(b, g, m)
            &&& (verify_starts(b, g) && selector_rev > b.last_modified) ==> pass_recomputes(
                b,
                g,
                m,
            )
        }),
{
    let reads = seq![selector_rev, chosen_rev];
    assert(reads.drop_last() =~= seq![selector_rev]);
    assert(seq![selector_rev].drop_last() =~= Seq::<int>::empty());
    assert(aggregate(b.last_modified, Seq::<int>::empty()) == b.last_modified);
    assert(aggregate(b.last_modified, seq![selector_rev]) == rev_max(
        b.last_modified,
        selector_rev,
    ));
    assert(aggregate(b.last_modified, reads) == rev_max(
        rev_max(b.last_modified, selector_rev),
        chosen_rev,
    ));
}

/// One kind of step against one branch: a leaf write somewhere in the graph
/// (which advances the graph revision by exactly one and touches no branch),
/// or one verify-then-compute pass over the branch, whose reads carry the
/// listed revisions.
pub enum GraphEvent<T> {
    LeafWrite,
    VerifyPass { reads: Seq<int>, candidate: T },
}

/// A step is well formed when every revision it reads was stamped by this
/// graph, and so is at most the current revision.
pub open spec fn event_wf<T>(g: int, e: GraphEvent<T>) -> bool {
    match e {
        GraphEvent::LeafWrite => true,
        GraphEvent::VerifyPass { reads, candidate } => forall|i: int|
            0 <= i < reads.len() ==> reads[i] <= g,
    }
}

/// What one step does to the graph revision and to the branch.
pub open spec fn event_step<T>(g: int, b: BranchView<T>, e: GraphEvent<T>) -> (int, BranchView<T>) {
    match e {
        GraphEvent::LeafWrite => (g + 1, b),
        GraphEvent::VerifyPass { reads, candidate } => (
            g,
            pass_step(b, g, aggregate(b.last_modified, reads), candidate),
        ),
    }
}

/// A whole history: the graph revision and the branch after a sequence of
/// steps.
pub open spec fn run<T>(g: int, b: BranchView<T>, events: Seq<GraphEvent<T>>) -> (
    int,
    BranchView<T>,
)
    decreases events.len(),
{
    if events.len() == 0 {
        (g, b)
    } else {
        let stepped = event_step(g, b, events[0]);
        run(stepped.0, stepped.1, events.subrange(1, events.len() as int))
    }
}

/// A history is well formed when each step is, in the state it runs from.
pub open spec fn run_wf<T>(g: int, b: BranchView<T>, events: Seq<GraphEvent<T>>) -> bool
    decreases events.len(),
{
    events.len() == 0 || (event_wf(g, events[0]) && {
        let stepped = event_step(g, b, events[0]);
        run_wf(stepped.0, stepped.1, events.subrange(1, events.len() as int))
    })
}

/// A branch is well formed against a graph revision: not mid-recomputation,
/// verified no earlier than computed, and stamped no later than "now".
pub open spec fn branch_wf<T>(g: int, b: BranchView<T>) -> bool {
    &&& !b.in_progress
    &&& b.last_modified <= b.last_verified
    &&& b.last_verified <= g
}

/// One step keeps a branch well formed, and moves the graph revision and
/// both of the branch's stamps only forward.
pub proof fn lemma_event_step_monotonic<T>(g: int, b: BranchView<T>, e: GraphEvent<T>)
    requires
        branch_wf(g, b),
        event_wf(g, e),
    ensures
        ({
            let stepped = event_step(g, b, e);
            &&& branch_wf(stepped.0, stepped.1)
            &&& g <= stepped.0
            &&& b.last_modified <= stepped.1.last_modified
            &&& b.last_verified <= stepped.1.last_verified
        }),
{
    match e {
        GraphEvent::LeafWrite => {}
        GraphEvent::VerifyPass { reads, candidate } => {
            lemma_aggregate_ge_seed(b.last_modified, reads);
            lemma_aggregate_le_bound(b.last_modified, reads, g);
        }
    }
}

/// Monotonicity: over any well-formed sequence of leaf writes and passes,
/// the graph revision and every branch's computed and verified stamps are
/// non-decreasing, and after every step the branch still satisfies
/// "verified no earlier than computed". Leaf writes are totally ordered by
/// the revision counter; nothing ever moves backwards.
pub proof fn lemma_run_monotonic<T>(g: int, b: BranchView<T>, events: Seq<GraphEvent<T>>)
    requires
        branch_wf(g, b),
        run_wf(g, b, events),
    ensures
        ({
            let done = run(g, b, events);
            &&& branch_wf(done.0, done.1)
            &&& g <= done.0
            &&& b.last_modified <= done.1.last_modified
            &&& b.last_verified <= done.1.last_verified
        }),
    decreases events.len(),
{
    if events.len() > 0 {
        lemma_event_step_monotonic(g, b, events[0]);
        let stepped = event_step(g, b, events[0]);
        lemma_run_monotonic(stepped.0, stepped.1, events.subrange(1, events.len() as int));
    }
}

} // verus!
