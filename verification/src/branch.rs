//! Branches and tokens: the verify-then-compute protocol.
//!
//! A [`Branch`] caches a derived value together with two stamps: the revision
//! at which it was last actually recomputed, and the revision at which it was
//! last checked for staleness. A staleness check runs in three steps, all
//! driven by the caller:
//!
//! 1. [`Branch::verify`] — if the branch has not been checked since the
//!    graph last advanced, it marks the check done and hands out a
//!    [`BranchToken`] seeded at the branch's own computed stamp, entering the
//!    in-progress state. A branch that is already in progress further up the
//!    same call chain answers [`VerifyError::CycleDetected`] instead, at
//!    once, without blocking or retrying.
//! 2. The caller reads zero or more leaves and branches through that token,
//!    each read folding the dependency's revision into the token's running
//!    maximum; which dependencies are read is rediscovered on every
//!    recomputation, never declared ahead of time.
//! 3. [`Branch::commit`] — consumes the token, leaves the in-progress state,
//!    and swaps in the candidate value exactly when the aggregated maximum
//!    exceeds the stamp of the previous recomputation.
//!
//! Reading the cached value, [`Branch::read`], folds the branch's computed
//! stamp into the caller's own token. On a branch still in progress — a
//! recomputation that never committed, or a read from inside the branch's own
//! recomputation — it answers [`VerifyError::ComputeContractViolation`].

use vstd::prelude::*;

use crate::graph::Graph;
use crate::stamp::{rev_max, Dependee, LastComputed, LastVerified, Revision};

verus! {

/// A failure of the verify-then-compute protocol. Both kinds fail fast and
/// loud: tolerating either would let a derived value diverge from its true
/// dependency set. Neither is retried — all computation is deterministic
/// given the inputs, so a retry with unchanged inputs cannot help.
#[derive(Debug, Copy, Clone, Eq, PartialEq, Structural)]
pub enum VerifyError {
    /// A recomputation transitively re-entered a branch already being
    /// recomputed on the same call chain. Unrecoverable for that query; it
    /// propagates to the outermost caller.
    CycleDetected,
    /// A recomputation ended, or was read, without its terminal commit: the
    /// branch would otherwise carry a stale cache alongside an updated
    /// verification stamp. A caller defect, not a runtime condition.
    ComputeContractViolation,
}

/// An accumulator for the maximum revision observed across the dependencies
/// read during one recomputation. The root form, [`RootToken`], is for
/// top-level callers and discards the aggregate; the branch-bound form,
/// [`BranchToken`], is handed out by [`Branch::verify`] and must be finalized
/// exactly once, by [`Branch::commit`].
pub trait Token {
    /// The running maximum so far. The root form sits at the top of the
    /// revision order, where further folding cannot move it.
    spec fn folded(&self) -> int;

    /// Folds one observed revision into the running maximum. Commutative and
    /// idempotent: the final aggregate does not depend on the order of reads.
    fn update(&mut self, rev: Revision)
        ensures
            final(self).folded() == rev_max(old(self).folded(), rev@),
    ;
}

/// The stateless token for top-level callers that do not themselves feed a
/// recomputation: everything folded into it is discarded.
#[derive(Debug)]
pub struct RootToken {}

impl Token for RootToken {
    /// Nothing is accumulated; the aggregate reads as the top of the
    /// revision order, which no fold can raise.
    open spec fn folded(&self) -> int {
        u64::MAX as int
    }

    fn update(&mut self, rev: Revision)
        ensures
            final(self).folded() == rev_max(old(self).folded(), rev@),
    {
    }
}

/// The branch-bound token: wraps the running maximum for one recomputation.
/// It is created by [`Branch::verify`], seeded at the branch's previous
/// computed stamp, and consumed by [`Branch::commit`]; ownership makes using
/// it twice impossible.
#[derive(Debug)]
pub struct BranchToken {
    pub(crate) acc: LastComputed,
}

impl View for BranchToken {
    type V = int;

    open(crate) spec fn view(&self) -> int {
        self.acc@
    }
}

impl Token for BranchToken {
    open spec fn folded(&self) -> int {
        self@
    }

    fn update(&mut self, rev: Revision)
        ensures
            final(self).folded() == rev_max(old(self).folded(), rev@),
    {
        self.acc.update_to(&rev);
    }
}

/// The spec-level contents of a branch.
pub struct BranchView<T> {
    /// The cached derived value.
    pub cached: T,
    /// The revision at which the cache was last actually recomputed: the
    /// maximum revision over every dependency read during that
    /// recomputation.
    pub last_modified: int,
    /// The revision at which the branch was last checked for staleness.
    pub last_verified: int,
    /// Whether a recomputation of this branch is running on the current call
    /// chain.
    pub in_progress: bool,
}

/// Whether [`Branch::verify`] at graph revision `g` opens a recomputation:
/// the branch is not already being recomputed, and has not been checked
/// since the graph last advanced.
pub open spec fn verify_starts<T>(b: BranchView<T>, g: int) -> bool {
    !b.in_progress && b.last_verified < g
}

/// The branch after [`Branch::verify`] at graph revision `g`: either
/// unchanged, or marked checked-and-in-progress.
pub open spec fn verify_step<T>(b: BranchView<T>, g: int) -> BranchView<T> {
    if verify_starts(b, g) {
        BranchView { last_verified: g, in_progress: true, ..b }
    } else {
        b
    }
}

/// Whether [`Branch::commit`] with aggregated maximum `m` swaps the cache:
/// exactly when some dependency read during the recomputation was newer than
/// the previous recomputation.
pub open spec fn commit_updates<T>(b: BranchView<T>, m: int) -> bool {
    b.last_modified < m
}

/// The branch after [`Branch::commit`] with aggregated maximum `m` and
/// candidate value `v`: out of the in-progress state, and recomputed to `v`
/// at `m` exactly when `m` exceeds the previous computed stamp.
pub open spec fn commit_step<T>(b: BranchView<T>, m: int, v: T) -> BranchView<T> {
    if commit_updates(b, m) {
        BranchView { cached: v, last_modified: m, in_progress: false, ..b }
    } else {
        BranchView { in_progress: false, ..b }
    }
}

/// One whole verify-then-compute pass over a branch at graph revision `g`,
/// where the reads performed by the recomputation aggregated to `m` and the
/// candidate value was `v`: verify, and, if a recomputation opened, commit.
pub open spec fn pass_step<T>(b: BranchView<T>, g: int, m: int, v: T) -> BranchView<T> {
    if verify_starts(b, g) {
        commit_step(verify_step(b, g), m, v)
    } else {
        b
    }
}

/// Whether such a pass actually recomputes the cache.
pub open spec fn pass_recomputes<T>(b: BranchView<T>, g: int, m: int) -> bool {
    verify_starts(b, g) && commit_updates(b, m)
}

/// A cached derived value: the cache, the stamp of its last actual
/// recomputation, the stamp of its last staleness check, and the in-progress
/// flag that guards the cache's mutable interior against reentrant
/// recomputation — the sole cycle-detection signal.
#[derive(Debug)]
pub struct Branch<T> {
    pub(crate) cached: T,
    pub(crate) last_modified: LastComputed,
    pub(crate) last_verified: LastVerified,
    pub(crate) in_progress: bool,
}

impl<T> View for Branch<T> {
    type V = BranchView<T>;

    open(crate) spec fn view(&self) -> BranchView<T> {
        BranchView {
            cached: self.cached,
            last_modified: self.last_modified@,
            last_verified: self.last_verified@,
            in_progress: self.in_progress,
        }
    }
}

impl<T> Branch<T> {
    /// A new derived cell with a trusted seed: stamped both verified and
    /// computed as of the graph's current revision, and not recomputed at
    /// construction.
    pub fn new(cached: T, graph: &Graph) -> (branch: Self)
        ensures
            branch@.cached == cached,
            branch@.last_modified == graph@,
            branch@.last_verified == graph@,
            !branch@.in_progress,
    {
        Self {
            cached,
            last_modified: LastComputed::clean(&graph.current),
            last_verified: LastVerified::clean(&graph.current),
            in_progress: false,
        }
    }

    /// A new derived cell whose seed is not trusted: stamped dirty, below
    /// every revision a graph hands out, so the first staleness check always
    /// recomputes it.
    pub fn new_dirty(cached: T) -> (branch: Self)
        ensures
            branch@.cached == cached,
            branch@.last_modified == 0,
            branch@.last_verified == 0,
            !branch@.in_progress,
    {
        Self {
            cached,
            last_modified: LastComputed::dirty(),
            last_verified: LastVerified::dirty(),
            in_progress: false,
        }
    }

    /// The staleness check. On a branch already being recomputed further up
    /// the current call chain — the only way the exclusive interior can be
    /// held here — it fails at once with a cycle error. Otherwise, if the
    /// branch has not been checked since the graph last advanced, the check
    /// is marked done for the current revision (so a second, reentrant check
    /// within the same pass is a cheap no-op), the branch enters the
    /// in-progress state, and the caller receives a token seeded at the
    /// branch's computed stamp with which to read dependencies and then
    /// commit. A branch already checked at this revision needs no
    /// recomputation: no token is handed out.
    pub fn verify(&mut self, graph: &Graph) -> (r: Result<Option<BranchToken>, VerifyError>)
        ensures
            final(self)@ == (if old(self)@.in_progress {
                old(self)@
            } else {
                verify_step(old(self)@, graph@)
            }),
            old(self)@.in_progress ==> r == Err::<Option<BranchToken>, VerifyError>(
                VerifyError::CycleDetected,
            ),
            !old(self)@.in_progress && !verify_starts(old(self)@, graph@) ==> r == Ok::<
                Option<BranchToken>,
                VerifyError,
            >(None),
            !old(self)@.in_progress && verify_starts(old(self)@, graph@) ==> (r matches Ok(o)
                && o matches Some(token) && token@ == old(self)@.last_modified),
    {
        if self.in_progress {
            Err(VerifyError::CycleDetected)
        } else if self.last_verified.should_verify(&graph.current) {
            self.last_verified.update_to(&graph.current);
            self.in_progress = true;
            Ok(Some(BranchToken { acc: self.last_modified }))
        } else {
            Ok(None)
        }
    }

    /// The terminal commit of one recomputation: consumes the token and
    /// leaves the in-progress state. The cache is swapped to `value` — and
    /// the computed stamp raised to the token's aggregate — exactly when the
    /// aggregate exceeds the stamp of the previous recomputation; otherwise
    /// every dependency that was read is unchanged since then, and the cache
    /// stays as it is. Returns whether the cache was swapped.
    ///
    /// The token must be the one [`Branch::verify`] handed out for this
    /// branch, with only dependency reads folded into it since; a
    /// recomputation reads, it does not write.
    pub fn commit(&mut self, token: BranchToken, value: T) -> (recomputed: bool)
        requires
            old(self)@.in_progress,
            token@ <= old(self)@.last_verified,
        ensures
            final(self)@ == commit_step(old(self)@, token@, value),
            recomputed == commit_updates(old(self)@, token@),
    {
        self.in_progress = false;
        if self.last_modified.should_compute(&token.acc) {
            self.last_modified.update_to(&token.acc);
            self.cached = value;
            true
        } else {
            false
        }
    }

    /// Reads the cached value as a dependency: folds the branch's computed
    /// stamp into the caller's own token, then hands the cache out, borrowed.
    /// The borrow shares the graph: as long as it is held, no leaf of that
    /// graph can be replaced, so the value cannot go stale in the reader's
    /// hands — the host language's ownership rules stand in for a runtime
    /// staleness check. A branch must have been verified at the graph's
    /// current revision before it is read; a read past that borrow is ruled
    /// out above. On a branch still in the in-progress state the cache may
    /// be stale against an already-updated verification stamp: that
    /// recomputation never committed, a caller defect, answered as such.
    pub fn read<'a, Tk: Token>(&'a self, graph: &'a Graph, token: &mut Tk) -> (r: Result<
        &'a T,
        VerifyError,
    >)
        requires
            self@.last_verified >= graph@,
        ensures
            self@.in_progress ==> r == Err::<&'a T, VerifyError>(
                VerifyError::ComputeContractViolation,
            ) && final(token).folded() == old(token).folded(),
            !self@.in_progress ==> (r matches Ok(value) && *value == self@.cached
                && final(token).folded() == rev_max(old(token).folded(), self@.last_modified)),
    {
        if self.in_progress {
            Err(VerifyError::ComputeContractViolation)
        } else {
            token.update(self.last_modified.revision());
            Ok(&self.cached)
        }
    }
}

} // verus!
