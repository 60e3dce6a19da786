//! Revision stamps: the ordering protocol underneath the engine.
//!
//! A [`Revision`] is a generation counter value. [`Current`] is the one
//! counter a graph owns; [`LastModified`] stamps a leaf with the revision of
//! its latest effective write; [`LastVerified`] records when a branch was
//! last checked for staleness; [`LastComputed`] records the maximum revision
//! over everything a branch read during its latest recomputation, and doubles
//! as the running maximum a token accumulates. Everything here is a thin,
//! exactly specified wrapper over `max` and `<` on revisions.

use vstd::prelude::*;

verus! {

/// The running-maximum fold on revision numbers: the aggregate after one more
/// dependency of revision `rev` has been read into an accumulator at `acc`.
pub open spec fn rev_max(acc: int, rev: int) -> int {
    if acc >= rev {
        acc
    } else {
        rev
    }
}

/// A point in a graph's mutation history: a totally ordered, monotonically
/// increasing generation stamp.
///
/// Convention, fixed for the whole crate: `0` is the reserved minimum
/// ("dirty"), meaning "never computed or verified"; a fresh graph counts
/// from `1`. Anything stamped dirty therefore compares strictly below every
/// stamp a graph ever hands out.
#[derive(Debug, Copy, Clone, Eq, PartialEq, Ord, PartialOrd, Hash)]
pub struct Revision(pub(crate) u64);

impl View for Revision {
    type V = int;

    open(crate) spec fn view(&self) -> int {
        self.0 as int
    }
}

impl Revision {
    /// The reserved minimum revision, strictly below every stamp a graph
    /// hands out: it marks a cell as never computed or verified.
    pub fn dirty() -> (r: Revision)
        ensures
            r@ == 0,
    {
        Revision(0)
    }
}

/// A source of a revision stamp: something a recomputation can read as a
/// dependency. Its stamp is folded into the reader's running maximum.
pub trait Dependee {
    /// The revision this dependency was last effectively changed at.
    spec fn rev(&self) -> int;

    /// Hands out the stamp itself.
    fn revision(&self) -> (r: Revision)
        ensures
            r@ == self.rev(),
    ;
}

impl Dependee for Revision {
    open spec fn rev(&self) -> int {
        self@
    }

    fn revision(&self) -> (r: Revision)
        ensures
            r@ == self.rev(),
    {
        *self
    }
}

/// The one revision counter a graph owns: the revision "now".
#[derive(Debug)]
pub struct Current(pub(crate) Revision);

impl View for Current {
    type V = int;

    open(crate) spec fn view(&self) -> int {
        self.0@
    }
}

impl Current {
    /// A fresh counter, starting at `1`: one above the dirty sentinel, so
    /// that dirty cells are stale from the first moment on.
    pub fn new() -> (c: Self)
        ensures
            c@ == 1,
    {
        Self(Revision(1))
    }

    /// The revision "now".
    pub fn revision(&self) -> (r: Revision)
        ensures
            r@ == self@,
    {
        self.0
    }

    /// Advances the counter by exactly one. Every effective leaf write goes
    /// through here, so all writes against one graph are totally ordered.
    pub fn advance(&mut self) -> (r: Revision)
        requires
            old(self)@ < u64::MAX,
        ensures
            final(self)@ == old(self)@ + 1,
            r@ == final(self)@,
    {
        self.0 = Revision(self.0.0 + 1);
        self.0
    }
}

/// The revision at which a branch was last checked for staleness, whether or
/// not that check ended in a recomputation.
#[derive(Debug, Copy, Clone)]
pub struct LastVerified(pub(crate) Revision);

impl View for LastVerified {
    type V = int;

    open(crate) spec fn view(&self) -> int {
        self.0@
    }
}

impl LastVerified {
    /// Verified as of now: a stamp equal to the counter's current value.
    pub fn clean(current: &Current) -> (s: Self)
        ensures
            s@ == current@,
    {
        Self(current.0)
    }

    /// Never verified: the dirty sentinel, stale against any counter.
    pub fn dirty() -> (s: Self)
        ensures
            s@ == 0,
    {
        Self(Revision(0))
    }

    /// A staleness check is due exactly when the counter has moved past this
    /// stamp.
    pub fn should_verify(&self, current: &Current) -> (b: bool)
        ensures
            b == (self@ < current@),
    {
        self.0.0 < current.0.0
    }

    /// Marks the check done for the counter's current value, so a second
    /// check within the same revision is a cheap no-op.
    pub fn update_to(&mut self, current: &Current)
        requires
            old(self)@ < current@,
        ensures
            final(self)@ == current@,
    {
        self.0 = current.0;
    }

    /// Runs `f` exactly when a staleness check is due, stamping the check
    /// done first.
    pub fn verify_with<F: FnOnce() -> ()>(&mut self, current: &Current, f: F)
        requires
            old(self)@ < current@ ==> call_requires(f, ()),
        ensures
            final(self)@ == rev_max(old(self)@, current@),
            old(self)@ < current@ ==> call_ensures(f, (), ()),
    {
        if self.should_verify(&current) {
            self.update_to(&current);
            f()
        }
    }
}

/// The revision at which a leaf's value was last actually changed.
#[derive(Debug, Copy, Clone)]
pub struct LastModified(pub(crate) Revision);

impl View for LastModified {
    type V = int;

    open(crate) spec fn view(&self) -> int {
        self.0@
    }
}

impl LastModified {
    /// Stamps a freshly created leaf with the counter's current value.
    pub fn new(current: &Current) -> (s: Self)
        ensures
            s@ == current@,
    {
        Self(current.0)
    }

    /// Records an effective write: advances the counter by exactly one and
    /// stamps this cell with the new value.
    pub fn modify(&mut self, current: &mut Current)
        requires
            old(current)@ < u64::MAX,
        ensures
            final(current)@ == old(current)@ + 1,
            final(self)@ == final(current)@,
    {
        self.0 = current.advance();
    }
}

impl Dependee for LastModified {
    open spec fn rev(&self) -> int {
        self@
    }

    fn revision(&self) -> (r: Revision)
        ensures
            r@ == self.rev(),
    {
        self.0
    }
}

/// The maximum revision over everything a branch read during its latest
/// recomputation — always a maximum of revisions, never a dirty bit or a
/// count. The same type serves as the running maximum a token accumulates.
#[derive(Debug, Copy, Clone)]
pub struct LastComputed(pub(crate) Revision);

impl View for LastComputed {
    type V = int;

    open(crate) spec fn view(&self) -> int {
        self.0@
    }
}

impl LastComputed {
    /// Computed as of now: a stamp equal to the counter's current value.
    pub fn clean(current: &Current) -> (s: Self)
        ensures
            s@ == current@,
    {
        Self(current.0)
    }

    /// Never computed: the dirty sentinel, below every dependency a graph
    /// ever stamps, so the first aggregation always exceeds it.
    pub fn dirty() -> (s: Self)
        ensures
            s@ == 0,
    {
        Self(Revision(0))
    }

    /// A recomputation is due exactly when some dependency carries a newer
    /// stamp than this one.
    pub fn should_compute(&self, dependee: &impl Dependee) -> (b: bool)
        ensures
            b == (self@ < dependee.rev()),
    {
        self.0.0 < dependee.revision().0
    }

    /// The scan over a remembered dependency set: whether any of the listed
    /// stamps is newer than this one — the check an embedder runs over
    /// everything a derivation read last time, before walking it again.
    pub fn should_compute_any(&self, dependees: &Vec<LastModified>) -> (b: bool)
        ensures
            b == (exists|i: int| 0 <= i < dependees@.len() && self@ < dependees@[i]@),
    {
        let n = dependees.len();
        let mut i: usize = 0;
        while i < n
            invariant
                i <= n,
                n == dependees@.len(),
                forall|j: int| 0 <= j < i ==> !(self@ < dependees@[j]@),
            decreases n - i,
        {
            if self.should_compute(&dependees[i]) {
                return true;
            }
            i = i + 1;
        }
        false
    }

    /// Folds one dependency into the running maximum.
    pub fn update_to(&mut self, dependee: &impl Dependee)
        ensures
            final(self)@ == rev_max(old(self)@, dependee.rev()),
    {
        let revision = dependee.revision();
        if self.0.0 < revision.0 {
            self.0 = revision
        }
    }
}

impl Dependee for LastComputed {
    open spec fn rev(&self) -> int {
        self@
    }

    fn revision(&self) -> (r: Revision)
        ensures
            r@ == self.rev(),
    {
        self.0
    }
}

} // verus!
