//! The graph: owner of the one revision counter of a computation session,
//! the only place leaf mutation happens, and the factory for leaves and
//! branches.

use vstd::prelude::*;
use vstd::std_specs::cmp::PartialEqSpec;

use crate::branch::{Branch, Token};
use crate::stamp::{rev_max, Current, Dependee, LastModified, Revision};

verus! {

/// One computation session. A graph owns exactly one revision counter and no
/// other mutable state: it is created once, advanced only by leaf writes, and
/// read by every staleness check. It must not be shared across threads.
#[derive(Debug)]
pub struct Graph {
    pub(crate) current: Current,
}

impl View for Graph {
    type V = int;

    open(crate) spec fn view(&self) -> int {
        self.current@
    }
}

/// A mutable input cell: a value together with the revision at which it was
/// last actually changed. Created through a graph's leaf factory and written
/// only through the graph's replace operations; otherwise immutable from the
/// outside.
#[derive(Debug)]
pub struct Leaf<T> {
    pub(crate) value: T,
    pub(crate) last_modified: LastModified,
}

/// The spec-level contents of a leaf.
pub struct LeafView<T> {
    pub value: T,
    pub last_modified: int,
}

impl<T> View for Leaf<T> {
    type V = LeafView<T>;

    open(crate) spec fn view(&self) -> LeafView<T> {
        LeafView { value: self.value, last_modified: self.last_modified@ }
    }
}

impl Graph {
    /// A fresh session: the counter starts at `1`, one above the dirty
    /// sentinel.
    pub fn new() -> (g: Self)
        ensures
            g@ == 1,
    {
        Self { current: Current::new() }
    }

    /// The revision "now". Everything stamped by this graph carries a value
    /// at most this one.
    pub fn revision(&self) -> (r: Revision)
        ensures
            r@ == self@,
    {
        self.current.revision()
    }

    /// A new input cell, stamped with the current revision.
    pub fn leaf<T>(&self, value: T) -> (leaf: Leaf<T>)
        ensures
            leaf@.value == value,
            leaf@.last_modified == self@,
    {
        Leaf::new(value, self)
    }

    /// A new derived cell whose seed value is trusted: it is stamped both
    /// verified and computed as of the current revision, and is not
    /// recomputed at construction.
    pub fn branch<T>(&self, value: T) -> (branch: Branch<T>)
        ensures
            branch@.cached == value,
            branch@.last_modified == self@,
            branch@.last_verified == self@,
            !branch@.in_progress,
    {
        Branch::new(value, self)
    }

    /// Replaces a leaf's value, advancing the revision counter by exactly one
    /// — unless the new value equals the old one, in which case nothing
    /// changes at all: value-equal writes must not advance the revision, so
    /// that no downstream recomputation is caused for nothing.
    ///
    /// Returns the previous value. The exact contract is conditioned on the
    /// value type's `==` agreeing with its specification (`obeys_eq_spec`);
    /// unconditionally, the call either leaves graph and leaf untouched and
    /// returns the argument, or performs exactly the effective write that
    /// [`Graph::replace_always`] describes.
    pub fn replace<T: PartialEq>(&mut self, leaf: &mut Leaf<T>, value: T) -> (old_value: T)
        requires
            old(self)@ < u64::MAX,
        ensures
            T::obeys_eq_spec() ==> {
                if old(leaf)@.value.eq_spec(&value) {
                    &&& final(self)@ == old(self)@
                    &&& final(leaf)@ == old(leaf)@
                    &&& old_value == value
                } else {
                    &&& final(self)@ == old(self)@ + 1
                    &&& final(leaf)@.value == value
                    &&& final(leaf)@.last_modified == final(self)@
                    &&& old_value == old(leaf)@.value
                }
            },
            (final(self)@ == old(self)@ && final(leaf)@ == old(leaf)@ && old_value == value)
                || (final(self)@ == old(self)@ + 1 && final(leaf)@.value == value
                && final(leaf)@.last_modified == final(self)@ && old_value == old(leaf)@.value),
    {
        if leaf.value == value {
            value
        } else {
            self.replace_always(leaf, value)
        }
    }

    /// Replaces a leaf's value unconditionally: the variant of
    /// [`Graph::replace`] that skips the equality check, for callers who need
    /// forced invalidation. Always advances the revision counter by exactly
    /// one and stamps the leaf with the new revision. Returns the previous
    /// value.
    pub fn replace_always<T>(&mut self, leaf: &mut Leaf<T>, value: T) -> (old_value: T)
        requires
            old(self)@ < u64::MAX,
        ensures
            final(self)@ == old(self)@ + 1,
            final(leaf)@.value == value,
            final(leaf)@.last_modified == final(self)@,
            old_value == old(leaf)@.value,
    {
        leaf.last_modified.modify(&mut self.current);
        let mut swapped = value;
        core::mem::swap(&mut leaf.value, &mut swapped);
        swapped
    }
}

impl<T> Leaf<T> {
    /// A new input cell, stamped with the graph's current revision.
    pub fn new(value: T, graph: &Graph) -> (leaf: Self)
        ensures
            leaf@.value == value,
            leaf@.last_modified == graph@,
    {
        Self { value, last_modified: LastModified::new(&graph.current) }
    }

    /// Reads the value as a dependency: folds the leaf's revision into the
    /// reader's running maximum, then hands the value out. Never fails and
    /// never recurses.
    pub fn read<'a, Tk: Token>(&'a self, token: &mut Tk) -> (value: &'a T)
        ensures
            *value == self@.value,
            final(token).folded() == rev_max(old(token).folded(), self@.last_modified),
    {
        token.update(self.last_modified.revision());
        &self.value
    }
}

} // verus!
