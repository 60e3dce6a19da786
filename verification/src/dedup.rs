//! First-occurrence deduplication: the helper an embedding traversal uses to
//! visit every node of a dependency walk once. The first time a value is
//! offered it is kept; offering it again within the same pass is reported,
//! and skipped, rather than reprocessed.

use vstd::prelude::*;
use vstd::std_specs::cmp::PartialEqSpec;

verus! {

/// Whether a value offered to [`vec_set_add`] was new to the set.
#[derive(Debug, Copy, Clone, Eq, PartialEq, Structural)]
pub enum Presence {
    /// The value was not in the set; it has been appended.
    Unique,
    /// The value was already in the set; the set is unchanged.
    Duplicate,
}

/// Adds a value to a vector kept as a set, in first-offered order:
/// `Unique` appends the value, `Duplicate` leaves the vector exactly as it
/// was. Which of the two happens is decided by `==` on the element type; the
/// exact membership condition is stated where that `==` agrees with its
/// specification (`obeys_eq_spec`).
pub fn vec_set_add<T: Copy + PartialEq>(vec: &mut Vec<T>, val: T) -> (p: Presence)
    ensures
        (p is Duplicate && final(vec)@ == old(vec)@) || (p is Unique && final(vec)@ == old(
            vec,
        )@.push(val)),
        T::obeys_eq_spec() ==> (p is Duplicate <==> exists|i: int|
            0 <= i < old(vec)@.len() && old(vec)@[i].eq_spec(&val)),
{
    let n = vec.len();
    let mut i: usize = 0;
    while i < n
        invariant
            i <= n,
            n == vec@.len(),
            vec@ == old(vec)@,
            T::obeys_eq_spec() ==> forall|j: int| 0 <= j < i ==> !vec@[j].eq_spec(&val),
        decreases n - i,
    {
        if vec[i] == val {
            return Presence::Duplicate;
        }
        i = i + 1;
    }
    vec.push(val);
    Presence::Unique
}

} // verus!
