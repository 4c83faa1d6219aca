//! The first position at which something holds: the one notion of
//! "first" behind route matching and export binding.

use vstd::prelude::*;

verus! {

/// Whether `i` is the first of the positions `0..len` at which `holds`.
pub open spec fn is_first(holds: spec_fn(int) -> bool, len: int, i: int) -> bool {
    &&& 0 <= i < len
    &&& holds(i)
    &&& forall|j: int| 0 <= j < i ==> !#[trigger] holds(j)
}

/// The first of the positions `0..len` at which `holds`, if there is one.
pub open spec fn first(holds: spec_fn(int) -> bool, len: int) -> Option<int> {
    if exists|i: int| is_first(holds, len, i) {
        Some(choose|i: int| is_first(holds, len, i))
    } else {
        None
    }
}

/// A first position is the first position: there is no other.
pub proof fn lemma_first_is(holds: spec_fn(int) -> bool, len: int, i: int)
    requires
        is_first(holds, len, i),
    ensures
        first(holds, len) == Some(i),
{
    let k = choose|k: int| is_first(holds, len, k);
    if k < i {
        assert(!holds(k));
    } else if i < k {
        assert(!holds(i));
    }
}

/// Where nothing holds there is no first position.
pub proof fn lemma_first_none(holds: spec_fn(int) -> bool, len: int)
    requires
        forall|j: int| 0 <= j < len ==> !#[trigger] holds(j),
    ensures
        first(holds, len) is None,
{
}

/// What `first` returns, said without `choose`: the position at which
/// `holds` and before which it does not, or nothing where it holds
/// nowhere.
pub proof fn lemma_first_cases(holds: spec_fn(int) -> bool, len: int)
    ensures
        match first(holds, len) {
            Some(i) => is_first(holds, len, i),
            None => forall|j: int| 0 <= j < len ==> !#[trigger] holds(j),
        },
{
    if first(holds, len) is None {
        assert forall|j: int| 0 <= j < len implies !#[trigger] holds(j) by {
            if holds(j) {
                lemma_least(holds, len, j);
            }
        }
    }
}

/// Where `holds` at some position, it holds at a first one.
proof fn lemma_least(holds: spec_fn(int) -> bool, len: int, j: int)
    requires
        0 <= j < len,
        holds(j),
    ensures
        exists|i: int| is_first(holds, len, i),
    decreases j,
{
    if exists|k: int| 0 <= k < j && #[trigger] holds(k) {
        let k = choose|k: int| 0 <= k < j && #[trigger] holds(k);
        lemma_least(holds, len, k);
    } else {
        assert(is_first(holds, len, j));
    }
}

} // verus!
