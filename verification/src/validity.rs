//! The two validity conditions on an index list — pairwise distinctness and
//! bounds — together with the lemmas that make them useful to callers.

use vstd::prelude::*;

verus! {

/// No index value appears at two different positions of the list.
pub open spec fn distinct_indices(s: Seq<usize>) -> bool {
    forall|i: int, j: int| 0 <= i < j < s.len() ==> s[i] != s[j]
}

/// Every index value selects a position inside a collection of length `len`.
pub open spec fn indices_in_bounds(s: Seq<usize>, len: nat) -> bool {
    forall|i: int| 0 <= i < s.len() ==> s[i] < len
}

/// Some earlier list position holds the same value as position `j`.
pub open spec fn has_earlier_equal(s: Seq<usize>, j: int) -> bool {
    exists|i: int| 0 <= i < j && s[i] == s[j]
}

/// `first` and `second` describe the conflict that a single left-to-right
/// scan of `s` reports: `second` is the earliest position that repeats an
/// earlier value, and `first` is the earliest position holding that value.
pub open spec fn is_first_conflict(s: Seq<usize>, first: int, second: int) -> bool {
    &&& 0 <= first < second < s.len()
    &&& s[first] == s[second]
    &&& forall|j: int| 0 <= j < second ==> !has_earlier_equal(s, j)
    &&& forall|i: int| 0 <= i < first ==> s[i] != s[second]
}

/// `pos` is the earliest list position whose value does not fit a collection
/// of length `len`.
pub open spec fn is_first_out_of_bounds(s: Seq<usize>, len: nat, pos: int) -> bool {
    &&& 0 <= pos < s.len()
    &&& s[pos] >= len
    &&& forall|i: int| 0 <= i < pos ==> s[i] < len
}

/// The index list `0, 1, ..., len - 1` selecting every position of a
/// collection of length `len`.
pub open spec fn identity_indices(len: nat) -> Seq<usize> {
    Seq::new(len, |i: int| i as usize)
}

/// An empty index list is valid for every collection length: selecting no
/// elements always succeeds, whatever the collection.
pub proof fn lemma_empty_indices_valid(len: nat)
    ensures
        distinct_indices(Seq::<usize>::empty()),
        indices_in_bounds(Seq::<usize>::empty(), len),
{
}

/// The full index list `0, 1, ..., len - 1` is valid for a collection of
/// length `len`: selecting every position at once always succeeds.
pub proof fn lemma_identity_indices_valid(len: nat)
    requires
        len <= usize::MAX,
    ensures
        identity_indices(len).len() == len,
        distinct_indices(identity_indices(len)),
        indices_in_bounds(identity_indices(len), len),
{
    assert forall|i: int, j: int| 0 <= i < j < len implies identity_indices(len)[i]
        != identity_indices(len)[j] by {
        assert(identity_indices(len)[i] == i as usize);
        assert(identity_indices(len)[j] == j as usize);
    }
}

/// Distinctness makes the handles exclusive: any two different handle
/// positions select different elements of the target.
pub proof fn lemma_distinct_gives_exclusive(s: Seq<usize>)
    requires
        distinct_indices(s),
    ensures
        forall|i: int, j: int|
            0 <= i < s.len() && 0 <= j < s.len() && i != j ==> s[i] != s[j],
{
    assert forall|i: int, j: int|
        0 <= i < s.len() && 0 <= j < s.len() && i != j implies s[i] != s[j] by {
        if i < j {
            assert(s[i] != s[j]);
        } else {
            assert(s[j] != s[i]);
        }
    }
}

/// Writing through one handle is visible at exactly the selected position:
/// the element there becomes the written value, every other element of the
/// target keeps its value, and the length does not change.
pub proof fn lemma_write_visibility<T>(target: Seq<T>, s: Seq<usize>, i: int, value: T)
    requires
        indices_in_bounds(s, target.len()),
        0 <= i < s.len(),
    ensures
        target.update(s[i] as int, value).len() == target.len(),
        target.update(s[i] as int, value)[s[i] as int] == value,
        forall|p: int|
            0 <= p < target.len() && p != s[i] ==> target.update(s[i] as int, value)[p]
                == target[p],
{
}

/// Writing through one handle never changes the element seen through any
/// other handle of the same set: the selected positions are disjoint.
pub proof fn lemma_writes_independent<T>(target: Seq<T>, s: Seq<usize>, i: int, k: int, value: T)
    requires
        distinct_indices(s),
        indices_in_bounds(s, target.len()),
        0 <= i < s.len(),
        0 <= k < s.len(),
        k != i,
    ensures
        target.update(s[i] as int, value)[s[k] as int] == target[s[k] as int],
{
    lemma_distinct_gives_exclusive(s);
}

} // verus!
