//! The index validator and the selection operations.
//!
//! Validation runs in two phases that fully gate each other: the distinctness
//! scan first, then the bounds scan, and handle construction only once both
//! have succeeded. Each phase reports the first failure it meets in a single
//! left-to-right pass.

use std::collections::HashMap;
use vstd::prelude::*;

use crate::error::MutElemsError;
use crate::handles::MutElems;
use crate::validity::distinct_indices;
use crate::validity::has_earlier_equal;
use crate::validity::identity_indices;
use crate::validity::indices_in_bounds;
use crate::validity::is_first_conflict;
use crate::validity::is_first_out_of_bounds;
use crate::validity::lemma_identity_indices_valid;

verus! {

/// Distinctness phase: scan `indices` left to right and report the first
/// repetition as the pair of list positions holding the repeated value, or
/// `None` when all values are pairwise distinct.
///
/// Lists of at most one index are distinct by construction and a pair is
/// compared directly; longer lists are scanned with a map from each value to
/// the first position at which it was seen.
pub fn find_first_conflict(indices: &Vec<usize>) -> (r: Option<(usize, usize)>)
    ensures
        match r {
            Some((first, second)) => is_first_conflict(indices@, first as int, second as int),
            None => distinct_indices(indices@),
        },
{
    let n = indices.len();
    if n <= 1 {
        return None;
    }
    if n == 2 {
        if indices[0] == indices[1] {
            proof {
                assert(!has_earlier_equal(indices@, 0));
            }
            return Some((0, 1));
        }
        proof {
            assert forall|i: int, j: int| 0 <= i < j < 2 implies indices@[i] != indices@[j] by {
                assert(i == 0 && j == 1);
            }
        }
        return None;
    }
    let mut seen: HashMap<usize, usize> = HashMap::with_capacity(n);
    let mut i: usize = 0;
    while i < n
        invariant
            n == indices@.len(),
            i <= n,
            forall|k1: int, k2: int| 0 <= k1 < k2 < i ==> indices@[k1] != indices@[k2],
            forall|k: int|
                0 <= k < i ==> seen@.contains_key(indices@[k]) && seen@[indices@[k]] == k,
            forall|v: usize|
                seen@.contains_key(v) ==> exists|k: int| 0 <= k < i && indices@[k] == v,
        decreases n - i,
    {
        let ix = indices[i];
        match seen.get(&ix) {
            Some(j_ref) => {
                let j = *j_ref;
                proof {
                    let k = choose|k: int| 0 <= k < i && indices@[k] == ix;
                    assert(seen@[indices@[k]] == k);
                    assert(j == k);
                    assert(indices@[j as int] == indices@[i as int]);
                    assert forall|jj: int| 0 <= jj < i implies !has_earlier_equal(
                        indices@,
                        jj,
                    ) by {
                        if has_earlier_equal(indices@, jj) {
                            let ii = choose|ii: int|
                                0 <= ii < jj && indices@[ii] == indices@[jj];
                            assert(indices@[ii] != indices@[jj]);
                        }
                    }
                }
                return Some((j, i));
            },
            None => {
                seen.insert(ix, i);
            },
        }
        i += 1;
    }
    None
}

/// Bounds phase: scan `indices` left to right and report the first position
/// whose value does not fit a collection of length `len`, or `None` when
/// every value is in range.
pub fn find_first_out_of_bounds(indices: &Vec<usize>, len: usize) -> (r: Option<usize>)
    ensures
        match r {
            Some(pos) => is_first_out_of_bounds(indices@, len as nat, pos as int),
            None => indices_in_bounds(indices@, len as nat),
        },
{
    let n = indices.len();
    let mut i: usize = 0;
    while i < n
        invariant
            n == indices@.len(),
            i <= n,
            forall|k: int| 0 <= k < i ==> indices@[k] < len,
        decreases n - i,
    {
        if indices[i] >= len {
            return Some(i);
        }
        i += 1;
    }
    None
}

/// An owned copy of the requested positions, so that the handle set can keep
/// them beside the target.
fn copy_indices(indices: &Vec<usize>) -> (r: Vec<usize>)
    ensures
        r@ == indices@,
{
    let n = indices.len();
    let mut r: Vec<usize> = Vec::new();
    let mut i: usize = 0;
    while i < n
        invariant
            n == indices@.len(),
            i <= n,
            r@ == indices@.subrange(0, i as int),
        decreases n - i,
    {
        r.push(indices[i]);
        i += 1;
        proof {
            assert(r@ =~= indices@.subrange(0, i as int));
        }
    }
    proof {
        assert(r@ =~= indices@);
    }
    r
}

/// Selection of arbitrary positions of a collection.
pub trait MutElemsExt<T>: View<V = Seq<T>> + Sized {
    /// Return a set of exclusive handles to the elements of `self` at each of
    /// the positions given by `indices`, in the order of `indices`.
    ///
    /// All indices must be pairwise distinct, since every handle grants
    /// exclusive access to its element, and all must be within the length of
    /// `self`. Distinctness is checked first: succeeds exactly on valid
    /// requests (an empty `indices` always succeeds), and otherwise reports
    /// the first repetition met by a left-to-right scan, or — only when all
    /// indices are distinct — the first out-of-range entry.
    fn mut_elems(self, indices: &Vec<usize>) -> (r: Result<MutElems<T>, MutElemsError>)
        ensures
            r is Ok <==> distinct_indices(indices@) && indices_in_bounds(
                indices@,
                self@.len(),
            ),
            match r {
                Ok(m) => {
                    &&& m.target_seq() == self@
                    &&& m.index_seq() == indices@
                    &&& m.well_formed()
                },
                Err(e) => match e {
                    MutElemsError::IndicesOverlap { first, second, index } => {
                        &&& is_first_conflict(indices@, first as int, second as int)
                        &&& index == indices@[second as int]
                    },
                    MutElemsError::IndexBound { position, index, length } => {
                        &&& distinct_indices(indices@)
                        &&& is_first_out_of_bounds(indices@, self@.len(), position as int)
                        &&& index == indices@[position as int]
                        &&& length == self@.len()
                    },
                },
            },
            !distinct_indices(indices@) ==> r matches Err(
                MutElemsError::IndicesOverlap { .. },
            ),
    ;
}

impl<T> MutElemsExt<T> for Vec<T> {
    fn mut_elems(self, indices: &Vec<usize>) -> (r: Result<MutElems<T>, MutElemsError>) {
        match find_first_conflict(indices) {
            Some((first, second)) => Err(
                MutElemsError::IndicesOverlap { first, second, index: indices[second] },
            ),
            None => {
                let length = self.len();
                match find_first_out_of_bounds(indices, length) {
                    Some(position) => Err(
                        MutElemsError::IndexBound {
                            position,
                            index: indices[position],
                            length,
                        },
                    ),
                    None => {
                        let owned = copy_indices(indices);
                        Ok(MutElems::from_parts(self, owned))
                    },
                }
            },
        }
    }
}

/// Selection of every position of a collection at once.
pub trait AsMutElemsExt<T>: View<V = Seq<T>> + Sized {
    /// Return a set of exclusive handles to every element of `self`, one per
    /// storage position, in position order. Never fails: each position is
    /// selected exactly once and all positions are in range by construction.
    fn as_mut_elems(self) -> (m: MutElems<T>)
        ensures
            m.target_seq() == self@,
            m.index_seq() == identity_indices(self@.len()),
            m.well_formed(),
    ;
}

impl<T> AsMutElemsExt<T> for Vec<T> {
    fn as_mut_elems(self) -> (m: MutElems<T>) {
        let len = self.len();
        let mut idx: Vec<usize> = Vec::new();
        let mut i: usize = 0;
        while i < len
            invariant
                len == self@.len(),
                i <= len,
                idx@ == identity_indices(i as nat),
            decreases len - i,
        {
            idx.push(i);
            i += 1;
            proof {
                assert(idx@ =~= identity_indices(i as nat));
            }
        }
        proof {
            lemma_identity_indices_valid(len as nat);
        }
        MutElems::from_parts(self, idx)
    }
}

/// The growable-collection spelling of full selection.
pub trait AsMutElemsVecExt<T>: View<V = Seq<T>> + Sized {
    /// Return a set of exclusive handles to every element of `self`, one per
    /// storage position, in position order — full selection for a growable
    /// collection. Never fails.
    fn as_mut_elems_vec(self) -> (m: MutElems<T>)
        ensures
            m.target_seq() == self@,
            m.index_seq() == identity_indices(self@.len()),
            m.well_formed(),
    ;
}

impl<T> AsMutElemsVecExt<T> for Vec<T> {
    fn as_mut_elems_vec(self) -> (m: MutElems<T>) {
        self.as_mut_elems()
    }
}

} // verus!
