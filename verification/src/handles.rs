//! The handle set: exclusive per-element access to a validated selection.

use vstd::prelude::*;

use crate::validity::distinct_indices;
use crate::validity::indices_in_bounds;

verus! {

/// A set of exclusive element handles into one collection.
///
/// A successful selection conceptually transfers the whole-collection
/// exclusive borrow into one handle per requested position; the collection
/// comes back through [`MutElems::into_target`] once the handles are done.
/// Handle `i` grants exclusive read/write access to the element at position
/// `index_seq()[i]` of the target, and [`MutElems::well_formed`] — which
/// every constructor establishes and every method preserves — guarantees
/// that no two handles alias the same element.
pub struct MutElems<T> {
    target: Vec<T>,
    indices: Vec<usize>,
}

impl<T> MutElems<T> {
    /// The elements of the underlying collection, in storage order.
    pub closed spec fn target_seq(self) -> Seq<T> {
        self.target@
    }

    /// The storage position selected by each handle, in request order.
    pub closed spec fn index_seq(self) -> Seq<usize> {
        self.indices@
    }

    /// Exclusivity invariant: the handles select pairwise distinct positions,
    /// all inside the target.
    pub open spec fn well_formed(self) -> bool {
        &&& distinct_indices(self.index_seq())
        &&& indices_in_bounds(self.index_seq(), self.target_seq().len())
    }

    /// Assemble a handle set from a target and already-validated positions.
    pub(crate) fn from_parts(target: Vec<T>, indices: Vec<usize>) -> (m: Self)
        requires
            distinct_indices(indices@),
            indices_in_bounds(indices@, target@.len()),
        ensures
            m.target_seq() == target@,
            m.index_seq() == indices@,
            m.well_formed(),
    {
        MutElems { target, indices }
    }

    /// The number of handles in the set.
    pub fn len(&self) -> (n: usize)
        ensures
            n == self.index_seq().len(),
    {
        self.indices.len()
    }

    /// Whether the set holds no handles.
    pub fn is_empty(&self) -> (b: bool)
        ensures
            b <==> self.index_seq().len() == 0,
    {
        self.indices.is_empty()
    }

    /// The length of the underlying collection.
    pub fn target_len(&self) -> (n: usize)
        ensures
            n == self.target_seq().len(),
    {
        self.target.len()
    }

    /// The storage position selected by handle `i`.
    pub fn position(&self, i: usize) -> (p: usize)
        requires
            i < self.index_seq().len(),
        ensures
            p == self.index_seq()[i as int],
    {
        self.indices[i]
    }

    /// Read the element selected by handle `i`.
    pub fn read(&self, i: usize) -> (e: &T)
        requires
            self.well_formed(),
            i < self.index_seq().len(),
        ensures
            *e == self.target_seq()[self.index_seq()[i as int] as int],
    {
        let ix = self.indices[i];
        proof {
            assert(self.index_seq()[i as int] < self.target_seq().len());
        }
        &self.target[ix]
    }

    /// Write `value` through handle `i`: the element at the selected position
    /// becomes `value` and no other element of the target changes.
    pub fn write(&mut self, i: usize, value: T)
        requires
            old(self).well_formed(),
            i < old(self).index_seq().len(),
        ensures
            final(self).index_seq() == old(self).index_seq(),
            final(self).target_seq() == old(self).target_seq().update(
                old(self).index_seq()[i as int] as int,
                value,
            ),
            final(self).well_formed(),
    {
        let ix = self.indices[i];
        proof {
            assert(self.index_seq()[i as int] < self.target_seq().len());
        }
        self.target[ix] = value;
    }

    /// Drop every handle and give the whole collection back.
    pub fn into_target(self) -> (v: Vec<T>)
        ensures
            v@ == self.target_seq(),
    {
        self.target
    }
}

} // verus!
