use vstd::prelude::*;

verus! {

/// Why a selection request was rejected.
///
/// Exactly one of the two validation phases fails per rejected call:
/// distinctness is checked first, so an index list containing both a repeated
/// value and an out-of-range value reports the repetition.
#[derive(Debug, Clone, PartialEq, Eq, Hash)]
pub enum MutElemsError {
    /// There is a repeated index in the provided indices.
    IndicesOverlap {
        /// First position of the repeated index in the index list.
        first: usize,
        /// Second position of the repeated index in the index list.
        second: usize,
        /// Value of the repeated index.
        index: usize,
    },
    /// A provided index is out of bounds.
    IndexBound {
        /// Position of the out-of-bounds index in the index list.
        position: usize,
        /// Value of the out-of-bounds index.
        index: usize,
        /// Number of elements in the target: should be greater than `index`.
        length: usize,
    },
}

} // verus!
