//! Simultaneous exclusive access to multiple elements of a `Vec`.
//!
//! Given a collection and a list of positions, [`MutElemsExt::mut_elems`]
//! either hands back a [`MutElems`] handle set granting exclusive read/write
//! access to one element per requested position, or rejects the request with
//! a precise [`MutElemsError`]: the positions must be pairwise distinct and
//! all within the collection's length. [`AsMutElemsExt::as_mut_elems`] and
//! [`AsMutElemsVecExt::as_mut_elems_vec`] are the never-failing variants that
//! select every position of the collection.

pub mod error;
pub mod handles;
pub mod select;
pub mod validity;

pub use error::MutElemsError;
pub use handles::MutElems;
pub use select::AsMutElemsExt;
pub use select::AsMutElemsVecExt;
pub use select::MutElemsExt;
