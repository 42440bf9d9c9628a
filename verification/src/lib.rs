//! Inline storage for bounded vectors and strings, and the choice of the
//! narrowest index representation for a capacity.
//!
//! A bounded container keeps its elements in a buffer of fixed length that
//! lies inside the container, and its length in an index type. The narrower
//! that type, the smaller the container: a vector of at most 3 elements can
//! keep its length in one byte, one of at most 100 000 needs four.
//!
//! [`index`] holds the table by which the index representation is chosen:
//! [`index::index_for_capacity`] gives the narrowest of six representations
//! that holds every length from 0 up to the capacity.
//!
//! [`plumbing`] holds the same table as types, for code that computes with
//! `typenum`, and [`plumbing::ArrayvecStorageRaw`], which wraps a buffer
//! without copying it and hands out its elements as a slice.

pub mod index;
pub mod plumbing;
mod private;

pub use generic_array::typenum;
pub use index::{index_for_capacity, IndexKind, IndexType, PickIndexBreakpoints};
pub use plumbing::{ArrayvecStorageRaw, IsTrue, PickIndex};
