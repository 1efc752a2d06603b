//! The trait that says nothing.

use vstd::prelude::*;

verus! {

/// Trait implemented for all types, providing no information about them.
///
/// A bound on `Unknown` constrains nothing; it names the role of a type
/// parameter whose identity has been given up.
pub trait Unknown {}

impl<T> Unknown for T {}

} // verus!
