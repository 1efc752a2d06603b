//! The capability of unchecked recovery from an erasure.

use vstd::prelude::*;

verus! {

/// Trait implemented by types that represent type-erased containers for
/// other types.
///
/// The erasure either holds a `T` — then [`Erasure::payload`] says which one
/// — or it holds a payload of some other type. Recovery is only permitted in
/// the first case: the caller proves the precondition, and in exchange the
/// recovered value is exactly the payload that was erased.
pub trait Erasure<T>: Sized {
    /// The `T` this erasure holds, if it holds one.
    spec fn payload(self) -> Option<T>;

    /// Downcasts this erasure into its underlying type `T`.
    ///
    /// The caller must prove that the erasure really is a `T` underneath.
    fn downcast_unchecked(self) -> (r: T)
        requires
            self.payload() is Some,
        ensures
            Some(r) == self.payload(),
    ;
}

} // verus!
