//! The capability of checked recovery from an erasure.

use vstd::prelude::*;
use crate::erasure::erasure::Erasure;

verus! {

/// Indicates that the type is a potential erasure of `T`, and contains
/// information to determine at run time whether that is the case.
///
/// This strengthens [`Erasure`] with a query and a fallible downcast. A
/// mismatch is not a failure: `try_downcast` hands the erasure back
/// unchanged, so the caller can retry with a different target type.
pub trait TaggedErasure<T>: Erasure<T> {
    /// Checks whether this erasure has underlying type `T`.
    fn is(&self) -> (r: bool)
        ensures
            r == (self.payload() is Some),
    ;

    /// Downcasts this erasure into a `T` if the underlying type is such,
    /// returning `self` unchanged if not.
    fn try_downcast(self) -> (r: Result<T, Self>)
        ensures
            match r {
                Ok(v) => self.payload() == Some(v),
                Err(e) => self.payload() is None && e == self,
            },
    ;
}

} // verus!
