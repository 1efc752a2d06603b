//! The capability of constructing an erasure from an owned value.

use vstd::prelude::*;
use crate::erasure::erasure::Erasure;

verus! {

/// [`Erasure`]-type which can be constructed by taking ownership of a value.
///
/// Erasing is lossless: the new erasure holds exactly the value that was
/// handed in, so a later downcast gives it back. An erasure kind may accept
/// only part of the payload universe (a fixed-capacity erasure bounds the
/// payload's size); [`Erase::accepts`] states the condition.
pub trait Erase<T>: Erasure<T> {
    /// Whether this erasure kind can hold `value`.
    spec fn accepts(value: T) -> bool;

    /// Creates an instance of this type of [erasure](Erasure) from a value
    /// of type `T`.
    fn erase(value: T) -> (r: Self)
        requires
            Self::accepts(value),
        ensures
            r.payload() == Some(value),
    ;
}

} // verus!
