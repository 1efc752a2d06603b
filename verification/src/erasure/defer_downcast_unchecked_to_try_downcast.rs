//! Unchecked recovery in terms of checked recovery.

use vstd::prelude::*;
use crate::erasure::tagged_erasure::TaggedErasure;

verus! {

/// Default implementation of
/// [`downcast_unchecked`](crate::erasure::erasure::Erasure::downcast_unchecked).
///
/// For use when implementing [`Erasure`](crate::erasure::erasure::Erasure)
/// for types which implement [`TaggedErasure`]: the caller has proved that
/// the erasure holds a `T`, so the checked downcast cannot report a
/// mismatch, and the mismatch arm is unreachable.
pub fn defer_downcast_unchecked_to_try_downcast<T, E: TaggedErasure<T>>(self_: E) -> (r: T)
    requires
        self_.payload() is Some,
    ensures
        Some(r) == self_.payload(),
{
    match self_.try_downcast() {
        Ok(unerased) => unerased,
        Err(_) => unreached(),
    }
}

} // verus!
