//! Laws that hold of every erasure kind.

use vstd::prelude::*;
use crate::erasure::erase::Erase;
use crate::erasure::erasure::Erasure;
use crate::erasure::tagged_erasure::TaggedErasure;

verus! {

/// Round trip: erasing a value and downcasting the erasure gives the value
/// back, for every erasure kind `E` and every payload it accepts.
pub fn erase_then_downcast<T, E: Erase<T>>(value: T) -> (r: T)
    requires
        E::accepts(value),
    ensures
        r == value,
{
    let erasure: E = E::erase(value);
    erasure.downcast_unchecked()
}

/// Mismatch safety: when a checked erasure does not hold a `T`, the query
/// reports so and the fallible downcast hands the erasure back unchanged.
pub fn try_downcast_mismatch<T, E: TaggedErasure<T>>(erasure: E) -> (r: E)
    requires
        erasure.payload() is None,
    ensures
        r == erasure,
{
    let matches_target: bool = erasure.is();
    assert(!matches_target);
    match erasure.try_downcast() {
        Ok(_) => unreached(),
        Err(unchanged) => unchanged,
    }
}

} // verus!
