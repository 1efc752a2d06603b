//! The marker for a forgotten type parameter.

use vstd::prelude::*;

verus! {

/// Type for use in generics to indicate that the actual type has been
/// erased.
///
/// A zero-sized marker that no code outside this module can construct, and
/// that this module never constructs either: it stands for no payload, so
/// the typed operations of a handle — which ask for an erasable payload
/// type — become inaccessible once a type parameter is replaced by it.
pub struct Erased {
    /// Never built: the field keeps construction out of reach.
    _never: (),
}

} // verus!
