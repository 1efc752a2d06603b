//! A lifetime-carrying wrapper around any erasure.

use vstd::prelude::*;
use core::marker::PhantomData;
use crate::erasure::auto_drop_unique::AutoDropUnique;
use crate::erasure::erase::Erase;
use crate::erasure::erasure::Erasure;

verus! {

/// An owned, type-erased value which preserves the lifetime of the value it
/// was created from.
///
/// Every capability is delegated to the inner erasure; the wrapper adds
/// nothing at run time. Its only contribution is the `'lifetime` bound
/// tying the erasure's validity window to a named scope, so an erasure of
/// borrowed data cannot outlive what it borrows.
pub struct ErasedBox<'lifetime, E: 'lifetime = AutoDropUnique> {
    /// The underlying (lifetime-less) [erasure](Erasure).
    pointer: E,
    /// Marker carrying the borrow-scope; it has no runtime representation.
    lifetime: PhantomData<&'lifetime ()>,
}

impl<'lifetime, E: 'lifetime> ErasedBox<'lifetime, E> {
    /// The erasure this wrapper owns.
    pub closed spec fn pointer_spec(self) -> E {
        self.pointer
    }

    /// Takes ownership of `value` and [erases](Erase) its type.
    pub fn new<T: 'lifetime>(value: T) -> (r: Self) where E: Erase<T>
        requires
            E::accepts(value),
        ensures
            <E as Erasure<T>>::payload(r.pointer_spec()) == Some(value),
    {
        ErasedBox { pointer: E::erase(value), lifetime: PhantomData }
    }
}

impl<'lifetime, T: 'lifetime, E: Erasure<T> + 'lifetime> Erasure<T> for ErasedBox<
    'lifetime,
    E,
> {
    open spec fn payload(self) -> Option<T> {
        <E as Erasure<T>>::payload(self.pointer_spec())
    }

    fn downcast_unchecked(self) -> (r: T) {
        let ErasedBox { pointer, lifetime: _ } = self;
        pointer.downcast_unchecked()
    }
}

impl<'borrow, 'lifetime: 'borrow, T: 'lifetime, E: 'lifetime> Erasure<
    &'borrow T,
> for &'borrow ErasedBox<'lifetime, E> where &'borrow E: Erasure<&'borrow T> {
    open spec fn payload(self) -> Option<&'borrow T> {
        <&'borrow E as Erasure<&'borrow T>>::payload(&self.pointer_spec())
    }

    fn downcast_unchecked(self) -> (r: &'borrow T) {
        <&'borrow E as Erasure<&'borrow T>>::downcast_unchecked(&self.pointer)
    }
}

} // verus!
