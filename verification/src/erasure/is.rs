//! A context that remembers a successful type check.

use vstd::prelude::*;
use core::marker::PhantomData;
use crate::erasure::erasure::Erasure;
use crate::erasure::tagged_erasure::TaggedErasure;

verus! {

/// Context-type asserting that the given erasure *is* a `T`.
///
/// A value of this type can only be built by checking, so holding one is
/// holding the evidence: its downcast never reports a mismatch.
pub struct Is<T, E: TaggedErasure<T>> {
    /// The erasure that was checked, and is in fact underlying a `T`.
    erasure: E,
    /// Marker indicating that we indeed own a `T`.
    _marker: PhantomData<T>,
}

impl<T, E: TaggedErasure<T>> Is<T, E> {
    /// The evidence that construction established.
    #[verifier::type_invariant]
    spec fn inv(self) -> bool {
        <E as Erasure<T>>::payload(self.erasure) is Some
    }

    /// The erasure held by the context.
    pub closed spec fn erasure_spec(self) -> E {
        self.erasure
    }

    /// Checks whether the given [erasure](TaggedErasure) is an erased-`T`.
    ///
    /// Returns `Ok` with the context when the erasure is an erased-`T`, and
    /// hands the erasure back unchanged otherwise.
    pub fn new(erasure: E) -> (r: Result<Self, E>)
        ensures
            match r {
                Ok(ctx) => <E as Erasure<T>>::payload(erasure) is Some && ctx.erasure_spec()
                    == erasure,
                Err(e) => <E as Erasure<T>>::payload(erasure) is None && e == erasure,
            },
    {
        if erasure.is() {
            Ok(Is { erasure, _marker: PhantomData })
        } else {
            Err(erasure)
        }
    }

    /// Reclaims the erasure from the context.
    pub fn into_inner(self) -> (r: E)
        ensures
            r == self.erasure_spec(),
            <E as Erasure<T>>::payload(r) is Some,
    {
        proof {
            use_type_invariant(&self);
        }
        let Is { erasure, _marker } = self;
        erasure
    }

    /// Reclaims the underlying value from the erasure.
    ///
    /// The evidence carried by the context rules a mismatch out, so this
    /// always hands the payload back.
    pub fn downcast(self) -> (r: T)
        ensures
            Some(r) == <E as Erasure<T>>::payload(self.erasure_spec()),
    {
        proof {
            use_type_invariant(&self);
        }
        let Is { erasure, _marker } = self;
        match erasure.try_downcast() {
            Ok(downcast) => downcast,
            Err(_) => unreached(),
        }
    }
}

impl<T, E: TaggedErasure<T>> Erasure<T> for Is<T, E> {
    open spec fn payload(self) -> Option<T> {
        <E as Erasure<T>>::payload(self.erasure_spec())
    }

    fn downcast_unchecked(self) -> (r: T) {
        self.downcast()
    }
}

impl<T, E: TaggedErasure<T>> TaggedErasure<T> for Is<T, E> {
    fn is(&self) -> (r: bool) {
        proof {
            use_type_invariant(self);
        }
        true
    }

    fn try_downcast(self) -> (r: Result<T, Self>) {
        Ok(self.downcast())
    }
}

} // verus!
