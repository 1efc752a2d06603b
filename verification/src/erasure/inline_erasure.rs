//! A fixed-capacity erasure that needs no extra heap block.

use vstd::prelude::*;
use crate::align::is_supported_alignment;
use crate::erasure::erasable::Erasable;
use crate::erasure::erase::Erase;
use crate::erasure::erasure::Erasure;
use crate::erasure::value::{tag_align, tag_align_spec, tag_size, tag_size_spec, Value};

verus! {

/// An erasure of some underlying type that exists inline: the payload is
/// held within this struct, as opposed to behind an indirection to it.
///
/// The `SIZE`/`ALIGN` const generics bound the size and alignment a payload
/// may have, in the layout model of this library; `ALIGN` must belong to the
/// supported alignment set. Both bounds are enforced when a payload enters:
/// a type that does not fit the configured capacity is rejected before the
/// erasure exists, so a live `InlineErasure` always holds a fitting payload.
pub struct InlineErasure<const SIZE: usize, const ALIGN: usize> {
    /// The stored payload; its tag never exceeds the configured bounds.
    slot: Value,
}

impl<const SIZE: usize, const ALIGN: usize> InlineErasure<SIZE, ALIGN> {
    /// The payload this erasure holds.
    pub closed spec fn value_spec(self) -> Value {
        self.slot
    }

    /// Whatever is stored fits the configured capacity, and the configured
    /// alignment is a supported one. Construction establishes this and
    /// every operation preserves it.
    pub open spec fn wf(self) -> bool {
        &&& tag_size_spec(self.value_spec().tag_spec()) <= SIZE
        &&& tag_align_spec(self.value_spec().tag_spec()) <= ALIGN
        &&& is_supported_alignment(ALIGN)
    }

    /// Whether a payload of type `T` fits the configured capacity.
    pub open spec fn fits_spec<T: Erasable>() -> bool {
        tag_size_spec(T::tag_spec()) <= SIZE && tag_align_spec(T::tag_spec()) <= ALIGN
    }

    /// Checks whether a payload of type `T` fits the configured capacity:
    /// its size must not exceed `SIZE` nor its alignment `ALIGN`.
    pub fn check_size_and_align_of<T: Erasable>() -> (r: bool)
        ensures
            r == Self::fits_spec::<T>(),
    {
        let size_ok: bool = tag_size(T::tag()) <= SIZE;
        let align_ok: bool = tag_align(T::tag()) <= ALIGN;
        size_ok && align_ok
    }

    /// Erases the given `value` inline.
    ///
    /// Only a payload within the configured bounds may enter; the caller
    /// proves it fits, so no capacity check can fail at run time.
    pub fn new<T: Erasable>(value: T) -> (r: Self)
        requires
            is_supported_alignment(ALIGN),
            Self::fits_spec::<T>(),
        ensures
            r.value_spec() == value.to_value_spec(),
            r.wf(),
    {
        proof {
            value.lemma_to_value_tag();
        }
        InlineErasure { slot: value.to_value() }
    }

    /// Mutably borrows the payload, which must be a stored `T`.
    ///
    /// Writes through the borrow replace the payload under the same tag,
    /// so the stored payload keeps fitting the configured capacity.
    pub fn downcast_mut_unchecked<T: Erasable>(&mut self) -> (r: &mut T)
        requires
            old(self).value_spec().tag_spec() == T::tag_spec(),
        ensures
            *r == T::from_value_spec(old(self).value_spec()),
            final(self).value_spec() == (*final(r)).to_value_spec(),
            final(self).value_spec().tag_spec() == T::tag_spec(),
            old(self).wf() ==> final(self).wf(),
    {
        T::mut_from_value(&mut self.slot)
    }
}

impl<const SIZE: usize, const ALIGN: usize, T: Erasable> Erasure<T> for InlineErasure<
    SIZE,
    ALIGN,
> {
    open spec fn payload(self) -> Option<T> {
        if self.value_spec().tag_spec() == T::tag_spec() {
            Some(T::from_value_spec(self.value_spec()))
        } else {
            None
        }
    }

    fn downcast_unchecked(self) -> (r: T) {
        let InlineErasure { slot } = self;
        T::from_value(slot)
    }
}

impl<const SIZE: usize, const ALIGN: usize, T: Erasable> Erase<T> for InlineErasure<
    SIZE,
    ALIGN,
> {
    open spec fn accepts(value: T) -> bool {
        is_supported_alignment(ALIGN) && Self::fits_spec::<T>()
    }

    fn erase(value: T) -> (r: Self) {
        proof {
            value.lemma_to_value_tag();
            value.lemma_from_to();
        }
        Self::new(value)
    }
}

impl<'borrow, const SIZE: usize, const ALIGN: usize, T: Erasable> Erasure<
    &'borrow T,
> for &'borrow InlineErasure<SIZE, ALIGN> {
    open spec fn payload(self) -> Option<&'borrow T> {
        if self.value_spec().tag_spec() == T::tag_spec() {
            Some(&T::from_value_spec(self.value_spec()))
        } else {
            None
        }
    }

    fn downcast_unchecked(self) -> (r: &'borrow T) {
        T::ref_from_value(&self.slot)
    }
}

} // verus!
