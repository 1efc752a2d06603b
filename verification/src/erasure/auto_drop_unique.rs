//! The owning erased handle and its tagged-word encoding.

use vstd::prelude::*;
use core::marker::PhantomData;
use crate::erasure::erasable::Erasable;
use crate::erasure::erase::Erase;
use crate::erasure::erased::Erased;
use crate::erasure::erasure::Erasure;
use crate::erasure::value::{lemma_zero_sized_is_unit, tag_size, tag_size_spec, Value};

verus! {

/// The stored form of an owning handle: either nothing (a zero-sized
/// payload, regenerated on demand) or an owned heap block whose discriminant
/// doubles as the destructor information.
enum Slot {
    /// The payload is zero-sized and is not stored: the carried unit is the
    /// empty storage every borrow of it points into.
    Stack(()),
    /// The payload lives on the heap together with its type tag.
    Heap(Box<Value>),
}

impl Slot {
    /// The payload an occupied slot stands for.
    spec fn stored(self) -> Value {
        match self {
            Slot::Stack(_) => Value::Unit(()),
            Slot::Heap(b) => *b,
        }
    }

    /// Mutably borrows the payload of a slot as a `T`.
    fn downcast_mut<T: Erasable>(slot: &mut Slot) -> (r: &mut T)
        requires
            old(slot).stored().tag_spec() == T::tag_spec(),
        ensures
            *r == T::from_value_spec(old(slot).stored()),
            final(slot).stored() == (*final(r)).to_value_spec(),
            final(slot).stored().tag_spec() == T::tag_spec(),
            *final(slot) is Heap <==> *old(slot) is Heap,
    {
        match slot {
            Slot::Stack(u) => T::mut_from_unit(u),
            Slot::Heap(b) => T::mut_from_value(&mut **b),
        }
    }
}

/// An owning handle to a value whose static type can be forgotten.
///
/// If the handle is dropped, the underlying value is dropped automatically,
/// even if the handle has been [type-erased](AutoDropUnique::erase): the heap
/// block keeps the payload's type tag, so ownership — and with it the
/// destructor — never loses track of what is owned.
///
/// A zero-sized payload is not stored at all; the handle only remembers that
/// it owns one, and regenerates it on recovery.
///
/// The stored sum fits one machine word: the heap alternative is a non-null
/// pointer, whose null value is free to encode the stack alternative (see
/// [`StackOrHeap`] for the corresponding tagged-word argument).
pub struct AutoDropUnique<T = Erased> {
    /// Where the payload is, and the payload itself when it is stored.
    slot: Slot,
    /// Marker indicating that we own a `T`.
    _marker: PhantomData<T>,
}

impl<T> AutoDropUnique<T> {
    /// The payload this handle owns.
    pub closed spec fn value_spec(self) -> Value {
        match self.slot {
            Slot::Stack(_) => Value::Unit(()),
            Slot::Heap(b) => *b,
        }
    }

    /// Whether the payload lives in an owned heap block.
    pub closed spec fn on_heap(self) -> bool {
        self.slot is Heap
    }

    /// A handle owns a heap block exactly when its payload is not
    /// zero-sized: construction keeps zero-sized payloads off the heap, and
    /// nothing later moves a payload. Every constructor establishes this
    /// and every operation preserves it.
    pub open spec fn wf(self) -> bool {
        self.on_heap() <==> tag_size_spec(self.value_spec().tag_spec()) != 0
    }

    /// Takes ownership of the inner representation.
    fn take_inner(self) -> (r: Slot)
        ensures
            match r {
                Slot::Stack(_) => self.value_spec() == Value::Unit(()) && !self.on_heap(),
                Slot::Heap(b) => self.value_spec() == *b && self.on_heap(),
            },
    {
        let AutoDropUnique { slot, _marker } = self;
        slot
    }

    /// Erases the type of the underlying value.
    ///
    /// A pure relabeling: the stored sum is moved unchanged, only the static
    /// type parameter is replaced by [`Erased`].
    pub fn erase(self) -> (r: AutoDropUnique<Erased>)
        ensures
            r.value_spec() == self.value_spec(),
            r.on_heap() == self.on_heap(),
    {
        let AutoDropUnique { slot, _marker } = self;
        AutoDropUnique { slot, _marker: PhantomData }
    }
}

impl<T: Erasable> AutoDropUnique<T> {
    /// Takes ownership of the given value.
    ///
    /// Allocates the value onto the heap together with its type tag, unless
    /// it is zero-sized; a zero-sized value is discarded, as a same-typed
    /// instance can be regenerated on recovery.
    pub fn new(value: T) -> (r: Self)
        ensures
            r.value_spec() == value.to_value_spec(),
            r.value_spec().tag_spec() == T::tag_spec(),
            r.on_heap() == (tag_size_spec(T::tag_spec()) != 0),
            r.wf(),
    {
        proof {
            value.lemma_to_value_tag();
        }
        let v: Value = value.to_value();
        let size: usize = tag_size(v.tag());
        if size == 0 {
            proof {
                lemma_zero_sized_is_unit(v);
            }
            AutoDropUnique { slot: Slot::Stack(()), _marker: PhantomData }
        } else {
            AutoDropUnique { slot: Slot::Heap(Box::new(v)), _marker: PhantomData }
        }
    }

    /// Returns ownership of the underlying value.
    ///
    /// Callable only while the handle still remembers its payload's type:
    /// the type parameter must carry the tag of the stored payload, which
    /// every handle built by [`AutoDropUnique::new`] does. A handle erased
    /// to [`Erased`] no longer offers this operation.
    pub fn into_inner(self) -> (r: T)
        requires
            self.value_spec().tag_spec() == T::tag_spec(),
        ensures
            r == T::from_value_spec(self.value_spec()),
            r.to_value_spec() == self.value_spec(),
    {
        proof {
            T::lemma_to_from(self.value_spec());
        }
        match self.take_inner() {
            Slot::Stack(_) => T::from_value(Value::Unit(())),
            Slot::Heap(b) => T::from_value(*b),
        }
    }
}

impl<T: Erasable> Erasure<T> for AutoDropUnique<Erased> {
    open spec fn payload(self) -> Option<T> {
        if self.value_spec().tag_spec() == T::tag_spec() {
            Some(T::from_value_spec(self.value_spec()))
        } else {
            None
        }
    }

    fn downcast_unchecked(self) -> (r: T) {
        let AutoDropUnique { slot, _marker } = self;
        let typed: AutoDropUnique<T> = AutoDropUnique { slot, _marker: PhantomData };
        typed.into_inner()
    }
}

impl<T: Erasable> Erase<T> for AutoDropUnique<Erased> {
    open spec fn accepts(value: T) -> bool {
        true
    }

    fn erase(value: T) -> (r: Self) {
        proof {
            value.lemma_to_value_tag();
            value.lemma_from_to();
        }
        AutoDropUnique::<T>::new(value).erase()
    }
}

impl<'borrow, T: Erasable> Erasure<&'borrow T> for &'borrow AutoDropUnique<Erased> {
    open spec fn payload(self) -> Option<&'borrow T> {
        if self.value_spec().tag_spec() == T::tag_spec() {
            Some(&T::from_value_spec(self.value_spec()))
        } else {
            None
        }
    }

    fn downcast_unchecked(self) -> (r: &'borrow T) {
        match &self.slot {
            Slot::Stack(u) => T::ref_from_unit(u),
            Slot::Heap(b) => T::ref_from_value(&**b),
        }
    }
}

impl AutoDropUnique<Erased> {
    /// Mutably borrows the payload, which must be a `T`.
    ///
    /// The caller proves the handle really owns a `T`; writes through the
    /// borrow replace the payload under the same tag, so the handle keeps
    /// owning a `T` afterwards.
    pub fn downcast_mut_unchecked<T: Erasable>(&mut self) -> (r: &mut T)
        requires
            old(self).value_spec().tag_spec() == T::tag_spec(),
        ensures
            *r == T::from_value_spec(old(self).value_spec()),
            final(self).value_spec() == (*final(r)).to_value_spec(),
            final(self).value_spec().tag_spec() == T::tag_spec(),
            final(self).on_heap() == old(self).on_heap(),
            old(self).wf() ==> final(self).wf(),
    {
        Slot::downcast_mut(&mut self.slot)
    }
}

/// Where an owning handle keeps its payload, and what a single machine word
/// must remember about it.
///
/// A handle either stores nothing (a zero-sized payload, whose destructor
/// entry point is all that has to be remembered) or owns a heap block (whose
/// address leads to the destructor information and the payload). Both
/// alternatives carry one word-aligned address, so one machine word can hold
/// the whole sum: the low bit of every carried address is free and is used as
/// the discriminant.
pub enum StackOrHeap {
    /// No heap storage: the carried word is the address of the entry point
    /// that regenerates and drops a zero-sized payload.
    Stack(usize),
    /// Heap storage: the carried word is the address of the owned block.
    Heap(usize),
}

impl StackOrHeap {
    /// The carried address is word-aligned, so its low bit is free for the
    /// discriminant. Function entry points and heap blocks holding a word
    /// are both at least word-aligned, so every handle satisfies this.
    pub open spec fn wf(self) -> bool {
        match self {
            StackOrHeap::Stack(address) => address & 1 == 0,
            StackOrHeap::Heap(address) => address & 1 == 0,
        }
    }

    /// The single-word encoding: the address, with the low bit set exactly
    /// on the heap alternative.
    pub open spec fn into_usize_spec(self) -> usize {
        match self {
            StackOrHeap::Stack(address) => address,
            StackOrHeap::Heap(address) => address | 1,
        }
    }

    /// Decoding a word: the low bit picks the alternative, the remaining
    /// bits are the address.
    pub open spec fn from_usize_spec(word: usize) -> StackOrHeap {
        if word & 1 == 1 {
            StackOrHeap::Heap(word & !1)
        } else {
            StackOrHeap::Stack(word)
        }
    }

    /// Packs the sum into its single-word representation.
    pub fn into_usize(self) -> (word: usize)
        ensures
            word == self.into_usize_spec(),
    {
        match self {
            StackOrHeap::Stack(address) => address,
            StackOrHeap::Heap(address) => address | 1,
        }
    }

    /// Recovers the sum from its single-word representation.
    pub fn from_usize(word: usize) -> (r: StackOrHeap)
        ensures
            r == StackOrHeap::from_usize_spec(word),
            r.wf(),
    {
        proof {
            lemma_from_usize_wf(word);
        }
        let heap: bool = (word & 1) == 1;
        let address: usize = word & !1;
        if heap {
            StackOrHeap::Heap(address)
        } else {
            StackOrHeap::Stack(word)
        }
    }
}

/// A decoded word always carries a word-aligned address: the discriminant
/// bit is stripped on the heap alternative, and on the stack alternative the
/// low bit was zero to begin with.
pub proof fn lemma_from_usize_wf(word: usize)
    ensures
        StackOrHeap::from_usize_spec(word).wf(),
{
    assert((word & 1 == 1 ==> (word & !1) & 1 == 0) && (word & 1 != 1 ==> word & 1 == 0))
        by (bit_vector);
}

/// The discriminant is always recoverable: decoding inverts encoding on
/// every well-formed sum, so tagging the low bit loses nothing.
pub proof fn lemma_word_round_trip(s: StackOrHeap)
    requires
        s.wf(),
    ensures
        StackOrHeap::from_usize_spec(s.into_usize_spec()) == s,
{
    match s {
        StackOrHeap::Stack(address) => {
            assert(address & 1 == 0 ==> address & 1 != 1) by (bit_vector);
        }
        StackOrHeap::Heap(address) => {
            assert(address & 1 == 0 ==> (address | 1) & 1 == 1 && (address | 1) & !1 == address)
                by (bit_vector);
        }
    }
}

/// Every word decodes to a sum that encodes back to the same word: the
/// representation wastes nothing.
pub proof fn lemma_usize_round_trip(word: usize)
    ensures
        StackOrHeap::from_usize_spec(word).into_usize_spec() == word,
{
    assert((word & 1 == 1 ==> (word & !1) | 1 == word) && (word & 1 != 1 ==> word == word))
        by (bit_vector);
}

} // verus!
