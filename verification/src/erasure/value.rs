//! The closed universe of erasable payloads and its runtime type tags.

use vstd::prelude::*;
use crate::erasure::erasable::Erasable;
use crate::erasure::erase::Erase;
use crate::erasure::erasure::Erasure;
use crate::erasure::tagged_erasure::TaggedErasure;

verus! {

/// Runtime type tag: identifies which payload type a [`Value`] holds.
///
/// The tag is the piece of information an erasure keeps when the static type
/// of its payload is forgotten; a checked downcast compares the stored tag
/// with the tag of the requested type.
#[derive(Clone, Copy, PartialEq, Eq, Structural, Debug)]
pub enum Tag {
    /// The zero-sized payload `()`.
    Unit,
    /// A `u8` payload.
    Byte,
    /// A `u16` payload.
    Half,
    /// A `usize` payload.
    Word,
    /// A `String` payload.
    Text,
}

/// A payload together with its runtime type tag.
///
/// `Value` is itself the reference "checked" erasure: the enum discriminant is
/// a runtime type tag, so a checked downcast only has to inspect it. The
/// other erasure kinds store a `Value` and inherit the tag from it.
#[derive(Debug)]
pub enum Value {
    /// The zero-sized payload `()`.
    Unit(()),
    /// A `u8` payload.
    Byte(u8),
    /// A `u16` payload.
    Half(u16),
    /// A `usize` payload.
    Word(usize),
    /// A `String` payload.
    Text(String),
}

impl Value {
    /// The runtime type tag of this payload.
    pub open spec fn tag_spec(self) -> Tag {
        match self {
            Value::Unit(_) => Tag::Unit,
            Value::Byte(_) => Tag::Byte,
            Value::Half(_) => Tag::Half,
            Value::Word(_) => Tag::Word,
            Value::Text(_) => Tag::Text,
        }
    }

    /// Mutably borrows the payload, which must be a `T`.
    ///
    /// Writes through the borrow replace the payload under the same tag:
    /// the erasure follows them, so the borrow cannot change what type is
    /// stored, only which value of it.
    pub fn downcast_mut_unchecked<T: Erasable>(&mut self) -> (r: &mut T)
        requires
            old(self).tag_spec() == T::tag_spec(),
        ensures
            *r == T::from_value_spec(*old(self)),
            *final(self) == (*final(r)).to_value_spec(),
    {
        T::mut_from_value(self)
    }

    /// Reads the runtime type tag.
    pub fn tag(&self) -> (t: Tag)
        ensures
            t == self.tag_spec(),
    {
        match self {
            Value::Unit(_) => Tag::Unit,
            Value::Byte(_) => Tag::Byte,
            Value::Half(_) => Tag::Half,
            Value::Word(_) => Tag::Word,
            Value::Text(_) => Tag::Text,
        }
    }
}

/// The size, in bytes, that a payload of the given tag occupies in the
/// layout model of this library (a 64-bit machine: a `usize` is 8 bytes and a
/// `String` is a three-word header).
pub open spec fn tag_size_spec(t: Tag) -> nat {
    match t {
        Tag::Unit => 0,
        Tag::Byte => 1,
        Tag::Half => 2,
        Tag::Word => 8,
        Tag::Text => 24,
    }
}

/// The alignment, in bytes, that a payload of the given tag requires in the
/// layout model of this library.
pub open spec fn tag_align_spec(t: Tag) -> nat {
    match t {
        Tag::Unit => 1,
        Tag::Byte => 1,
        Tag::Half => 2,
        Tag::Word => 8,
        Tag::Text => 8,
    }
}

/// Computes the modelled size of a payload of tag `t`.
pub fn tag_size(t: Tag) -> (n: usize)
    ensures
        n == tag_size_spec(t),
{
    match t {
        Tag::Unit => 0,
        Tag::Byte => 1,
        Tag::Half => 2,
        Tag::Word => 8,
        Tag::Text => 24,
    }
}

/// Computes the modelled alignment of a payload of tag `t`.
pub fn tag_align(t: Tag) -> (n: usize)
    ensures
        n == tag_align_spec(t),
{
    match t {
        Tag::Unit => 1,
        Tag::Byte => 1,
        Tag::Half => 2,
        Tag::Word => 8,
        Tag::Text => 8,
    }
}

/// A payload is zero-sized exactly when its tag is [`Tag::Unit`], and a
/// zero-sized payload is the one value `Value::Unit`.
pub proof fn lemma_zero_sized_is_unit(v: Value)
    ensures
        tag_size_spec(v.tag_spec()) == 0 <==> v == Value::Unit(()),
{
}

impl<T: Erasable> Erasure<T> for Value {
    open spec fn payload(self) -> Option<T> {
        if self.tag_spec() == T::tag_spec() {
            Some(T::from_value_spec(self))
        } else {
            None
        }
    }

    fn downcast_unchecked(self) -> (r: T) {
        T::from_value(self)
    }
}

impl<T: Erasable> Erase<T> for Value {
    open spec fn accepts(value: T) -> bool {
        true
    }

    fn erase(value: T) -> (r: Self) {
        proof {
            value.lemma_to_value_tag();
            value.lemma_from_to();
        }
        value.to_value()
    }
}

impl<T: Erasable> TaggedErasure<T> for Value {
    fn is(&self) -> (r: bool) {
        self.tag() == T::tag()
    }

    fn try_downcast(self) -> (r: Result<T, Self>) {
        if self.tag() == T::tag() {
            Ok(T::from_value(self))
        } else {
            Err(self)
        }
    }
}

impl<'borrow, T: Erasable> Erasure<&'borrow T> for &'borrow Value {
    open spec fn payload(self) -> Option<&'borrow T> {
        if self.tag_spec() == T::tag_spec() {
            Some(&T::from_value_spec(*self))
        } else {
            None
        }
    }

    fn downcast_unchecked(self) -> (r: &'borrow T) {
        T::ref_from_value(self)
    }
}

impl<'borrow, T: Erasable> TaggedErasure<&'borrow T> for &'borrow Value {
    fn is(&self) -> (r: bool) {
        self.tag() == T::tag()
    }

    fn try_downcast(self) -> (r: Result<&'borrow T, Self>) {
        if self.tag() == T::tag() {
            Ok(T::ref_from_value(self))
        } else {
            Err(self)
        }
    }
}

} // verus!
