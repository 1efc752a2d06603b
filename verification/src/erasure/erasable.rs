//! The capability of a payload type to enter and leave the erasable universe.

use vstd::prelude::*;
use crate::erasure::value::{Tag, Value};

verus! {

/// A payload type that the erasures of this library can hold.
///
/// An implementation ties the type to one runtime tag and converts losslessly
/// between the type and the [`Value`] universe: the three laws make the type
/// isomorphic to the class of values carrying its tag, so nothing about a
/// payload is lost by erasing it and nothing is invented by recovering it.
pub trait Erasable: Sized {
    /// The runtime tag of this payload type.
    spec fn tag_spec() -> Tag;

    /// The universe value that stands for a payload.
    spec fn to_value_spec(self) -> Value;

    /// The payload that a universe value of the right tag stands for.
    spec fn from_value_spec(v: Value) -> Self;

    /// Reads the runtime tag of this payload type.
    fn tag() -> (t: Tag)
        ensures
            t == Self::tag_spec(),
    ;

    /// Moves a payload into the universe.
    fn to_value(self) -> (v: Value)
        ensures
            v == self.to_value_spec(),
    ;

    /// Moves a payload out of a universe value of the right tag.
    fn from_value(v: Value) -> (r: Self)
        requires
            v.tag_spec() == Self::tag_spec(),
        ensures
            r == Self::from_value_spec(v),
    ;

    /// Borrows the payload inside a universe value of the right tag.
    fn ref_from_value(v: &Value) -> (r: &Self)
        requires
            v.tag_spec() == Self::tag_spec(),
        ensures
            *r == Self::from_value_spec(*v),
    ;

    /// Mutably borrows the payload inside a universe value of the right
    /// tag. Writes through the borrow replace the payload under the same
    /// tag: the universe value follows them.
    fn mut_from_value(v: &mut Value) -> (r: &mut Self)
        requires
            old(v).tag_spec() == Self::tag_spec(),
        ensures
            *r == Self::from_value_spec(*old(v)),
            *final(v) == (*final(r)).to_value_spec(),
            final(v).tag_spec() == Self::tag_spec(),
    ;

    /// Borrows a zero-sized payload that is not stored anywhere: only a
    /// type whose tag is [`Tag::Unit`] has one, and every borrow of it is a
    /// borrow of the same empty storage.
    fn ref_from_unit(u: &()) -> (r: &Self)
        requires
            Self::tag_spec() == Tag::Unit,
        ensures
            *r == Self::from_value_spec(Value::Unit(())),
    ;

    /// Mutably borrows a zero-sized payload that is not stored anywhere.
    /// Writes through the borrow cannot change it: there is only one value
    /// of a zero-sized type.
    fn mut_from_unit(u: &mut ()) -> (r: &mut Self)
        requires
            Self::tag_spec() == Tag::Unit,
        ensures
            *r == Self::from_value_spec(Value::Unit(())),
            (*final(r)).to_value_spec() == Value::Unit(()),
    ;

    /// A payload enters the universe under its own tag.
    proof fn lemma_to_value_tag(self)
        ensures
            self.to_value_spec().tag_spec() == Self::tag_spec(),
    ;

    /// Recovering an erased payload gives the payload back.
    proof fn lemma_from_to(self)
        ensures
            Self::from_value_spec(self.to_value_spec()) == self,
    ;

    /// Every universe value of this type's tag stands for exactly one
    /// payload: erasing the recovered payload rebuilds the value.
    proof fn lemma_to_from(v: Value)
        requires
            v.tag_spec() == Self::tag_spec(),
        ensures
            Self::from_value_spec(v).to_value_spec() == v,
    ;
}

impl Erasable for () {
    open spec fn tag_spec() -> Tag {
        Tag::Unit
    }

    open spec fn to_value_spec(self) -> Value {
        Value::Unit(())
    }

    open spec fn from_value_spec(v: Value) -> Self {
        ()
    }

    fn tag() -> Tag {
        Tag::Unit
    }

    fn to_value(self) -> Value {
        Value::Unit(())
    }

    fn from_value(v: Value) -> Self {
        ()
    }

    fn ref_from_value(v: &Value) -> &Self {
        match v {
            Value::Unit(u) => u,
            _ => unreached(),
        }
    }

    fn mut_from_value(v: &mut Value) -> &mut Self {
        match v {
            Value::Unit(u) => u,
            _ => unreached(),
        }
    }

    fn ref_from_unit(u: &()) -> &Self {
        u
    }

    fn mut_from_unit(u: &mut ()) -> &mut Self {
        u
    }

    proof fn lemma_to_value_tag(self) {
    }

    proof fn lemma_from_to(self) {
    }

    proof fn lemma_to_from(v: Value) {
    }
}

impl Erasable for u8 {
    open spec fn tag_spec() -> Tag {
        Tag::Byte
    }

    open spec fn to_value_spec(self) -> Value {
        Value::Byte(self)
    }

    open spec fn from_value_spec(v: Value) -> Self {
        match v {
            Value::Byte(b) => b,
            _ => 0,
        }
    }

    fn tag() -> Tag {
        Tag::Byte
    }

    fn to_value(self) -> Value {
        Value::Byte(self)
    }

    fn from_value(v: Value) -> Self {
        match v {
            Value::Byte(b) => b,
            _ => unreached(),
        }
    }

    fn ref_from_value(v: &Value) -> &Self {
        match v {
            Value::Byte(b) => b,
            _ => unreached(),
        }
    }

    fn mut_from_value(v: &mut Value) -> &mut Self {
        match v {
            Value::Byte(b) => b,
            _ => unreached(),
        }
    }

    fn ref_from_unit(u: &()) -> &Self {
        unreached()
    }

    fn mut_from_unit(u: &mut ()) -> &mut Self {
        unreached()
    }

    proof fn lemma_to_value_tag(self) {
    }

    proof fn lemma_from_to(self) {
    }

    proof fn lemma_to_from(v: Value) {
    }
}

impl Erasable for u16 {
    open spec fn tag_spec() -> Tag {
        Tag::Half
    }

    open spec fn to_value_spec(self) -> Value {
        Value::Half(self)
    }

    open spec fn from_value_spec(v: Value) -> Self {
        match v {
            Value::Half(h) => h,
            _ => 0,
        }
    }

    fn tag() -> Tag {
        Tag::Half
    }

    fn to_value(self) -> Value {
        Value::Half(self)
    }

    fn from_value(v: Value) -> Self {
        match v {
            Value::Half(h) => h,
            _ => unreached(),
        }
    }

    fn ref_from_value(v: &Value) -> &Self {
        match v {
            Value::Half(h) => h,
            _ => unreached(),
        }
    }

    fn mut_from_value(v: &mut Value) -> &mut Self {
        match v {
            Value::Half(h) => h,
            _ => unreached(),
        }
    }

    fn ref_from_unit(u: &()) -> &Self {
        unreached()
    }

    fn mut_from_unit(u: &mut ()) -> &mut Self {
        unreached()
    }

    proof fn lemma_to_value_tag(self) {
    }

    proof fn lemma_from_to(self) {
    }

    proof fn lemma_to_from(v: Value) {
    }
}

impl Erasable for usize {
    open spec fn tag_spec() -> Tag {
        Tag::Word
    }

    open spec fn to_value_spec(self) -> Value {
        Value::Word(self)
    }

    open spec fn from_value_spec(v: Value) -> Self {
        match v {
            Value::Word(w) => w,
            _ => 0,
        }
    }

    fn tag() -> Tag {
        Tag::Word
    }

    fn to_value(self) -> Value {
        Value::Word(self)
    }

    fn from_value(v: Value) -> Self {
        match v {
            Value::Word(w) => w,
            _ => unreached(),
        }
    }

    fn ref_from_value(v: &Value) -> &Self {
        match v {
            Value::Word(w) => w,
            _ => unreached(),
        }
    }

    fn mut_from_value(v: &mut Value) -> &mut Self {
        match v {
            Value::Word(w) => w,
            _ => unreached(),
        }
    }

    fn ref_from_unit(u: &()) -> &Self {
        unreached()
    }

    fn mut_from_unit(u: &mut ()) -> &mut Self {
        unreached()
    }

    proof fn lemma_to_value_tag(self) {
    }

    proof fn lemma_from_to(self) {
    }

    proof fn lemma_to_from(v: Value) {
    }
}

impl Erasable for String {
    open spec fn tag_spec() -> Tag {
        Tag::Text
    }

    open spec fn to_value_spec(self) -> Value {
        Value::Text(self)
    }

    open spec fn from_value_spec(v: Value) -> Self {
        match v {
            Value::Text(s) => s,
            _ => arbitrary(),
        }
    }

    fn tag() -> Tag {
        Tag::Text
    }

    fn to_value(self) -> Value {
        Value::Text(self)
    }

    fn from_value(v: Value) -> Self {
        match v {
            Value::Text(s) => s,
            _ => unreached(),
        }
    }

    fn ref_from_value(v: &Value) -> &Self {
        match v {
            Value::Text(s) => s,
            _ => unreached(),
        }
    }

    fn mut_from_value(v: &mut Value) -> &mut Self {
        match v {
            Value::Text(s) => s,
            _ => unreached(),
        }
    }

    fn ref_from_unit(u: &()) -> &Self {
        unreached()
    }

    fn mut_from_unit(u: &mut ()) -> &mut Self {
        unreached()
    }

    proof fn lemma_to_value_tag(self) {
    }

    proof fn lemma_from_to(self) {
    }

    proof fn lemma_to_from(v: Value) {
    }
}

} // verus!
