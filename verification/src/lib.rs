//! Type-erased ownership: hold a value of a statically unknown type behind a
//! uniform handle, move and store it generically, and later recover it (or a
//! reference to it) with either a checked or an unchecked operation, while the
//! payload is still destroyed correctly once the handle is dropped.
//!
//! The erasable payloads form a closed universe, [`erasure::value::Value`],
//! whose discriminant is the runtime type tag. Every capability is expressed
//! through three traits: [`erasure::erase::Erase`] (construct an erasure from
//! a payload), [`erasure::erasure::Erasure`] (recovery under a caller-proved
//! precondition), and [`erasure::tagged_erasure::TaggedErasure`] (checked
//! recovery that reports mismatches instead of failing).

pub mod align;
pub mod erasure;
