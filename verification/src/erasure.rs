//! Tools for creating erased types in dynamic contexts.

pub mod auto_drop_unique;
pub mod defer_downcast_unchecked_to_try_downcast;
pub mod erasable;
pub mod erase;
pub mod erased;
pub mod erased_box;
pub mod erasure;
pub mod inline_erasure;
pub mod is;
pub mod laws;
pub mod tagged_erasure;
pub mod unknown;
pub mod value;
