//! A fixed-domain map: one value per variant of an enumerable key type, held
//! in a dense vector that the key's ordinal indexes.
//!
//! - [`key`] says what a key type supplies and what is asked of it.
//! - [`enum_map`] holds the map and its two passes, shared and exclusive.
//! - [`laws`] proves what holds across several operations.

pub mod enum_map;
pub mod key;
pub mod laws;

pub use crate::enum_map::{EnumMap, EnumMapIter, EnumMapIterMut};
pub use crate::key::EnumKey;
