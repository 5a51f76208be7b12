//! A container that holds at most one value per type identity.
//!
//! Values are stored in slots keyed by `std::any::TypeId`; a second insert under
//! the same identity replaces the first. The slot store is verified against a
//! `Map<TypeId, V>` model.

mod slot_table;

pub mod laws;
pub mod scoped_map;

pub use scoped_map::ScopedAnyMap;
