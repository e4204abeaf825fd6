//! A type-keyed value store: one value slot for each declared key identity.
//!
//! A [`TypeMap`] associates tag types with values. Each tag type declares,
//! through the [`Assoc`] trait, the single value type it may store and the
//! key identity under which its entry lives. Values travel through the map
//! inside a [`Carrier`], a slot that keeps enough information to hand the
//! value back out at its declared type; the [`Carried`] trait connects a
//! value type with its carrier form.

pub mod carrier;
pub mod laws;
pub mod map;

pub use carrier::Carried;
pub use carrier::Carrier;
pub use map::Assoc;
pub use map::TypeMap;
