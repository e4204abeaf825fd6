//! The carrier: a slot that owns one stored value.
//!
//! A [`Carrier`] holds a value of one of a fixed family of shapes while
//! keeping enough information to give the value back out at its concrete
//! type. The [`Carried`] trait ties a value type to its carrier shape: it
//! says how a value is wrapped into a carrier and how a carrier is opened
//! back up as a borrow of that type. Opening a carrier at the wrong type
//! reports absence rather than a mistyped borrow.

use vstd::prelude::*;

verus! {

/// A slot that owns one stored value and remembers its shape.
///
/// Each variant holds values of one concrete type; opening the carrier at
/// any other type yields `None`.
pub enum Carrier {
    /// A marker value that carries no data.
    Unit,
    /// A boolean.
    Flag(bool),
    /// A 32-bit unsigned integer.
    U32(u32),
    /// A 64-bit unsigned integer.
    U64(u64),
    /// A pointer-sized unsigned integer.
    USize(usize),
    /// A 32-bit signed integer.
    I32(i32),
    /// A 64-bit signed integer.
    I64(i64),
    /// A character.
    Char(char),
    /// An owned string.
    Text(String),
    /// An owned byte vector.
    Bytes(Vec<u8>),
}

/// A value type that can be stored inside a [`Carrier`].
///
/// `wrap` is the specification-level injection of a value into its carrier;
/// the executable methods convert a value into a carrier and open a carrier
/// back up as a borrow. Every implementation must prove that `wrap` is
/// injective, so that a value read back from a carrier is the very value
/// that was wrapped.
pub trait Carried: Sized {
    /// The carrier that holds this value.
    spec fn wrap(self) -> Carrier;

    /// Moves the value into its carrier.
    fn to_carrier(self) -> (c: Carrier)
        ensures
            c == self.wrap(),
    ;

    /// Opens a carrier as a shared borrow of this type, or reports absence
    /// when the carrier holds a value of another type.
    fn from_ref(c: &Carrier) -> (r: Option<&Self>)
        ensures
            match r {
                Some(v) => *c == (*v).wrap(),
                None => forall|v: Self| *c != v.wrap(),
            },
    ;

    /// Opens a carrier as an exclusive borrow of this type, or reports
    /// absence, leaving the carrier unchanged, when the carrier holds a
    /// value of another type.
    fn from_mut(c: &mut Carrier) -> (r: Option<&mut Self>)
        ensures
            match r {
                Some(v) => *old(c) == (*v).wrap() && *final(c) == (*final(v)).wrap(),
                None => *final(c) == *old(c) && forall|v: Self| *old(c) != v.wrap(),
            },
    ;

    /// Two values with the same carrier form are the same value.
    proof fn wrap_injective(a: Self, b: Self)
        ensures
            a.wrap() == b.wrap() ==> a == b,
    ;
}

impl Carried for u32 {
    open spec fn wrap(self) -> Carrier {
        Carrier::U32(self)
    }

    fn to_carrier(self) -> (c: Carrier) {
        Carrier::U32(self)
    }

    fn from_ref(c: &Carrier) -> (r: Option<&u32>) {
        match c {
            Carrier::U32(v) => Some(v),
            _ => None,
        }
    }

    fn from_mut(c: &mut Carrier) -> (r: Option<&mut u32>) {
        match c {
            Carrier::U32(v) => Some(v),
            _ => None,
        }
    }

    proof fn wrap_injective(a: u32, b: u32) {
    }
}

impl Carried for bool {
    open spec fn wrap(self) -> Carrier {
        Carrier::Flag(self)
    }

    fn to_carrier(self) -> (c: Carrier) {
        Carrier::Flag(self)
    }

    fn from_ref(c: &Carrier) -> (r: Option<&bool>) {
        match c {
            Carrier::Flag(v) => Some(v),
            _ => None,
        }
    }

    fn from_mut(c: &mut Carrier) -> (r: Option<&mut bool>) {
        match c {
            Carrier::Flag(v) => Some(v),
            _ => None,
        }
    }

    proof fn wrap_injective(a: bool, b: bool) {
    }
}

impl Carried for u64 {
    open spec fn wrap(self) -> Carrier {
        Carrier::U64(self)
    }

    fn to_carrier(self) -> (c: Carrier) {
        Carrier::U64(self)
    }

    fn from_ref(c: &Carrier) -> (r: Option<&u64>) {
        match c {
            Carrier::U64(v) => Some(v),
            _ => None,
        }
    }

    fn from_mut(c: &mut Carrier) -> (r: Option<&mut u64>) {
        match c {
            Carrier::U64(v) => Some(v),
            _ => None,
        }
    }

    proof fn wrap_injective(a: u64, b: u64) {
    }
}

impl Carried for usize {
    open spec fn wrap(self) -> Carrier {
        Carrier::USize(self)
    }

    fn to_carrier(self) -> (c: Carrier) {
        Carrier::USize(self)
    }

    fn from_ref(c: &Carrier) -> (r: Option<&usize>) {
        match c {
            Carrier::USize(v) => Some(v),
            _ => None,
        }
    }

    fn from_mut(c: &mut Carrier) -> (r: Option<&mut usize>) {
        match c {
            Carrier::USize(v) => Some(v),
            _ => None,
        }
    }

    proof fn wrap_injective(a: usize, b: usize) {
    }
}

impl Carried for i32 {
    open spec fn wrap(self) -> Carrier {
        Carrier::I32(self)
    }

    fn to_carrier(self) -> (c: Carrier) {
        Carrier::I32(self)
    }

    fn from_ref(c: &Carrier) -> (r: Option<&i32>) {
        match c {
            Carrier::I32(v) => Some(v),
            _ => None,
        }
    }

    fn from_mut(c: &mut Carrier) -> (r: Option<&mut i32>) {
        match c {
            Carrier::I32(v) => Some(v),
            _ => None,
        }
    }

    proof fn wrap_injective(a: i32, b: i32) {
    }
}

impl Carried for i64 {
    open spec fn wrap(self) -> Carrier {
        Carrier::I64(self)
    }

    fn to_carrier(self) -> (c: Carrier) {
        Carrier::I64(self)
    }

    fn from_ref(c: &Carrier) -> (r: Option<&i64>) {
        match c {
            Carrier::I64(v) => Some(v),
            _ => None,
        }
    }

    fn from_mut(c: &mut Carrier) -> (r: Option<&mut i64>) {
        match c {
            Carrier::I64(v) => Some(v),
            _ => None,
        }
    }

    proof fn wrap_injective(a: i64, b: i64) {
    }
}

impl Carried for char {
    open spec fn wrap(self) -> Carrier {
        Carrier::Char(self)
    }

    fn to_carrier(self) -> (c: Carrier) {
        Carrier::Char(self)
    }

    fn from_ref(c: &Carrier) -> (r: Option<&char>) {
        match c {
            Carrier::Char(v) => Some(v),
            _ => None,
        }
    }

    fn from_mut(c: &mut Carrier) -> (r: Option<&mut char>) {
        match c {
            Carrier::Char(v) => Some(v),
            _ => None,
        }
    }

    proof fn wrap_injective(a: char, b: char) {
    }
}

impl Carried for String {
    open spec fn wrap(self) -> Carrier {
        Carrier::Text(self)
    }

    fn to_carrier(self) -> (c: Carrier) {
        Carrier::Text(self)
    }

    fn from_ref(c: &Carrier) -> (r: Option<&String>) {
        match c {
            Carrier::Text(v) => Some(v),
            _ => None,
        }
    }

    fn from_mut(c: &mut Carrier) -> (r: Option<&mut String>) {
        match c {
            Carrier::Text(v) => Some(v),
            _ => None,
        }
    }

    proof fn wrap_injective(a: String, b: String) {
    }
}

impl Carried for Vec<u8> {
    open spec fn wrap(self) -> Carrier {
        Carrier::Bytes(self)
    }

    fn to_carrier(self) -> (c: Carrier) {
        Carrier::Bytes(self)
    }

    fn from_ref(c: &Carrier) -> (r: Option<&Vec<u8>>) {
        match c {
            Carrier::Bytes(v) => Some(v),
            _ => None,
        }
    }

    fn from_mut(c: &mut Carrier) -> (r: Option<&mut Vec<u8>>) {
        match c {
            Carrier::Bytes(v) => Some(v),
            _ => None,
        }
    }

    proof fn wrap_injective(a: Vec<u8>, b: Vec<u8>) {
    }
}

} // verus!
