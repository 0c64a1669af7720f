//! The integers that can be written as ordinals: what the formatter needs
//! of a number is its value and its decimal notation.

use crate::decimal::{decimal, signed_decimal, unsigned_decimal};
use vstd::prelude::*;

verus! {

/// An integer that can write itself in canonical decimal notation: digits
/// only, most significant first, no leading zeros, no separators, and a
/// leading `-` where the value is negative.
pub trait DecimalInteger {
    /// The mathematical value of this integer.
    spec fn as_int(&self) -> int;

    /// The decimal notation of this integer.
    fn to_decimal(&self) -> (text: String)
        ensures
            text@ == decimal(self.as_int()),
    ;
}

impl DecimalInteger for i8 {
    open spec fn as_int(&self) -> int {
        *self as int
    }

    fn to_decimal(&self) -> (text: String) {
        signed_decimal(*self as i128)
    }
}

impl DecimalInteger for i16 {
    open spec fn as_int(&self) -> int {
        *self as int
    }

    fn to_decimal(&self) -> (text: String) {
        signed_decimal(*self as i128)
    }
}

impl DecimalInteger for i32 {
    open spec fn as_int(&self) -> int {
        *self as int
    }

    fn to_decimal(&self) -> (text: String) {
        signed_decimal(*self as i128)
    }
}

impl DecimalInteger for i64 {
    open spec fn as_int(&self) -> int {
        *self as int
    }

    fn to_decimal(&self) -> (text: String) {
        signed_decimal(*self as i128)
    }
}

impl DecimalInteger for i128 {
    open spec fn as_int(&self) -> int {
        *self as int
    }

    fn to_decimal(&self) -> (text: String) {
        signed_decimal(*self as i128)
    }
}

impl DecimalInteger for isize {
    open spec fn as_int(&self) -> int {
        *self as int
    }

    fn to_decimal(&self) -> (text: String) {
        signed_decimal(*self as i128)
    }
}

impl DecimalInteger for u8 {
    open spec fn as_int(&self) -> int {
        *self as int
    }

    fn to_decimal(&self) -> (text: String) {
        unsigned_decimal(*self as u128)
    }
}

impl DecimalInteger for u16 {
    open spec fn as_int(&self) -> int {
        *self as int
    }

    fn to_decimal(&self) -> (text: String) {
        unsigned_decimal(*self as u128)
    }
}

impl DecimalInteger for u32 {
    open spec fn as_int(&self) -> int {
        *self as int
    }

    fn to_decimal(&self) -> (text: String) {
        unsigned_decimal(*self as u128)
    }
}

impl DecimalInteger for u64 {
    open spec fn as_int(&self) -> int {
        *self as int
    }

    fn to_decimal(&self) -> (text: String) {
        unsigned_decimal(*self as u128)
    }
}

impl DecimalInteger for u128 {
    open spec fn as_int(&self) -> int {
        *self as int
    }

    fn to_decimal(&self) -> (text: String) {
        unsigned_decimal(*self as u128)
    }
}

impl DecimalInteger for usize {
    open spec fn as_int(&self) -> int {
        *self as int
    }

    fn to_decimal(&self) -> (text: String) {
        unsigned_decimal(*self as u128)
    }
}

} // verus!
