//! Floating-point numbers as bit patterns, with the total order in which
//! not-a-number is the greatest value and the two zeros are equal.

use std::cmp::Ordering;
use vstd::prelude::*;

verus! {

/// The sign bit of a 64-bit floating-point pattern.
pub const F64_SIGN: u64 = 0x8000_0000_0000_0000;

/// The exponent bits of a 64-bit floating-point pattern.
pub const F64_EXPONENT: u64 = 0x7ff0_0000_0000_0000;

/// The fraction bits of a 64-bit floating-point pattern.
pub const F64_FRACTION: u64 = 0x000f_ffff_ffff_ffff;

/// The sign bit of a 32-bit floating-point pattern.
pub const F32_SIGN: u32 = 0x8000_0000;

/// The exponent bits of a 32-bit floating-point pattern.
pub const F32_EXPONENT: u32 = 0x7f80_0000;

/// The fraction bits of a 32-bit floating-point pattern.
pub const F32_FRACTION: u32 = 0x007f_ffff;

/// The bit pattern of a 32-bit floating-point number, ordered as the number
/// is: not-a-number is greater than every number and equal to itself, and the
/// two zeros are equal.
#[derive(Debug, Clone, Copy, Eq, Default)]
pub struct F32 {
    bits: u32,
}

/// The bit pattern of a 64-bit floating-point number, ordered as the number
/// is: not-a-number is greater than every number and equal to itself, and the
/// two zeros are equal.
#[derive(Debug, Clone, Copy, Eq, Default)]
pub struct F64 {
    bits: u64,
}

/// Whether `bits` is the pattern of a not-a-number: all exponent bits set and
/// a fraction that is not zero.
pub open spec fn f64_is_nan(bits: u64) -> bool {
    (bits & F64_EXPONENT) == F64_EXPONENT && (bits & F64_FRACTION) != 0
}

/// An integer that orders 64-bit patterns as the numbers they stand for.
///
/// Every not-a-number gets the largest key. Negative zero gets the key of
/// zero. A pattern with the sign bit set is complemented, so that a larger
/// magnitude gives a smaller key; another pattern has its sign bit set, which
/// puts it above all negative numbers.
pub open spec fn f64_key(bits: u64) -> u64 {
    if f64_is_nan(bits) {
        u64::MAX
    } else if bits == F64_SIGN {
        F64_SIGN
    } else if (bits & F64_SIGN) != 0 {
        !bits
    } else {
        bits | F64_SIGN
    }
}

/// Whether `bits` is the pattern of a 32-bit not-a-number.
pub open spec fn f32_is_nan(bits: u32) -> bool {
    (bits & F32_EXPONENT) == F32_EXPONENT && (bits & F32_FRACTION) != 0
}

/// An integer that orders 32-bit patterns as the numbers they stand for, built
/// as [`f64_key`] is.
pub open spec fn f32_key(bits: u32) -> u32 {
    if f32_is_nan(bits) {
        u32::MAX
    } else if bits == F32_SIGN {
        F32_SIGN
    } else if (bits & F32_SIGN) != 0 {
        !bits
    } else {
        bits | F32_SIGN
    }
}

/// The key orders the 64-bit patterns as the numbers they stand for are
/// ordered, given that patterns without the sign bit grow with the number
/// and patterns with it grow with its magnitude.
///
/// The two zeros have one key. Every not-a-number has the greatest key, and
/// no number has it. Of two numbers that are not negative, the one with the
/// smaller pattern has the smaller key; of two negative ones, the one with
/// the larger pattern has the smaller key; and a negative number has a
/// smaller key than one that is not negative.
pub proof fn lemma_f64_key_orders_numbers(a: u64, b: u64)
    ensures
        f64_key(0) == f64_key(F64_SIGN),
        f64_is_nan(a) <==> f64_key(a) == u64::MAX,
        !f64_is_nan(a) && !f64_is_nan(b) && a & F64_SIGN == 0 && b & F64_SIGN == 0 ==> (a < b
            <==> f64_key(a) < f64_key(b)),
        !f64_is_nan(a) && !f64_is_nan(b) && a & F64_SIGN != 0 && b & F64_SIGN != 0 && a
            != F64_SIGN && b != F64_SIGN ==> (a < b <==> f64_key(a) > f64_key(b)),
        !f64_is_nan(a) && !f64_is_nan(b) && a & F64_SIGN != 0 && a != F64_SIGN && b & F64_SIGN
            == 0 ==> f64_key(a) < f64_key(b),
{
    let s = F64_SIGN;
    let e = F64_EXPONENT;
    let f = F64_FRACTION;
    assert(0u64 & e != e && 0u64 & s == 0 && 0u64 | s == s && s & e != e) by (bit_vector)
        requires
            s == 0x8000_0000_0000_0000u64,
            e == 0x7ff0_0000_0000_0000u64,
    ;
    assert(!((a & e) == e && (a & f) != 0) ==> (a & s != 0 ==> !a != u64::MAX) && (a & s == 0
        ==> a | s != u64::MAX) && s != u64::MAX) by (bit_vector)
        requires
            s == 0x8000_0000_0000_0000u64,
            e == 0x7ff0_0000_0000_0000u64,
            f == 0x000f_ffff_ffff_ffffu64,
    ;
    assert(a & s == 0 && b & s == 0 ==> (a < b <==> (a | s) < (b | s))) by (bit_vector)
        requires
            s == 0x8000_0000_0000_0000u64,
    ;
    assert((a & s == 0 ==> a != s) && (b & s == 0 ==> b != s)) by (bit_vector)
        requires
            s == 0x8000_0000_0000_0000u64,
    ;
    assert(a < b <==> !a > !b) by (bit_vector);
    assert(a & s != 0 && b & s == 0 ==> !a < (b | s) && !a < s) by (bit_vector)
        requires
            s == 0x8000_0000_0000_0000u64,
    ;
}

impl F64 {
    /// The bit pattern held.
    pub closed spec fn bits(self) -> u64 {
        self.bits
    }

    /// The integer by which this value is ordered and compared.
    pub open spec fn key(self) -> u64 {
        f64_key(self.bits())
    }

    /// The value with the bit pattern `bits`.
    pub fn from_bits(bits: u64) -> (x: Self)
        ensures
            x.bits() == bits,
    {
        F64 { bits }
    }

    /// The bit pattern of this value, as it was given.
    pub fn to_bits(self) -> (bits: u64)
        ensures
            bits == self.bits(),
    {
        self.bits
    }

    /// Whether this value is a not-a-number.
    pub fn is_nan(self) -> (nan: bool)
        ensures
            nan == f64_is_nan(self.bits()),
    {
        (self.bits & F64_EXPONENT) == F64_EXPONENT && (self.bits & F64_FRACTION) != 0
    }

    /// The integer by which this value is ordered and compared.
    pub fn sort_key(self) -> (k: u64)
        ensures
            k == self.key(),
    {
        if self.is_nan() {
            u64::MAX
        } else if self.bits == F64_SIGN {
            F64_SIGN
        } else if (self.bits & F64_SIGN) != 0 {
            !self.bits
        } else {
            self.bits | F64_SIGN
        }
    }
}

impl F32 {
    /// The bit pattern held.
    pub closed spec fn bits(self) -> u32 {
        self.bits
    }

    /// The integer by which this value is ordered and compared.
    pub open spec fn key(self) -> u32 {
        f32_key(self.bits())
    }

    /// The value with the bit pattern `bits`.
    pub fn from_bits(bits: u32) -> (x: Self)
        ensures
            x.bits() == bits,
    {
        F32 { bits }
    }

    /// The bit pattern of this value, as it was given.
    pub fn to_bits(self) -> (bits: u32)
        ensures
            bits == self.bits(),
    {
        self.bits
    }

    /// Whether this value is a not-a-number.
    pub fn is_nan(self) -> (nan: bool)
        ensures
            nan == f32_is_nan(self.bits()),
    {
        (self.bits & F32_EXPONENT) == F32_EXPONENT && (self.bits & F32_FRACTION) != 0
    }

    /// The integer by which this value is ordered and compared.
    pub fn sort_key(self) -> (k: u32)
        ensures
            k == self.key(),
    {
        if self.is_nan() {
            u32::MAX
        } else if self.bits == F32_SIGN {
            F32_SIGN
        } else if (self.bits & F32_SIGN) != 0 {
            !self.bits
        } else {
            self.bits | F32_SIGN
        }
    }
}

impl PartialEq for F64 {
    fn eq(&self, other: &Self) -> (r: bool) {
        self.sort_key() == other.sort_key()
    }
}

impl vstd::std_specs::cmp::PartialEqSpecImpl for F64 {
    open spec fn obeys_eq_spec() -> bool {
        true
    }

    open spec fn eq_spec(&self, other: &Self) -> bool {
        self.key() == other.key()
    }
}

impl PartialOrd for F64 {
    fn partial_cmp(&self, other: &Self) -> (r: Option<Ordering>) {
        let a = self.sort_key();
        let b = other.sort_key();
        if a < b {
            Some(Ordering::Less)
        } else if a > b {
            Some(Ordering::Greater)
        } else {
            Some(Ordering::Equal)
        }
    }
}

impl vstd::std_specs::cmp::PartialOrdSpecImpl for F64 {
    open spec fn obeys_partial_cmp_spec() -> bool {
        true
    }

    open spec fn partial_cmp_spec(&self, other: &Self) -> Option<Ordering> {
        if self.key() < other.key() {
            Some(Ordering::Less)
        } else if self.key() > other.key() {
            Some(Ordering::Greater)
        } else {
            Some(Ordering::Equal)
        }
    }
}

impl PartialEq for F32 {
    fn eq(&self, other: &Self) -> (r: bool) {
        self.sort_key() == other.sort_key()
    }
}

impl vstd::std_specs::cmp::PartialEqSpecImpl for F32 {
    open spec fn obeys_eq_spec() -> bool {
        true
    }

    open spec fn eq_spec(&self, other: &Self) -> bool {
        self.key() == other.key()
    }
}

impl PartialOrd for F32 {
    fn partial_cmp(&self, other: &Self) -> (r: Option<Ordering>) {
        let a = self.sort_key();
        let b = other.sort_key();
        if a < b {
            Some(Ordering::Less)
        } else if a > b {
            Some(Ordering::Greater)
        } else {
            Some(Ordering::Equal)
        }
    }
}

impl vstd::std_specs::cmp::PartialOrdSpecImpl for F32 {
    open spec fn obeys_partial_cmp_spec() -> bool {
        true
    }

    open spec fn partial_cmp_spec(&self, other: &Self) -> Option<Ordering> {
        if self.key() < other.key() {
            Some(Ordering::Less)
        } else if self.key() > other.key() {
            Some(Ordering::Greater)
        } else {
            Some(Ordering::Equal)
        }
    }
}

} // verus!
