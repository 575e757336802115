//! Decimal numbers of up to 96 bits of mantissa and 28 digits after the
//! point, compared by value.

use crate::row::order::{decimal_order, ordering_of};
use std::cmp::Ordering;
use vstd::prelude::*;

verus! {

/// Largest magnitude of a decimal's unscaled value: `2^96 - 1`.
pub const DECIMAL_MAX_MANTISSA: i128 = 79_228_162_514_264_337_593_543_950_335;

/// Largest number of digits after the decimal point.
pub const DECIMAL_MAX_SCALE: u32 = 28;

/// A decimal number: an integer of at most 96 bits, divided by a power of ten.
#[derive(Debug, Clone, Copy, Eq)]
pub struct Decimal {
    mantissa: i128,
    scale: u32,
}

impl View for Decimal {
    type V = (int, nat);

    /// The unscaled integer and the number of digits after the point.
    closed spec fn view(&self) -> (int, nat) {
        (self.mantissa as int, self.scale as nat)
    }
}

impl Decimal {
    #[verifier::type_invariant]
    spec fn in_range(self) -> bool {
        Self::representable(self.mantissa as int, self.scale as int)
    }

    /// Whether `mantissa / 10^scale` can be held: at most 28 digits after the
    /// point and a mantissa of at most 96 bits.
    pub open spec fn representable(mantissa: int, scale: int) -> bool {
        &&& 0 <= scale <= DECIMAL_MAX_SCALE
        &&& -DECIMAL_MAX_MANTISSA <= mantissa <= DECIMAL_MAX_MANTISSA
    }

    /// Order of this number and `other` by their value: `-1`, `0` or `1`.
    pub open spec fn order(self, other: Decimal) -> int {
        decimal_order(self@.0, self@.1, other@.0, other@.1)
    }

    /// The number `mantissa / 10^scale`, if it can be held.
    pub fn new(mantissa: i128, scale: u32) -> (d: Option<Self>)
        ensures
            d is Some <==> Self::representable(mantissa as int, scale as int),
            d matches Some(x) ==> x@ == (mantissa as int, scale as nat),
    {
        if scale <= DECIMAL_MAX_SCALE && -DECIMAL_MAX_MANTISSA <= mantissa && mantissa
            <= DECIMAL_MAX_MANTISSA {
            Some(Decimal { mantissa, scale })
        } else {
            None
        }
    }

    /// The unscaled integer.
    pub fn mantissa(&self) -> (m: i128)
        ensures
            m == self@.0,
            Self::representable(self@.0, self@.1 as int),
    {
        proof {
            use_type_invariant(self);
        }
        self.mantissa
    }

    /// The number of digits after the point.
    pub fn scale(&self) -> (s: u32)
        ensures
            s == self@.1,
            Self::representable(self@.0, self@.1 as int),
    {
        proof {
            use_type_invariant(self);
        }
        self.scale
    }

    /// Compares this number with `other` by value, so that `1.0` and `1.00`
    /// are equal.
    pub fn compare(&self, other: &Decimal) -> (o: Ordering)
        ensures
            o == ordering_of(self.order(*other)),
    {
        proof {
            use_type_invariant(self);
            use_type_invariant(other);
        }
        decimal_ordering(self, other)
    }

    /// The sign of the comparison of this number with `other`.
    pub fn compare_sign(&self, other: &Decimal) -> (s: i8)
        ensures
            s == self.order(*other),
    {
        match self.compare(other) {
            Ordering::Less => -1,
            Ordering::Equal => 0,
            Ordering::Greater => 1,
        }
    }
}

/// Calls `Ord::cmp` of `rust_decimal::Decimal` on the two numbers, each built
/// by `Decimal::from_i128_with_scale` from its mantissa and scale.
///
/// The construction panics for a scale above 28 or a mantissa beyond 96 bits,
/// which the precondition leaves out. The comparison is by numeric value: it
/// orders `m1 / 10^s1` and `m2 / 10^s2` as the integers `m1 * 10^s2` and
/// `m2 * 10^s1` are ordered.
#[verifier::external_body]
fn decimal_ordering(a: &Decimal, b: &Decimal) -> (o: Ordering)
    requires
        a.in_range(),
        b.in_range(),
    ensures
        o == ordering_of(a.order(*b)),
{
    let x = rust_decimal::Decimal::from_i128_with_scale(a.mantissa, a.scale);
    let y = rust_decimal::Decimal::from_i128_with_scale(b.mantissa, b.scale);
    x.cmp(&y)
}

impl PartialEq for Decimal {
    fn eq(&self, other: &Self) -> (r: bool) {
        self.compare_sign(other) == 0
    }
}

impl vstd::std_specs::cmp::PartialEqSpecImpl for Decimal {
    open spec fn obeys_eq_spec() -> bool {
        true
    }

    open spec fn eq_spec(&self, other: &Self) -> bool {
        self.order(*other) == 0
    }
}

impl PartialOrd for Decimal {
    fn partial_cmp(&self, other: &Self) -> (r: Option<Ordering>) {
        Some(self.compare(other))
    }
}

impl vstd::std_specs::cmp::PartialOrdSpecImpl for Decimal {
    open spec fn obeys_partial_cmp_spec() -> bool {
        true
    }

    open spec fn partial_cmp_spec(&self, other: &Self) -> Option<Ordering> {
        Some(ordering_of(self.order(*other)))
    }
}

} // verus!
