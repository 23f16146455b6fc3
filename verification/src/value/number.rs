//! Numbers as the source gives them: IEEE 754 doubles, held by their bit pattern.
//!
//! The layer never computes with these numbers. It only asks whether one is finite
//! and whether two are equal as doubles, and both questions are answered exactly
//! from the bit pattern.
use vstd::prelude::*;

verus! {

/// The sign bit of a double.
pub open spec fn sign_bit() -> u64 {
    0x8000_0000_0000_0000
}

/// The bit pattern without its sign bit.
pub open spec fn magnitude_bits(bits: u64) -> u64 {
    if bits >= sign_bit() { (bits - sign_bit()) as u64 } else { bits }
}

/// A double is finite (zero, subnormal or normal) when its exponent is not all ones.
pub open spec fn finite_bits(bits: u64) -> bool {
    magnitude_bits(bits) < 0x7ff0_0000_0000_0000
}

/// A double is NaN when its exponent is all ones and its fraction is not zero.
pub open spec fn nan_bits(bits: u64) -> bool {
    magnitude_bits(bits) > 0x7ff0_0000_0000_0000
}

/// Equality of doubles: NaN equals nothing, `+0` equals `-0`, and otherwise two
/// doubles are equal when their bit patterns are.
pub open spec fn same_number(a: u64, b: u64) -> bool {
    !nan_bits(a) && !nan_bits(b) && (a == b || (magnitude_bits(a) == 0 && magnitude_bits(b)
        == 0))
}

/// A source number (an IEEE 754 double), held by its bit pattern.
#[derive(Debug, Clone, Copy)]
pub struct Jin10Number {
    /// The IEEE 754 binary64 bit pattern.
    pub bits: u64,
}

impl View for Jin10Number {
    type V = u64;

    open spec fn view(&self) -> u64 {
        self.bits
    }
}

impl Jin10Number {
    /// The number with this IEEE 754 binary64 bit pattern.
    pub fn from_bits(bits: u64) -> (n: Jin10Number)
        ensures
            n@ == bits,
    {
        Jin10Number { bits }
    }

    /// The IEEE 754 binary64 bit pattern.
    pub fn to_bits(self) -> (bits: u64)
        ensures
            bits == self@,
    {
        self.bits
    }

    /// Whether the number is finite (neither infinite nor NaN).
    pub fn is_finite(self) -> (b: bool)
        ensures
            b == finite_bits(self@),
    {
        let magnitude = if self.bits >= 0x8000_0000_0000_0000 {
            self.bits - 0x8000_0000_0000_0000
        } else {
            self.bits
        };
        magnitude < 0x7ff0_0000_0000_0000
    }

    /// Whether two numbers are equal as doubles (NaN equals nothing, `+0` equals `-0`).
    pub fn same_as(self, other: Jin10Number) -> (b: bool)
        ensures
            b == same_number(self@, other@),
    {
        let a = if self.bits >= 0x8000_0000_0000_0000 {
            self.bits - 0x8000_0000_0000_0000
        } else {
            self.bits
        };
        let c = if other.bits >= 0x8000_0000_0000_0000 {
            other.bits - 0x8000_0000_0000_0000
        } else {
            other.bits
        };
        a <= 0x7ff0_0000_0000_0000 && c <= 0x7ff0_0000_0000_0000 && (self.bits == other.bits || (
        a == 0 && c == 0))
    }
}

impl PartialEq for Jin10Number {
    fn eq(&self, other: &Jin10Number) -> (r: bool) {
        self.same_as(*other)
    }
}

impl vstd::std_specs::cmp::PartialEqSpecImpl for Jin10Number {
    open spec fn obeys_eq_spec() -> bool {
        true
    }

    open spec fn eq_spec(&self, other: &Jin10Number) -> bool {
        same_number(self@, other@)
    }
}

/// Equality of optional numbers: both absent, or both present and equal as doubles.
pub open spec fn same_optional(a: Option<Jin10Number>, b: Option<Jin10Number>) -> bool {
    match (a, b) {
        (None, None) => true,
        (Some(x), Some(y)) => same_number(x@, y@),
        _ => false,
    }
}

/// An optional number is acceptable when it is absent or finite.
pub open spec fn absent_or_finite(a: Option<Jin10Number>) -> bool {
    match a {
        None => true,
        Some(x) => finite_bits(x@),
    }
}

/// Whether two optional numbers are equal (as `Option<f64>` compares).
pub fn same_optional_number(a: Option<Jin10Number>, b: Option<Jin10Number>) -> (r: bool)
    ensures
        r == same_optional(a, b),
{
    match (a, b) {
        (None, None) => true,
        (Some(x), Some(y)) => x.same_as(y),
        _ => false,
    }
}

/// Whether an optional number is absent or finite.
pub fn is_absent_or_finite(a: Option<Jin10Number>) -> (r: bool)
    ensures
        r == absent_or_finite(a),
{
    match a {
        None => true,
        Some(x) => x.is_finite(),
    }
}


/// The 11-bit exponent field of an IEEE 754 binary64 bit pattern.
pub open spec fn exponent_field(bits: u64) -> u64 {
    (bits >> 52u64) & 0x7ffu64
}

/// A double is finite exactly when its exponent field is not all ones, whatever
/// its sign: negative finite numbers are finite, and infinities and NaNs of either
/// sign are not.
pub proof fn lemma_finite_by_exponent(bits: u64)
    ensures
        finite_bits(bits) <==> exponent_field(bits) != 0x7ff,
        finite_bits(bits) <==> finite_bits(bits ^ 0x8000_0000_0000_0000u64),
{
    assert((if bits >= 0x8000_0000_0000_0000u64 { (bits - 0x8000_0000_0000_0000u64) as u64 } else {
        bits
    }) < 0x7ff0_0000_0000_0000u64 <==> (bits >> 52u64) & 0x7ffu64 != 0x7ffu64) by (bit_vector);
    let flipped = bits ^ 0x8000_0000_0000_0000u64;
    assert((flipped >> 52u64) & 0x7ffu64 == (bits >> 52u64) & 0x7ffu64) by (bit_vector)
        requires
            flipped == bits ^ 0x8000_0000_0000_0000u64,
    ;
    assert((if flipped >= 0x8000_0000_0000_0000u64 {
        (flipped - 0x8000_0000_0000_0000u64) as u64
    } else {
        flipped
    }) < 0x7ff0_0000_0000_0000u64 <==> (flipped >> 52u64) & 0x7ffu64 != 0x7ffu64) by (bit_vector);
}

/// Equality of optional numbers is `Option` equality on doubles: two absent values
/// are equal, an absent value never equals a present one (either way round), two
/// present values are equal exactly when they are equal as doubles, and the
/// relation is symmetric.
pub proof fn lemma_same_optional(a: Option<Jin10Number>, b: Option<Jin10Number>)
    ensures
        same_optional(None, None),
        a is Some ==> !same_optional(a, None) && !same_optional(None, a),
        a is Some && b is Some ==> (same_optional(a, b) <==> same_number(a->0@, b->0@)),
        same_optional(a, b) == same_optional(b, a),
        same_optional(a, b) ==> (a is Some <==> b is Some),
{
}

/// Equality of doubles is symmetric, every non-NaN double equals itself, NaN equals
/// nothing, and `+0` equals `-0`.
pub proof fn lemma_same_number(a: u64, b: u64)
    ensures
        same_number(a, b) == same_number(b, a),
        !nan_bits(a) ==> same_number(a, a),
        nan_bits(a) ==> !same_number(a, b),
        same_number(0, 0x8000_0000_0000_0000u64),
        !nan_bits(a) && !nan_bits(b) && exponent_field(a) != 0 && a != b ==> !same_number(a, b),
{
    assert(exponent_field(a) != 0 ==> (if a >= 0x8000_0000_0000_0000u64 {
        (a - 0x8000_0000_0000_0000u64) as u64
    } else {
        a
    }) != 0) by (bit_vector);
}

/// A double is NaN exactly when its exponent field is all ones and its fraction
/// (the low 52 bits) is not zero, whatever its sign.
pub proof fn lemma_nan_by_fields(bits: u64)
    ensures
        nan_bits(bits) <==> exponent_field(bits) == 0x7ff && bits & 0xf_ffff_ffff_ffffu64 != 0,
{
    assert((if bits >= 0x8000_0000_0000_0000u64 { (bits - 0x8000_0000_0000_0000u64) as u64 } else {
        bits
    }) > 0x7ff0_0000_0000_0000u64 <==> ((bits >> 52u64) & 0x7ffu64 == 0x7ffu64 && bits
        & 0xf_ffff_ffff_ffffu64 != 0)) by (bit_vector);
}

} // verus!
