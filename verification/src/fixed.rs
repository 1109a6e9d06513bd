//! Unsigned 128-bit fixed point numbers with 18 decimals, as used for
//! prices, reward-per-share values and loyalty multipliers.
//!
//! Arithmetic that rounds is delegated to `sp_arithmetic::FixedU128`; the
//! contracts below state what that implementation computes.
use vstd::prelude::*;
use sp_arithmetic::traits::{CheckedDiv, CheckedMul};
use sp_arithmetic::FixedPointNumber;

verus! {

/// Number of inner units in one.
pub const DIV: u128 = 1_000_000_000_000_000_000u128;

/// Parts in one whole of a `Permill`.
pub const PERMILL_ACCURACY: u32 = 1_000_000u32;

/// A fixed point number: the value is `inner / DIV`.
#[derive(Clone, Copy, PartialEq, Eq, Debug, Structural)]
pub struct Fixed {
    pub inner: u128,
}

/// `a * b / c` as `sp_arithmetic::helpers_128bit::multiply_by_rational` computes it:
/// the quotient is floored, except when `a * b` does not fit in 128 bits and `c`
/// needs more than one 32-bit limb; then a remainder above `c / 2` rounds up.
pub open spec fn mul_div(a: int, b: int, c: int) -> int {
    if a == 0 || b == 0 {
        0
    } else {
        let p = a * b;
        if p <= u128::MAX || c < 0x1_0000_0000 || p % c <= c / 2 {
            p / c
        } else {
            p / c + 1
        }
    }
}

/// `Some(v)` when `v` fits in 128 bits.
pub open spec fn fit(v: int) -> Option<u128> {
    if 0 <= v <= u128::MAX {
        Some(v as u128)
    } else {
        None
    }
}

/// Fixed point product of two inner values.
pub open spec fn spec_checked_mul(a: u128, b: u128) -> Option<u128> {
    fit(mul_div(a as int, b as int, DIV as int))
}

/// Fixed point quotient of two inner values; `None` on a zero divisor.
pub open spec fn spec_checked_div(a: u128, b: u128) -> Option<u128> {
    if b == 0 {
        None
    } else {
        fit(mul_div(a as int, DIV as int, b as int))
    }
}

/// A fixed point number times an integer, as an integer.
pub open spec fn spec_checked_mul_int(f: u128, n: u128) -> Option<u128> {
    fit(mul_div(f as int, n as int, DIV as int))
}

/// The inner value of the fixed point number `n`, saturated at the maximum.
pub open spec fn spec_from_integer(n: u128) -> u128 {
    if n * DIV <= u128::MAX {
        (n * DIV) as u128
    } else {
        u128::MAX
    }
}

/// Calls `sp_arithmetic::FixedU128::checked_mul` on the numbers with inner values
/// `a` and `b`. Claimed: the inner value of the product is `a * b / DIV` rounded as
/// `mul_div` describes, and `None` comes exactly when that does not fit in 128 bits.
#[verifier::external_body]
fn fixed_checked_mul(a: u128, b: u128) -> (r: Option<u128>)
    ensures
        r == spec_checked_mul(a, b),
{
    sp_arithmetic::FixedU128::from_inner(a).checked_mul(&sp_arithmetic::FixedU128::from_inner(b)).map(
        sp_arithmetic::FixedU128::into_inner,
    )
}

/// Calls `sp_arithmetic::FixedU128::checked_div` on the numbers with inner values
/// `a` and `b`. Claimed: `None` for a zero divisor or a quotient that does not fit
/// in 128 bits, else the inner value `a * DIV / b` rounded as `mul_div` describes.
#[verifier::external_body]
fn fixed_checked_div(a: u128, b: u128) -> (r: Option<u128>)
    ensures
        r == spec_checked_div(a, b),
{
    sp_arithmetic::FixedU128::from_inner(a).checked_div(&sp_arithmetic::FixedU128::from_inner(b)).map(
        sp_arithmetic::FixedU128::into_inner,
    )
}

/// Calls `sp_arithmetic::FixedPointNumber::checked_mul_int` of `FixedU128` on the
/// number with inner value `f` and the integer `n`. Claimed: `f * n / DIV` rounded
/// as `mul_div` describes, or `None` when that does not fit in 128 bits.
#[verifier::external_body]
fn fixed_checked_mul_int(f: u128, n: u128) -> (r: Option<u128>)
    ensures
        r == spec_checked_mul_int(f, n),
{
    sp_arithmetic::FixedU128::from_inner(f).checked_mul_int(n)
}

/// Calls `From<u128>` of `sp_arithmetic::FixedU128`. Claimed: the inner value is
/// `n * DIV`, or the largest inner value when that does not fit.
#[verifier::external_body]
fn fixed_from_integer(n: u128) -> (r: u128)
    ensures
        r == spec_from_integer(n),
{
    sp_arithmetic::FixedU128::from(n).into_inner()
}

/// Calls `From<Permill>` of `sp_arithmetic::FixedU128` on
/// `sp_arithmetic::Permill::from_parts(parts)`. Claimed, for `parts` up to one
/// million (which `from_parts` keeps as they are): the inner value is
/// `parts * DIV / 1_000_000` rounded as `mul_div` describes.
#[verifier::external_body]
fn fixed_from_permill(parts: u32) -> (r: u128)
    requires
        parts <= PERMILL_ACCURACY,
    ensures
        r == mul_div(parts as int, DIV as int, PERMILL_ACCURACY as int),
{
    sp_arithmetic::FixedU128::from(sp_arithmetic::Permill::from_parts(parts)).into_inner()
}

impl Fixed {
    pub fn from_inner(inner: u128) -> (r: Fixed)
        ensures
            r.inner == inner,
    {
        Fixed { inner }
    }

    pub fn into_inner(self) -> (r: u128)
        ensures
            r == self.inner,
    {
        self.inner
    }

    /// One, that is `DIV` inner units.
    pub fn one() -> (r: Fixed)
        ensures
            r.inner == DIV,
    {
        Fixed { inner: DIV }
    }

    pub fn zero() -> (r: Fixed)
        ensures
            r.inner == 0,
    {
        Fixed { inner: 0 }
    }

    /// `FixedU128::from(n)`: the integer `n`, saturated at the maximum.
    pub fn from_integer(n: u128) -> (r: Fixed)
        ensures
            r.inner == spec_from_integer(n),
    {
        Fixed { inner: fixed_from_integer(n) }
    }

    /// The fixed point value of a `Permill` of `parts` millionths.
    pub fn from_permill(parts: u32) -> (r: Fixed)
        requires
            parts <= PERMILL_ACCURACY,
        ensures
            r.inner == parts * 1_000_000_000_000,
    {
        let r = fixed_from_permill(parts);
        proof {
            if parts > 0 {
                assert(parts * DIV <= u128::MAX) by (nonlinear_arith)
                    requires parts <= 1_000_000;
                assert((parts * DIV) / (PERMILL_ACCURACY as int) == parts * 1_000_000_000_000)
                    by (nonlinear_arith);
            }
        }
        Fixed { inner: r }
    }

    pub fn checked_add(&self, other: &Fixed) -> (r: Option<Fixed>)
        ensures
            r == (if self.inner + other.inner <= u128::MAX {
                Some(Fixed { inner: (self.inner + other.inner) as u128 })
            } else {
                None
            }),
    {
        match self.inner.checked_add(other.inner) {
            Some(v) => Some(Fixed { inner: v }),
            None => None,
        }
    }

    pub fn checked_mul(&self, other: &Fixed) -> (r: Option<Fixed>)
        ensures
            r matches Some(v) ==> spec_checked_mul(self.inner, other.inner) == Some(v.inner),
            r is None <==> spec_checked_mul(self.inner, other.inner) is None,
    {
        match fixed_checked_mul(self.inner, other.inner) {
            Some(v) => Some(Fixed { inner: v }),
            None => None,
        }
    }

    pub fn checked_div(&self, other: &Fixed) -> (r: Option<Fixed>)
        ensures
            r matches Some(v) ==> spec_checked_div(self.inner, other.inner) == Some(v.inner),
            r is None <==> spec_checked_div(self.inner, other.inner) is None,
    {
        match fixed_checked_div(self.inner, other.inner) {
            Some(v) => Some(Fixed { inner: v }),
            None => None,
        }
    }

    /// `self * n` as an integer.
    pub fn checked_mul_int(&self, n: u128) -> (r: Option<u128>)
        ensures
            r == spec_checked_mul_int(self.inner, n),
    {
        fixed_checked_mul_int(self.inner, n)
    }
}

} // verus!
