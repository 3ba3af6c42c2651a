//! Exact fixed-point scalars for the quantities the extractor computes with.
//!
//! The overlay configuration's line width and each node's inverse scale
//! factor enter one computation: the division that turns a logical-pixel
//! line width into device pixels. To keep that computation exact and
//! verifiable, these quantities are carried as non-negative fixed-point
//! numbers with sixteen fractional bits: a [`Scalar`] with raw value `r`
//! stands for the real number `r / 65536`.

use vstd::prelude::*;

verus! {

/// Number of raw units per whole unit: a `Scalar` with this raw value is `1`.
pub const SCALAR_UNIT: u64 = 65536;

/// Largest raw value whose product with [`SCALAR_UNIT`] still fits in `u64`,
/// so the largest raw value a division's dividend may have.
pub const SCALAR_RAW_MAX: u64 = u64::MAX / 65536;

/// A non-negative fixed-point number with sixteen fractional bits: the value
/// represented is `raw / 65536`.
#[derive(Clone, Copy, Debug, PartialEq, Eq)]
pub struct Scalar {
    /// The represented value, in units of `1 / 65536`.
    pub raw: u64,
}

/// The quotient of two scalars, rounded down to the nearest raw unit:
/// `(a / b)` as a fixed-point number, exact whenever `b` divides `a * 65536`.
pub open spec fn scalar_div_spec(a: Scalar, b: Scalar) -> Scalar {
    Scalar { raw: ((a.raw * 65536) / (b.raw as int)) as u64 }
}

impl Scalar {
    /// The scalar zero.
    pub fn zero() -> (r: Scalar)
        ensures
            r.raw == 0,
    {
        Scalar { raw: 0 }
    }

    /// The scalar one.
    pub fn one() -> (r: Scalar)
        ensures
            r.raw == SCALAR_UNIT,
    {
        Scalar { raw: SCALAR_UNIT }
    }

    /// The scalar with the given raw value, i.e. the value `raw / 65536`.
    pub fn from_raw(raw: u64) -> (r: Scalar)
        ensures
            r.raw == raw,
    {
        Scalar { raw }
    }

    /// The scalar for a whole number of units.
    pub fn from_units(units: u64) -> (r: Scalar)
        requires
            units <= SCALAR_RAW_MAX,
        ensures
            r.raw == units * SCALAR_UNIT,
    {
        Scalar { raw: units * SCALAR_UNIT }
    }

    /// Divides `self` by `divisor`, rounding the raw result down.
    pub fn div(self, divisor: Scalar) -> (r: Scalar)
        requires
            self.raw <= SCALAR_RAW_MAX,
            divisor.raw > 0,
        ensures
            r == scalar_div_spec(self, divisor),
            r.raw == (self.raw * 65536) / (divisor.raw as int),
    {
        Scalar { raw: (self.raw * 65536) / divisor.raw }
    }
}

} // verus!
