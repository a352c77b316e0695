use vstd::prelude::*;

verus! {

/// The number of atomic units in one whole: a decimal holds 18 fractional digits.
pub const DECIMAL_FRACTIONAL: u128 = 1_000_000_000_000_000_000u128;

/// A fixed-point decimal with 18 fractional digits, held as its atomic units
/// (the value is `atomics / 10^18`).
#[derive(Clone, Copy, Debug, PartialEq, Eq, Structural)]
pub struct Decimal {
    pub atomics: u128,
}

impl Decimal {
    /// The decimal `1.0`.
    pub fn one() -> (d: Decimal)
        ensures
            d.atomics == DECIMAL_FRACTIONAL,
    {
        Decimal { atomics: DECIMAL_FRACTIONAL }
    }
}

} // verus!
