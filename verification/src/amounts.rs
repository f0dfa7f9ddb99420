use vstd::prelude::*;

verus! {

/// The scale of a decimal: a value is held as its number of 10^-18 units.
pub const DECIMAL_FRACTIONAL: u128 = 1_000_000_000_000_000_000u128;

/// A fixed-point decimal with 18 fractional digits, held by its atomics
/// (the value times 10^18).
#[derive(Debug, Clone, Copy, PartialEq, Eq)]
pub struct Decimal {
    pub atomics: u128,
}

impl Decimal {
    /// The decimal 0.
    pub fn zero() -> (r: Decimal)
        ensures
            r.atomics == 0,
    {
        Decimal { atomics: 0 }
    }

    /// The decimal 1.
    pub fn one() -> (r: Decimal)
        ensures
            r.atomics == DECIMAL_FRACTIONAL,
    {
        Decimal { atomics: DECIMAL_FRACTIONAL }
    }

    /// The decimal whose atomics are `atomics`.
    pub fn raw(atomics: u128) -> (r: Decimal)
        ensures
            r.atomics == atomics,
    {
        Decimal { atomics }
    }
}

/// An amount of a native bank denomination.
#[derive(Debug, Clone, PartialEq, Eq)]
pub struct Coin {
    pub denom: String,
    pub amount: u128,
}

/// The coin of `amount` units of `denom`.
pub fn coin(amount: u128, denom: String) -> (r: Coin)
    ensures
        r.amount == amount,
        r.denom == denom,
{
    Coin { denom, amount }
}

} // verus!
