//! Amounts of money, counted in hundredths of the currency unit, taken apart
//! for display.
use vstd::prelude::*;

verus! {

/// An amount as it is written: a sign, whole units and hundredths.
#[derive(Debug, Clone, Copy, PartialEq, Eq)]
pub struct AmountParts {
    /// Whether the amount lies below zero.
    pub negative: bool,
    pub units: u128,
    /// Always below 100.
    pub hundredths: u8,
}

impl AmountParts {
    /// The amount that the parts stand for, in hundredths.
    pub open spec fn amount(self) -> int {
        let size = self.units * 100 + self.hundredths;
        if self.negative {
            -size
        } else {
            size
        }
    }
}

/// Takes `amount`, in hundredths, apart into sign, whole units and
/// hundredths. Zero carries no sign.
pub fn split_amount(amount: i128) -> (parts: AmountParts)
    ensures
        parts.amount() == amount,
        parts.hundredths < 100,
        parts.negative == (amount < 0),
{
    let negative = amount < 0;
    let size: u128 = if negative {
        (-(amount + 1)) as u128 + 1
    } else {
        amount as u128
    };
    AmountParts { negative, units: size / 100, hundredths: (size % 100) as u8 }
}

} // verus!
