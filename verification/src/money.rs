//! Fixed-point money: a signed amount of currency with four decimal digits,
//! stored as an `i64` number of 1/10000 units.

use vstd::math::abs;
use vstd::prelude::*;

verus! {

/// Number of scaled units per whole currency unit (four decimal digits).
pub const SCALE: i64 = 10000;

/// Largest whole-unit value whose scaled form still fits in an `i64`
/// (`i64::MAX / SCALE`, rounded toward zero).
pub const MAX_WHOLE_UNITS: i64 = 922_337_203_685_477;

/// Fixed point money amount. The mathematical value is `scaled / 10000`
/// currency units; all reasoning is on the scaled integer.
#[derive(Debug, Clone, Copy, PartialEq, Eq, Structural)]
pub struct MoneyAmount {
    pub scaled: i64,
}

impl View for MoneyAmount {
    type V = int;

    open spec fn view(&self) -> int {
        self.scaled as int
    }
}

/// Does a mathematical value fit the scaled integer's range?
pub open spec fn fits_scaled(v: int) -> bool {
    i64::MIN <= v <= i64::MAX
}

impl MoneyAmount {
    /// An amount from a raw count of 1/10000 units.
    pub fn from_scaled(scaled: i64) -> (r: MoneyAmount)
        ensures
            r@ == scaled as int,
    {
        MoneyAmount { scaled }
    }

    /// An amount from a count of whole currency units.
    pub fn from(value: i64) -> (r: MoneyAmount)
        requires
            -MAX_WHOLE_UNITS <= value <= MAX_WHOLE_UNITS,
        ensures
            r@ == value * SCALE,
    {
        MoneyAmount { scaled: value * SCALE }
    }

    /// Try to add the (possibly negative) `value` to `self`, with checked
    /// arithmetic: the sum comes back exactly when it fits the scaled
    /// integer's range, and no value at all otherwise.
    pub fn try_change(&self, value: MoneyAmount) -> (r: Option<MoneyAmount>)
        ensures
            r is Some <==> fits_scaled(self@ + value@),
            r matches Some(m) ==> m@ == self@ + value@,
    {
        if value.scaled >= 0 {
            if self.scaled <= i64::MAX - value.scaled {
                Some(MoneyAmount { scaled: self.scaled + value.scaled })
            } else {
                None
            }
        } else {
            if self.scaled >= i64::MIN - value.scaled {
                Some(MoneyAmount { scaled: self.scaled + value.scaled })
            } else {
                None
            }
        }
    }

    /// Try to subtract `value` from `self`, with checked arithmetic: the
    /// difference comes back exactly when it fits the scaled integer's range.
    pub fn try_sub(&self, value: MoneyAmount) -> (r: Option<MoneyAmount>)
        ensures
            r is Some <==> fits_scaled(self@ - value@),
            r matches Some(m) ==> m@ == self@ - value@,
    {
        if value.scaled <= 0 {
            if self.scaled <= i64::MAX + value.scaled {
                Some(MoneyAmount { scaled: self.scaled - value.scaled })
            } else {
                None
            }
        } else {
            if self.scaled >= i64::MIN + value.scaled {
                Some(MoneyAmount { scaled: self.scaled - value.scaled })
            } else {
                None
            }
        }
    }

    /// The pieces a renderer needs: the sign, and the absolute whole and
    /// fractional parts of the amount (the fractional part counts 1/10000
    /// units, so it is rendered with four digits).
    pub fn display_parts(&self) -> (r: (bool, u64, u64))
        ensures
            r.0 == (self@ < 0),
            r.1 == abs(self@) / (SCALE as nat),
            r.2 == abs(self@) % (SCALE as nat),
    {
        let magnitude: u64 = if self.scaled >= 0 {
            self.scaled as u64
        } else if self.scaled == i64::MIN {
            9_223_372_036_854_775_808u64
        } else {
            (-self.scaled) as u64
        };
        (self.scaled < 0, magnitude / 10000, magnitude % 10000)
    }
}

impl Default for MoneyAmount {
    /// The zero amount.
    fn default() -> (r: MoneyAmount)
        ensures
            r@ == 0,
    {
        MoneyAmount { scaled: 0 }
    }
}

} // verus!
