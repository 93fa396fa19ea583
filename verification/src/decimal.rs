//! A signed fixed-point decimal number with 18 decimal places.
//!
//! A price is held as a count of subunits ("attos"), so that one whole unit is
//! `DECIMAL_SCALE` attos. The only arithmetic the oracle needs is the
//! reciprocal `1 / x`, computed exactly in subunits and truncated toward zero.

use vstd::prelude::*;

verus! {

use vstd::arithmetic::div_mod::lemma_div_nonincreasing;
use vstd::arithmetic::div_mod::lemma_div_pos_is_pos;

/// Number of subunits in one whole unit: the type has 18 decimal places.
pub const DECIMAL_SCALE: i128 = 1_000_000_000_000_000_000;

/// `DECIMAL_SCALE` squared: the numerator that turns a reciprocal into a
/// subunit count, since `1 / (a / S) == S * S / a` subunits.
pub const RECIPROCAL_NUMERATOR: i128 = 1_000_000_000_000_000_000_000_000_000_000_000_000;

/// The subunit count of the reciprocal `1 / x` of a number of `a` subunits,
/// truncated toward zero. Unspecified for `a == 0`.
pub open spec fn recip_attos(a: int) -> int {
    if a >= 0 {
        (RECIPROCAL_NUMERATOR as int) / a
    } else {
        -((RECIPROCAL_NUMERATOR as int) / (-a))
    }
}

/// A signed fixed-point decimal value: `attos / DECIMAL_SCALE`.
#[derive(Clone, Copy, PartialEq, Eq, Structural, Debug)]
pub struct Decimal {
    /// The value in subunits of `1 / DECIMAL_SCALE`.
    pub attos: i128,
}

impl Decimal {
    /// The reciprocal `1 / self`, truncated toward zero, as a value.
    pub open spec fn spec_reciprocal(self) -> Decimal {
        Decimal { attos: recip_attos(self.attos as int) as i128 }
    }

    /// Builds the value of `attos` subunits.
    pub fn from_attos(attos: i128) -> (r: Decimal)
        ensures
            r.attos == attos,
    {
        Decimal { attos }
    }

    /// Builds the whole-number value `n`.
    pub fn from_integer(n: i64) -> (r: Decimal)
        ensures
            r.attos == n * DECIMAL_SCALE,
    {
        Decimal { attos: (n as i128) * DECIMAL_SCALE }
    }

    /// The reciprocal `1 / self`, truncated toward zero.
    pub fn reciprocal(&self) -> (r: Decimal)
        requires
            self.attos != 0,
        ensures
            r == self.spec_reciprocal(),
    {
        proof {
            if self.attos > 0 {
                lemma_div_pos_is_pos(RECIPROCAL_NUMERATOR as int, self.attos as int);
                lemma_div_nonincreasing(RECIPROCAL_NUMERATOR as int, self.attos as int);
            } else {
                lemma_div_pos_is_pos(RECIPROCAL_NUMERATOR as int, -(self.attos as int));
                lemma_div_nonincreasing(RECIPROCAL_NUMERATOR as int, -(self.attos as int));
            }
        }
        Decimal { attos: RECIPROCAL_NUMERATOR.checked_div(self.attos).unwrap() }
    }
}

} // verus!
