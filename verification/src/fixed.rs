//! Signed fixed-point numbers with three decimal places.
//!
//! Quantities that providers report with a fractional part (requests used,
//! percentages) are held exactly as a count of thousandths.

use vstd::prelude::*;

verus! {

/// A signed decimal number, held as a count of thousandths.
#[derive(Clone, Copy, Debug, PartialEq, Eq, Structural)]
pub struct Fixed {
    pub milli: i64,
}

impl View for Fixed {
    type V = int;

    /// The number of thousandths.
    open spec fn view(&self) -> int {
        self.milli as int
    }
}

/// The integer quotient of `n` by a positive `d`, rounded toward zero.
pub open spec fn div_toward_zero(n: int, d: int) -> int
    recommends
        d > 0,
{
    if n >= 0 {
        n / d
    } else {
        -((-n) / d)
    }
}

/// `x` limited to the range of `i64`.
pub open spec fn saturate(x: int) -> int {
    if x < i64::MIN {
        i64::MIN as int
    } else if x > i64::MAX {
        i64::MAX as int
    } else {
        x
    }
}

/// The share of `limit` that `used_milli` thousandths make up, in
/// thousandths of a percent: zero when there is no positive limit.
pub open spec fn percent_of_spec(used_milli: int, limit: int) -> int {
    if limit <= 0 {
        0
    } else {
        saturate(div_toward_zero(used_milli * 100, limit))
    }
}

impl Fixed {
    /// The number zero.
    pub fn zero() -> (r: Fixed)
        ensures
            r@ == 0,
    {
        Fixed { milli: 0 }
    }

    /// The number with the given count of thousandths.
    pub fn from_milli(milli: i64) -> (r: Fixed)
        ensures
            r@ == milli,
    {
        Fixed { milli }
    }

    /// The whole number `units`, saturating at the ends of the range.
    pub fn from_units(units: i64) -> (r: Fixed)
        ensures
            r@ == saturate(units * 1000),
    {
        let wide: i128 = units as i128 * 1000;
        Fixed { milli: saturate_i128(wide) }
    }

    /// The count of thousandths.
    pub fn milli(&self) -> (r: i64)
        ensures
            r == self@,
    {
        self.milli
    }

    /// Usage as a percentage of a limit.
    ///
    /// A limit of zero or less gives exactly zero. Otherwise the result is
    /// `used / limit * 100`, rounded toward zero to a thousandth of a percent.
    pub fn percent_of(used: Fixed, limit: i64) -> (r: Fixed)
        ensures
            r@ == percent_of_spec(used@, limit as int),
            limit <= 0 ==> r@ == 0,
    {
        if limit <= 0 {
            return Fixed { milli: 0 };
        }
        let n: i128 = used.milli as i128 * 100;
        let d: i128 = limit as i128;
        let q: i128 = if n >= 0 {
            n / d
        } else {
            -((-n) / d)
        };
        Fixed { milli: saturate_i128(q) }
    }
}

/// Narrow a wide integer to `i64`, saturating at the ends of the range.
fn saturate_i128(x: i128) -> (r: i64)
    ensures
        r == saturate(x as int),
{
    if x < i64::MIN as i128 {
        i64::MIN
    } else if x > i64::MAX as i128 {
        i64::MAX
    } else {
        x as i64
    }
}

} // verus!
