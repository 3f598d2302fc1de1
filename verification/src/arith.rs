//! Truncating fixed-point division, as register scaling uses it: the
//! quotient of the magnitudes, with the dividend's sign.

use vstd::prelude::*;
use vstd::arithmetic::div_mod::lemma_div_nonincreasing;

verus! {

/// Division truncated toward zero, the rounding every register scaling
/// uses.
pub open spec fn spec_div_trunc(n: int, d: int) -> int {
    if n >= 0 {
        n / d
    } else {
        -((-n) / d)
    }
}

/// Division truncated toward zero.
pub fn div_trunc(n: i64, d: u64) -> (r: i64)
    requires
        d >= 1,
    ensures
        r == spec_div_trunc(n as int, d as int),
{
    let neg = n < 0;
    let mag: u64 = if neg {
        (-(n as i128)) as u64
    } else {
        n as u64
    };
    let q: u64 = mag / d;
    proof {
        lemma_div_nonincreasing(mag as int, d as int);
    }
    if neg {
        (-(q as i128)) as i64
    } else {
        q as i64
    }
}

/// An event count as a milli value, held at the top of the sample range
/// rather than wrapping.
pub open spec fn spec_counter_milli(c: nat) -> int {
    if c * 1000 <= i64::MAX {
        c * 1000 as int
    } else {
        i64::MAX as int
    }
}

/// An event count as a milli value.
pub fn counter_milli(c: u64) -> (r: i64)
    ensures
        r == spec_counter_milli(c as nat),
{
    if c <= 9223372036854775 {
        (c * 1000) as i64
    } else {
        i64::MAX
    }
}

} // verus!
