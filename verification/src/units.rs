//! Scales of the fixed-point quantities, and arithmetic that saturates.

use vstd::prelude::*;

verus! {

/// Length steps in one screen unit.
pub const UNIT: i64 = 1_000_000_000;

/// Speed steps in one unit per second.
pub const SPEED_UNIT: i64 = 1_000;

/// Ticks in one second.
pub const TICKS_PER_SECOND: i64 = 1_000_000;

/// The representable value nearest to `v`.
pub open spec fn saturated(v: int) -> i64 {
    if v < i64::MIN {
        i64::MIN
    } else if v > i64::MAX {
        i64::MAX
    } else {
        v as i64
    }
}

/// The magnitude of `v`.
pub open spec fn magnitude(v: int) -> int {
    if v < 0 {
        -v
    } else {
        v
    }
}

/// Narrows a wide intermediate result, holding it at the nearest bound when
/// it does not fit.
pub fn saturate(v: i128) -> (r: i64)
    ensures
        r == saturated(v as int),
{
    if v < i64::MIN as i128 {
        i64::MIN
    } else if v > i64::MAX as i128 {
        i64::MAX
    } else {
        v as i64
    }
}

/// The product of two `i64` values is at most two to the power of 126 in
/// magnitude: as an `i128` it leaves room to add a third `i64`.
pub proof fn lemma_product_fits(a: i64, b: i64)
    ensures
        -0x4000_0000_0000_0000_0000_0000_0000_0000 <= a * b
            <= 0x4000_0000_0000_0000_0000_0000_0000_0000,
{
    assert(-0x4000_0000_0000_0000_0000_0000_0000_0000 <= a * b
        <= 0x4000_0000_0000_0000_0000_0000_0000_0000) by (nonlinear_arith)
        requires
            -0x8000_0000_0000_0000 <= a <= 0x7fff_ffff_ffff_ffff,
            -0x8000_0000_0000_0000 <= b <= 0x7fff_ffff_ffff_ffff,
    ;
}

/// `position + speed * ticks`, saturating.
pub open spec fn displaced(position: i64, speed: i64, ticks: i64) -> i64 {
    saturated(position + speed * ticks)
}

/// Moves `position` at `speed` for `ticks`: exact while the result is
/// representable, held at the nearest bound beyond that.
pub fn displace(position: i64, speed: i64, ticks: i64) -> (r: i64)
    ensures
        r == displaced(position, speed, ticks),
{
    proof {
        lemma_product_fits(speed, ticks);
    }
    let travel: i128 = (speed as i128) * (ticks as i128);
    saturate(position as i128 + travel)
}

} // verus!
