//! Draws from the process-wide pseudo-random generator.

use vstd::prelude::*;

verus! {

/// The largest bound, in magnitude, that a draw may be asked between: two
/// to the power of 31.
pub const DRAW_LIMIT: i64 = 2_147_483_648;

/// `macroquad::rand::gen_range` on `i64`: a draw from the generator that
/// the whole process shares, scaled into the range between `low` and `high`.
///
/// Trusted, not proved. The generator turns a 32-bit draw into a fraction
/// of one, scales it into the range in double precision and drops what
/// follows the point. Bounds within [`DRAW_LIMIT`] and their difference are
/// doubles themselves, so rounding cannot carry a step past a bound, and the
/// result lies in the range, bounds included. Nothing is claimed about which
/// value of the range comes back, nor that two calls agree.
#[verifier::external_body]
pub(crate) fn gen_range(low: i64, high: i64) -> (r: i64)
    requires
        -DRAW_LIMIT <= low <= high <= DRAW_LIMIT,
    ensures
        low <= r <= high,
{
    macroquad::rand::gen_range(low, high)
}

} // verus!
