//! Fixed-point quantities and the saturating arithmetic the systems share.
use vstd::prelude::*;

verus! {

/// One whole unit: the width (or height) of the world, or one unit per second.
pub const UNIT: i64 = 1_000_000;

/// A mathematical integer brought into the range of `i64`.
pub open spec fn clamp_i64(v: int) -> int {
    if v < i64::MIN as int {
        i64::MIN as int
    } else if v > i64::MAX as int {
        i64::MAX as int
    } else {
        v
    }
}

/// The milliseconds a tick counts for: the time passed, at most `u32::MAX`.
pub open spec fn elapsed_millis(time_passed: u128) -> int {
    if time_passed > u32::MAX as u128 {
        u32::MAX as int
    } else {
        time_passed as int
    }
}

/// The distance covered at `velocity` units per second in a `1 / parts` share
/// of `millis` milliseconds, rounded toward zero.
pub open spec fn travelled(velocity: int, millis: int, parts: int) -> int {
    if velocity >= 0 {
        (velocity * millis) / (1000 * parts)
    } else {
        -(((-velocity) * millis) / (1000 * parts))
    }
}

/// Where a coordinate ends up after moving by `delta`, held to the range of `i64`.
pub open spec fn moved(base: int, delta: int) -> int {
    clamp_i64(base + delta)
}

/// The milliseconds that a tick counts for.
pub fn tick_millis(time_passed: u128) -> (millis: u32)
    ensures
        millis as int == elapsed_millis(time_passed),
{
    if time_passed > u32::MAX as u128 {
        u32::MAX
    } else {
        time_passed as u32
    }
}

/// The distance covered at `velocity` in one of `parts` equal parts of `millis`
/// milliseconds.
pub fn distance(velocity: i64, millis: u32, parts: u8) -> (delta: i128)
    requires
        parts > 0,
    ensures
        delta as int == travelled(velocity as int, millis as int, parts as int),
        -0x1_0000_0000_0000_0000_0000_0000 < delta < 0x1_0000_0000_0000_0000_0000_0000,
{
    let magnitude: u128 = if velocity < 0 {
        (-(velocity as i128)) as u128
    } else {
        velocity as u128
    };
    let divisor: u128 = 1000 * (parts as u128);
    assert(magnitude * (millis as u128) <= 0x8000_0000_0000_0000 * 0xffff_ffff) by (nonlinear_arith)
        requires
            magnitude <= 0x8000_0000_0000_0000,
            millis <= 0xffff_ffff,
    ;
    let product: u128 = magnitude * (millis as u128);
    let quotient: u128 = product / divisor;
    assert(quotient <= product) by (nonlinear_arith)
        requires
            quotient == product / divisor,
            divisor >= 1,
    ;
    if velocity < 0 {
        -(quotient as i128)
    } else {
        quotient as i128
    }
}

/// Moves a coordinate by `delta`, stopping at the ends of the range.
pub fn offset(base: i64, delta: i128) -> (r: i64)
    requires
        -0x1_0000_0000_0000_0000_0000_0000 < delta < 0x1_0000_0000_0000_0000_0000_0000,
    ensures
        r as int == moved(base as int, delta as int),
{
    let sum: i128 = base as i128 + delta;
    if sum < i64::MIN as i128 {
        i64::MIN
    } else if sum > i64::MAX as i128 {
        i64::MAX
    } else {
        sum as i64
    }
}

} // verus!
