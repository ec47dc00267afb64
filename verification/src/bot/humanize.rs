//! Randomized click position and timing.
use vstd::prelude::*;
use rand::Rng;

verus! {

/// Calls `rand::Rng::gen_range(low..=high)` on `rand::thread_rng()` for
/// `i32`. Trusted: the value lies in `[low, high]` (the function panics on
/// an empty range, which `requires` rules out). Which value comes is chance.
#[verifier::external_body]
fn uniform_i32(low: i32, high: i32) -> (r: i32)
    requires
        low <= high,
    ensures
        low <= r <= high,
{
    rand::thread_rng().gen_range(low..=high)
}

/// Calls `rand::Rng::gen_range(low..=high)` on `rand::thread_rng()` for
/// `u64`. Trusted: the value lies in `[low, high]`. Which value comes is
/// chance.
#[verifier::external_body]
fn uniform_u64(low: u64, high: u64) -> (r: u64)
    requires
        low <= high,
    ensures
        low <= r <= high,
{
    rand::thread_rng().gen_range(low..=high)
}

/// The jitter radius actually used: `radius` saturated at `i32::MAX`.
pub open spec fn effective_radius(radius: u32) -> int {
    if radius <= i32::MAX {
        radius as int
    } else {
        i32::MAX as int
    }
}

/// Moves the click point by a uniform random offset in `[-r, r]` on each
/// axis, where `r` is `radius` saturated at `i32::MAX`; radius 0 keeps the
/// point. The caller keeps the jittered point inside `i32`.
pub fn jitter_click_point(center: (i32, i32), radius: u32) -> (r: (i32, i32))
    requires
        radius > 0 ==> {
            &&& i32::MIN <= center.0 - effective_radius(radius)
            &&& center.0 + effective_radius(radius) <= i32::MAX
            &&& i32::MIN <= center.1 - effective_radius(radius)
            &&& center.1 + effective_radius(radius) <= i32::MAX
        },
    ensures
        radius == 0 ==> r == center,
        center.0 - effective_radius(radius) <= r.0 <= center.0 + effective_radius(radius),
        center.1 - effective_radius(radius) <= r.1 <= center.1 + effective_radius(radius),
{
    if radius == 0 {
        return center;
    }
    let r: i32 = if radius <= 0x7FFF_FFFF { radius as i32 } else { 0x7FFF_FFFF };
    let dx = uniform_i32(-r, r);
    let dy = uniform_i32(-r, r);
    (center.0 + dx, center.1 + dy)
}

/// A press duration in `[min_ms, max_ms]`, or `min_ms` when the range is
/// empty or a single value.
pub fn random_press_duration_ms(min_ms: u64, max_ms: u64) -> (r: u64)
    ensures
        max_ms <= min_ms ==> r == min_ms,
        min_ms < max_ms ==> min_ms <= r <= max_ms,
{
    if max_ms <= min_ms {
        return min_ms;
    }
    uniform_u64(min_ms, max_ms)
}

/// A random delay in milliseconds, drawn like `random_press_duration_ms`.
pub fn random_delay(min_ms: u64, max_ms: u64) -> (r: u64)
    ensures
        max_ms <= min_ms ==> r == min_ms,
        min_ms < max_ms ==> min_ms <= r <= max_ms,
{
    random_press_duration_ms(min_ms, max_ms)
}

} // verus!
