//! Click delivery: the sender interface, the dry-run sender and the
//! absolute-coordinate conversion of mouse input.
use vstd::prelude::*;
use crate::error::BotError;

verus! {

/// Delivers a click at a screen position, holding the button for
/// `press_duration_ms`.
pub trait InputSender {
    fn click_at(&self, screen_x: i32, screen_y: i32, press_duration_ms: u64) -> Result<(), BotError>;
}

/// Sender that never clicks: the dry run.
#[derive(Debug, Clone, Copy)]
pub struct DryRunSender;

impl InputSender for DryRunSender {
    /// Suppresses the click and reports success.
    fn click_at(&self, screen_x: i32, screen_y: i32, press_duration_ms: u64) -> (r: Result<(), BotError>)
        ensures
            r == Ok::<(), BotError>(()),
    {
        Ok(())
    }
}

/// `x as i32` for an `i64`: the low 32 bits read as two's complement.
pub open spec fn wrap_to_i32(x: int) -> int {
    let m = x % 0x1_0000_0000;
    if m <= i32::MAX {
        m
    } else {
        m - 0x1_0000_0000
    }
}

/// One axis of the absolute mouse coordinate on the virtual desktop:
/// `(pos - origin) * 65535 / max(size - 1, 1)`, with `size` first raised to
/// at least 1, truncated towards zero and then to `i32` bits.
pub open spec fn normalized_axis(pos: i32, origin: i32, size: i32) -> int {
    let s = if size >= 1 { size as int } else { 1 };
    let d = if s - 1 >= 1 { s - 1 } else { 1 };
    let num = (pos - origin) * 65535;
    let q = if num >= 0 { num / d } else { -((-num) / d) };
    wrap_to_i32(q)
}

fn normalize_axis(pos: i32, origin: i32, size: i32) -> (r: i32)
    requires
        i32::MIN <= pos - origin <= i32::MAX,
    ensures
        r == normalized_axis(pos, origin, size),
{
    let s: i64 = if size >= 1 { size as i64 } else { 1 };
    let d: i64 = if s - 1 >= 1 { s - 1 } else { 1 };
    let num: i64 = ((pos - origin) as i64) * 65535;
    let q: i64 = num / d;
    proof {
        assert(q as int == if num >= 0 { (num as int) / (d as int) } else { -((-(num as int)) / (d as int)) });
    }
    let m: i64 = q % 0x1_0000_0000;
    let m: i64 = if m < 0 { m + 0x1_0000_0000 } else { m };
    proof {
        assert(m as int == (q as int) % 0x1_0000_0000);
    }
    if m <= 0x7FFF_FFFF {
        m as i32
    } else {
        (m - 0x1_0000_0000) as i32
    }
}

/// Converts a screen position to the 0..65535 absolute coordinates of the
/// virtual desktop whose origin is `(virtual_x, virtual_y)` and whose size
/// is `virtual_w` x `virtual_h`.
pub fn normalize_virtual_desk(
    screen_x: i32,
    screen_y: i32,
    virtual_x: i32,
    virtual_y: i32,
    virtual_w: i32,
    virtual_h: i32,
) -> (r: (i32, i32))
    requires
        i32::MIN <= screen_x - virtual_x <= i32::MAX,
        i32::MIN <= screen_y - virtual_y <= i32::MAX,
    ensures
        r.0 == normalized_axis(screen_x, virtual_x, virtual_w),
        r.1 == normalized_axis(screen_y, virtual_y, virtual_h),
{
    (normalize_axis(screen_x, virtual_x, virtual_w), normalize_axis(screen_y, virtual_y, virtual_h))
}

/// `SendInput` reports how many events it injected; anything short of all
/// of them is an input failure.
pub fn check_sent(sent: u32, expected: usize) -> (r: Result<(), BotError>)
    ensures
        r is Ok <==> sent as int == expected as int,
        r matches Err(e) ==> e is InputFailed,
{
    if sent as usize == expected {
        Ok(())
    } else {
        Err(BotError::InputFailed(String::from_str("SendInput did not inject every event")))
    }
}

} // verus!
