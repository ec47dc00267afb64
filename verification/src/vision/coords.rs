//! Conversions between client-area and screen coordinates, and rectangles.
use vstd::prelude::*;
use crate::vision::matcher::Rect;

verus! {

/// Client-area point to screen point.
pub fn client_to_screen(window_screen_x: i32, window_screen_y: i32, client_x: i32, client_y: i32) -> (r: (i32, i32))
    requires
        i32::MIN <= window_screen_x + client_x <= i32::MAX,
        i32::MIN <= window_screen_y + client_y <= i32::MAX,
    ensures
        r.0 == window_screen_x + client_x,
        r.1 == window_screen_y + client_y,
{
    (window_screen_x + client_x, window_screen_y + client_y)
}

/// The rectangle covering the whole client area.
pub fn full_rect(client_w: u32, client_h: u32) -> (r: Rect)
    ensures
        r == (Rect { x: 0, y: 0, w: client_w, h: client_h }),
{
    Rect { x: 0, y: 0, w: client_w, h: client_h }
}

/// The rectangle, in pixels, that `roi_to_rect` yields once it has scaled and
/// rounded the ratios: at least one pixel wide and high, its origin moved
/// inside the client area and its size cut at the client edge. An empty
/// client area gives the empty rectangle.
pub open spec fn clamp_pixel_rect(x: u32, y: u32, w: u32, h: u32, client_w: u32, client_h: u32) -> Rect {
    if client_w == 0 || client_h == 0 {
        Rect { x: 0, y: 0, w: 0, h: 0 }
    } else {
        let w1 = if w >= 1 { w } else { 1 };
        let h1 = if h >= 1 { h } else { 1 };
        let x1 = if x <= client_w - 1 { x } else { (client_w - 1) as u32 };
        let y1 = if y <= client_h - 1 { y } else { (client_h - 1) as u32 };
        let w2 = if w1 <= client_w - x1 { w1 } else { (client_w - x1) as u32 };
        let h2 = if h1 <= client_h - y1 { h1 } else { (client_h - y1) as u32 };
        Rect { x: x1, y: y1, w: w2, h: h2 }
    }
}

/// Integer part of the ROI conversion: clamps a scaled and rounded
/// rectangle into the client area (see `clamp_pixel_rect`).
pub fn clamp_to_client(x: u32, y: u32, w: u32, h: u32, client_w: u32, client_h: u32) -> (r: Rect)
    ensures
        r == clamp_pixel_rect(x, y, w, h, client_w, client_h),
        client_w > 0 && client_h > 0 ==> r.w >= 1 && r.h >= 1 && r.x + r.w <= client_w && r.y + r.h <= client_h,
{
    if client_w == 0 || client_h == 0 {
        return Rect { x: 0, y: 0, w: 0, h: 0 };
    }
    let w = if w >= 1 { w } else { 1 };
    let h = if h >= 1 { h } else { 1 };
    let x = if x <= client_w - 1 { x } else { client_w - 1 };
    let y = if y <= client_h - 1 { y } else { client_h - 1 };
    let w = if w <= client_w - x { w } else { client_w - x };
    let h = if h <= client_h - y { h } else { client_h - y };
    Rect { x, y, w, h }
}

} // verus!
