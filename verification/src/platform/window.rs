//! Geometry of the game window's client area.
use vstd::prelude::*;

verus! {

/// The client area: its top-left corner on the screen and its size.
#[derive(Debug, Clone, Copy, PartialEq, Eq, Structural)]
pub struct WindowRect {
    pub screen_x: i32,
    pub screen_y: i32,
    pub width: u32,
    pub height: u32,
}

/// Extent of a Win32 `RECT` side pair: `far - near`, 0 when negative.
pub fn rect_extent(near: i32, far: i32) -> (r: u32)
    requires
        i32::MIN <= far - near <= i32::MAX,
    ensures
        r == (if far - near > 0 { far - near } else { 0 }),
{
    let d = far - near;
    if d > 0 {
        d as u32
    } else {
        0
    }
}

/// Builds the client rectangle from the client `RECT` and the screen
/// position of the client origin.
pub fn client_window_rect(origin_x: i32, origin_y: i32, left: i32, top: i32, right: i32, bottom: i32) -> (r: WindowRect)
    requires
        i32::MIN <= right - left <= i32::MAX,
        i32::MIN <= bottom - top <= i32::MAX,
    ensures
        r.screen_x == origin_x,
        r.screen_y == origin_y,
        r.width == (if right - left > 0 { right - left } else { 0 }),
        r.height == (if bottom - top > 0 { bottom - top } else { 0 }),
{
    WindowRect { screen_x: origin_x, screen_y: origin_y, width: rect_extent(left, right), height: rect_extent(top, bottom) }
}

/// A window title matches when it contains the pattern.
pub open spec fn title_contains(title: Seq<char>, pattern: Seq<char>) -> bool {
    exists|i: int| 0 <= i && i + pattern.len() <= title.len() && #[trigger] title.subrange(i, i + pattern.len()) == pattern
}

/// Whether `title` contains `pattern` (the window lookup's test).
pub fn title_matches(title: &str, pattern: &str) -> (r: bool)
    ensures
        r == title_contains(title@, pattern@),
{
    let n = title.unicode_len();
    let m = pattern.unicode_len();
    if m > n {
        assert forall|i: int| 0 <= i && i + pattern@.len() <= title@.len() implies
            #[trigger] title@.subrange(i, i + pattern@.len()) != pattern@ by {}
        return false;
    }
    let mut i: usize = 0;
    while i <= n - m
        invariant
            n == title@.len(),
            m == pattern@.len(),
            m <= n,
            i <= n - m + 1,
            forall|k: int| 0 <= k < i ==> #[trigger] title@.subrange(k, k + m) != pattern@,
        decreases n - m + 1 - i,
    {
        let mut j: usize = 0;
        let mut same = true;
        while j < m
            invariant
                n == title@.len(),
                m == pattern@.len(),
                i + m <= n,
                j <= m,
                same == (forall|k: int| 0 <= k < j ==> title@[i + k] == pattern@[k]),
            decreases m - j,
        {
            if title.get_char(i + j) != pattern.get_char(j) {
                same = false;
            }
            j = j + 1;
        }
        if same {
            assert(title@.subrange(i as int, i + m) =~= pattern@);
            return true;
        } else {
            assert(title@.subrange(i as int, i + m) != pattern@) by {
                let k = choose|k: int| 0 <= k < m && title@[i + k] != pattern@[k];
                assert(title@.subrange(i as int, i + m)[k] != pattern@[k]);
            }
        }
        i = i + 1;
    }
    assert forall|k: int| 0 <= k && k + pattern@.len() <= title@.len() implies
        #[trigger] title@.subrange(k, k + pattern@.len()) != pattern@ by {}
    false
}

} // verus!
