//! Active-display selection.
//!
//! A window rectangle is given by position and size, a display by position
//! and size on the same virtual desktop. The focused window's center point
//! decides which display to capture: a display contains the window if the
//! center falls within the display's bounds under a half-open interval test
//! (inclusive of the left/top edge, exclusive of the right/bottom edge).
//! The first matching display wins; with no match the caller falls back to
//! the primary display — the one whose bounds contain the point (0,0).

use vstd::prelude::*;

verus! {

/// The window's center lies within the display bounds, left/top edge
/// inclusive and right/bottom edge exclusive. Coordinates are exact
/// (mathematical) integers; the center is position plus half the size,
/// rounded down.
pub open spec fn spec_window_overlaps_screen(
    wx: int,
    wy: int,
    ww: int,
    wh: int,
    sx: int,
    sy: int,
    sw: int,
    sh: int,
) -> bool {
    let cx = wx + ww / 2;
    let cy = wy + wh / 2;
    sx <= cx < sx + sw && sy <= cy < sy + sh
}

/// The overlap test for the display at index `j` of a display list.
pub open spec fn overlaps_at(window: (i32, i32, i32, i32), screens: Seq<(i32, i32, u32, u32)>, j: int) -> bool {
    spec_window_overlaps_screen(
        window.0 as int,
        window.1 as int,
        window.2 as int,
        window.3 as int,
        screens[j].0 as int,
        screens[j].1 as int,
        screens[j].2 as int,
        screens[j].3 as int,
    )
}

/// Whether the window's center point falls within the display's bounds.
///
/// `window` is `(x, y, width, height)` of the focused window; `screen` is
/// `(x, y, width, height)` of a display.
pub fn window_overlaps_screen(window: (i32, i32, i32, i32), screen: (i32, i32, u32, u32)) -> (r:
    bool)
    requires
        window.2 >= 0,
        window.3 >= 0,
    ensures
        r == spec_window_overlaps_screen(
            window.0 as int,
            window.1 as int,
            window.2 as int,
            window.3 as int,
            screen.0 as int,
            screen.1 as int,
            screen.2 as int,
            screen.3 as int,
        ),
{
    let (wx, wy, ww, wh) = window;
    let (sx, sy, sw, sh) = screen;
    let cx: i64 = wx as i64 + (ww as i64) / 2;
    let cy: i64 = wy as i64 + (wh as i64) / 2;
    sx as i64 <= cx && cx < sx as i64 + sw as i64 && sy as i64 <= cy && cy < sy as i64 + sh as i64
}

/// Picks the first display whose bounds contain the focused window's
/// center; `None` if no display matches.
pub fn select_screen(window: (i32, i32, i32, i32), screens: &Vec<(i32, i32, u32, u32)>) -> (r:
    Option<usize>)
    requires
        window.2 >= 0,
        window.3 >= 0,
    ensures
        match r {
            Some(i) => i < screens@.len() && overlaps_at(window, screens@, i as int) && forall|j: int|
                0 <= j < i ==> !overlaps_at(window, screens@, j),
            None => forall|j: int| 0 <= j < screens@.len() ==> !overlaps_at(window, screens@, j),
        },
{
    let n = screens.len();
    for i in 0..n
        invariant
            n == screens@.len(),
            window.2 >= 0,
            window.3 >= 0,
            forall|j: int| 0 <= j < i ==> !overlaps_at(window, screens@, j),
    {
        if window_overlaps_screen(window, screens[i]) {
            return Some(i);
        }
    }
    None
}

/// The display's bounds contain the point (0,0), under the same half-open
/// interval test.
pub open spec fn spec_screen_contains_origin(screen: (i32, i32, u32, u32)) -> bool {
    screen.0 as int <= 0 < screen.0 as int + screen.2 as int && screen.1 as int <= 0
        < screen.1 as int + screen.3 as int
}

/// Picks the first display whose bounds contain the point (0,0) — the
/// primary display, the fallback when no display contains the focused
/// window's center.
pub fn select_primary_screen(screens: &Vec<(i32, i32, u32, u32)>) -> (r: Option<usize>)
    ensures
        match r {
            Some(i) => i < screens@.len() && spec_screen_contains_origin(screens@[i as int])
                && forall|j: int| 0 <= j < i ==> !spec_screen_contains_origin(#[trigger] screens@[j]),
            None => forall|j: int|
                0 <= j < screens@.len() ==> !spec_screen_contains_origin(#[trigger] screens@[j]),
        },
{
    let n = screens.len();
    for i in 0..n
        invariant
            n == screens@.len(),
            forall|j: int| 0 <= j < i ==> !spec_screen_contains_origin(#[trigger] screens@[j]),
    {
        let (sx, sy, sw, sh) = screens[i];
        let contains = sx <= 0 && 0 < sx as i64 + sw as i64 && sy <= 0 && 0 < sy as i64 + sh as i64;
        if contains {
            return Some(i);
        }
    }
    None
}

} // verus!
