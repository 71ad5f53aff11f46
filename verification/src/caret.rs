//! Screen geometry fallbacks and popup placement.
//!
//! The popup placement rule is pure: center the box horizontally on the
//! cursor, prefer a position above the cursor with a fixed gap, fall back
//! below when there is no room above, and clamp both axes to the screen.

use vstd::prelude::*;

verus! {

/// Width reported when no display API is available.
pub const FALLBACK_SCREEN_WIDTH: i32 = 1920;

/// Height reported when no display API is available.
pub const FALLBACK_SCREEN_HEIGHT: i32 = 1080;

/// Vertical gap between the cursor and a popup placed above it.
pub const POPUP_GAP_ABOVE: i32 = 10;

/// Vertical gap between the cursor and a popup placed below it.
pub const POPUP_GAP_BELOW: i32 = 20;

/// Primary display size; the fixed fallback where no display API exists.
pub fn get_screen_size() -> (r: (i32, i32))
    ensures
        r.0 == FALLBACK_SCREEN_WIDTH,
        r.1 == FALLBACK_SCREEN_HEIGHT,
{
    (FALLBACK_SCREEN_WIDTH, FALLBACK_SCREEN_HEIGHT)
}

/// Whether the foreground window belongs to this process; without an OS
/// window API the answer is always false, so self-triggered focus changes
/// are never suspected.
pub fn is_our_process_foreground() -> (r: bool)
    ensures
        !r,
{
    false
}

/// Best-effort caret location; the final fallback is the origin.
pub fn get_caret_position() -> (r: (i32, i32))
    ensures
        r.0 == 0,
        r.1 == 0,
{
    (0, 0)
}

/// The whole caret fallback chain, over whatever the platform layer could
/// read: the foreground window's caret when one was found, else the
/// pointer position, else the origin. Never fails; it only degrades.
pub fn resolve_caret_position(caret: Option<(i32, i32)>, pointer: Option<(i32, i32)>) -> (r: (
    i32,
    i32,
))
    ensures
        r == (match caret {
            Some(c) => c,
            None => match pointer {
                Some(p) => p,
                None => (0i32, 0i32),
            },
        }),
{
    match caret {
        Some(c) => c,
        None => match pointer {
            Some(p) => p,
            None => (0, 0),
        },
    }
}

/// Horizontal placement: center on the cursor, then clamp to the screen,
/// with the right edge winning over the left when the box is wider than
/// the screen.
pub open spec fn spec_popup_x(cursor_x: int, popup_width: int, screen_width: int) -> int {
    let centered = cursor_x - popup_width / 2;
    let left_clamped = if centered < 0 {
        0int
    } else {
        centered
    };
    if left_clamped + popup_width > screen_width {
        screen_width - popup_width
    } else {
        left_clamped
    }
}

/// Vertical placement: prefer above the cursor with a fixed gap, fall back
/// below when the top would leave the screen, then clamp the bottom edge.
pub open spec fn spec_popup_y(cursor_y: int, popup_height: int, screen_height: int) -> int {
    let above = cursor_y - popup_height - POPUP_GAP_ABOVE;
    let flipped = if above < 0 {
        cursor_y + POPUP_GAP_BELOW
    } else {
        above
    };
    if flipped + popup_height > screen_height {
        screen_height - popup_height
    } else {
        flipped
    }
}

/// Place a popup of the given size near the cursor, on a screen of the
/// given size. Pure and deterministic given its inputs; the box never
/// extends past the right or bottom screen edge, and stays fully on
/// screen whenever it fits at all.
pub fn place_popup(
    cursor_x: i32,
    cursor_y: i32,
    popup_width: i32,
    popup_height: i32,
    screen_width: i32,
    screen_height: i32,
) -> (r: (i32, i32))
    requires
        0 <= popup_width <= 0x2000_0000,
        0 <= popup_height <= 0x2000_0000,
        -0x2000_0000 <= cursor_x <= 0x2000_0000,
        -0x2000_0000 <= cursor_y <= 0x2000_0000,
        0 <= screen_width <= 0x2000_0000,
        0 <= screen_height <= 0x2000_0000,
    ensures
        r.0 == spec_popup_x(cursor_x as int, popup_width as int, screen_width as int),
        r.1 == spec_popup_y(cursor_y as int, popup_height as int, screen_height as int),
        r.0 + popup_width <= screen_width,
        r.1 + popup_height <= screen_height,
        popup_width <= screen_width ==> r.0 >= 0,
        popup_height <= screen_height && cursor_y >= 0 ==> r.1 >= 0,
{
    let mut x: i32 = cursor_x - popup_width / 2;
    let mut y: i32 = cursor_y - popup_height - POPUP_GAP_ABOVE;

    if x < 0 {
        x = 0;
    }
    if x + popup_width > screen_width {
        x = screen_width - popup_width;
    }

    if y < 0 {
        y = cursor_y + POPUP_GAP_BELOW;
    }
    if y + popup_height > screen_height {
        y = screen_height - popup_height;
    }

    (x, y)
}

/// Place a popup of the given size near the cursor, on the fallback
/// screen: [`place_popup`] against what [`get_screen_size`] reports.
pub fn calculate_popup_position(
    cursor_x: i32,
    cursor_y: i32,
    popup_width: i32,
    popup_height: i32,
) -> (r: (i32, i32))
    requires
        0 <= popup_width <= 0x2000_0000,
        0 <= popup_height <= 0x2000_0000,
        -0x2000_0000 <= cursor_x <= 0x2000_0000,
        -0x2000_0000 <= cursor_y <= 0x2000_0000,
    ensures
        r.0 == spec_popup_x(cursor_x as int, popup_width as int, FALLBACK_SCREEN_WIDTH as int),
        r.1 == spec_popup_y(cursor_y as int, popup_height as int, FALLBACK_SCREEN_HEIGHT as int),
        r.0 + popup_width <= FALLBACK_SCREEN_WIDTH,
        r.1 + popup_height <= FALLBACK_SCREEN_HEIGHT,
        popup_width <= FALLBACK_SCREEN_WIDTH ==> r.0 >= 0,
        popup_height <= FALLBACK_SCREEN_HEIGHT && cursor_y >= 0 ==> r.1 >= 0,
{
    let (screen_width, screen_height) = get_screen_size();
    place_popup(cursor_x, cursor_y, popup_width, popup_height, screen_width, screen_height)
}

} // verus!
