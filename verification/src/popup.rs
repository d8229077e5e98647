//! Where the popup opens: beside the cursor, kept inside the monitor's work
//! area.
use vstd::prelude::*;

verus! {

pub const POPUP_CURSOR_OFFSET_X: i32 = 14;

pub const POPUP_CURSOR_OFFSET_Y: i32 = 18;

/// The part of a monitor that windows may use, in physical pixels.
#[derive(Debug, Clone, Copy, PartialEq, Eq, Structural)]
pub struct WorkArea {
    pub x: i32,
    pub y: i32,
    pub width: u32,
    pub height: u32,
}

/// The monitor's work area and the popup's outer size.
#[derive(Debug, Clone, Copy, PartialEq, Eq, Structural)]
pub struct PopupBounds {
    pub area: WorkArea,
    pub window_width: u32,
    pub window_height: u32,
}

/// `value` brought into `[low, high]`.
pub open spec fn clamped(value: int, low: int, high: int) -> int {
    if value < low {
        low
    } else if value > high {
        high
    } else {
        value
    }
}

/// The farthest a window of `size` may start along an axis of the work
/// area that starts at `start` and is `extent` long: where it ends flush
/// with the area, but never before the area's start.
pub open spec fn last_start(start: i32, extent: u32, size: u32) -> int {
    let end = start + (extent as i32) - (size as i32);
    if end > start {
        end
    } else {
        start as int
    }
}

/// The computations stay within `i32`.
pub open spec fn popup_in_range(cursor_x: i32, cursor_y: i32, bounds: Option<PopupBounds>) -> bool {
    &&& cursor_x + POPUP_CURSOR_OFFSET_X <= i32::MAX
    &&& cursor_y + POPUP_CURSOR_OFFSET_Y <= i32::MAX
    &&& bounds matches Some(b) ==> {
        &&& i32::MIN <= b.area.x + (b.area.width as i32) <= i32::MAX
        &&& i32::MIN <= b.area.x + (b.area.width as i32) - (b.window_width as i32) <= i32::MAX
        &&& i32::MIN <= b.area.y + (b.area.height as i32) <= i32::MAX
        &&& i32::MIN <= b.area.y + (b.area.height as i32) - (b.window_height as i32) <= i32::MAX
    }
}

/// Where the popup opens: offset from the cursor and, when the monitor's
/// work area and the window's size are known, moved inside the work area.
pub open spec fn popup_spot(cursor_x: i32, cursor_y: i32, bounds: Option<PopupBounds>) -> (int, int) {
    let x = cursor_x + POPUP_CURSOR_OFFSET_X;
    let y = cursor_y + POPUP_CURSOR_OFFSET_Y;
    match bounds {
        None => (x, y),
        Some(b) => (
            clamped(x, b.area.x as int, last_start(b.area.x, b.area.width, b.window_width)),
            clamped(y, b.area.y as int, last_start(b.area.y, b.area.height, b.window_height)),
        ),
    }
}

/// Whether the popup position for these inputs can be computed without
/// leaving `i32`.
pub fn popup_in_range_check(cursor_x: i32, cursor_y: i32, bounds: Option<PopupBounds>) -> (r: bool)
    ensures
        r == popup_in_range(cursor_x, cursor_y, bounds),
{
    let fits = |value: i64| -> (r: bool)
        ensures
            r == (i32::MIN <= value <= i32::MAX),
        { i32::MIN as i64 <= value && value <= i32::MAX as i64 };
    if !fits(cursor_x as i64 + POPUP_CURSOR_OFFSET_X as i64) || !fits(
        cursor_y as i64 + POPUP_CURSOR_OFFSET_Y as i64,
    ) {
        return false;
    }
    match bounds {
        None => true,
        Some(b) => {
            let right = b.area.x as i64 + (b.area.width as i32) as i64;
            let bottom = b.area.y as i64 + (b.area.height as i32) as i64;
            fits(right) && fits(right - (b.window_width as i32) as i64) && fits(bottom) && fits(
                bottom - (b.window_height as i32) as i64,
            )
        },
    }
}

/// Where the popup opens for a cursor at `(cursor_x, cursor_y)`.
pub fn popup_position(cursor_x: i32, cursor_y: i32, bounds: Option<PopupBounds>) -> (r: (i32, i32))
    requires
        popup_in_range(cursor_x, cursor_y, bounds),
    ensures
        (r.0 as int, r.1 as int) == popup_spot(cursor_x, cursor_y, bounds),
{
    let mut x = cursor_x + POPUP_CURSOR_OFFSET_X;
    let mut y = cursor_y + POPUP_CURSOR_OFFSET_Y;
    match bounds {
        None => {},
        Some(b) => {
            let end_x = b.area.x + (b.area.width as i32) - (b.window_width as i32);
            let max_x = if end_x > b.area.x {
                end_x
            } else {
                b.area.x
            };
            let end_y = b.area.y + (b.area.height as i32) - (b.window_height as i32);
            let max_y = if end_y > b.area.y {
                end_y
            } else {
                b.area.y
            };
            x = if x < b.area.x {
                b.area.x
            } else if x > max_x {
                max_x
            } else {
                x
            };
            y = if y < b.area.y {
                b.area.y
            } else if y > max_y {
                max_y
            } else {
                y
            };
        },
    }
    (x, y)
}

/// With its work area known, the popup never starts outside it, and a popup
/// that fits in the work area lies wholly inside it.
pub proof fn popup_stays_in_work_area(cursor_x: i32, cursor_y: i32, b: PopupBounds)
    requires
        popup_in_range(cursor_x, cursor_y, Some(b)),
        b.area.width <= i32::MAX,
        b.area.height <= i32::MAX,
        b.window_width <= b.area.width,
        b.window_height <= b.area.height,
    ensures
        ({
            let (x, y) = popup_spot(cursor_x, cursor_y, Some(b));
            &&& b.area.x <= x
            &&& x + b.window_width <= b.area.x + b.area.width
            &&& b.area.y <= y
            &&& y + b.window_height <= b.area.y + b.area.height
        }),
{
}

} // verus!
