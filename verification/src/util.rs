//! Plain values exchanged with the platform.

use vstd::prelude::*;

verus! {

/// A rectangle in whole pixels, given by its four edges, as the window
/// manager reports and accepts it.
#[derive(Debug, Clone, Copy, PartialEq, Eq, Structural)]
pub struct Rect {
    pub left: i32,
    pub top: i32,
    pub right: i32,
    pub bottom: i32,
}

impl Rect {
    /// The distance from the left edge to the right edge.
    pub open spec fn width(self) -> int {
        self.right - self.left
    }

    /// The distance from the top edge to the bottom edge.
    pub open spec fn height(self) -> int {
        self.bottom - self.top
    }

    /// Width and height are values of `i32`.
    pub open spec fn has_size(self) -> bool {
        &&& i32::MIN <= self.width() <= i32::MAX
        &&& i32::MIN <= self.height() <= i32::MAX
    }

    /// Tells whether width and height are values of `i32`.
    pub fn check_size(&self) -> (sized: bool)
        ensures
            sized == self.has_size(),
    {
        let width: i64 = self.right as i64 - self.left as i64;
        let height: i64 = self.bottom as i64 - self.top as i64;
        width >= -0x8000_0000i64 && width <= 0x7fff_ffffi64 && height >= -0x8000_0000i64 && height
            <= 0x7fff_ffffi64
    }
}

/// Frame insets in the field layout that the compositor takes.
#[derive(Debug, Clone, Copy, PartialEq, Eq, Structural)]
pub struct PlatformMargins {
    pub cx_left_width: i32,
    pub cy_top_height: i32,
    pub cx_right_width: i32,
    pub cy_bottom_height: i32,
}

/// Style bits of a standard overlapped window: caption, system menu, sizing
/// border, minimize and maximize boxes.
pub const WS_OVERLAPPEDWINDOW: u32 = 0x00CF_0000;

/// Style bits of a title bar.
pub const WS_CAPTION: u32 = 0x00C0_0000;

/// The style bits for which the platform is asked how far a window's outer
/// rectangle extends beyond its client area.
pub open spec fn window_frame_style_spec(with_caption: bool) -> u32 {
    if with_caption {
        WS_OVERLAPPEDWINDOW
    } else {
        WS_OVERLAPPEDWINDOW & !WS_CAPTION
    }
}

/// Returns the style of a standard overlapped window, with or without the
/// caption bits. Without them only the sizing border and the boxes remain.
pub fn window_frame_style(with_caption: bool) -> (style: u32)
    ensures
        style == window_frame_style_spec(with_caption),
        with_caption ==> style == 0x00CF_0000u32,
        !with_caption ==> style == 0x000F_0000u32,
{
    assert(0x00CF_0000u32 & !0x00C0_0000u32 == 0x000F_0000u32) by (bit_vector);
    if with_caption {
        WS_OVERLAPPEDWINDOW
    } else {
        WS_OVERLAPPEDWINDOW & !WS_CAPTION
    }
}

/// Whether the compositor is running, from the two things its query
/// reports: the flag it filled in and whether the query itself succeeded.
pub fn is_dwm_enabled(flag: bool, query_succeeded: bool) -> (enabled: bool)
    ensures
        enabled == (flag && query_succeeded),
{
    flag && query_succeeded
}

} // verus!
