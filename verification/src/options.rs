//! Frame margins and the configuration of a customized window frame.

use crate::hit_test::{HitTestArea, Point, Size};
use crate::util::{PlatformMargins, Rect};
use vstd::prelude::*;

verus! {

/// Inset amounts, in pixels, from the four edges of a window.
///
/// The value with every field at -1 is the *sheet*: it tells the compositor
/// to extend the frame under the whole window. Negative fields count as zero
/// wherever margins bound a hit-test region (see [`Margins::zero_if_sheet`]),
/// and reach the compositor as they are (see [`Margins::to_win32`]).
#[derive(Debug, Clone, Copy, PartialEq, Eq, Structural)]
pub struct Margins {
    pub left: i32,
    pub top: i32,
    pub right: i32,
    pub bottom: i32,
}

/// The inset that marks the sheet when all four fields hold it.
pub const SHEET_INSET: i32 = -1;

/// The larger of `v` and zero.
pub open spec fn zero_if_negative(v: i32) -> i32 {
    if v < 0 {
        0
    } else {
        v
    }
}

impl Margins {
    /// The margins with all four fields zero.
    pub open spec fn zero() -> Margins {
        Margins { left: 0, top: 0, right: 0, bottom: 0 }
    }

    /// The sheet sentinel: all four fields -1.
    pub open spec fn sheet_spec() -> Margins {
        Margins { left: SHEET_INSET, top: SHEET_INSET, right: SHEET_INSET, bottom: SHEET_INSET }
    }

    /// Margins that reserve `height` pixels at the top and nothing elsewhere.
    pub open spec fn caption_spec(height: int) -> Margins
        recommends
            i32::MIN <= height <= i32::MAX,
    {
        Margins { left: 0, top: height as i32, right: 0, bottom: 0 }
    }

    /// The margins with every negative field replaced by zero.
    pub open spec fn zero_if_sheet_spec(self) -> Margins {
        Margins {
            left: zero_if_negative(self.left),
            top: zero_if_negative(self.top),
            right: zero_if_negative(self.right),
            bottom: zero_if_negative(self.bottom),
        }
    }

    /// The same four amounts in the compositor's field layout.
    pub open spec fn to_win32_spec(self) -> PlatformMargins {
        PlatformMargins {
            cx_left_width: self.left,
            cy_top_height: self.top,
            cx_right_width: self.right,
            cy_bottom_height: self.bottom,
        }
    }

    /// No field is negative.
    pub open spec fn is_non_negative(self) -> bool {
        self.left >= 0 && self.top >= 0 && self.right >= 0 && self.bottom >= 0
    }

    /// The sheet sentinel: the native frame is kept whole and nothing of it
    /// is custom.
    pub fn sheet() -> (margins: Self)
        ensures
            margins == Margins::sheet_spec(),
    {
        Self { left: SHEET_INSET, top: SHEET_INSET, right: SHEET_INSET, bottom: SHEET_INSET }
    }

    /// A caption of `caption_height` pixels at the top, nothing elsewhere.
    pub fn caption(caption_height: i32) -> (margins: Self)
        ensures
            margins == Margins::caption_spec(caption_height as int),
    {
        Self { left: 0, top: caption_height, right: 0, bottom: 0 }
    }

    /// A caption of the platform's standard height, which the caller has
    /// obtained with [`system_caption_height`].
    pub fn default_caption(system_caption_height: i32) -> (margins: Self)
        ensures
            margins == Margins::caption_spec(system_caption_height as int),
    {
        Self { left: 0, top: system_caption_height, right: 0, bottom: 0 }
    }

    /// A caption that is `caption_height` pixels higher than the platform's
    /// standard caption.
    pub fn extended_caption(caption_height: i32, system_caption_height: i32) -> (margins: Self)
        requires
            i32::MIN <= caption_height + system_caption_height <= i32::MAX,
        ensures
            margins == Margins::caption_spec(caption_height + system_caption_height),
    {
        Self { left: 0, top: caption_height + system_caption_height, right: 0, bottom: 0 }
    }

    /// The margins as the compositor takes them: every field unchanged, the
    /// negative ones too.
    pub fn to_win32(&self) -> (inset: PlatformMargins)
        ensures
            inset == self.to_win32_spec(),
    {
        PlatformMargins {
            cx_left_width: self.left,
            cy_top_height: self.top,
            cx_right_width: self.right,
            cy_bottom_height: self.bottom,
        }
    }

    /// The margins as hit testing uses them: every negative field becomes
    /// zero, the others stay.
    pub fn zero_if_sheet(&self) -> (margins: Self)
        ensures
            margins == self.zero_if_sheet_spec(),
            margins.is_non_negative(),
    {
        Self {
            left: if self.left < 0 { 0 } else { self.left },
            top: if self.top < 0 { 0 } else { self.top },
            right: if self.right < 0 { 0 } else { self.right },
            bottom: if self.bottom < 0 { 0 } else { self.bottom },
        }
    }
}

impl Default for Margins {
    fn default() -> (margins: Self)
        ensures
            margins == Margins::zero(),
    {
        Self { left: 0, top: 0, right: 0, bottom: 0 }
    }
}

/// The sheet sentinel counts as no inset at all in hit testing, and reaches
/// the compositor with all four fields still -1.
pub proof fn lemma_sheet_sentinel()
    ensures
        Margins::sheet_spec().zero_if_sheet_spec() == Margins::zero(),
        SHEET_INSET == -1,
        Margins::sheet_spec().to_win32_spec() == (PlatformMargins {
            cx_left_width: SHEET_INSET,
            cy_top_height: SHEET_INSET,
            cx_right_width: SHEET_INSET,
            cy_bottom_height: SHEET_INSET,
        }),
{
}

/// Normalizing margins a second time changes nothing.
pub proof fn lemma_zero_if_sheet_idempotent(margins: Margins)
    ensures
        margins.zero_if_sheet_spec().zero_if_sheet_spec() == margins.zero_if_sheet_spec(),
        margins.is_non_negative() ==> margins.zero_if_sheet_spec() == margins,
{
}

/// The height of the platform's standard caption: how much further the
/// outer rectangle of a standard window reaches above its client area with
/// a caption than without one.
pub open spec fn system_caption_height_spec(caption_frame_rect: Rect, frame_rect: Rect) -> int {
    -(caption_frame_rect.top - frame_rect.top)
}

/// Computes the height of the platform's standard caption from the two
/// adjustments that the platform reports for a standard window, with a
/// caption (`caption_frame_rect`) and without one (`frame_rect`). Where the
/// platform's answers are missing both are all zero, and so is the height.
pub fn system_caption_height(caption_frame_rect: &Rect, frame_rect: &Rect) -> (height: i32)
    requires
        i32::MIN <= system_caption_height_spec(*caption_frame_rect, *frame_rect) <= i32::MAX,
    ensures
        height == system_caption_height_spec(*caption_frame_rect, *frame_rect),
{
    frame_rect.top - caption_frame_rect.top
}

/// A rule of the embedding program that may decide a hit test before the
/// frame's own rules do. It is given the pointer position relative to the
/// client area and the size of the client area, and answers with an area or
/// declines with `None`. It runs while the window manager waits for a reply:
/// it should neither block nor fail.
///
/// An implementation owes that its answer is a function of the rule itself,
/// the position and the size, and of nothing else: `answer` is that
/// function, and `intercept` returns its value. No type of this crate
/// implements the trait, so what the hit test states of a frame with a rule
/// holds of the rules that keep to this, and is not proved of any.
pub trait HitTestIntercept {
    /// What the rule answers when it is asked about `position` in a client
    /// area of the size `size`.
    spec fn answer(&self, position: Point, size: Size) -> Option<HitTestArea>;

    /// Asks the rule.
    fn intercept(&self, position: &Point, size: &Size) -> (area: Option<HitTestArea>)
        ensures
            area == self.answer(*position, *size),
    ;
}

/// How a window's frame is customized.
pub struct WindowFrame {
    /// How far the compositor's frame reaches into the client area.
    pub extend_frame: Margins,
    /// How far the client area reaches into the native frame.
    pub extend_client_area: Margins,
    /// Let the compositor answer hits on the caption buttons first.
    pub hit_test_caption_buttons: bool,
    /// Treat the top of the extended frame as caption.
    pub hit_test_extended_caption: bool,
    /// Treat the edges of the extended frame as resize borders.
    pub hit_test_extended_resize_borders: bool,
    /// Consulted for positions in the client area.
    pub intercept_client_area_hit_test: Option<Box<dyn HitTestIntercept>>,
    /// Consulted for positions on the top resize border.
    pub intercept_top_resize_border_hit_test: Option<Box<dyn HitTestIntercept>>,
}

impl WindowFrame {
    /// The frame is one of the named presets with the given two margins:
    /// caption buttons and extended caption are hit tested, extended resize
    /// borders are not, and nothing intercepts.
    pub open spec fn is_preset(self, extend_frame: Margins, extend_client_area: Margins) -> bool {
        &&& self.extend_frame == extend_frame
        &&& self.extend_client_area == extend_client_area
        &&& self.hit_test_caption_buttons
        &&& self.hit_test_extended_caption
        &&& !self.hit_test_extended_resize_borders
        &&& self.intercept_client_area_hit_test is None
        &&& self.intercept_top_resize_border_hit_test is None
    }

    /// The native caption stays, and the frame extends below it by the
    /// standard caption height and `extra_height` more.
    pub fn extended_caption(extra_height: i32, system_caption_height: i32) -> (frame: Self)
        requires
            i32::MIN <= extra_height + system_caption_height <= i32::MAX,
        ensures
            frame.is_preset(
                Margins::caption_spec(extra_height + system_caption_height),
                Margins::zero(),
            ),
    {
        Self {
            extend_frame: Margins::extended_caption(extra_height, system_caption_height),
            extend_client_area: Margins::default(),
            hit_test_caption_buttons: true,
            hit_test_extended_caption: true,
            hit_test_extended_resize_borders: false,
            intercept_client_area_hit_test: None,
            intercept_top_resize_border_hit_test: None,
        }
    }

    /// The native caption stays, and the frame extends under the whole
    /// window.
    pub fn sheet() -> (frame: Self)
        ensures
            frame.is_preset(Margins::sheet_spec(), Margins::zero()),
    {
        Self {
            extend_frame: Margins::sheet(),
            extend_client_area: Margins::default(),
            hit_test_caption_buttons: true,
            hit_test_extended_caption: true,
            hit_test_extended_resize_borders: false,
            intercept_client_area_hit_test: None,
            intercept_top_resize_border_hit_test: None,
        }
    }

    /// The client area takes the place of the native caption, and the frame
    /// extends into it by the standard caption height.
    pub fn custom_caption(system_caption_height: i32) -> (frame: Self)
        ensures
            frame.is_preset(
                Margins::caption_spec(system_caption_height as int),
                Margins::caption_spec(system_caption_height as int),
            ),
    {
        Self {
            extend_frame: Margins::default_caption(system_caption_height),
            extend_client_area: Margins::default_caption(system_caption_height),
            hit_test_caption_buttons: true,
            hit_test_extended_caption: true,
            hit_test_extended_resize_borders: false,
            intercept_client_area_hit_test: None,
            intercept_top_resize_border_hit_test: None,
        }
    }

    /// The client area takes the place of the native caption, and the frame
    /// extends into it by the standard caption height and `extra_height`
    /// more.
    pub fn extended_custom_caption(extra_height: i32, system_caption_height: i32) -> (frame: Self)
        requires
            i32::MIN <= extra_height + system_caption_height <= i32::MAX,
        ensures
            frame.is_preset(
                Margins::caption_spec(extra_height + system_caption_height),
                Margins::caption_spec(system_caption_height as int),
            ),
    {
        Self {
            extend_frame: Margins::extended_caption(extra_height, system_caption_height),
            extend_client_area: Margins::default_caption(system_caption_height),
            hit_test_caption_buttons: true,
            hit_test_extended_caption: true,
            hit_test_extended_resize_borders: false,
            intercept_client_area_hit_test: None,
            intercept_top_resize_border_hit_test: None,
        }
    }

    /// The client area takes the place of the native caption, and the frame
    /// extends under the whole window.
    pub fn custom_sheet(system_caption_height: i32) -> (frame: Self)
        ensures
            frame.is_preset(
                Margins::sheet_spec(),
                Margins::caption_spec(system_caption_height as int),
            ),
    {
        Self {
            extend_frame: Margins::sheet(),
            extend_client_area: Margins::default_caption(system_caption_height),
            hit_test_caption_buttons: true,
            hit_test_extended_caption: true,
            hit_test_extended_resize_borders: false,
            intercept_client_area_hit_test: None,
            intercept_top_resize_border_hit_test: None,
        }
    }

    /// The client area takes the place of the native caption, and the frame
    /// extends into it by `caption_height`.
    pub fn custom_caption_height(caption_height: i32, system_caption_height: i32) -> (frame: Self)
        ensures
            frame.is_preset(
                Margins::caption_spec(caption_height as int),
                Margins::caption_spec(system_caption_height as int),
            ),
    {
        Self {
            extend_frame: Margins::caption(caption_height),
            extend_client_area: Margins::default_caption(system_caption_height),
            hit_test_caption_buttons: true,
            hit_test_extended_caption: true,
            hit_test_extended_resize_borders: false,
            intercept_client_area_hit_test: None,
            intercept_top_resize_border_hit_test: None,
        }
    }

    /// The client area takes the place of the native caption, and the frame
    /// does not extend into it at all.
    pub fn remove_caption(system_caption_height: i32) -> (frame: Self)
        ensures
            frame.is_preset(Margins::zero(), Margins::caption_spec(system_caption_height as int)),
    {
        Self {
            extend_frame: Margins::default(),
            extend_client_area: Margins::default_caption(system_caption_height),
            hit_test_caption_buttons: true,
            hit_test_extended_caption: true,
            hit_test_extended_resize_borders: false,
            intercept_client_area_hit_test: None,
            intercept_top_resize_border_hit_test: None,
        }
    }
}

impl Default for WindowFrame {
    /// No margins, no flags, no interception.
    fn default() -> (frame: Self)
        ensures
            frame.extend_frame == Margins::zero(),
            frame.extend_client_area == Margins::zero(),
            !frame.hit_test_caption_buttons,
            !frame.hit_test_extended_caption,
            !frame.hit_test_extended_resize_borders,
            frame.intercept_client_area_hit_test is None,
            frame.intercept_top_resize_border_hit_test is None,
    {
        Self {
            extend_frame: Margins::default(),
            extend_client_area: Margins::default(),
            hit_test_caption_buttons: false,
            hit_test_extended_caption: false,
            hit_test_extended_resize_borders: false,
            intercept_client_area_hit_test: None,
            intercept_top_resize_border_hit_test: None,
        }
    }
}

} // verus!
