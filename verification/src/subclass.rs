//! How a window's messages are answered while its frame is customized.
//!
//! For every message the embedding program asks [`subclass_plan`] what is
//! to be done, does it, and asks [`subclass_reply`] what to answer.

use crate::hit_test::{
    can_extent_hit_test, fits_i32, intercept_hit_test, l_param_point, non_client_hit_test,
    non_client_hit_test_spec, resolve_hit_test, transform_admits, transform_hit_test_spec,
    HitTestArea, Point, WindowMetrics,
};
use crate::options::{Margins, WindowFrame};
use crate::util::{PlatformMargins, Rect};
use vstd::prelude::*;

verus! {

/// The message that tells a window that it was activated or deactivated.
pub const WM_ACTIVATE: u32 = 6;

/// The message that asks a window for the size of its client area.
pub const WM_NCCALCSIZE: u32 = 131;

/// The message that asks a window which part of it lies under the pointer.
pub const WM_NCHITTEST: u32 = 132;

/// The first parameter of the size message when it carries a proposed
/// client rectangle that the window may change.
pub const KEEP_CLIENT_AREA: usize = 1;

/// What a message calls for before it can be answered.
#[derive(Debug, Clone, Copy, PartialEq, Eq, Structural)]
pub struct SubclassPlan {
    /// Hand the message to the compositor's default procedure first.
    pub forward_to_compositor: bool,
    /// Extend the frame into the client area again, by these insets.
    pub extend_frame: Option<PlatformMargins>,
    /// Replace the proposed client rectangle by [`adjust_client_rect`] of
    /// it.
    pub adjust_client_area: bool,
    /// Run [`hit_test`] where [`hit_test_is_due`] says so.
    pub hit_test: bool,
}

/// The answer to a message.
#[derive(Debug, Clone, Copy, PartialEq, Eq, Structural)]
pub enum Reply {
    /// The message is answered with this result.
    Result(isize),
    /// The message falls through to default handling.
    Default,
}

/// The plan that calls for nothing.
pub open spec fn idle_plan() -> SubclassPlan {
    SubclassPlan {
        forward_to_compositor: false,
        extend_frame: None,
        adjust_client_area: false,
        hit_test: false,
    }
}

/// What a message calls for. Nothing while composition is disabled.
/// Otherwise the compositor's default procedure goes first where the frame
/// asks for it, activation extends the frame again, the size message with a
/// proposed client rectangle has that rectangle adjusted, and the hit-test
/// message has the hit test run.
pub open spec fn subclass_plan_spec(
    composition_enabled: bool,
    msg: u32,
    w_param: usize,
    options: WindowFrame,
) -> SubclassPlan {
    if composition_enabled {
        SubclassPlan {
            forward_to_compositor: options.hit_test_caption_buttons,
            extend_frame: if msg == WM_ACTIVATE {
                Some(options.extend_frame.to_win32_spec())
            } else {
                None
            },
            adjust_client_area: msg == WM_NCCALCSIZE && w_param == KEEP_CLIENT_AREA,
            hit_test: msg == WM_NCHITTEST,
        }
    } else {
        idle_plan()
    }
}

/// Decides what the message `msg` with the first parameter `w_param` calls
/// for.
pub fn subclass_plan(
    composition_enabled: bool,
    msg: u32,
    w_param: usize,
    options: &WindowFrame,
) -> (plan: SubclassPlan)
    ensures
        plan == subclass_plan_spec(composition_enabled, msg, w_param, *options),
{
    if composition_enabled {
        SubclassPlan {
            forward_to_compositor: options.hit_test_caption_buttons,
            extend_frame: if msg == WM_ACTIVATE {
                Some(options.extend_frame.to_win32())
            } else {
                None
            },
            adjust_client_area: msg == WM_NCCALCSIZE && w_param == KEEP_CLIENT_AREA,
            hit_test: msg == WM_NCHITTEST,
        }
    } else {
        SubclassPlan {
            forward_to_compositor: false,
            extend_frame: None,
            adjust_client_area: false,
            hit_test: false,
        }
    }
}

/// The proposed client rectangle grown by the margins with which the client
/// area reaches into the frame: left and top edge move out by subtraction,
/// right and bottom edge by addition.
pub open spec fn adjust_client_rect_spec(rect: Rect, extend_client_area: Margins) -> Rect
    recommends
        client_rect_adjusts(rect, extend_client_area),
{
    Rect {
        left: (rect.left - extend_client_area.left) as i32,
        top: (rect.top - extend_client_area.top) as i32,
        right: (rect.right + extend_client_area.right) as i32,
        bottom: (rect.bottom + extend_client_area.bottom) as i32,
    }
}

/// The four edges of the adjusted rectangle are values of `i32`.
pub open spec fn client_rect_adjusts(rect: Rect, extend_client_area: Margins) -> bool {
    &&& fits_i32(rect.left - extend_client_area.left)
    &&& fits_i32(rect.top - extend_client_area.top)
    &&& fits_i32(rect.right + extend_client_area.right)
    &&& fits_i32(rect.bottom + extend_client_area.bottom)
}

/// Adjusts the client rectangle that the window manager proposes, or
/// returns `None` where an edge would leave the range of `i32`.
pub fn adjust_client_rect(rect: Rect, options: &WindowFrame) -> (adjusted: Option<Rect>)
    ensures
        client_rect_adjusts(rect, options.extend_client_area) ==> adjusted == Some(
            adjust_client_rect_spec(rect, options.extend_client_area),
        ),
        !client_rect_adjusts(rect, options.extend_client_area) ==> adjusted is None,
{
    let margins = &options.extend_client_area;
    let left = rect.left.checked_sub(margins.left);
    let top = rect.top.checked_sub(margins.top);
    let right = rect.right.checked_add(margins.right);
    let bottom = rect.bottom.checked_add(margins.bottom);
    match (left, top, right, bottom) {
        (Some(left), Some(top), Some(right), Some(bottom)) => Some(
            Rect { left, top, right, bottom },
        ),
        _ => None,
    }
}

/// The hit test can be run for `point`: the first stage can be asked about
/// it, and the final area can be decided for the first stage's outcome.
pub open spec fn hit_test_admits(point: Point, metrics: WindowMetrics, options: WindowFrame) -> bool {
    &&& metrics.admits(point, options.extend_client_area)
    &&& transform_admits(
        non_client_hit_test_spec(point, metrics, options.extend_client_area),
        options,
    )
}

/// The area that the hit test finds for `point`: the first stage's outcome,
/// joined with the frame's own rules.
pub open spec fn hit_test_spec(point: Point, metrics: WindowMetrics, options: WindowFrame) -> HitTestArea {
    transform_hit_test_spec(
        non_client_hit_test_spec(point, metrics, options.extend_client_area),
        options,
    )
}

/// Runs the whole hit test for the pointer message whose second parameter
/// is `l_param`: reads the position, classifies it by the window's
/// geometry, asks the frame's rule for the area, and decides from its
/// answer.
///
/// The result is `None` exactly where a coordinate relative to the client
/// area would leave the range of `i32`.
pub fn hit_test(
    l_param: isize,
    metrics: &WindowMetrics,
    options: &WindowFrame,
) -> (area: Option<HitTestArea>)
    ensures
        hit_test_admits(l_param_point(l_param), *metrics, *options) ==> area == Some(
            hit_test_spec(l_param_point(l_param), *metrics, *options),
        ),
        !hit_test_admits(l_param_point(l_param), *metrics, *options) ==> area is None,
{
    let point = Point::from_l_param(l_param);
    if !metrics.can_hit_test(point, options) {
        return None;
    }
    let first = non_client_hit_test(point, metrics, options);
    let answer = intercept_hit_test(&first, options);
    let admitted = match (first.area, answer) {
        (HitTestArea::Client, None) => can_extent_hit_test(first.client_position, options),
        _ => true,
    };
    if !admitted {
        return None;
    }
    Some(resolve_hit_test(first, answer, options))
}

/// The result with which the size message is answered once the proposed
/// client rectangle has been adjusted: the rectangle as it now stands is the
/// client area.
pub const SIZE_HANDLED: isize = 0;

/// Whether the compositor's default procedure has the last word on a
/// message: the plan handed the message to it and it handled the message.
pub open spec fn compositor_handled(plan: SubclassPlan, compositor: Option<isize>) -> bool {
    plan.forward_to_compositor && compositor is Some
}

/// Whether the hit test is to be run: the plan calls for it and the
/// compositor has not handled the message.
pub open spec fn hit_test_is_due_spec(plan: SubclassPlan, compositor: Option<isize>) -> bool {
    plan.hit_test && !compositor_handled(plan, compositor)
}

/// Decides whether the hit test is to be run, from the plan and what the
/// compositor's default procedure made of the message (`Some` of its result
/// where it handled the message).
pub fn hit_test_is_due(plan: &SubclassPlan, compositor: Option<isize>) -> (due: bool)
    ensures
        due == hit_test_is_due_spec(*plan, compositor),
{
    plan.hit_test && !(plan.forward_to_compositor && compositor.is_some())
}

/// The answer to a message, given its plan, what the compositor's default
/// procedure made of it (`Some` of its result where it handled the message),
/// whether the proposed client rectangle was adjusted, and the hit test's
/// outcome.
///
/// What the compositor handled is answered with the compositor's result;
/// without the plan's leave the compositor is not heard. Otherwise a size
/// message whose rectangle was adjusted as the plan asked is handled, and a
/// hit test that was due and found a part of the frame is answered with that
/// part's code. Everything else falls through to default handling: the
/// client area too, and a rectangle that could not be adjusted.
pub open spec fn subclass_reply_spec(
    plan: SubclassPlan,
    compositor: Option<isize>,
    adjusted: bool,
    area: Option<HitTestArea>,
) -> Reply {
    if compositor_handled(plan, compositor) {
        Reply::Result(compositor->0)
    } else if plan.adjust_client_area && adjusted {
        Reply::Result(SIZE_HANDLED)
    } else if plan.hit_test && area is Some && area->0 != HitTestArea::Client {
        Reply::Result(area->0.l_result_spec() as isize)
    } else {
        Reply::Default
    }
}

/// Decides the answer to a message.
pub fn subclass_reply(
    plan: &SubclassPlan,
    compositor: Option<isize>,
    adjusted: bool,
    area: Option<HitTestArea>,
) -> (reply: Reply)
    ensures
        reply == subclass_reply_spec(*plan, compositor, adjusted, area),
{
    let handled = if plan.forward_to_compositor {
        compositor
    } else {
        None
    };
    match handled {
        Some(result) => Reply::Result(result),
        None => if plan.adjust_client_area && adjusted {
            Reply::Result(SIZE_HANDLED)
        } else {
            let found = if plan.hit_test {
                area
            } else {
                None
            };
            match found {
                Some(HitTestArea::Client) => Reply::Default,
                Some(part) => Reply::Result(part.l_result() as isize),
                None => Reply::Default,
            }
        },
    }
}

/// While composition is disabled nothing is intercepted: whatever the
/// message and the frame, the plan calls for nothing, no hit test is due,
/// and the message falls through to default handling whatever the embedding
/// program hands in.
pub proof fn lemma_disabled_composition_falls_through(
    msg: u32,
    w_param: usize,
    options: WindowFrame,
    compositor: Option<isize>,
    adjusted: bool,
    area: Option<HitTestArea>,
)
    ensures
        subclass_plan_spec(false, msg, w_param, options) == idle_plan(),
        !hit_test_is_due_spec(subclass_plan_spec(false, msg, w_param, options), compositor),
        subclass_reply_spec(
            subclass_plan_spec(false, msg, w_param, options),
            compositor,
            adjusted,
            area,
        ) == Reply::Default,
{
}

/// A position in the client area is never answered with a code of the
/// frame: on the hit-test message it falls through unless the compositor
/// handled the message.
pub proof fn lemma_client_area_falls_through(
    plan: SubclassPlan,
    compositor: Option<isize>,
    adjusted: bool,
)
    requires
        !compositor_handled(plan, compositor),
        !plan.adjust_client_area,
    ensures
        subclass_reply_spec(plan, compositor, adjusted, Some(HitTestArea::Client))
            == Reply::Default,
{
}

/// The size message that carries a proposed client rectangle is handled
/// while composition is enabled: once the rectangle has been adjusted the
/// message is answered with a result, the compositor's where the compositor
/// handled it, and does not fall through to default handling.
pub proof fn lemma_size_message_is_handled(
    options: WindowFrame,
    compositor: Option<isize>,
    area: Option<HitTestArea>,
)
    ensures
        ({
            let plan = subclass_plan_spec(true, WM_NCCALCSIZE, KEEP_CLIENT_AREA, options);
            &&& plan.adjust_client_area
            &&& !plan.hit_test
            &&& subclass_reply_spec(plan, compositor, true, area) is Result
            &&& !compositor_handled(plan, compositor) ==> subclass_reply_spec(
                plan,
                compositor,
                true,
                area,
            ) == Reply::Result(SIZE_HANDLED)
        }),
{
}

} // verus!
