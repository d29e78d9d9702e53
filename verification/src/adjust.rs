//! From the client rectangle a caller wants to the rectangle of the whole
//! window: which questions are put to the system, in what order, and which
//! of its two adjustments is asked for.

use vstd::prelude::*;
use crate::capability::FnAddress;
use crate::flags::spec_has_flag;
use crate::geometry::Rect;
use crate::status::status_map;

verus! {

/// Index of a window's style word.
pub const GWL_STYLE: i32 = -16;

/// Index of a window's extended style word.
pub const GWL_EXSTYLE: i32 = -20;

/// Resize flag: keep the window's position.
pub const SWP_NOMOVE: u32 = 0x0002;

/// Resize flag: keep the window's place in the stacking order.
pub const SWP_NOZORDER: u32 = 0x0004;

/// Resize flag: do not activate the window.
pub const SWP_NOACTIVATE: u32 = 0x0010;

/// Resize flag: leave the owner's place in the stacking order alone.
pub const SWP_NOREPOSITION: u32 = 0x0200;

/// Resize flag: post the request and do not wait for the window's thread.
pub const SWP_ASYNCWINDOWPOS: u32 = 0x4000;

/// The flags of the call that resizes a window in place: all five of the
/// above.
pub const RESIZE_FLAGS: u32 = 0x4216;

/// The two entry points that the adjustment by a window's own DPI needs,
/// each as the capability table holds it.
#[derive(Clone, Copy, Debug, PartialEq, Eq, Structural)]
pub struct DpiSupport {
    pub get_dpi_for_window: Option<FnAddress>,
    pub adjust_window_rect_ex_for_dpi: Option<FnAddress>,
}

/// The answer to an adjustment call.
#[derive(Clone, Copy, Debug, PartialEq, Eq, Structural)]
pub struct Adjusted {
    /// The status word of the call: zero for failure.
    pub status: i32,
    /// The rectangle as the call left it.
    pub rect: Rect,
}

/// What the system answered so far during one adjustment.
#[derive(Clone, Copy, Debug, PartialEq, Eq, Structural)]
pub struct AdjustReplies {
    /// The window's menu; zero where it has none.
    pub menu: Option<usize>,
    /// The window's DPI.
    pub dpi: Option<u32>,
    /// The answer to the adjustment call.
    pub adjusted: Option<Adjusted>,
}

/// What an adjustment does next.
#[derive(Clone, Copy, Debug, PartialEq, Eq, Structural)]
pub enum AdjustStep {
    /// Read the window's word at this index.
    QueryStyle { index: i32 },
    /// Ask for the window's menu.
    QueryMenu,
    /// Ask for the window's DPI through this entry point.
    QueryDpi { entry: FnAddress },
    /// Adjust by the window's DPI through this entry point.
    AdjustForDpi { entry: FnAddress, rect: Rect, style: u32, menu: i32, style_ex: u32, dpi: u32 },
    /// Adjust by the system's DPI.
    AdjustLegacy { rect: Rect, style: u32, menu: i32, style_ex: u32 },
    /// The adjustment is over: the rectangle of the whole window, or
    /// nothing where the system reported failure.
    Done(Option<Rect>),
}

/// The resizing of a window to an outer size, followed by the request to
/// repaint all of it.
#[derive(Clone, Copy, Debug, PartialEq, Eq, Structural)]
pub struct ResizeRequest {
    pub x: i32,
    pub y: i32,
    pub width: i32,
    pub height: i32,
    pub flags: u32,
    /// Whether the repaint erases the background first.
    pub erase: bool,
}

/// The 32-bit unsigned integer with the same bit pattern as `v`.
pub open spec fn reinterpret_u32(v: i32) -> u32 {
    if v >= 0 {
        v as u32
    } else {
        (v + 0x1_0000_0000) as u32
    }
}

/// The distance between two edges, whichever is the greater.
pub open spec fn edge_distance(a: i32, b: i32) -> int {
    if a >= b {
        a - b
    } else {
        b - a
    }
}

impl DpiSupport {
    /// The two entry points, where the adjustment by the window's own DPI
    /// is to be used: both are present and the window has a menu.
    pub open spec fn dpi_aware(self, menu: usize) -> Option<(FnAddress, FnAddress)> {
        match (self.get_dpi_for_window, self.adjust_window_rect_ex_for_dpi) {
            (Some(get_dpi), Some(adjust)) => if menu != 0 {
                Some((get_dpi, adjust))
            } else {
                None
            },
            _ => None,
        }
    }
}

/// What the system made of a rectangle: the rectangle it wrote where the
/// status word is not zero.
pub open spec fn adjust_outcome(adjusted: Adjusted) -> Option<Rect> {
    if adjusted.status != 0 {
        Some(adjusted.rect)
    } else {
        None
    }
}

/// The flag that tells the system whether the window has a menu.
pub open spec fn menu_flag(menu: usize) -> i32 {
    if menu != 0 {
        1
    } else {
        0
    }
}

/// The next step of an adjustment with known styles, given the answers so
/// far.
///
/// The menu is asked for first. Where both entry points are present and the
/// window has a menu, its DPI is asked for and the adjustment by that DPI
/// follows; otherwise the adjustment by the system's DPI. Either is handed
/// the wanted rectangle, the styles and the menu flag.
pub open spec fn spec_adjust(
    style: u32,
    style_ex: u32,
    rect: Rect,
    support: DpiSupport,
    replies: AdjustReplies,
) -> AdjustStep {
    match replies.menu {
        None => AdjustStep::QueryMenu,
        Some(menu) => match support.dpi_aware(menu) {
            Some((get_dpi, adjust)) => match replies.dpi {
                None => AdjustStep::QueryDpi { entry: get_dpi },
                Some(dpi) => match replies.adjusted {
                    None => AdjustStep::AdjustForDpi {
                        entry: adjust,
                        rect,
                        style,
                        menu: menu_flag(menu),
                        style_ex,
                        dpi,
                    },
                    Some(adjusted) => AdjustStep::Done(adjust_outcome(adjusted)),
                },
            },
            None => match replies.adjusted {
                None => AdjustStep::AdjustLegacy { rect, style, menu: menu_flag(menu), style_ex },
                Some(adjusted) => AdjustStep::Done(adjust_outcome(adjusted)),
            },
        },
    }
}

/// The next step of an adjustment for a window whose styles are still to
/// be read: first the style word, then the extended one, then as
/// `spec_adjust` says.
pub open spec fn spec_adjust_window(
    rect: Rect,
    support: DpiSupport,
    style: Option<i32>,
    style_ex: Option<i32>,
    replies: AdjustReplies,
) -> AdjustStep {
    match style {
        None => AdjustStep::QueryStyle { index: GWL_STYLE },
        Some(style) => match style_ex {
            None => AdjustStep::QueryStyle { index: GWL_EXSTYLE },
            Some(style_ex) => spec_adjust(
                reinterpret_u32(style),
                reinterpret_u32(style_ex),
                rect,
                support,
                replies,
            ),
        },
    }
}

/// Reads the bits of a signed 32-bit number as an unsigned one.
fn to_unsigned(v: i32) -> (u: u32)
    ensures
        u == reinterpret_u32(v),
{
    if v >= 0 {
        v as u32
    } else {
        (v as i64 + 0x1_0000_0000) as u32
    }
}

/// Advances the adjustment of a wanted client rectangle by one step, for a
/// window of the given styles.
///
/// The result is the next question for the system, or, once `replies`
/// holds the adjustment's answer, the rectangle of the whole window; it is
/// `Done(None)` where the system reported failure, and the caller then
/// falls back on the wanted rectangle.
pub fn adjust_window_rect_with_styles(
    style: u32,
    style_ex: u32,
    rect: Rect,
    support: DpiSupport,
    replies: AdjustReplies,
) -> (step: AdjustStep)
    ensures
        step == spec_adjust(style, style_ex, rect, support, replies),
        replies.menu is Some && replies.dpi is Some ==> (replies.adjusted matches Some(adjusted)
            ==> step == AdjustStep::Done(adjust_outcome(adjusted))),
{
    let menu = match replies.menu {
        None => { return AdjustStep::QueryMenu; },
        Some(menu) => menu,
    };
    let flag: i32 = if menu != 0 {
        1
    } else {
        0
    };
    let entries = match (support.get_dpi_for_window, support.adjust_window_rect_ex_for_dpi) {
        (Some(get_dpi), Some(adjust)) => if menu != 0 {
            Some((get_dpi, adjust))
        } else {
            None
        },
        _ => None,
    };
    if let Some((get_dpi, adjust)) = entries {
        let dpi = match replies.dpi {
            None => { return AdjustStep::QueryDpi { entry: get_dpi }; },
            Some(dpi) => dpi,
        };
        match replies.adjusted {
            None => AdjustStep::AdjustForDpi { entry: adjust, rect, style, menu: flag, style_ex, dpi },
            Some(answer) => AdjustStep::Done(status_map(answer.status, answer.rect)),
        }
    } else {
        match replies.adjusted {
            None => AdjustStep::AdjustLegacy { rect, style, menu: flag, style_ex },
            Some(answer) => AdjustStep::Done(status_map(answer.status, answer.rect)),
        }
    }
}

/// Advances the adjustment of a wanted client rectangle by one step, for a
/// window whose styles the system still has to report.
///
/// `style` and `style_ex` are the window's two style words as the system
/// gave them, once it did; their bits are read as unsigned flags.
pub fn adjust_window_rect(
    rect: Rect,
    support: DpiSupport,
    style: Option<i32>,
    style_ex: Option<i32>,
    replies: AdjustReplies,
) -> (step: AdjustStep)
    ensures
        step == spec_adjust_window(rect, support, style, style_ex, replies),
{
    match style {
        None => AdjustStep::QueryStyle { index: GWL_STYLE },
        Some(style) => match style_ex {
            None => AdjustStep::QueryStyle { index: GWL_EXSTYLE },
            Some(style_ex) => adjust_window_rect_with_styles(
                to_unsigned(style),
                to_unsigned(style_ex),
                rect,
                support,
                replies,
            ),
        },
    }
}

/// The resizing that gives a window the client size it was asked to have.
///
/// `adjusted` is the outcome of adjusting `desired_rect(width, height)` for
/// the window. The window keeps its position and takes the adjusted
/// rectangle's extent; then all of it is repainted without erasing. There
/// is no fallback for a failed adjustment: the caller must not go on
/// without one.
pub fn set_inner_size_physical(adjusted: Option<Rect>) -> (request: ResizeRequest)
    requires
        adjusted is Some,
        edge_distance(adjusted->0.right, adjusted->0.left) <= i32::MAX,
        edge_distance(adjusted->0.top, adjusted->0.bottom) <= i32::MAX,
    ensures
        request == (ResizeRequest {
            x: 0,
            y: 0,
            width: edge_distance(adjusted->0.right, adjusted->0.left) as i32,
            height: edge_distance(adjusted->0.top, adjusted->0.bottom) as i32,
            flags: RESIZE_FLAGS,
            erase: false,
        }),
{
    let rect = adjusted.unwrap();
    let width: i64 = rect.right as i64 - rect.left as i64;
    let height: i64 = rect.top as i64 - rect.bottom as i64;
    let outer_x: i64 = if width >= 0 {
        width
    } else {
        -width
    };
    let outer_y: i64 = if height >= 0 {
        height
    } else {
        -height
    };
    ResizeRequest {
        x: 0,
        y: 0,
        width: outer_x as i32,
        height: outer_y as i32,
        flags: RESIZE_FLAGS,
        erase: false,
    }
}

/// The adjustment by the system's DPI is the one asked for whenever an entry
/// point is missing or the window has no menu, and no DPI is then asked for.
pub proof fn lemma_legacy_without_support(
    style: u32,
    style_ex: u32,
    rect: Rect,
    support: DpiSupport,
    menu: usize,
    dpi: Option<u32>,
)
    requires
        support.get_dpi_for_window is None || support.adjust_window_rect_ex_for_dpi is None || menu
            == 0,
    ensures
        spec_adjust(
            style,
            style_ex,
            rect,
            support,
            AdjustReplies { menu: Some(menu), dpi, adjusted: None },
        ) == (AdjustStep::AdjustLegacy { rect, style, menu: menu_flag(menu), style_ex }),
{
}

/// The flags of a resize are the five resize flags together, and no other
/// bit.
pub proof fn lemma_resize_flags()
    ensures
        RESIZE_FLAGS == SWP_ASYNCWINDOWPOS | SWP_NOZORDER | SWP_NOREPOSITION | SWP_NOMOVE
            | SWP_NOACTIVATE,
        spec_has_flag(RESIZE_FLAGS, SWP_ASYNCWINDOWPOS),
        spec_has_flag(RESIZE_FLAGS, SWP_NOZORDER),
        spec_has_flag(RESIZE_FLAGS, SWP_NOREPOSITION),
        spec_has_flag(RESIZE_FLAGS, SWP_NOMOVE),
        spec_has_flag(RESIZE_FLAGS, SWP_NOACTIVATE),
{
    assert(0x4216u32 == 0x4000u32 | 0x0004u32 | 0x0200u32 | 0x0002u32 | 0x0010u32) by (bit_vector);
    assert(0x4216u32 & 0x4000u32 == 0x4000u32) by (bit_vector);
    assert(0x4216u32 & 0x0004u32 == 0x0004u32) by (bit_vector);
    assert(0x4216u32 & 0x0200u32 == 0x0200u32) by (bit_vector);
    assert(0x4216u32 & 0x0002u32 == 0x0002u32) by (bit_vector);
    assert(0x4216u32 & 0x0010u32 == 0x0010u32) by (bit_vector);
}

} // verus!
