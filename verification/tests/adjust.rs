use window_metrics::adjust::{
    adjust_window_rect, adjust_window_rect_with_styles, set_inner_size_physical, AdjustReplies,
    AdjustStep, Adjusted, DpiSupport, ResizeRequest, GWL_EXSTYLE, GWL_STYLE, RESIZE_FLAGS,
    SWP_ASYNCWINDOWPOS, SWP_NOACTIVATE, SWP_NOMOVE, SWP_NOREPOSITION, SWP_NOZORDER,
};
use window_metrics::has_flag;
use window_metrics::capability::FnAddress;
use window_metrics::geometry::{adjust_size, desired_rect, PhysicalSize, Rect};

const STYLE: u32 = 0x00CF_0000;
const STYLE_EX: u32 = 0x0000_0100;
const GET_DPI: FnAddress = FnAddress { raw: 0x7000_1000 };
const ADJUST: FnAddress = FnAddress { raw: 0x7000_2000 };

fn full_support() -> DpiSupport {
    DpiSupport { get_dpi_for_window: Some(GET_DPI), adjust_window_rect_ex_for_dpi: Some(ADJUST) }
}

fn no_support() -> DpiSupport {
    DpiSupport { get_dpi_for_window: None, adjust_window_rect_ex_for_dpi: None }
}

fn wanted() -> Rect {
    desired_rect(800, 600)
}

fn nothing_yet() -> AdjustReplies {
    AdjustReplies { menu: None, dpi: None, adjusted: None }
}

#[test]
fn the_menu_is_asked_for_first() {
    assert_eq!(
        adjust_window_rect_with_styles(STYLE, STYLE_EX, wanted(), full_support(), nothing_yet()),
        AdjustStep::QueryMenu
    );
    assert_eq!(
        adjust_window_rect_with_styles(STYLE, STYLE_EX, wanted(), no_support(), nothing_yet()),
        AdjustStep::QueryMenu
    );
}

#[test]
fn without_the_entry_points_the_legacy_adjustment_is_used() {
    let replies = AdjustReplies { menu: Some(0x55), dpi: None, adjusted: None };
    assert_eq!(
        adjust_window_rect_with_styles(STYLE, STYLE_EX, wanted(), no_support(), replies),
        AdjustStep::AdjustLegacy { rect: wanted(), style: STYLE, menu: 1, style_ex: STYLE_EX }
    );
}

#[test]
fn one_entry_point_alone_is_not_enough() {
    let replies = AdjustReplies { menu: Some(0x55), dpi: None, adjusted: None };
    let only_dpi =
        DpiSupport { get_dpi_for_window: Some(GET_DPI), adjust_window_rect_ex_for_dpi: None };
    let only_adjust =
        DpiSupport { get_dpi_for_window: None, adjust_window_rect_ex_for_dpi: Some(ADJUST) };
    let legacy =
        AdjustStep::AdjustLegacy { rect: wanted(), style: STYLE, menu: 1, style_ex: STYLE_EX };
    assert_eq!(
        adjust_window_rect_with_styles(STYLE, STYLE_EX, wanted(), only_dpi, replies),
        legacy
    );
    assert_eq!(
        adjust_window_rect_with_styles(STYLE, STYLE_EX, wanted(), only_adjust, replies),
        legacy
    );
}

#[test]
fn without_a_menu_the_legacy_adjustment_is_used() {
    let replies = AdjustReplies { menu: Some(0), dpi: None, adjusted: None };
    assert_eq!(
        adjust_window_rect_with_styles(STYLE, STYLE_EX, wanted(), full_support(), replies),
        AdjustStep::AdjustLegacy { rect: wanted(), style: STYLE, menu: 0, style_ex: STYLE_EX }
    );
}

#[test]
fn with_support_and_a_menu_the_dpi_is_asked_for() {
    let replies = AdjustReplies { menu: Some(0x55), dpi: None, adjusted: None };
    assert_eq!(
        adjust_window_rect_with_styles(STYLE, STYLE_EX, wanted(), full_support(), replies),
        AdjustStep::QueryDpi { entry: GET_DPI }
    );
}

#[test]
fn the_dpi_aware_adjustment_gets_the_dpi() {
    let replies = AdjustReplies { menu: Some(0x55), dpi: Some(144), adjusted: None };
    assert_eq!(
        adjust_window_rect_with_styles(STYLE, STYLE_EX, wanted(), full_support(), replies),
        AdjustStep::AdjustForDpi {
            entry: ADJUST,
            rect: wanted(),
            style: STYLE,
            menu: 1,
            style_ex: STYLE_EX,
            dpi: 144,
        }
    );
}

#[test]
fn a_successful_adjustment_gives_the_outer_rect() {
    let outer = Rect { left: -8, top: -31, right: 808, bottom: 608 };
    let legacy =
        AdjustReplies { menu: Some(0), dpi: None, adjusted: Some(Adjusted { status: 1, rect: outer }) };
    assert_eq!(
        adjust_window_rect_with_styles(STYLE, STYLE_EX, wanted(), no_support(), legacy),
        AdjustStep::Done(Some(outer))
    );
    let aware = AdjustReplies {
        menu: Some(0x55),
        dpi: Some(96),
        adjusted: Some(Adjusted { status: 1, rect: outer }),
    };
    assert_eq!(
        adjust_window_rect_with_styles(STYLE, STYLE_EX, wanted(), full_support(), aware),
        AdjustStep::Done(Some(outer))
    );
}

#[test]
fn a_failed_adjustment_gives_nothing() {
    let outer = Rect { left: -8, top: -31, right: 808, bottom: 608 };
    let replies =
        AdjustReplies { menu: Some(0), dpi: None, adjusted: Some(Adjusted { status: 0, rect: outer }) };
    assert_eq!(
        adjust_window_rect_with_styles(STYLE, STYLE_EX, wanted(), no_support(), replies),
        AdjustStep::Done(None)
    );
}

#[test]
fn the_styles_are_read_before_anything_else() {
    assert_eq!(
        adjust_window_rect(wanted(), full_support(), None, None, nothing_yet()),
        AdjustStep::QueryStyle { index: GWL_STYLE }
    );
    assert_eq!(
        adjust_window_rect(wanted(), full_support(), Some(0x00CF_0000), None, nothing_yet()),
        AdjustStep::QueryStyle { index: GWL_EXSTYLE }
    );
    assert_eq!(
        adjust_window_rect(wanted(), full_support(), Some(0x00CF_0000), Some(0x100), nothing_yet()),
        AdjustStep::QueryMenu
    );
    assert_eq!(GWL_STYLE, -16);
    assert_eq!(GWL_EXSTYLE, -20);
}

#[test]
fn the_style_words_are_read_as_unsigned_flags() {
    let replies = AdjustReplies { menu: Some(0), dpi: None, adjusted: None };
    assert_eq!(
        adjust_window_rect(wanted(), no_support(), Some(i32::MIN), Some(-1), replies),
        AdjustStep::AdjustLegacy {
            rect: wanted(),
            style: 0x8000_0000,
            menu: 0,
            style_ex: 0xFFFF_FFFF,
        }
    );
    assert_eq!(
        adjust_window_rect(wanted(), no_support(), Some(0x14CF_0000), Some(0x100), replies),
        AdjustStep::AdjustLegacy {
            rect: wanted(),
            style: 0x14CF_0000,
            menu: 0,
            style_ex: 0x100,
        }
    );
}

#[test]
fn a_window_is_adjusted_from_start_to_end() {
    let border = 8;
    let title = 31;
    let mut style = None;
    let mut style_ex = None;
    let mut replies = nothing_yet();
    let mut asked = Vec::new();
    let outcome = loop {
        let step = adjust_window_rect(wanted(), no_support(), style, style_ex, replies);
        asked.push(step);
        match step {
            AdjustStep::QueryStyle { index } if index == GWL_STYLE => style = Some(0x00CF_0000),
            AdjustStep::QueryStyle { .. } => style_ex = Some(0x100),
            AdjustStep::QueryMenu => replies.menu = Some(0),
            AdjustStep::QueryDpi { .. } => replies.dpi = Some(96),
            AdjustStep::AdjustForDpi { rect, .. } | AdjustStep::AdjustLegacy { rect, .. } => {
                replies.adjusted = Some(Adjusted {
                    status: 1,
                    rect: Rect {
                        left: rect.left - border,
                        top: rect.top - title,
                        right: rect.right + border,
                        bottom: rect.bottom + border,
                    },
                });
            }
            AdjustStep::Done(outcome) => break outcome,
        }
    };
    assert_eq!(asked.len(), 5);
    assert_eq!(
        asked[3],
        AdjustStep::AdjustLegacy { rect: wanted(), style: 0x00CF_0000, menu: 0, style_ex: 0x100 }
    );
    let outer = adjust_size(PhysicalSize { width: 800, height: 600 }, outcome);
    assert_eq!(outer, PhysicalSize { width: 816, height: 639 });
}

#[test]
fn a_resize_keeps_the_position_and_takes_the_outer_extent() {
    let adjusted = Rect { left: -8, top: -31, right: 808, bottom: 608 };
    assert_eq!(
        set_inner_size_physical(Some(adjusted)),
        ResizeRequest { x: 0, y: 0, width: 816, height: 639, flags: 0x4216, erase: false }
    );
}

#[test]
fn a_resize_takes_distances_whichever_edge_is_greater() {
    let turned = Rect { left: 100, top: 50, right: 40, bottom: 20 };
    assert_eq!(
        set_inner_size_physical(Some(turned)),
        ResizeRequest { x: 0, y: 0, width: 60, height: 30, flags: RESIZE_FLAGS, erase: false }
    );
}

#[test]
fn resize_flags_are_the_five_named_ones() {
    assert_eq!(RESIZE_FLAGS, 0x4000 | 0x0004 | 0x0200 | 0x0002 | 0x0010);
    assert_eq!(
        RESIZE_FLAGS,
        SWP_ASYNCWINDOWPOS | SWP_NOZORDER | SWP_NOREPOSITION | SWP_NOMOVE | SWP_NOACTIVATE
    );
    for flag in [SWP_ASYNCWINDOWPOS, SWP_NOZORDER, SWP_NOREPOSITION, SWP_NOMOVE, SWP_NOACTIVATE] {
        assert!(has_flag(RESIZE_FLAGS, flag));
    }
    assert!(!has_flag(RESIZE_FLAGS, 0x0001));
}
