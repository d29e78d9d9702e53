//! Window metrics and capability handling for a native desktop windowing
//! subsystem.
//!
//! The library holds the decisions and the geometry, stated over plain
//! values: which optional entry points of the system exist and how that is
//! remembered, how a wanted client size becomes the size of a whole window,
//! how the answers of the system's queries are read, and which stock cursor
//! stands for an abstract pointer shape. It makes no call into the system
//! itself. Where an operation takes several calls, a function of the
//! library says, from the answers so far, which call comes next and when
//! the operation is over; the caller makes the calls.

pub mod adjust;
pub mod capability;
pub mod cursor;
pub mod cursor_icon;
pub mod flags;
pub mod geometry;
pub mod icon;
pub mod status;
pub mod text;
pub mod window_state;

pub use crate::adjust::{
    adjust_window_rect, adjust_window_rect_with_styles, set_inner_size_physical, AdjustReplies,
    AdjustStep, Adjusted, DpiSupport, ResizeRequest, GWL_EXSTYLE, GWL_STYLE, RESIZE_FLAGS,
    SWP_ASYNCWINDOWPOS, SWP_NOACTIVATE, SWP_NOMOVE, SWP_NOREPOSITION, SWP_NOZORDER,
};
pub use crate::capability::{
    ends_with_nul, get_function_impl, Capability, CapabilityCache, FnAddress, ProbeReplies,
    ProbeStep, Resolution,
};
pub use crate::cursor::{
    get_cursor_clip, get_desktop_rect, set_cursor_clip, set_cursor_hidden, CursorVisibility,
    SM_CXVIRTUALSCREEN, SM_CYVIRTUALSCREEN, SM_XVIRTUALSCREEN, SM_YVIRTUALSCREEN,
};
pub use crate::cursor_icon::CursorIcon;
pub use crate::flags::has_flag;
pub use crate::geometry::{adjust_size, desired_rect, Insets, PhysicalSize, Point, Rect};
pub use crate::icon::{
    get_hicon_from_buffer, IconHandle, IconReplies, IconStep, ICON_VERSION, LR_DEFAULTCOLOR,
    MAX_RESOURCE_SIZE,
};
pub use crate::status::{status_map, win_to_err, OsError};
pub use crate::text::{to_wstring, wchar_ptr_to_string, wchar_to_string, wide_len};
pub use crate::window_state::{
    get_client_rect, get_window_rect, is_focused, is_maximized, is_visible, set_maximized,
    ClientRectReplies, ClientRectStep, ShowState, WindowHandle, SW_MAXIMIZE, SW_RESTORE,
};
