//! Queries on a window's state, and the command that maximizes or
//! restores it.

use vstd::prelude::*;
use crate::geometry::{Point, Rect};
use crate::status::{status_map, OsError};

verus! {

/// A window of the system, named by the number the system gave it. The
/// library neither makes nor frees one.
#[derive(Clone, Copy, Debug, PartialEq, Eq, Structural)]
pub struct WindowHandle {
    pub raw: usize,
}

/// The show command that maximizes a window.
pub const SW_MAXIMIZE: i32 = 3;

/// The show command that puts a window back to its restored size.
pub const SW_RESTORE: i32 = 9;

/// What the system holds of a window's show state, as far as the library
/// reads it.
#[derive(Clone, Copy, Debug, PartialEq, Eq, Structural)]
pub struct ShowState {
    /// The status word of the visibility query: zero for a hidden window.
    pub visible: i32,
    /// The show command recorded in the window's placement.
    pub show_cmd: u32,
}

/// The show command to issue for a request to maximize or restore: none for
/// a hidden window.
pub open spec fn spec_set_maximized(visible: i32, maximized: bool) -> Option<i32> {
    if visible == 0 {
        None
    } else if maximized {
        Some(SW_MAXIMIZE)
    } else {
        Some(SW_RESTORE)
    }
}

/// Whether a placement's show command is the maximizing one.
pub open spec fn spec_is_maximized(show_cmd: u32) -> bool {
    show_cmd == 3
}

impl ShowState {
    /// Whether `next` can be the state of a window that was in this state
    /// when a show command was issued to it, or when none was.
    ///
    /// Without a command nothing changes. The maximizing command leaves the
    /// maximizing show command in the placement; any other command leaves
    /// one that is not the maximizing one.
    pub open spec fn leads_to(self, command: Option<i32>, next: ShowState) -> bool {
        match command {
            None => next == self,
            Some(cmd) => spec_is_maximized(next.show_cmd) == (cmd == SW_MAXIMIZE),
        }
    }
}

/// The outer bounds of a window in screen coordinates: the rectangle the
/// bounds query wrote where its status word reports success.
pub fn get_window_rect(status: i32, rect: Rect) -> (bounds: Option<Rect>)
    ensures
        bounds == (if status != 0 {
            Some(rect)
        } else {
            None
        }),
{
    status_map(status, rect)
}

/// What the system answered so far during one query for a client area.
#[derive(Clone, Copy, Debug, PartialEq, Eq)]
pub struct ClientRectReplies {
    /// Where the client point (0, 0) lies on the screen, or the error of
    /// the mapping.
    pub origin: Option<Result<Point, OsError>>,
    /// The client rectangle in its own coordinates, or the error of the
    /// query.
    pub client: Option<Result<Rect, OsError>>,
}

/// What a query for a client area does next.
#[derive(Clone, Copy, Debug, PartialEq, Eq)]
pub enum ClientRectStep {
    /// Map the client point (0, 0) to the screen.
    MapOrigin,
    /// Ask for the client rectangle.
    QueryClient,
    /// The query is over: the client area on the screen, or the error of
    /// the call that failed.
    Done(Result<Rect, OsError>),
}

/// The next step of a query for a client area, given the answers so far:
/// map the origin; hand its error on; ask for the client rectangle; hand
/// its error on; else the client rectangle moved by where the origin lies.
pub open spec fn spec_client_rect_step(replies: ClientRectReplies) -> ClientRectStep {
    match replies.origin {
        None => ClientRectStep::MapOrigin,
        Some(Err(e)) => ClientRectStep::Done(Err(e)),
        Some(Ok(top_left)) => match replies.client {
            None => ClientRectStep::QueryClient,
            Some(Err(e)) => ClientRectStep::Done(Err(e)),
            Some(Ok(rect)) => ClientRectStep::Done(Ok(rect.offset_by(top_left.x, top_left.y))),
        },
    }
}

/// Advances the query for the client area of a window, in screen
/// coordinates, by one step.
///
/// The result is the next call to make, or, once the answers suffice, the
/// client area. The origin is mapped first, and after a failure there the
/// client rectangle is not asked for. Both corners of the client rectangle
/// are moved by where the origin lies on the screen; the moved edges must
/// fit in 32 bits.
pub fn get_client_rect(replies: ClientRectReplies) -> (step: ClientRectStep)
    requires
        replies.origin matches Some(Ok(p)) ==> (replies.client matches Some(Ok(r))
            ==> r.can_offset(p.x, p.y)),
    ensures
        step == spec_client_rect_step(replies),
{
    let top_left = match replies.origin {
        None => { return ClientRectStep::MapOrigin; },
        Some(Err(e)) => { return ClientRectStep::Done(Err(e)); },
        Some(Ok(top_left)) => top_left,
    };
    match replies.client {
        None => ClientRectStep::QueryClient,
        Some(Err(e)) => ClientRectStep::Done(Err(e)),
        Some(Ok(rect)) => ClientRectStep::Done(Ok(rect.offset(top_left.x, top_left.y))),
    }
}

/// Whether `window` is the window that the system reports as active.
pub fn is_focused(window: WindowHandle, active: WindowHandle) -> (focused: bool)
    ensures
        focused == (window.raw == active.raw),
{
    window.raw == active.raw
}

/// Whether the visibility query answered with the value for "visible",
/// which is one.
pub fn is_visible(visible: i32) -> (shown: bool)
    ensures
        shown == (visible == 1),
{
    visible == 1
}

/// Whether a window is maximized, by the show command of its placement and
/// not by its size.
pub fn is_maximized(show_cmd: u32) -> (maximized: bool)
    ensures
        maximized == spec_is_maximized(show_cmd),
{
    show_cmd == 3
}

/// The show command to issue so that a window becomes maximized or
/// restored. A hidden window gets none.
pub fn set_maximized(visible: i32, maximized: bool) -> (command: Option<i32>)
    ensures
        command == spec_set_maximized(visible, maximized),
        visible == 0 ==> command is None,
{
    if visible != 0 {
        if maximized {
            Some(SW_MAXIMIZE)
        } else {
            Some(SW_RESTORE)
        }
    } else {
        None
    }
}

/// A request to maximize or restore a hidden window leaves its state as
/// it was, so it is reported maximized exactly when it was before.
pub proof fn lemma_hidden_window_keeps_state(state: ShowState, maximized: bool, next: ShowState)
    requires
        state.visible == 0,
        state.leads_to(spec_set_maximized(state.visible, maximized), next),
    ensures
        spec_set_maximized(state.visible, maximized) is None,
        next == state,
        spec_is_maximized(next.show_cmd) == spec_is_maximized(state.show_cmd),
{
}

/// On a visible window the request takes effect: afterwards the window is
/// reported maximized exactly when that was asked for.
pub proof fn lemma_visible_window_follows_request(
    state: ShowState,
    maximized: bool,
    next: ShowState,
)
    requires
        state.visible != 0,
        state.leads_to(spec_set_maximized(state.visible, maximized), next),
    ensures
        spec_is_maximized(next.show_cmd) == maximized,
{
}

} // verus!
