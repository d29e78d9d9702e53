//! The pointer: where it may go, whether it shows, and which stock shape
//! stands for an abstract one.

use vstd::prelude::*;
use crate::geometry::Rect;
use crate::status::{win_to_err, OsError};

verus! {

/// Index of the system metric for the left edge of the virtual screen.
pub const SM_XVIRTUALSCREEN: i32 = 76;

/// Index of the system metric for the top edge of the virtual screen.
pub const SM_YVIRTUALSCREEN: i32 = 77;

/// Index of the system metric for the width of the virtual screen.
pub const SM_CXVIRTUALSCREEN: i32 = 78;

/// Index of the system metric for the height of the virtual screen.
pub const SM_CYVIRTUALSCREEN: i32 = 79;

/// Whether the pointer is hidden, as the caller last asked for it. One such
/// value stands for the whole process.
#[derive(Debug)]
pub struct CursorVisibility {
    hidden: bool,
}

/// The argument of the show-or-hide call that a request gives rise to: none
/// where the request repeats the state, else 0 to hide and 1 to show.
pub open spec fn spec_cursor_toggle(previous: bool, hidden: bool) -> Option<i32> {
    if previous == hidden {
        None
    } else if hidden {
        Some(0)
    } else {
        Some(1)
    }
}

/// The state that the request at `index` meets: that of the request before
/// it, or the initial state for the first.
pub open spec fn state_before(initial: bool, requests: Seq<bool>, index: int) -> bool {
    if index <= 0 {
        initial
    } else {
        requests[index - 1]
    }
}

/// How many show-or-hide calls the latch issues when it is fed `requests`
/// in order, starting hidden or not as `initial` says.
pub open spec fn toggle_calls(initial: bool, requests: Seq<bool>) -> nat
    decreases requests.len(),
{
    if requests.len() == 0 {
        0
    } else {
        let first: nat = if spec_cursor_toggle(initial, requests[0]) is Some {
            1
        } else {
            0
        };
        first + toggle_calls(requests[0], requests.skip(1))
    }
}

/// How many requests in `requests` differ from the state they meet.
pub open spec fn value_changes(initial: bool, requests: Seq<bool>) -> nat
    decreases requests.len(),
{
    if requests.len() == 0 {
        0
    } else {
        let last: nat = if requests.last() != state_before(
            initial,
            requests,
            requests.len() - 1,
        ) {
            1
        } else {
            0
        };
        value_changes(initial, requests.drop_last()) + last
    }
}

impl CursorVisibility {
    /// Whether the pointer is hidden.
    pub closed spec fn is_hidden(&self) -> bool {
        self.hidden
    }

    /// The state at the start of a process: the pointer shows.
    pub fn new() -> (state: CursorVisibility)
        ensures
            !state.is_hidden(),
    {
        CursorVisibility { hidden: false }
    }

    /// Whether the pointer is hidden.
    pub fn hidden(&self) -> (hidden: bool)
        ensures
            hidden == self.is_hidden(),
    {
        self.hidden
    }
}

/// Records that the pointer is to be hidden or shown, and gives the argument
/// for the system's show-or-hide call where the state changed (0 to hide, 1
/// to show). A request that repeats the state gives none, so the system's
/// own count of shows and hides stays in step.
pub fn set_cursor_hidden(state: &mut CursorVisibility, hidden: bool) -> (call: Option<i32>)
    ensures
        final(state).is_hidden() == hidden,
        call == spec_cursor_toggle(old(state).is_hidden(), hidden),
{
    let previous = state.hidden;
    state.hidden = hidden;
    if previous != hidden {
        if hidden {
            Some(0)
        } else {
            Some(1)
        }
    } else {
        None
    }
}

/// The calls for a sequence of requests are those for all but the last,
/// and one more where the last differs from the one before it.
proof fn lemma_toggle_calls_last(initial: bool, requests: Seq<bool>)
    requires
        requests.len() > 0,
    ensures
        toggle_calls(initial, requests) == toggle_calls(initial, requests.drop_last()) + (
        if requests.last() != state_before(initial, requests, requests.len() - 1) {
            1nat
        } else {
            0nat
        }),
    decreases requests.len(),
{
    if requests.len() == 1 {
        assert(requests.drop_last() =~= Seq::<bool>::empty());
        assert(requests.skip(1) =~= Seq::<bool>::empty());
    } else {
        let rest = requests.skip(1);
        lemma_toggle_calls_last(requests[0], rest);
        assert(rest.drop_last() =~= requests.drop_last().skip(1));
        assert(requests.drop_last()[0] == requests[0]);
    }
}

/// Fed any sequence of requests, the latch issues as many show-or-hide
/// calls as there are changes of value in the sequence, however long it is.
pub proof fn lemma_toggle_calls_are_value_changes(initial: bool, requests: Seq<bool>)
    ensures
        toggle_calls(initial, requests) == value_changes(initial, requests),
    decreases requests.len(),
{
    if requests.len() > 0 {
        lemma_toggle_calls_last(initial, requests);
        lemma_toggle_calls_are_value_changes(initial, requests.drop_last());
    }
}

/// The rectangle that the pointer is confined to: the one the query wrote,
/// or the system's error where the query failed.
pub fn get_cursor_clip(status: i32, last_error: i32, rect: Rect) -> (clip: Result<Rect, OsError>)
    ensures
        clip == (if status != 0 {
            Ok::<Rect, OsError>(rect)
        } else {
            Err::<Rect, OsError>(OsError { code: last_error })
        }),
{
    match win_to_err(status, last_error) {
        Ok(_) => Ok(rect),
        Err(e) => Err(e),
    }
}

/// The outcome of confining the pointer to a rectangle, or of releasing it:
/// success where the status word is not zero, else the system's error.
pub fn set_cursor_clip(status: i32, last_error: i32) -> (outcome: Result<(), OsError>)
    ensures
        outcome == (if status != 0 {
            Ok::<(), OsError>(())
        } else {
            Err::<(), OsError>(OsError { code: last_error })
        }),
{
    win_to_err(status, last_error)
}

/// The bounding rectangle of all monitors, from the four metrics of the
/// virtual screen: its origin and its extent. A metric the system does not
/// have reads as zero.
pub fn get_desktop_rect(left: i32, top: i32, width: i32, height: i32) -> (desktop: Rect)
    requires
        i32::MIN <= left + width <= i32::MAX,
        i32::MIN <= top + height <= i32::MAX,
    ensures
        desktop.left == left,
        desktop.top == top,
        desktop.right == left + width,
        desktop.bottom == top + height,
        width >= 0 && height >= 0 ==> desktop.well_formed(),
{
    Rect { left, top, right: left + width, bottom: top + height }
}

} // verus!
