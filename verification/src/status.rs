//! How the outcome of a native call is read: its status word, the data it
//! wrote, and the error code the system recorded for a failure.

use vstd::prelude::*;

verus! {

/// The error code that the system recorded for the last failed call.
#[derive(Clone, Copy, Debug, PartialEq, Eq, Structural)]
pub struct OsError {
    pub code: i32,
}

/// The data a native call wrote, where its status word reports success
/// (any value but zero); nothing where it reports failure.
pub fn status_map<T>(status: i32, data: T) -> (outcome: Option<T>)
    ensures
        outcome == (if status != 0 {
            Some(data)
        } else {
            None
        }),
{
    if status != 0 {
        Some(data)
    } else {
        None
    }
}

/// Success where the status word of a native call is not zero, and
/// otherwise the error that the system recorded for it.
pub fn win_to_err(status: i32, last_error: i32) -> (outcome: Result<(), OsError>)
    ensures
        outcome == (if status != 0 {
            Ok::<(), OsError>(())
        } else {
            Err::<(), OsError>(OsError { code: last_error })
        }),
{
    if status != 0 {
        Ok(())
    } else {
        Err(OsError { code: last_error })
    }
}

} // verus!
