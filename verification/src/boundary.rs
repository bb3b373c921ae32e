//! Translation of raw kernel outcomes into the typed failure model.
//!
//! Each privileged primitive (task resolution, overwrite-style read, write)
//! reports a status code, and the read additionally reports how many bytes it
//! actually moved.  The shell that makes those calls hands every such outcome
//! to exactly one function below; the contracts pin the translation down
//! completely, so no raw result can be misread at the boundary.

use vstd::prelude::*;

use crate::error::{Error, KERN_SUCCESS};
use crate::ProcessHandle;

verus! {

/// Decide the result of a handle resolution from the kernel status `kr` it
/// returned, the task name `task` it stored, and the OS error code `os_code`
/// read immediately after the call.
///
/// Resolution yields the capability exactly when the kernel reported success;
/// every other status becomes a `ResolutionDenied` carrying the OS code, so a
/// denied resolution can never hand back a handle.
pub fn resolve_outcome(kr: i32, task: ProcessHandle, os_code: i32) -> (r: Result<
    ProcessHandle,
    Error,
>)
    ensures
        r.is_ok() <==> kr == KERN_SUCCESS,
        kr == KERN_SUCCESS ==> r == Ok::<ProcessHandle, Error>(task),
        kr != KERN_SUCCESS ==> r == Err::<ProcessHandle, Error>(Error::ResolutionDenied(os_code)),
{
    if kr == KERN_SUCCESS {
        Ok(task)
    } else {
        Err(Error::ResolutionDenied(os_code))
    }
}

/// Decide the result of a read from the kernel status `kr`, the number of
/// bytes `expected` (the destination buffer's length as handed to the kernel),
/// the number `actual` the kernel says it moved, and the OS error code
/// `os_code` read immediately after the call.
///
/// The read succeeds exactly when the kernel reported success and moved
/// precisely the requested number of bytes.  A non-success status becomes an
/// `OsError`; a successful status with a mismatched count becomes a
/// `ShortTransfer`, never a partial success.  A zero-byte request for which
/// the kernel moved zero bytes therefore succeeds trivially.
pub fn copy_outcome(kr: i32, expected: u64, actual: u64, os_code: i32) -> (r: Result<(), Error>)
    ensures
        r.is_ok() <==> (kr == KERN_SUCCESS && actual == expected),
        kr != KERN_SUCCESS ==> r == Err::<(), Error>(Error::OsError(os_code)),
        kr == KERN_SUCCESS && actual != expected ==> r == Err::<(), Error>(
            (Error::ShortTransfer { expected, actual }),
        ),
{
    if kr != KERN_SUCCESS {
        Err(Error::OsError(os_code))
    } else if actual == expected {
        Ok(())
    } else {
        Err(Error::ShortTransfer { expected, actual })
    }
}

/// Decide the result of a write from the kernel status `kr` it returned and
/// the OS error code `os_code` read immediately after the call.
///
/// The write succeeds exactly when the kernel reported success; every other
/// status becomes an `OsError`.  The kernel's write primitive reports no
/// byte count, so—deliberately, and unlike the read path—there is no
/// short-transfer check here.
pub fn put_outcome(kr: i32, os_code: i32) -> (r: Result<(), Error>)
    ensures
        r.is_ok() <==> kr == KERN_SUCCESS,
        kr != KERN_SUCCESS ==> r == Err::<(), Error>(Error::OsError(os_code)),
{
    if kr == KERN_SUCCESS {
        Ok(())
    } else {
        Err(Error::OsError(os_code))
    }
}

} // verus!
