//! The uniform failure model: every kernel-level denial or broken transfer
//! is surfaced to the caller as one of these typed variants, with enough
//! platform detail (the native status code, or the expected and actual byte
//! counts) for the caller to decide its own retry or abort policy.

use vstd::prelude::*;

verus! {

/// The kernel status code that means success.
pub const KERN_SUCCESS: i32 = 0;

/// The kernel status code for an address range that is not mapped in the
/// target task.
pub const KERN_INVALID_ADDRESS: i32 = 1;

/// The kernel status code for an access that the page protection forbids.
pub const KERN_PROTECTION_FAILURE: i32 = 2;

/// A failed process-memory operation.
///
/// Failures are never retried or suppressed here: each one is reported
/// immediately and verbatim, since this layer has no basis for deciding
/// whether a failure is transient or permanent.
#[derive(Clone, Copy, Debug, PartialEq, Eq, Structural)]
pub enum Error {
    /// The resolver could not obtain a task capability for the requested
    /// process identifier (no such process, insufficient privilege, or a
    /// sandbox denial).  Carries the OS error code observed at the call.
    ResolutionDenied(i32),
    /// A read or write kernel call returned a non-success status.  Carries
    /// the platform-native status code, preserved for diagnosis.
    OsError(i32),
    /// A read completed without a kernel error, yet moved a different number
    /// of bytes than requested.  The exact-size contract makes this an error
    /// rather than a partial success: a caller never receives a partially
    /// filled buffer that is reported as success.
    ShortTransfer { expected: u64, actual: u64 },
}

} // verus!
