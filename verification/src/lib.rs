//! Cross-process memory access, modelled and verified.
//!
//! The library is the reasoning core of a process-memory transport: it owns
//! the failure taxonomy, the translation of raw kernel status codes into that
//! taxonomy, and a byte-exact model of what a read or write of a target page
//! must do.  The privileged kernel primitives themselves cannot be called from
//! verified code; a thin shell performs them and hands every raw outcome to
//! the functions here, so that no unchecked status code escapes the boundary.

use vstd::prelude::*;

pub mod boundary;
pub mod error;
pub mod page;

verus! {

/// An OS-assigned integer naming a running process.  Supplied by the caller,
/// never generated here.
pub type Pid = i32;

/// An opaque task capability token, as the kernel hands it out: a name for
/// the target task that authorizes reading and writing its address space.
/// It is a lightweight identifier, not a held resource; it stays valid only
/// as long as the target process does, and staleness surfaces as an OS error
/// on the next operation rather than being tracked here.
pub type ProcessHandle = u32;

} // verus!
