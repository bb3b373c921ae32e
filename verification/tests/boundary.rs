use read_process_memory::boundary::{copy_outcome, put_outcome, resolve_outcome};
use read_process_memory::error::{Error, KERN_SUCCESS};
use read_process_memory::ProcessHandle;

#[test]
fn resolve_success_hands_back_the_task() {
    let task: ProcessHandle = 0x1903;
    assert_eq!(resolve_outcome(KERN_SUCCESS, task, 0), Ok(task));
}

#[test]
fn resolve_denied_never_hands_back_a_handle() {
    // A pid that no longer exists, or one the caller may not inspect,
    // surfaces as a denial carrying the OS code, never as a handle.
    let r = resolve_outcome(5, 0, 3);
    assert_eq!(r, Err(Error::ResolutionDenied(3)));
    let r = resolve_outcome(-1, 0xdead, 1);
    assert_eq!(r, Err(Error::ResolutionDenied(1)));
}

#[test]
fn copy_succeeds_only_on_exact_transfer() {
    assert_eq!(copy_outcome(KERN_SUCCESS, 16, 16, 0), Ok(()));
    assert_eq!(
        copy_outcome(KERN_SUCCESS, 16, 7, 0),
        Err(Error::ShortTransfer {
            expected: 16,
            actual: 7
        })
    );
    assert_eq!(
        copy_outcome(KERN_SUCCESS, 16, 32, 0),
        Err(Error::ShortTransfer {
            expected: 16,
            actual: 32
        })
    );
}

#[test]
fn copy_kernel_failure_is_an_os_error() {
    // The kernel status takes precedence: whatever byte count is reported,
    // a non-success status is an OS error with the code read after the call.
    assert_eq!(copy_outcome(1, 16, 16, 14), Err(Error::OsError(14)));
    assert_eq!(copy_outcome(2, 16, 0, 13), Err(Error::OsError(13)));
}

#[test]
fn copy_zero_bytes_succeeds_trivially() {
    assert_eq!(copy_outcome(KERN_SUCCESS, 0, 0, 0), Ok(()));
}

#[test]
fn put_succeeds_exactly_on_kernel_success() {
    assert_eq!(put_outcome(KERN_SUCCESS, 0), Ok(()));
    assert_eq!(put_outcome(2, 13), Err(Error::OsError(13)));
    assert_eq!(put_outcome(-308, 22), Err(Error::OsError(22)));
}
