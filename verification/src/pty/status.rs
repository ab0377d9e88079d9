//! How the child ended, and the exit code that the supervisor reports for it.

use vstd::prelude::*;

verus! {

/// What waiting for the child reported.
#[derive(Clone, Copy, Debug, PartialEq, Eq, Structural)]
pub enum ChildStatus {
    /// The child exited on its own with this status.
    Exited(i32),
    /// The child was killed by the signal with this number.
    Signaled(u8),
    /// Any other report (stopped, continued, still alive).
    Other,
}

/// The exit code for a child that ended as `status` says.
pub open spec fn spec_exit_code(status: ChildStatus) -> int {
    match status {
        ChildStatus::Exited(code) => code as int,
        ChildStatus::Signaled(signal) => 128 + signal,
        ChildStatus::Other => 1,
    }
}

/// The supervisor's exit code: the child's own status if it exited, 128 plus
/// the signal's number if a signal killed it, and 1 otherwise.
pub fn exit_code(status: ChildStatus) -> (code: i32)
    ensures
        code == spec_exit_code(status),
        status matches ChildStatus::Exited(n) ==> code == n,
        status matches ChildStatus::Signaled(s) ==> code == 128 + s,
{
    match status {
        ChildStatus::Exited(code) => code,
        ChildStatus::Signaled(signal) => {
            let s: i32 = signal as i32;
            128 + s
        },
        ChildStatus::Other => 1,
    }
}

} // verus!
