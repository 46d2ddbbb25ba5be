//! What the operating system reports about a child: wait statuses and error numbers.

use vstd::prelude::*;

verus! {

/// The code that stands for a child which did not exit normally, or whose exit went unseen.
pub const NO_EXIT_CODE: i32 = -1;

/// The number of `EINTR` on Linux: a signal interrupted the call.
pub const LINUX_EINTR: i32 = 4;

/// The number of `ECHILD` on Linux: the caller has no child left.
pub const LINUX_ECHILD: i32 = 10;

/// Whether a wait status is that of a child which returned from `main` or called `exit`.
///
/// Linux keeps the number of a terminating signal in the low seven bits.
pub open spec fn exited_normally(status: i32) -> bool {
    (status & 0x7f) == 0
}

/// The code with which a child that exited normally did so: bits 8 to 15 of its status.
pub open spec fn status_code(status: i32) -> i32 {
    (status >> 8) & 0xff
}

/// The exit code that a wait status stands for: the child's own, or `-1` where it did not
/// exit normally.
pub open spec fn exit_code_of(status: i32) -> i32 {
    if exited_normally(status) {
        status_code(status)
    } else {
        NO_EXIT_CODE
    }
}

/// `libc::WIFEXITED`. Trusted: on Linux it tests that the low seven bits of the status are
/// clear.
pub assume_specification [ libc::WIFEXITED ] (status: i32) -> (exited: bool)
    ensures
        exited == exited_normally(status),
;

/// `libc::WEXITSTATUS`. Trusted: on Linux it extracts bits 8 to 15 of the status.
pub assume_specification [ libc::WEXITSTATUS ] (status: i32) -> (code: i32)
    ensures
        code == status_code(status),
;

/// Maps a wait status to the exit code that a watcher resolves to.
pub fn exit_code(status: i32) -> (code: i32)
    ensures
        code == exit_code_of(status),
        (status & 0x7f) == 0 ==> code == (status >> 8) & 0xff,
        (status & 0x7f) != 0 ==> code == -1,
{
    if libc::WIFEXITED(status) {
        libc::WEXITSTATUS(status)
    } else {
        NO_EXIT_CODE
    }
}

/// The constant `libc::EINTR`. Trusted: its value on Linux.
#[verifier::external_body]
pub(crate) fn interrupted_errno() -> (errno: i32)
    ensures
        errno == LINUX_EINTR,
{
    libc::EINTR
}

/// The constant `libc::ECHILD`. Trusted: its value on Linux.
#[verifier::external_body]
pub(crate) fn no_child_errno() -> (errno: i32)
    ensures
        errno == LINUX_ECHILD,
{
    libc::ECHILD
}

/// What one wait for any child, without blocking, asks the reaper to do next.
#[derive(Debug, Clone, Copy, PartialEq, Eq, Structural)]
pub enum ReapStep {
    /// Wait once more.
    Again,
    /// The pass is over.
    Done,
    /// The pass is over because waiting failed, which is to be reported.
    Failed,
}

/// What follows a wait that returned `pid` and, where that is negative, failed with `errno`.
pub open spec fn step_after_wait(pid: i32, errno: Option<i32>) -> ReapStep {
    if pid > 0 {
        ReapStep::Again
    } else if pid == 0 {
        ReapStep::Done
    } else if errno == Some(LINUX_EINTR) {
        ReapStep::Again
    } else if errno == Some(LINUX_ECHILD) {
        ReapStep::Done
    } else {
        ReapStep::Failed
    }
}

/// Decides what follows a wait that returned `pid` and, where that is negative, failed with
/// `errno`: another wait after a reaped child or an interruption, the end of the pass once no
/// exited child or no child at all is left, and a report of any other failure.
pub(crate) fn next_step(pid: i32, errno: Option<i32>) -> (step: ReapStep)
    ensures
        step == step_after_wait(pid, errno),
{
    if pid > 0 {
        return ReapStep::Again;
    }
    if pid == 0 {
        return ReapStep::Done;
    }
    match errno {
        Some(number) => {
            if number == interrupted_errno() {
                ReapStep::Again
            } else if number == no_child_errno() {
                ReapStep::Done
            } else {
                ReapStep::Failed
            }
        },
        None => ReapStep::Failed,
    }
}

} // verus!
