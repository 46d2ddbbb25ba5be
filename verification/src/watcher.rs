//! Observing the exit of one tracked process.

use crate::channel::{poll_receiver, recv_error_text, Arrival};
use crate::status::NO_EXIT_CODE;
use crate::text::{join, push_decimal};
use std::task::Context;
use tokio::sync::oneshot::Receiver;
use vstd::prelude::*;

#[allow(unused_imports)]
use crate::channel::{arriving, waiting, wakes};
#[allow(unused_imports)]
use crate::text::{decimal, optional_text};

verus! {

/// Observes the eventual exit code of a tracked process.
///
/// Processes terminated by a signal resolve to `-1`. If the process manager drops the
/// notification, the watcher also resolves to `-1`, with a warning to log.
pub struct ProcessExitWatcher {
    pid: i32,
    receiver: Receiver<i32>,
}

/// What a watcher resolves to.
pub struct ExitNotice {
    /// The exit code.
    pub code: i32,
    /// What to log, if the notification was dropped.
    pub warning: Option<String>,
}

/// What one poll of a watcher gives.
pub enum ExitPoll {
    /// The process has not been reaped yet. The watcher can be polled again.
    Pending(ProcessExitWatcher),
    /// The watcher has resolved.
    Ready(ExitNotice),
}

/// What is logged where the notification for `pid` was dropped, for the reason `error`.
pub open spec fn dropped_warning(pid: int, error: Seq<char>) -> Seq<char> {
    "agentd: process manager dropped the exit notification for PID "@ + decimal(pid) + ": "@ + error
}

impl ExitNotice {
    /// Whether the notice is that of `pid` exiting with `exit`, or, where `exit` is `None`, that
    /// of its notification having been dropped for the reason `error`.
    pub open spec fn is_notice_of(self, pid: int, exit: Option<i32>, error: Seq<char>) -> bool {
        match exit {
            Some(code) => self.code == code && self.warning is None,
            None => {
                &&& self.code == NO_EXIT_CODE
                &&& optional_text(self.warning) == Some(dropped_warning(pid, error))
            },
        }
    }
}

/// Turns the end of a notification channel into what the watcher of `pid` resolves to: the code
/// that was sent, or `-1` and a warning where the channel failed with `error`.
pub fn resolve(pid: i32, outcome: Result<i32, String>) -> (notice: ExitNotice)
    ensures
        match outcome {
            Ok(code) => notice.is_notice_of(pid as int, Some(code), Seq::empty()),
            Err(error) => notice.is_notice_of(pid as int, None, error@),
        },
        outcome matches Ok(code) ==> notice.code == code && notice.warning is None,
        outcome is Err ==> notice.code == -1 && notice.warning is Some,
{
    match outcome {
        Ok(code) => ExitNotice { code, warning: None },
        Err(error) => {
            let mut warning: String =
                "agentd: process manager dropped the exit notification for PID ".to_owned();
            push_decimal(&mut warning, pid);
            ExitNotice {
                code: NO_EXIT_CODE,
                warning: Some(join(join(warning.as_str(), ": ").as_str(), error.as_str())),
            }
        },
    }
}

/// Turns what a notification channel gives when it is asked into what the watcher of `pid` makes
/// of it: nothing as long as nothing has arrived, and else what [`resolve`] gives.
pub fn settle(pid: i32, arrival: Option<Result<i32, String>>) -> (settled: Option<ExitNotice>)
    ensures
        match arrival {
            None => settled is None,
            Some(Ok(code)) => {
                &&& settled is Some
                &&& settled->Some_0.is_notice_of(pid as int, Some(code), Seq::empty())
            },
            Some(Err(error)) => {
                &&& settled is Some
                &&& settled->Some_0.is_notice_of(pid as int, None, error@)
            },
        },
        settled is None <==> arrival is None,
        arrival matches Some(Ok(code)) ==> settled->Some_0.code == code,
        arrival matches Some(Err(_)) ==> settled->Some_0.code == -1,
{
    match arrival {
        None => None,
        Some(outcome) => Some(resolve(pid, outcome)),
    }
}

impl ProcessExitWatcher {
    #[verifier::type_invariant]
    spec fn pollable(self) -> bool {
        waiting(self.receiver)
    }

    /// The process that is watched.
    pub closed spec fn pid(self) -> i32 {
        self.pid
    }

    /// The receiver that the watcher is told through.
    pub closed spec fn channel(self) -> Receiver<i32> {
        self.receiver
    }

    /// The exit code that the process manager ever reports to this watcher; `None` if it drops
    /// the notification.
    pub open spec fn exit(self) -> Option<i32> {
        arriving(self.channel())
    }

    /// Whether the watcher has left the task of `cx` to be woken: at once, or when it can resolve.
    pub open spec fn will_wake(self, cx: Context<'_>) -> bool {
        wakes(self.channel(), cx)
    }

    /// A watcher of `pid` that is told through `receiver`.
    pub(crate) fn new(pid: i32, receiver: Receiver<i32>) -> (watcher: Self)
        requires
            waiting(receiver),
        ensures
            watcher.pid() == pid,
            watcher.channel() == receiver,
            watcher.exit() == arriving(receiver),
    {
        ProcessExitWatcher { pid, receiver }
    }

    /// Asks whether the process has been reaped, and leaves the task of `cx` to be woken if not.
    ///
    /// When the watcher resolves is up to the process manager and left open. If it does, then to
    /// the code that it is told, or to `-1` where it is told none.
    pub fn poll(self, cx: &mut Context<'_>) -> (poll: ExitPoll)
        ensures
            match poll {
                ExitPoll::Pending(watcher) => {
                    &&& watcher.pid() == self.pid()
                    &&& watcher.exit() == self.exit()
                    &&& watcher.will_wake(*old(cx))
                    &&& wakes(watcher.channel(), *old(cx))
                    &&& arriving(watcher.channel()) == arriving(self.channel())
                },
                ExitPoll::Ready(notice) => notice.is_notice_of(
                    self.pid() as int,
                    self.exit(),
                    "channel closed"@,
                ),
            },
            poll matches ExitPoll::Ready(notice) ==> match arriving(self.channel()) {
                Some(code) => notice.code == code && notice.warning is None,
                None => notice.code == -1 && notice.warning is Some,
            },
    {
        proof {
            use_type_invariant(&self);
        }
        let pid: i32 = self.pid;
        let (later, arrival) = match poll_receiver(self.receiver, cx) {
            Arrival::Pending(receiver) => (Some(receiver), None),
            Arrival::Value(code) => (None, Some(Ok(code))),
            Arrival::Closed(error) => (None, Some(Err(recv_error_text(&error)))),
        };
        match settle(pid, arrival) {
            Some(notice) => ExitPoll::Ready(notice),
            None => ExitPoll::Pending(ProcessExitWatcher { pid, receiver: later.unwrap() }),
        }
    }
}

} // verus!
