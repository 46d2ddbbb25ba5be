//! The life of the manager's thread: how it is launched, what it does, and how it ends.

use crate::text::join;
use vstd::prelude::*;

verus! {

/// How the launch of the manager's thread went.
pub enum Launch {
    /// The thread reported that it is ready, or why it is not.
    Reported(Result<(), String>),
    /// The thread went away without a report; waiting for one failed for the stated reason.
    ReportLost(String),
    /// The thread could not be spawned, for the stated reason.
    NotSpawned(String),
}

/// Why a launch failed, if so.
pub open spec fn launch_error(launch: Launch) -> Option<Seq<char>> {
    match launch {
        Launch::Reported(Ok(())) => None,
        Launch::Reported(Err(error)) => Some(error@),
        Launch::ReportLost(error) => Some("receive thread startup: "@ + error@),
        Launch::NotSpawned(error) => Some("spawn process manager thread: "@ + error@),
    }
}

/// Turns how a launch went into its result.
pub fn startup_result(launch: Launch) -> (result: Result<(), String>)
    ensures
        match launch_error(launch) {
            Some(error) => result is Err && result->Err_0@ == error,
            None => result is Ok,
        },
        result is Ok <==> (launch matches Launch::Reported(Ok(_))),
        launch matches Launch::Reported(Err(error)) ==> result->Err_0@ == error@,
{
    match launch {
        Launch::Reported(result) => result,
        Launch::ReportLost(error) => Err(join("receive thread startup: ", error.as_str())),
        Launch::NotSpawned(error) => Err(join("spawn process manager thread: ", error.as_str())),
    }
}

/// How the manager's thread ended.
pub enum ThreadEnd {
    /// Its body returned.
    Returned(Result<(), String>),
    /// Its body panicked.
    Panicked,
}

/// Why the manager has terminated, where its thread ended like `end`.
pub open spec fn end_reason(end: ThreadEnd) -> Seq<char> {
    match end {
        ThreadEnd::Returned(Ok(())) => "process manager thread stopped unexpectedly"@,
        ThreadEnd::Returned(Err(error)) => error@,
        ThreadEnd::Panicked => "process manager thread panicked"@,
    }
}

/// Turns how the manager's thread ended into the reason for which the manager terminates.
pub fn thread_failure(end: ThreadEnd) -> (reason: String)
    ensures
        reason@ == end_reason(end),
        end matches ThreadEnd::Returned(Err(error)) ==> reason@ == error@,
{
    match end {
        ThreadEnd::Returned(Ok(())) => "process manager thread stopped unexpectedly".to_owned(),
        ThreadEnd::Returned(Err(error)) => error,
        ThreadEnd::Panicked => "process manager thread panicked".to_owned(),
    }
}

/// What the manager's thread does next.
///
/// The thread carries the step out and hands its outcome to [`ThreadStep::next`].
pub enum ThreadStep {
    /// Build the runtime that the signal listener needs.
    BuildRuntime,
    /// Install the `SIGCHLD` listener.
    InstallListener,
    /// Report to the launching thread that the manager is ready.
    ReportReady,
    /// Report to the launching thread why the manager is not ready.
    ReportFailure(String),
    /// Run a reap pass.
    Reap,
    /// Wait for the next `SIGCHLD`; the step fails once the listener has closed.
    AwaitSignal,
    /// Return from the thread with the stated error.
    Finish(String),
}

/// A [`ThreadStep`] with its text.
pub enum StepView {
    BuildRuntime,
    InstallListener,
    ReportReady,
    ReportFailure(Seq<char>),
    Reap,
    AwaitSignal,
    Finish(Seq<char>),
}

impl View for ThreadStep {
    type V = StepView;

    open spec fn view(&self) -> StepView {
        match self {
            ThreadStep::BuildRuntime => StepView::BuildRuntime,
            ThreadStep::InstallListener => StepView::InstallListener,
            ThreadStep::ReportReady => StepView::ReportReady,
            ThreadStep::ReportFailure(error) => StepView::ReportFailure(error@),
            ThreadStep::Reap => StepView::Reap,
            ThreadStep::AwaitSignal => StepView::AwaitSignal,
            ThreadStep::Finish(error) => StepView::Finish(error@),
        }
    }
}

/// The outcome of a step: `None`, or the text of its error.
pub open spec fn outcome_error(outcome: Result<(), String>) -> Option<Seq<char>> {
    match outcome {
        Ok(()) => None,
        Err(error) => Some(error@),
    }
}

impl StepView {
    /// The step that follows this one, where `error` is its outcome. What became of a report or
    /// of a reap pass makes no difference.
    pub open spec fn after(self, error: Option<Seq<char>>) -> StepView {
        match self {
            StepView::BuildRuntime => match error {
                None => StepView::InstallListener,
                Some(text) => StepView::ReportFailure(
                    "build process manager Tokio runtime: "@ + text,
                ),
            },
            StepView::InstallListener => match error {
                None => StepView::ReportReady,
                Some(text) => StepView::ReportFailure(
                    "install process manager SIGCHLD listener: "@ + text,
                ),
            },
            StepView::ReportReady => StepView::Reap,
            StepView::ReportFailure(text) => StepView::Finish(text),
            StepView::Reap => StepView::AwaitSignal,
            StepView::AwaitSignal => match error {
                None => StepView::Reap,
                Some(_) => StepView::Finish("process manager SIGCHLD listener closed"@),
            },
            StepView::Finish(text) => StepView::Finish(text),
        }
    }
}

impl ThreadStep {
    /// The first step.
    pub fn first() -> (step: Self)
        ensures
            step@ == StepView::BuildRuntime,
            step is BuildRuntime,
    {
        ThreadStep::BuildRuntime
    }

    /// The step that follows this one, given its outcome.
    pub fn next(self, outcome: Result<(), String>) -> (step: Self)
        ensures
            step@ == self@.after(outcome_error(outcome)),
            self is BuildRuntime && outcome is Ok ==> step is InstallListener,
            self is InstallListener && outcome is Ok ==> step is ReportReady,
            self is BuildRuntime || self is InstallListener ==> (outcome is Err
                <==> step is ReportFailure),
            self is ReportReady ==> step is Reap,
            self is Reap ==> step is AwaitSignal,
            self is AwaitSignal && outcome is Ok ==> step is Reap,
            self is AwaitSignal && outcome is Err ==> step is Finish,
            self matches ThreadStep::ReportFailure(error) ==> step == ThreadStep::Finish(error),
            self is Finish ==> step == self,
    {
        match self {
            ThreadStep::BuildRuntime => match outcome {
                Ok(()) => ThreadStep::InstallListener,
                Err(error) => ThreadStep::ReportFailure(
                    join("build process manager Tokio runtime: ", error.as_str()),
                ),
            },
            ThreadStep::InstallListener => match outcome {
                Ok(()) => ThreadStep::ReportReady,
                Err(error) => ThreadStep::ReportFailure(
                    join("install process manager SIGCHLD listener: ", error.as_str()),
                ),
            },
            ThreadStep::ReportReady => ThreadStep::Reap,
            ThreadStep::ReportFailure(error) => ThreadStep::Finish(error),
            ThreadStep::Reap => ThreadStep::AwaitSignal,
            ThreadStep::AwaitSignal => match outcome {
                Ok(()) => ThreadStep::Reap,
                Err(_) => ThreadStep::Finish("process manager SIGCHLD listener closed".to_owned()),
            },
            ThreadStep::Finish(error) => ThreadStep::Finish(error),
        }
    }
}

} // verus!
