use agentd_process::launch::startup_result;
use agentd_process::{
    exit_code, reap_warning, resolve, settle, thread_failure, Launch, ThreadEnd, ThreadStep,
};

/// The name of a step, with its text.
fn show(step: &ThreadStep) -> String {
    match step {
        ThreadStep::BuildRuntime => "build".to_string(),
        ThreadStep::InstallListener => "install".to_string(),
        ThreadStep::ReportReady => "ready".to_string(),
        ThreadStep::ReportFailure(error) => format!("report {error}"),
        ThreadStep::Reap => "reap".to_string(),
        ThreadStep::AwaitSignal => "await".to_string(),
        ThreadStep::Finish(error) => format!("finish {error}"),
    }
}

/// The steps that a thread takes under the given outcomes.
fn steps(outcomes: Vec<Result<(), String>>) -> Vec<String> {
    let mut step = ThreadStep::first();
    let mut shown = vec![show(&step)];
    for outcome in outcomes {
        step = step.next(outcome);
        shown.push(show(&step));
    }
    shown
}

#[test]
fn exit_codes_are_those_of_libc() {
    for code in 0..256 {
        assert_eq!(exit_code(code << 8), code);
    }
    for signal in 1..127 {
        assert_eq!(exit_code(signal), -1);
        assert_eq!(exit_code(signal | 0x80), -1);
    }
    for status in [i32::MIN, -1, 0x7f, 0x137f, 0xffff, i32::MAX] {
        let expected = if libc::WIFEXITED(status) {
            libc::WEXITSTATUS(status)
        } else {
            -1
        };
        assert_eq!(exit_code(status), expected);
    }
}

#[test]
fn outcomes_resolve_to_codes_and_warnings() {
    let notice = resolve(5, Ok(41));
    assert_eq!((notice.code, notice.warning), (41, None));
    let notice = resolve(-17, Err("gone".to_string()));
    assert_eq!(notice.code, -1);
    assert_eq!(
        notice.warning.as_deref(),
        Some("agentd: process manager dropped the exit notification for PID -17: gone")
    );
}

#[test]
fn arrivals_settle_once_something_has_arrived() {
    assert!(settle(5, None).is_none());
    let notice = settle(5, Some(Ok(42))).expect("arrived");
    assert_eq!((notice.code, notice.warning), (42, None));
    let notice = settle(6, Some(Err("gone".to_string()))).expect("arrived");
    assert_eq!(notice.code, -1);
    assert_eq!(
        notice.warning.as_deref(),
        Some("agentd: process manager dropped the exit notification for PID 6: gone")
    );
}

#[test]
fn launches_have_results() {
    assert_eq!(startup_result(Launch::Reported(Ok(()))), Ok(()));
    assert_eq!(
        startup_result(Launch::Reported(Err("why".to_string()))),
        Err("why".to_string())
    );
    assert_eq!(
        startup_result(Launch::ReportLost("closed".to_string())),
        Err("receive thread startup: closed".to_string())
    );
    assert_eq!(
        startup_result(Launch::NotSpawned("limit".to_string())),
        Err("spawn process manager thread: limit".to_string())
    );
}

#[test]
fn thread_ends_have_reasons() {
    assert_eq!(
        thread_failure(ThreadEnd::Returned(Ok(()))),
        "process manager thread stopped unexpectedly"
    );
    assert_eq!(
        thread_failure(ThreadEnd::Returned(Err("broken".to_string()))),
        "broken"
    );
    assert_eq!(
        thread_failure(ThreadEnd::Panicked),
        "process manager thread panicked"
    );
}

#[test]
fn a_thread_that_starts_reaps_first_and_after_each_signal() {
    assert_eq!(
        steps(vec![
            Ok(()),
            Ok(()),
            Err("nobody listens".to_string()),
            Ok(()),
            Ok(()),
            Ok(()),
            Err(String::new()),
            Ok(()),
        ]),
        [
            "build",
            "install",
            "ready",
            "reap",
            "await",
            "reap",
            "await",
            "finish process manager SIGCHLD listener closed",
            "finish process manager SIGCHLD listener closed",
        ]
    );
}

#[test]
fn a_thread_that_cannot_start_reports_why() {
    assert_eq!(
        steps(vec![Err("no epoll".to_string()), Ok(())]),
        [
            "build",
            "report build process manager Tokio runtime: no epoll",
            "finish build process manager Tokio runtime: no epoll",
        ]
    );
    assert_eq!(
        steps(vec![Ok(()), Err("no pipe".to_string()), Ok(())]),
        [
            "build",
            "install",
            "report install process manager SIGCHLD listener: no pipe",
            "finish install process manager SIGCHLD listener: no pipe",
        ]
    );
}

#[test]
fn failed_waits_are_reported() {
    assert_eq!(
        reap_warning("Invalid argument (os error 22)"),
        "agentd: waitpid failed while reaping processes: Invalid argument (os error 22)"
    );
}
