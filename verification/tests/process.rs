use agentd_process::{
    AgentdResult, ExitPoll, Launch, ProcessExitWatcher, ProcessManager, ProcessManagerState,
    ProcessSpawnGuard, ReapStep, SpawnSlot,
};
use std::future::poll_fn;
use std::sync::atomic::{AtomicUsize, Ordering};
use std::sync::Arc;
use std::task::{Context, Poll, Wake, Waker};

/// Counts how often a task is woken.
struct WakeCount(AtomicUsize);

impl Wake for WakeCount {
    fn wake(self: Arc<Self>) {
        self.0.fetch_add(1, Ordering::SeqCst);
    }
}

/// Acquires a guard where no reap pass is under way.
fn acquire(manager: &mut ProcessManager, slot: &mut SpawnSlot) -> AgentdResult<ProcessSpawnGuard> {
    let guard = manager.spawn_guard(slot)?;
    Ok(guard.expect("no reap pass is under way"))
}

/// Tracks `pid` in a spawn section of its own.
fn track(manager: &mut ProcessManager, pid: i32) -> AgentdResult<ProcessExitWatcher> {
    let mut slot = SpawnSlot::new();
    let guard = acquire(manager, &mut slot).expect("acquire process spawn guard");
    guard.track(manager, &mut slot, pid)
}

/// Polls until the watcher resolves, and gives its code and warning.
fn block_on(watcher: ProcessExitWatcher) -> (i32, Option<String>) {
    let runtime = tokio::runtime::Builder::new_current_thread()
        .build()
        .expect("test runtime");
    let mut waiting = Some(watcher);
    runtime.block_on(poll_fn(move |cx| {
        match waiting.take().expect("not resolved yet").poll(cx) {
            ExitPoll::Pending(watcher) => {
                waiting = Some(watcher);
                Poll::Pending
            }
            ExitPoll::Ready(notice) => Poll::Ready((notice.code, notice.warning)),
        }
    }))
}

/// Polls once, and gives the watcher back where it is pending.
fn poll_once(watcher: ProcessExitWatcher) -> Result<(i32, Option<String>), ProcessExitWatcher> {
    let runtime = tokio::runtime::Builder::new_current_thread()
        .build()
        .expect("test runtime");
    let mut waiting = Some(watcher);
    runtime.block_on(poll_fn(move |cx| {
        match waiting.take().expect("polled once").poll(cx) {
            ExitPoll::Pending(watcher) => Poll::Ready(Err(watcher)),
            ExitPoll::Ready(notice) => Poll::Ready(Ok((notice.code, notice.warning))),
        }
    }))
}

#[test]
fn invalid_pids_are_rejected() {
    let mut manager = ProcessManager::new();
    let mut slot = SpawnSlot::new();
    for pid in [-1, 0] {
        let error = match acquire(&mut manager, &mut slot)
            .expect("acquire process spawn guard")
            .track(&mut manager, &mut slot, pid)
        {
            Ok(_) => panic!("invalid PID should be rejected"),
            Err(error) => error,
        };
        assert!(error.message().contains(&pid.to_string()));
    }
}

#[test]
fn nested_spawn_guards_are_rejected() {
    let mut manager = ProcessManager::new();
    let mut slot = SpawnSlot::new();
    let first = acquire(&mut manager, &mut slot).expect("acquire first process spawn guard");
    let error = match manager.spawn_guard(&mut slot) {
        Ok(_) => panic!("nested process spawn guard should be rejected"),
        Err(error) => error,
    };
    assert!(error.message().contains("already holds"));

    first.release(&mut manager, &mut slot);
    acquire(&mut manager, &mut slot)
        .expect("guard should be available after drop")
        .release(&mut manager, &mut slot);
}

#[test]
fn terminal_failure_rejects_spawns_and_wakes_exits() {
    let mut manager = ProcessManager::new();
    let mut slot = SpawnSlot::new();
    let exit_watcher = acquire(&mut manager, &mut slot)
        .expect("acquire process spawn guard")
        .track(&mut manager, &mut slot, 12345)
        .expect("track test PID");

    assert!(manager.fail("process manager test failure"));

    assert!(manager.result().is_err());
    assert!(manager.spawn_guard(&mut slot).is_err());
    assert_eq!(block_on(exit_watcher).0, -1);
}

#[test]
fn concurrent_sections_close_before_a_pass_starts() {
    let mut manager = ProcessManager::new();
    let mut first_slot = SpawnSlot::new();
    let mut second_slot = SpawnSlot::new();
    let first = acquire(&mut manager, &mut first_slot).expect("first guard");
    let second = acquire(&mut manager, &mut second_slot).expect("second guard");
    assert_eq!(manager.open_spawns(), 2);
    assert!(!manager.begin_reap());

    let first_watcher = first
        .track(&mut manager, &mut first_slot, 501)
        .expect("track first child");
    assert!(!manager.begin_reap());
    let second_watcher = second
        .track(&mut manager, &mut second_slot, 502)
        .expect("track second child");
    assert_eq!(manager.open_spawns(), 0);

    assert!(manager.begin_reap());
    assert!(manager.is_reaping());
    assert_eq!(manager.reap_exited(502, 42 << 8, None), ReapStep::Again);
    assert_eq!(manager.reap_exited(501, 41 << 8, None), ReapStep::Again);
    assert_eq!(manager.reap_exited(503, 43 << 8, None), ReapStep::Again);
    assert_eq!(manager.reap_exited(-1, 0, Some(libc::ECHILD)), ReapStep::Done);
    assert!(!manager.is_reaping());

    assert_eq!(block_on(first_watcher), (41, None));
    assert_eq!(block_on(second_watcher), (42, None));
}

#[test]
fn a_pass_makes_spawns_wait() {
    let mut manager = ProcessManager::new();
    let mut slot = SpawnSlot::new();
    assert!(manager.begin_reap());
    assert!(!manager.begin_reap());
    assert!(!manager.fail("too early"));
    assert!(matches!(manager.spawn_guard(&mut slot), Ok(None)));
    assert!(!slot.is_held());
    manager.abandon_reap();
    assert!(!manager.is_reaping());
    assert!(matches!(manager.spawn_guard(&mut slot), Ok(Some(_))));
    assert!(slot.is_held());
    assert!(!manager.fail("a section is open"));
    assert!(manager.result().is_ok());
}

#[test]
fn guards_of_many_threads_coexist() {
    let mut manager = ProcessManager::new();
    let mut held = Vec::new();
    for count in 0..50 {
        assert_eq!(manager.open_spawns(), count);
        let mut slot = SpawnSlot::new();
        let guard = acquire(&mut manager, &mut slot).expect("acquire process spawn guard");
        held.push((guard, slot));
    }
    while let Some((guard, mut slot)) = held.pop() {
        assert!(!manager.begin_reap());
        guard.release(&mut manager, &mut slot);
        assert!(!slot.is_held());
    }
    assert!(manager.begin_reap());
}

#[test]
fn a_terminated_manager_is_empty() {
    let mut manager = ProcessManager::new();
    let watcher = track(&mut manager, 60).expect("track");
    assert!(manager.fail("terminated"));
    assert_eq!(manager.open_spawns(), 0);
    assert!(manager.begin_reap());
    assert_eq!(manager.reap_exited(60, 5 << 8, None), ReapStep::Again);
    assert_eq!(manager.reap_exited(0, 0, None), ReapStep::Done);
    assert_eq!(block_on(watcher).0, -1);
}

#[test]
fn guards_do_not_nest_across_managers() {
    let mut one = ProcessManager::new();
    let mut other = ProcessManager::new();
    let mut slot = SpawnSlot::new();
    let guard = acquire(&mut one, &mut slot).expect("guard of the first manager");
    let error = other.spawn_guard(&mut slot).err().expect("refusal");
    assert_eq!(
        error.message(),
        "the current thread already holds a process spawn guard"
    );
    assert_eq!(other.open_spawns(), 0);
    guard.release(&mut one, &mut slot);
    assert_eq!(one.open_spawns(), 0);
}

#[test]
fn refusals_to_track_name_the_pid() {
    let mut manager = ProcessManager::new();
    let error = track(&mut manager, i32::MIN).err().expect("refusal");
    assert_eq!(
        error.message(),
        "cannot track invalid process PID -2147483648"
    );
    let error = track(&mut manager, 0).err().expect("refusal");
    assert_eq!(error.message(), "cannot track invalid process PID 0");

    let watcher = track(&mut manager, i32::MAX).expect("track");
    let error = track(&mut manager, i32::MAX).err().expect("refusal");
    assert_eq!(
        error.message(),
        "process PID 2147483647 is already tracked"
    );
    assert_eq!(manager.open_spawns(), 0);

    assert!(manager.begin_reap());
    assert_eq!(manager.reap_exited(i32::MAX, 7 << 8, None), ReapStep::Again);
    assert_eq!(manager.reap_exited(0, 0, None), ReapStep::Done);
    assert_eq!(block_on(watcher), (7, None));
}

#[test]
fn a_reaped_pid_can_be_tracked_again() {
    let mut state = ProcessManagerState::new();
    let first = state.track(10).expect("track");
    assert_eq!(state.reap_exited(10, 1 << 8, None), ReapStep::Again);
    let second = state.track(10).expect("track again");
    assert_eq!(state.reap_exited(10, 2 << 8, None), ReapStep::Again);
    assert_eq!(block_on(first), (1, None));
    assert_eq!(block_on(second), (2, None));
}

#[test]
fn a_watcher_is_pending_until_its_own_child_is_reaped() {
    let mut state = ProcessManagerState::new();
    let watcher = state.track(20).expect("track");
    assert_eq!(state.reap_exited(21, 0, None), ReapStep::Again);
    let watcher = poll_once(watcher).err().expect("still pending");
    assert_eq!(state.reap_exited(20, 9, None), ReapStep::Again);
    assert_eq!(poll_once(watcher).ok(), Some((-1, None)));
}

#[test]
fn a_pending_watcher_leaves_its_task_to_be_woken() {
    let mut state = ProcessManagerState::new();
    let reaped = state.track(22).expect("track");
    let dropped = state.track(23).expect("track");
    let count = Arc::new(WakeCount(AtomicUsize::new(0)));
    let waker = Waker::from(Arc::clone(&count));
    let mut cx = Context::from_waker(&waker);
    let reaped = match reaped.poll(&mut cx) {
        ExitPoll::Pending(watcher) => watcher,
        ExitPoll::Ready(_) => panic!("nothing has been reaped"),
    };
    let dropped = match dropped.poll(&mut cx) {
        ExitPoll::Pending(watcher) => watcher,
        ExitPoll::Ready(_) => panic!("nothing has been dropped"),
    };
    assert_eq!(count.0.load(Ordering::SeqCst), 0);
    assert_eq!(state.reap_exited(22, 3 << 8, None), ReapStep::Again);
    assert_eq!(count.0.load(Ordering::SeqCst), 1);
    state.clear();
    assert_eq!(count.0.load(Ordering::SeqCst), 2);
    assert_eq!(block_on(reaped), (3, None));
    assert_eq!(block_on(dropped).0, -1);
}

#[test]
fn a_pass_goes_on_until_it_has_drained_the_children() {
    let mut manager = ProcessManager::new();
    let watcher = track(&mut manager, 70).expect("track");
    assert!(manager.begin_reap());
    assert_eq!(manager.reap_exited(-1, 0, Some(libc::EINTR)), ReapStep::Again);
    assert!(manager.is_reaping());
    assert_eq!(manager.reap_exited(70, 0, None), ReapStep::Again);
    assert!(manager.is_reaping());
    assert_eq!(manager.reap_exited(0, 0, None), ReapStep::Done);
    assert!(!manager.is_reaping());
    assert_eq!(block_on(watcher), (0, None));

    assert!(manager.begin_reap());
    assert_eq!(manager.reap_exited(-1, 0, Some(libc::EINVAL)), ReapStep::Failed);
    assert!(!manager.is_reaping());
}

#[test]
fn a_gone_watcher_does_not_disturb_reaping() {
    let mut state = ProcessManagerState::new();
    drop(state.track(30).expect("track"));
    assert_eq!(state.reap_exited(30, 0, None), ReapStep::Again);
    assert!(state.track(30).is_ok());
}

#[test]
fn a_dropped_notification_resolves_with_a_warning() {
    let mut state = ProcessManagerState::new();
    let watcher = state.track(40).expect("track");
    state.clear();
    assert_eq!(
        block_on(watcher),
        (
            -1,
            Some(
                "agentd: process manager dropped the exit notification for PID 40: channel closed"
                    .to_string()
            )
        )
    );
}

#[test]
fn a_terminated_manager_states_its_reason() {
    let mut manager = ProcessManager::new();
    let mut slot = SpawnSlot::new();
    assert!(manager.fail("first reason"));
    let error = manager.spawn_guard(&mut slot).err().expect("refusal");
    assert_eq!(error.message(), "first reason");
    assert!(!slot.is_held());
    assert_eq!(manager.open_spawns(), 0);
    assert!(manager.fail("second reason"));
    let error = manager.result().err().expect("complaint");
    assert_eq!(error.message(), "second reason");
}

#[test]
fn a_failed_start_comes_before_a_termination() {
    let mut manager = ProcessManager::new();
    manager.record_launch(Launch::Reported(Ok(())));
    assert!(manager.result().is_ok());
    manager.record_launch(Launch::NotSpawned("no memory".to_string()));
    assert!(manager.fail("terminated"));
    manager.record_launch(Launch::ReportLost("late".to_string()));
    let error = manager.result().err().expect("complaint");
    assert_eq!(
        error.message(),
        "start process manager: spawn process manager thread: no memory"
    );
}

#[test]
fn waits_decide_how_a_pass_goes_on() {
    let mut state = ProcessManagerState::new();
    assert_eq!(state.reap_exited(0, 0, None), ReapStep::Done);
    assert_eq!(state.reap_exited(-1, 0, Some(libc::EINTR)), ReapStep::Again);
    assert_eq!(state.reap_exited(-1, 0, Some(libc::ECHILD)), ReapStep::Done);
    assert_eq!(state.reap_exited(-1, 0, Some(libc::EINVAL)), ReapStep::Failed);
    assert_eq!(state.reap_exited(-1, 0, Some(4)), ReapStep::Again);
    assert_eq!(state.reap_exited(-1, 0, Some(10)), ReapStep::Done);
    assert_eq!(state.reap_exited(-1, 0, None), ReapStep::Failed);
}
