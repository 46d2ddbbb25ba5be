//! What holds of the library as a whole.
//!
//! The laws on a process manager speak of its runs: the states that it goes through under any
//! interleaving of the operations that threads ask of it.

use vstd::prelude::*;

#[allow(unused_imports)]
use crate::channel::handed_over;
#[allow(unused_imports)]
use crate::events::{happens, Event};
#[allow(unused_imports)]
use crate::launch::StepView;
#[allow(unused_imports)]
use crate::manager::{ManagerView, SpawnAnswer};
#[allow(unused_imports)]
use crate::sections::SectionsView;
#[allow(unused_imports)]
use crate::state::{table_after_wait, trackable};
#[allow(unused_imports)]
use crate::status::{exit_code_of, step_after_wait, LINUX_EINTR, NO_EXIT_CODE};
#[allow(unused_imports)]
use crate::watcher::{ExitNotice, ProcessExitWatcher};
#[allow(unused_imports)]
use tokio::sync::oneshot::Sender;

verus! {

/// Whether `states` are those that a manager, valid at first, goes through under `events`.
pub open spec fn is_run(states: Seq<ManagerView>, events: Seq<Event>) -> bool {
    &&& states.len() == events.len() + 1
    &&& states[0].valid()
    &&& forall|k: int|
        0 <= k < events.len() ==> happens(#[trigger] states[k], events[k], states[k + 1])
}

/// Whether `event` is that a wait returns `pid`.
pub open spec fn waits_for(event: Event, pid: i32) -> bool {
    event matches Event::Wait { pid: waited, .. } && waited == pid
}

/// Whether `event` is that a wait returns `pid` with `status`.
pub open spec fn reaps(event: Event, pid: i32, status: i32) -> bool {
    event matches Event::Wait { pid: waited, status: with, .. } && waited == pid && with == status
}

/// Whether `event` ends a reap pass: a wait after which the pass does not go on, or its being
/// given up.
pub open spec fn ends_pass(event: Event) -> bool {
    match event {
        Event::Wait { pid, errno, .. } => !(step_after_wait(pid, errno) is Again),
        Event::AbandonReap => true,
        _ => false,
    }
}

/// Whether a wait that returned `pid`, or failed with `errno`, leaves open whether there are more
/// exited children: it reaped one, or a signal interrupted it.
pub open spec fn inconclusive(pid: i32, errno: Option<i32>) -> bool {
    pid > 0 || (pid < 0 && errno == Some(LINUX_EINTR))
}

/// Whether `waits`, each with the PID it returned and the error number it failed with, are those
/// of one reap pass that is not given up: all but the last let it go on, and the last does not.
pub open spec fn is_pass(waits: Seq<(i32, Option<i32>)>) -> bool {
    &&& waits.len() > 0
    &&& forall|m: int|
        0 <= m < waits.len() - 1 ==> step_after_wait(#[trigger] waits[m].0, waits[m].1) is Again
    &&& !(step_after_wait(waits.last().0, waits.last().1) is Again)
}

/// Whether neither a wait returns `pid` nor the manager terminates between the events `from` and
/// `to`.
pub open spec fn undisturbed(events: Seq<Event>, pid: i32, from: int, to: int) -> bool {
    forall|m: int|
        from < m < to ==> !waits_for(#[trigger] events[m], pid) && !(events[m] is Fail)
}

/// Whether `event` is that the spawn guard of `section` is given out.
pub open spec fn gives_out(event: Event, section: nat) -> bool {
    event matches Event::OpenSpawn { section: opened } && opened == section
}

/// Whether `event` is that the spawn guard of `section` is given back, by tracking a process or
/// without.
pub open spec fn gives_back(event: Event, section: nat) -> bool {
    match event {
        Event::CloseSpawn { section: closed } => closed == section,
        Event::Track { section: closed, .. } => closed == section,
        _ => false,
    }
}

/// At any time of any run the manager is valid: in particular reap passes exclude spawn sections,
/// and only positive PIDs are tracked.
pub proof fn law_always_valid(states: Seq<ManagerView>, events: Seq<Event>, k: int)
    requires
        is_run(states, events),
        0 <= k < states.len(),
    ensures
        states[k].valid(),
    decreases k,
{
    if k > 0 {
        law_always_valid(states, events, k - 1);
        assert(happens(states[k - 1], events[k - 1], states[k]));
    }
}

/// A manager that has terminated tracks nothing and has no spawn section open.
pub proof fn law_terminated_manager_is_empty(states: Seq<ManagerView>, events: Seq<Event>, k: int)
    requires
        is_run(states, events),
        0 <= k < states.len(),
        states[k].terminal_error is Some,
    ensures
        states[k].processes == Map::<i32, Sender<i32>>::empty(),
        states[k].sections.open.is_empty(),
{
    law_always_valid(states, events, k);
    assert(states[k].processes =~= Map::<i32, Sender<i32>>::empty());
}

/// While any spawn section is open no reap pass starts, no child's status is consumed, and the
/// manager does not terminate.
pub proof fn law_open_section_pauses_reaping(states: Seq<ManagerView>, events: Seq<Event>, k: int)
    requires
        is_run(states, events),
        0 <= k < events.len(),
        !states[k].sections.open.is_empty(),
    ensures
        !(events[k] is Wait),
        !(events[k] is BeginReap),
        !(events[k] is Fail),
{
    law_always_valid(states, events, k);
    assert(happens(states[k], events[k], states[k + 1]));
}

/// The section of a spawn guard that has been given out is open until the guard is given back.
pub proof fn law_section_open_until_given_back(
    states: Seq<ManagerView>,
    events: Seq<Event>,
    section: nat,
    opened: int,
    k: int,
)
    requires
        is_run(states, events),
        0 <= opened < k < states.len(),
        gives_out(events[opened], section),
        forall|m: int| opened < m < k ==> !gives_back(#[trigger] events[m], section),
    ensures
        states[k].sections.open.contains(section),
    decreases k,
{
    if k == opened + 1 {
        assert(happens(states[opened], events[opened], states[k]));
    } else {
        law_section_open_until_given_back(states, events, section, opened, k - 1);
        assert(happens(states[k - 1], events[k - 1], states[k]));
        assert(!gives_back(events[k - 1], section));
        law_always_valid(states, events, k - 1);
    }
}

/// A spawn guard keeps reaping paused until it is given back itself, however many others are
/// given out and back beside it.
pub proof fn law_guard_pauses_reaping_until_given_back(
    states: Seq<ManagerView>,
    events: Seq<Event>,
    section: nat,
    opened: int,
    k: int,
)
    requires
        is_run(states, events),
        0 <= opened < k < events.len(),
        gives_out(events[opened], section),
        forall|m: int| opened < m < k ==> !gives_back(#[trigger] events[m], section),
    ensures
        !(events[k] is Wait),
        !(events[k] is BeginReap),
        !(events[k] is Fail),
{
    law_section_open_until_given_back(states, events, section, opened, k);
    law_open_section_pauses_reaping(states, events, k);
}

/// A section that has been numbered and is not open never opens again.
proof fn lemma_closed_for_good(
    states: Seq<ManagerView>,
    events: Seq<Event>,
    section: nat,
    from: int,
    k: int,
)
    requires
        is_run(states, events),
        0 <= from <= k < states.len(),
        section < states[from].sections.next,
        !states[from].sections.open.contains(section),
    ensures
        section < states[k].sections.next,
        !states[k].sections.open.contains(section),
    decreases k - from,
{
    if from < k {
        lemma_closed_for_good(states, events, section, from, k - 1);
        assert(happens(states[k - 1], events[k - 1], states[k]));
    }
}

/// A spawn guard is given back once and no more.
pub proof fn law_guard_given_back_once(
    states: Seq<ManagerView>,
    events: Seq<Event>,
    section: nat,
    first: int,
    second: int,
)
    requires
        is_run(states, events),
        0 <= first < second < events.len(),
        gives_back(events[first], section),
    ensures
        !gives_back(events[second], section),
{
    law_always_valid(states, events, first);
    assert(happens(states[first], events[first], states[first + 1]));
    lemma_closed_for_good(states, events, section, first + 1, second);
    assert(happens(states[second], events[second], states[second + 1]));
}

/// A process stays tracked, with the same sender, until it is reaped or the manager terminates.
pub proof fn law_tracked_until_reaped(
    states: Seq<ManagerView>,
    events: Seq<Event>,
    pid: i32,
    from: int,
    k: int,
)
    requires
        is_run(states, events),
        0 <= from < k < states.len(),
        events[from] is Track,
        events[from]->Track_pid == pid,
        undisturbed(events, pid, from, k),
    ensures
        states[k].processes.contains_key(pid),
        states[k].processes[pid] == events[from]->Track_sender,
    decreases k,
{
    if k == from + 1 {
        assert(happens(states[from], events[from], states[k]));
    } else {
        law_tracked_until_reaped(states, events, pid, from, k - 1);
        assert(happens(states[k - 1], events[k - 1], states[k]));
        assert(!waits_for(events[k - 1], pid) && !(events[k - 1] is Fail));
    }
}

/// The first status that is consumed for a tracked process reaches its watcher: if the watcher
/// resolves, then to the exit code that this status stands for, and without a warning.
pub proof fn law_exit_reaches_watcher(
    states: Seq<ManagerView>,
    events: Seq<Event>,
    pid: i32,
    status: i32,
    from: int,
    k: int,
    watcher: ProcessExitWatcher,
    notice: ExitNotice,
    error: Seq<char>,
)
    requires
        is_run(states, events),
        0 <= from < k < events.len(),
        events[from] is Track,
        events[from]->Track_pid == pid,
        watcher.exit() == handed_over(events[from]->Track_sender),
        undisturbed(events, pid, from, k),
        reaps(events[k], pid, status),
        notice.is_notice_of(watcher.pid() as int, watcher.exit(), error),
    ensures
        notice.code == exit_code_of(status),
        notice.warning is None,
{
    law_tracked_until_reaped(states, events, pid, from, k);
    law_always_valid(states, events, k);
    assert(happens(states[k], events[k], states[k + 1]));
}

/// A fast exit is not lost: the status of a child that is created after a spawn guard has been
/// given out, and tracked with that guard, is consumed only after it is tracked, however soon it
/// exits, and its watcher resolves to its exit code.
pub proof fn law_fast_exit_is_not_lost(
    states: Seq<ManagerView>,
    events: Seq<Event>,
    section: nat,
    pid: i32,
    status: i32,
    opened: int,
    from: int,
    k: int,
    watcher: ProcessExitWatcher,
    notice: ExitNotice,
    error: Seq<char>,
)
    requires
        is_run(states, events),
        0 <= opened < from < events.len(),
        opened < k < events.len(),
        gives_out(events[opened], section),
        events[from] is Track,
        events[from]->Track_section == section,
        events[from]->Track_pid == pid,
        watcher.exit() == handed_over(events[from]->Track_sender),
        undisturbed(events, pid, from, k),
        reaps(events[k], pid, status),
        notice.is_notice_of(watcher.pid() as int, watcher.exit(), error),
    ensures
        from < k,
        notice.code == exit_code_of(status),
        notice.warning is None,
{
    assert forall|m: int| opened < m < from implies !gives_back(#[trigger] events[m], section) by {
        if gives_back(events[m], section) {
            law_guard_given_back_once(states, events, section, m, from);
        }
    }
    if k <= from {
        law_guard_pauses_reaping_until_given_back(states, events, section, opened, k);
    }
    law_exit_reaches_watcher(states, events, pid, status, from, k, watcher, notice, error);
}

/// A termination wakes the watchers of all processes that are still tracked: if one resolves,
/// then to `-1`, with a warning.
pub proof fn law_failure_wakes_watcher(
    states: Seq<ManagerView>,
    events: Seq<Event>,
    pid: i32,
    from: int,
    k: int,
    watcher: ProcessExitWatcher,
    notice: ExitNotice,
    error: Seq<char>,
)
    requires
        is_run(states, events),
        0 <= from < k < events.len(),
        events[from] is Track,
        events[from]->Track_pid == pid,
        watcher.exit() == handed_over(events[from]->Track_sender),
        undisturbed(events, pid, from, k),
        events[k] is Fail,
        notice.is_notice_of(watcher.pid() as int, watcher.exit(), error),
    ensures
        notice.code == NO_EXIT_CODE,
        notice.warning is Some,
{
    law_tracked_until_reaped(states, events, pid, from, k);
    assert(happens(states[k], events[k], states[k + 1]));
}

/// A manager that has terminated stays so: it tells everyone who asks, and gives out no further
/// spawn guard.
pub proof fn law_terminated_for_good(
    states: Seq<ManagerView>,
    events: Seq<Event>,
    from: int,
    k: int,
)
    requires
        is_run(states, events),
        0 <= from <= k < states.len(),
        states[from].terminal_error is Some,
    ensures
        states[k].terminal_error is Some,
        states[k].complaint() is Some,
        !(states[k].spawn_answer(false) is Granted),
        k < events.len() ==> !(events[k] is OpenSpawn),
    decreases k - from,
{
    if from < k {
        law_terminated_for_good(states, events, from, k - 1);
        assert(happens(states[k - 1], events[k - 1], states[k]));
    }
    if k < events.len() {
        assert(happens(states[k], events[k], states[k + 1]));
    }
}

/// The first error of a launch is kept for good.
pub proof fn law_startup_error_kept(
    states: Seq<ManagerView>,
    events: Seq<Event>,
    from: int,
    k: int,
)
    requires
        is_run(states, events),
        0 <= from <= k < states.len(),
        states[from].startup_error is Some,
    ensures
        states[k].startup_error == states[from].startup_error,
        states[k].complaint() == Some(
            "start process manager: "@ + states[from].startup_error->Some_0,
        ),
    decreases k - from,
{
    if from < k {
        law_startup_error_kept(states, events, from, k - 1);
        assert(happens(states[k - 1], events[k - 1], states[k]));
    }
}

/// As long as a reap pass goes on exactly the processes that waits return leave the table; all
/// others stay tracked as they were, and none is added.
pub proof fn law_pass_removes_what_it_reaps(
    states: Seq<ManagerView>,
    events: Seq<Event>,
    begun: int,
    k: int,
    pid: i32,
)
    requires
        is_run(states, events),
        0 <= begun < k < states.len(),
        events[begun] is BeginReap,
        forall|m: int| begun < m < k ==> !ends_pass(#[trigger] events[m]),
    ensures
        states[k].sections.reaping,
        states[k].processes.contains_key(pid) <==> {
            &&& states[begun].processes.contains_key(pid)
            &&& forall|m: int| begun < m < k ==> !waits_for(#[trigger] events[m], pid)
        },
        states[k].processes.contains_key(pid) ==> states[k].processes[pid]
            == states[begun].processes[pid],
    decreases k,
{
    if k == begun + 1 {
        assert(happens(states[begun], events[begun], states[k]));
    } else {
        law_pass_removes_what_it_reaps(states, events, begun, k - 1, pid);
        law_always_valid(states, events, begun);
        law_always_valid(states, events, k - 1);
        assert(happens(states[k - 1], events[k - 1], states[k]));
        assert(!ends_pass(events[k - 1]));
        let before = forall|m: int| begun < m < k - 1 ==> !waits_for(#[trigger] events[m], pid);
        let now = forall|m: int| begun < m < k ==> !waits_for(#[trigger] events[m], pid);
        assert(now <==> before && !waits_for(events[k - 1], pid)) by {
            if before && !waits_for(events[k - 1], pid) {
                assert forall|m: int| begun < m < k implies !waits_for(
                    #[trigger] events[m],
                    pid,
                ) by {
                    if m < k - 1 {
                    }
                }
            }
        }
    }
}

/// A reap pass drains the exited children: every wait of it but the last reaped a child or was
/// interrupted, and the last found no exited child left or failed otherwise.
pub proof fn law_pass_drains(waits: Seq<(i32, Option<i32>)>)
    requires
        is_pass(waits),
    ensures
        forall|m: int|
            0 <= m < waits.len() - 1 ==> inconclusive(#[trigger] waits[m].0, waits[m].1),
        waits.last().0 == 0 || (waits.last().0 < 0 && waits.last().1 != Some(LINUX_EINTR)),
{
    assert forall|m: int| 0 <= m < waits.len() - 1 implies inconclusive(
        #[trigger] waits[m].0,
        waits[m].1,
    ) by {
        assert(step_after_wait(waits[m].0, waits[m].1) is Again);
    }
}

/// In any run a reap pass goes on until it has drained the exited children, unless it is given
/// up: it ends with a wait that found no exited child left or failed otherwise, all its waits
/// before that reaped a child or were interrupted, and nothing else happens meanwhile but the end
/// of a launch.
pub proof fn law_pass_goes_on_until_drained(
    states: Seq<ManagerView>,
    events: Seq<Event>,
    begun: int,
    k: int,
)
    requires
        is_run(states, events),
        0 <= begun < k < events.len(),
        events[begun] is BeginReap,
        forall|m: int| begun < m <= k ==> (#[trigger] states[m]).sections.reaping,
        !states[k + 1].sections.reaping,
    ensures
        match events[k] {
            Event::Wait { pid, errno, .. } => pid == 0 || (pid < 0 && errno != Some(LINUX_EINTR)),
            Event::AbandonReap => true,
            _ => false,
        },
        forall|m: int|
            begun < m < k ==> match #[trigger] events[m] {
                Event::Wait { pid, errno, .. } => inconclusive(pid, errno),
                Event::Launch { .. } => true,
                _ => false,
            },
{
    law_always_valid(states, events, k);
    assert(states[k].sections.reaping);
    assert(happens(states[k], events[k], states[k + 1]));
    assert forall|m: int| begun < m < k implies match #[trigger] events[m] {
        Event::Wait { pid, errno, .. } => inconclusive(pid, errno),
        Event::Launch { .. } => true,
        _ => false,
    } by {
        law_always_valid(states, events, m);
        assert(states[m].sections.reaping);
        assert(states[m + 1].sections.reaping);
        assert(happens(states[m], events[m], states[m + 1]));
    }
}

/// Giving a spawn guard back undoes having taken it, but for the number that it has used up.
pub proof fn law_release_undoes_guard(manager: ManagerView)
    requires
        manager.valid(),
    ensures
        manager.spawn_opened().spawn_closed(manager.sections.next) == (ManagerView {
            sections: SectionsView { next: manager.sections.next + 1, ..manager.sections },
            ..manager
        }),
{
    assert(manager.sections.open.insert(manager.sections.next).remove(manager.sections.next)
        =~= manager.sections.open);
}

/// A thread that holds a spawn guard is refused a second one by every manager, whatever its
/// state; once it has given the guard back, only a reap pass or a termination stands against it.
pub proof fn law_guards_do_not_nest(manager: ManagerView)
    ensures
        manager.spawn_answer(true) is Nested,
        manager.spawn_answer(false) is Granted <==> !manager.sections.reaping
            && manager.terminal_error is None,
{
}

/// Spawn guards of different threads coexist: any number of open sections leaves the answer to a
/// further thread as it is, and a further section leaves all of them open.
pub proof fn law_guards_coexist(manager: ManagerView, others: Set<nat>)
    requires
        !manager.sections.reaping,
        manager.terminal_error is None,
        others.subset_of(manager.sections.open),
    ensures
        manager.spawn_answer(false) is Granted,
        manager.spawn_opened().spawn_answer(false) is Granted,
        others.subset_of(manager.spawn_opened().sections.open),
        manager.spawn_opened().sections.open.contains(manager.sections.next),
{
}

/// A manager that terminates for the reason `error` gives this reason to every thread that asks
/// for a spawn guard, and to every thread that asks for the manager unless its start had failed.
pub proof fn law_termination_states_its_reason(manager: ManagerView, error: Seq<char>)
    requires
        manager.sections.idle(),
    ensures
        manager.terminated(error).spawn_answer(false) == SpawnAnswer::Terminated(error),
        manager.startup_error is None ==> manager.terminated(error).complaint() == Some(error),
        manager.terminated(error).complaint() is Some,
{
}

/// The PID of a process that has been reaped can be tracked again.
pub proof fn law_reaped_pid_is_free(table: Map<i32, Sender<i32>>, pid: i32)
    requires
        pid > 0,
    ensures
        trackable(table_after_wait(table, pid), pid),
{
}

/// The exit of a child that is not tracked leaves the table as it is.
pub proof fn law_untracked_exit_changes_nothing(table: Map<i32, Sender<i32>>, pid: i32)
    requires
        !table.contains_key(pid),
    ensures
        table_after_wait(table, pid) == table,
{
    assert(table.remove(pid) =~= table);
}

/// A child that exits with a code from 0 to 255 is reported with this very code.
pub proof fn law_normal_exit_keeps_its_code(code: i32)
    requires
        0 <= code <= 255,
    ensures
        exit_code_of((code * 256) as i32) == code,
{
    let status: i32 = (code * 256) as i32;
    assert((status & 0x7f) == 0 && ((status >> 8) & 0xff) == code) by (bit_vector)
        requires
            0 <= code <= 255,
            status == code * 256,
    ;
}

/// A child that a signal terminated, with a core dump or without, is reported with `-1`.
pub proof fn law_signalled_exit_has_no_code(signal: i32, core_dump: bool)
    requires
        1 <= signal <= 127,
    ensures
        exit_code_of((signal + if core_dump { 128int } else { 0int }) as i32) == NO_EXIT_CODE,
{
    let status: i32 = (signal + if core_dump { 128int } else { 0int }) as i32;
    assert((status & 0x7f) != 0) by (bit_vector)
        requires
            1 <= signal <= 127,
            status == signal || status == signal + 128,
    ;
}

/// Whatever the status, the reported code is `-1` or lies between 0 and 255.
pub proof fn law_codes_are_bytes_or_none(status: i32)
    ensures
        exit_code_of(status) == NO_EXIT_CODE || 0 <= exit_code_of(status) <= 255,
{
    assert(0 <= ((status >> 8) & 0xff) <= 255) by (bit_vector);
}

/// The step at which the manager's thread is after `k` outcomes.
pub open spec fn step_at(outcomes: Seq<Option<Seq<char>>>, k: int) -> StepView
    decreases k,
{
    if k <= 0 {
        StepView::BuildRuntime
    } else {
        step_at(outcomes, k - 1).after(outcomes[k - 1])
    }
}

/// Whether a step reports to the launching thread.
pub open spec fn is_report(step: StepView) -> bool {
    step is ReportReady || step is ReportFailure
}

/// Readiness is reported if and only if the runtime was built and the listener installed.
pub proof fn law_ready_once_listening(outcomes: Seq<Option<Seq<char>>>, k: int)
    requires
        0 <= k <= outcomes.len(),
    ensures
        step_at(outcomes, k) is ReportReady <==> k == 2 && outcomes[0] is None && outcomes[1] is None,
    decreases k,
{
    reveal_with_fuel(step_at, 4);
    if k > 3 {
        lemma_steps_after_reports(outcomes, k);
    }
}

/// From the third outcome on the thread only reaps, awaits signals, or has finished.
proof fn lemma_steps_after_reports(outcomes: Seq<Option<Seq<char>>>, k: int)
    requires
        3 <= k <= outcomes.len(),
    ensures
        step_at(outcomes, k) is Reap || step_at(outcomes, k) is AwaitSignal || step_at(
            outcomes,
            k,
        ) is Finish,
    decreases k,
{
    reveal_with_fuel(step_at, 4);
    if k > 3 {
        lemma_steps_after_reports(outcomes, k - 1);
    }
}

/// The thread reports to the launching thread once and no more: a failed build right after it,
/// anything else right after the attempt to install the listener.
pub proof fn law_startup_reported_once(outcomes: Seq<Option<Seq<char>>>, k: int)
    requires
        2 <= outcomes.len(),
        0 <= k <= outcomes.len(),
    ensures
        is_report(step_at(outcomes, k)) <==> k == if outcomes[0] is Some {
            1int
        } else {
            2int
        },
    decreases k,
{
    reveal_with_fuel(step_at, 4);
    if k > 3 {
        lemma_steps_after_reports(outcomes, k);
    }
}

/// The thread awaits a signal only right after a reap pass, and answers every signal with one.
pub proof fn law_every_signal_is_followed_by_a_pass(outcomes: Seq<Option<Seq<char>>>, k: int)
    requires
        0 < k <= outcomes.len(),
    ensures
        step_at(outcomes, k) is AwaitSignal ==> step_at(outcomes, k - 1) is Reap,
        step_at(outcomes, k - 1) is AwaitSignal && outcomes[k - 1] is None ==> step_at(
            outcomes,
            k,
        ) is Reap,
{
}

/// The thread ends in one of two ways: with the failure that it has just reported, or, having
/// become ready, with the listener closed.
pub proof fn law_thread_end_is_explained(outcomes: Seq<Option<Seq<char>>>, k: int)
    requires
        0 < k <= outcomes.len(),
        step_at(outcomes, k) is Finish,
        !(step_at(outcomes, k - 1) is Finish),
    ensures
        step_at(outcomes, k - 1) == StepView::ReportFailure(step_at(outcomes, k)->Finish_0) || {
            &&& step_at(outcomes, 2) is ReportReady
            &&& step_at(outcomes, k) == StepView::Finish("process manager SIGCHLD listener closed"@)
        },
{
    reveal_with_fuel(step_at, 4);
    if step_at(outcomes, k - 1) is AwaitSignal {
        lemma_running_was_ready(outcomes, k - 1);
    }
}

/// A thread that reaps or awaits signals has reported that it is ready.
proof fn lemma_running_was_ready(outcomes: Seq<Option<Seq<char>>>, k: int)
    requires
        0 <= k <= outcomes.len(),
        step_at(outcomes, k) is Reap || step_at(outcomes, k) is AwaitSignal,
    ensures
        step_at(outcomes, 2) is ReportReady,
    decreases k,
{
    reveal_with_fuel(step_at, 4);
    if k > 3 {
        lemma_running_was_ready(outcomes, k - 1);
    }
}

} // verus!
