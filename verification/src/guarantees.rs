//! What each operation does, stated over the parts of a manager's state and over the values that
//! go in and come out.

use vstd::prelude::*;

#[allow(unused_imports)]
use crate::channel::{all_dropped, arriving, handed_over, wakes};
#[allow(unused_imports)]
use crate::error::{fails_with, AgentdError, AgentdResult};
#[allow(unused_imports)]
use crate::events::{happens, Event};
#[allow(unused_imports)]
use crate::launch::{end_reason, launch_error, outcome_error, Launch, StepView, ThreadEnd};
#[allow(unused_imports)]
use crate::laws::{is_run, law_always_valid, step_at};
#[allow(unused_imports)]
use crate::manager::{nested_refusal, ManagerView, ProcessSpawnGuard, SpawnAnswer};
#[allow(unused_imports)]
use crate::sections::{SectionsView, SlotView};
#[allow(unused_imports)]
use crate::state::{table_after_wait, told_exit, track_outcome, track_refusal, trackable};
#[allow(unused_imports)]
use crate::status::{exit_code_of, step_after_wait, ReapStep};
#[allow(unused_imports)]
use crate::text::{decimal, decimal_digits, optional_text};
#[allow(unused_imports)]
use crate::watcher::{dropped_warning, ExitNotice, ProcessExitWatcher};
#[allow(unused_imports)]
use std::task::Context;
#[allow(unused_imports)]
use tokio::sync::oneshot::Sender;

verus! {

/// A request for a spawn guard is refused for two reasons only, and put off for one: a thread
/// that holds a guard is refused, by every manager; any other thread waits exactly during a reap
/// pass, and is else refused exactly by a manager that has terminated, with the reason of that.
pub proof fn law_spawn_requests_are_answered_with_cause(manager: ManagerView, held: bool)
    ensures
        manager.spawn_answer(held) is Nested <==> held,
        manager.spawn_answer(held) is Wait <==> !held && manager.sections.reaping,
        manager.spawn_answer(held) is Terminated <==> {
            &&& !held
            &&& !manager.sections.reaping
            &&& manager.terminal_error is Some
        },
        manager.spawn_answer(held) is Granted <==> {
            &&& !held
            &&& !manager.sections.reaping
            &&& manager.terminal_error is None
        },
        manager.spawn_answer(held) is Terminated ==> manager.terminal_error == Some(
            manager.spawn_answer(held)->Terminated_0,
        ),
{
}

/// A thread that holds no spawn guard is never refused by a manager that has not terminated.
pub proof fn law_no_refusal_before_termination(manager: ManagerView)
    requires
        manager.terminal_error is None,
    ensures
        manager.spawn_answer(false) == if manager.sections.reaping {
            SpawnAnswer::Wait
        } else {
            SpawnAnswer::Granted
        },
{
}

/// Which processes are tracked, which sections are open, and how the start went make no
/// difference to a request for a spawn guard.
pub proof fn law_spawn_answer_ignores_the_rest(one: ManagerView, other: ManagerView, held: bool)
    requires
        one.sections.reaping == other.sections.reaping,
        one.terminal_error == other.terminal_error,
    ensures
        one.spawn_answer(held) == other.spawn_answer(held),
{
}

/// A thread that was told to wait is told otherwise as soon as the pass has ended.
pub proof fn law_waiting_ends_with_the_pass(manager: ManagerView)
    requires
        manager.spawn_answer(false) is Wait,
    ensures
        !(manager.with_reaping(false).spawn_answer(false) is Wait),
        !(manager.with_reaping(false).spawn_answer(false) is Nested),
        manager.terminal_error is None ==> manager.with_reaping(false).spawn_answer(
            false,
        ) is Granted,
{
}

/// A refused thread learns that it already holds a guard.
pub proof fn law_nested_refusal_says_so()
    ensures
        nested_refusal() == "the current thread already holds a process spawn guard"@,
{
}

/// A guard can be given back to a manager exactly if that manager gave it out and its section is
/// still open, by the thread that asked for it, which holds it.
pub proof fn law_guards_go_back_where_they_came_from(
    guard: ProcessSpawnGuard,
    manager: ManagerView,
    slot: SlotView,
)
    ensures
        guard.belongs_to(manager, slot) <==> {
            &&& guard.owner() == manager.id
            &&& manager.sections.open.contains(guard.section())
            &&& guard.slot() == slot.id
            &&& slot.held
        },
{
}

/// A manager complains exactly if its start failed or it has terminated, whatever sections,
/// passes or tracked processes there are; the failed start comes first.
pub proof fn law_complaints_have_a_cause(manager: ManagerView)
    ensures
        manager.complaint() is None <==> manager.startup_error is None
            && manager.terminal_error is None,
        manager.startup_error is None ==> manager.complaint() == manager.terminal_error,
        manager.startup_error matches Some(error) ==> manager.complaint() == Some(
            "start process manager: "@ + error,
        ),
{
}

/// Two managers with the same errors complain alike.
pub proof fn law_complaint_ignores_the_rest(one: ManagerView, other: ManagerView)
    requires
        one.startup_error == other.startup_error,
        one.terminal_error == other.terminal_error,
    ensures
        one.complaint() == other.complaint(),
{
}

/// In any run a complaint, once there is none, comes only from a failed launch or a termination.
pub proof fn law_complaint_arises_from_failure(
    states: Seq<ManagerView>,
    events: Seq<Event>,
    k: int,
)
    requires
        is_run(states, events),
        0 <= k < events.len(),
        states[k].complaint() is None,
        states[k + 1].complaint() is Some,
    ensures
        match events[k] {
            Event::Launch { error } => error is Some && states[k + 1].complaint() == Some(
                "start process manager: "@ + error->Some_0,
            ),
            Event::Fail { reason } => states[k + 1].complaint() == Some(reason),
            _ => false,
        },
{
    assert(happens(states[k], events[k], states[k + 1]));
}

/// A launch that succeeded leaves the manager as it is. One that failed is noted with exactly its
/// error, unless one was noted before. Nothing else changes.
pub proof fn law_launch_is_noted(manager: ManagerView, error: Option<Seq<char>>)
    ensures
        manager.launched(None) == manager,
        manager.startup_error is None ==> manager.launched(error).startup_error == error,
        manager.startup_error is Some ==> manager.launched(error) == manager,
        manager.launched(error).id == manager.id,
        manager.launched(error).sections == manager.sections,
        manager.launched(error).processes == manager.processes,
        manager.launched(error).terminal_error == manager.terminal_error,
{
}

/// In any run a startup error arises only from a launch that failed with it.
pub proof fn law_startup_error_arises_from_launch(
    states: Seq<ManagerView>,
    events: Seq<Event>,
    k: int,
)
    requires
        is_run(states, events),
        0 <= k < events.len(),
        states[k + 1].startup_error != states[k].startup_error,
    ensures
        states[k].startup_error is None,
        states[k + 1].startup_error is Some,
        events[k] == (Event::Launch { error: states[k + 1].startup_error }),
{
    assert(happens(states[k], events[k], states[k + 1]));
}

/// In any run a terminal error arises, or changes, only by a termination for that reason.
pub proof fn law_terminal_error_arises_from_termination(
    states: Seq<ManagerView>,
    events: Seq<Event>,
    k: int,
)
    requires
        is_run(states, events),
        0 <= k < events.len(),
        states[k + 1].terminal_error != states[k].terminal_error,
    ensures
        states[k + 1].terminal_error is Some,
        events[k] == (Event::Fail { reason: states[k + 1].terminal_error->Some_0 }),
{
    assert(happens(states[k], events[k], states[k + 1]));
}

/// In any run a process comes to be tracked only by a guard being given back for it, and leaves
/// the table only by being reaped or by a termination. The manager's identity never changes.
pub proof fn law_table_changes_have_a_cause(
    states: Seq<ManagerView>,
    events: Seq<Event>,
    k: int,
    pid: i32,
)
    requires
        is_run(states, events),
        0 <= k < events.len(),
    ensures
        states[k + 1].id == states[k].id,
        !states[k].processes.contains_key(pid) && states[k + 1].processes.contains_key(pid) ==> {
            &&& events[k] is Track
            &&& events[k]->Track_pid == pid
            &&& states[k + 1].processes[pid] == events[k]->Track_sender
            &&& pid > 0
        },
        states[k].processes.contains_key(pid) && !states[k + 1].processes.contains_key(pid) ==> {
            ||| events[k] is Fail
            ||| events[k] is Wait && events[k]->Wait_pid == pid
        },
        states[k].processes.contains_key(pid) && states[k + 1].processes.contains_key(pid)
            ==> states[k + 1].processes[pid] == states[k].processes[pid],
{
    assert(happens(states[k], events[k], states[k + 1]));
}

/// In any run a section opens only by a guard being given out, with a number never used before,
/// and closes only by that guard being given back; a pass starts only where no section is open.
pub proof fn law_section_changes_have_a_cause(
    states: Seq<ManagerView>,
    events: Seq<Event>,
    k: int,
    section: nat,
)
    requires
        is_run(states, events),
        0 <= k < events.len(),
    ensures
        !states[k].sections.open.contains(section) && states[k + 1].sections.open.contains(section)
            ==> {
            &&& events[k] == (Event::OpenSpawn { section })
            &&& section >= states[k].sections.next
            &&& states[k + 1].sections.next > section
            &&& !states[k].sections.reaping
            &&& states[k].terminal_error is None
        },
        states[k].sections.open.contains(section) && !states[k + 1].sections.open.contains(section)
            ==> {
            ||| events[k] == (Event::CloseSpawn { section })
            ||| events[k] is Track && events[k]->Track_section == section
        },
        states[k].sections.next <= states[k + 1].sections.next,
        !states[k].sections.reaping && states[k + 1].sections.reaping ==> {
            &&& events[k] is BeginReap
            &&& forall|open: nat| !states[k].sections.open.contains(open)
        },
{
    assert(happens(states[k], events[k], states[k + 1]));
}

/// Giving out a guard adds exactly the section that was next, and changes nothing else.
pub proof fn law_opening_adds_one_section(manager: ManagerView, section: nat)
    ensures
        manager.spawn_opened().sections.open.contains(section) <==> section
            == manager.sections.next || manager.sections.open.contains(section),
        manager.spawn_opened().sections.next == manager.sections.next + 1,
        manager.spawn_opened().sections.reaping == manager.sections.reaping,
        manager.spawn_opened().id == manager.id,
        manager.spawn_opened().processes == manager.processes,
        manager.spawn_opened().startup_error == manager.startup_error,
        manager.spawn_opened().terminal_error == manager.terminal_error,
{
}

/// Giving back a guard removes exactly its section, and changes nothing else.
pub proof fn law_closing_removes_one_section(manager: ManagerView, closed: nat, section: nat)
    ensures
        manager.spawn_closed(closed).sections.open.contains(section) <==> section != closed
            && manager.sections.open.contains(section),
        manager.spawn_closed(closed).sections.next == manager.sections.next,
        manager.spawn_closed(closed).sections.reaping == manager.sections.reaping,
        manager.spawn_closed(closed).id == manager.id,
        manager.spawn_closed(closed).processes == manager.processes,
        manager.spawn_closed(closed).startup_error == manager.startup_error,
        manager.spawn_closed(closed).terminal_error == manager.terminal_error,
{
}

/// Starting or ending a pass, or exchanging the table, changes that and nothing else.
pub proof fn law_passes_and_tables_are_apart(
    manager: ManagerView,
    reaping: bool,
    processes: Map<i32, Sender<i32>>,
)
    ensures
        manager.with_reaping(reaping).sections.reaping == reaping,
        manager.with_reaping(reaping).sections.open == manager.sections.open,
        manager.with_reaping(reaping).sections.next == manager.sections.next,
        manager.with_reaping(reaping).id == manager.id,
        manager.with_reaping(reaping).processes == manager.processes,
        manager.with_reaping(reaping).startup_error == manager.startup_error,
        manager.with_reaping(reaping).terminal_error == manager.terminal_error,
        manager.with_processes(processes).processes == processes,
        manager.with_processes(processes).id == manager.id,
        manager.with_processes(processes).sections == manager.sections,
        manager.with_processes(processes).startup_error == manager.startup_error,
        manager.with_processes(processes).terminal_error == manager.terminal_error,
{
}

/// A termination empties the table, sets the reason, and changes nothing else.
pub proof fn law_termination_empties_the_table(manager: ManagerView, error: Seq<char>, pid: i32)
    ensures
        !manager.terminated(error).processes.contains_key(pid),
        manager.terminated(error).terminal_error == Some(error),
        manager.terminated(error).id == manager.id,
        manager.terminated(error).sections == manager.sections,
        manager.terminated(error).startup_error == manager.startup_error,
{
}

/// Nothing is under way if and only if there is neither an open section nor a pass. A pass can
/// start, or a termination happen, exactly then.
pub proof fn law_idle_means_nothing_is_under_way(manager: ManagerView)
    ensures
        manager.sections.idle() <==> {
            &&& !manager.sections.reaping
            &&& forall|section: nat| !manager.sections.open.contains(section)
        },
{
    if !manager.sections.idle() && !manager.sections.reaping {
        assert(manager.sections.open.contains(manager.sections.open.choose()));
    }
}

/// A new manager has nothing tracked, nothing under way and no errors, and is healthy.
pub proof fn law_new_manager_is_healthy(id: int, pid: i32, section: nat)
    ensures
        ManagerView::fresh(id).id == id,
        !ManagerView::fresh(id).processes.contains_key(pid),
        !ManagerView::fresh(id).sections.open.contains(section),
        !ManagerView::fresh(id).sections.reaping,
        ManagerView::fresh(id).startup_error is None,
        ManagerView::fresh(id).terminal_error is None,
        ManagerView::fresh(id).complaint() is None,
        ManagerView::fresh(id).spawn_answer(false) is Granted,
        ManagerView::fresh(id).valid(),
{
}

/// Tracking succeeds exactly for positive PIDs that are not in the table. It then adds exactly
/// this PID, with a sender that tells the watcher; if it fails, nothing changes, and the refusal
/// says which of the two reasons holds.
pub proof fn law_tracking_succeeds_exactly_for_new_pids(
    before: Map<i32, Sender<i32>>,
    pid: i32,
    outcome: AgentdResult<ProcessExitWatcher>,
    after: Map<i32, Sender<i32>>,
    other: i32,
)
    requires
        track_outcome(before, pid, outcome, after),
    ensures
        outcome is Ok <==> pid > 0 && !before.contains_key(pid),
        after.contains_key(other) <==> before.contains_key(other) || (other == pid && pid > 0),
        before.contains_key(other) ==> after[other] == before[other],
        outcome matches Ok(watcher) ==> {
            &&& watcher.pid() == pid
            &&& watcher.exit() == handed_over(after[pid])
        },
        outcome matches Err(error) ==> {
            &&& after == before
            &&& pid <= 0 ==> error.text() == "cannot track invalid process PID "@ + decimal(
                pid as int,
            )
            &&& pid > 0 ==> error.text() == "process PID "@ + decimal(pid as int)
                + " is already tracked"@
        },
{
}

/// Of two attempts to track a PID in a row the second always fails.
pub proof fn law_tracking_twice_fails(
    before: Map<i32, Sender<i32>>,
    pid: i32,
    first: AgentdResult<ProcessExitWatcher>,
    between: Map<i32, Sender<i32>>,
    second: AgentdResult<ProcessExitWatcher>,
    after: Map<i32, Sender<i32>>,
)
    requires
        track_outcome(before, pid, first, between),
        track_outcome(between, pid, second, after),
    ensures
        second is Err,
        after == between,
{
}

/// Any positive PID can be tracked in a table that lacks it, and no other PID can.
pub proof fn law_trackable_means_positive_and_new(table: Map<i32, Sender<i32>>, pid: i32)
    ensures
        trackable(table, pid) <==> pid > 0 && !table.contains_key(pid),
{
}

/// A wait takes exactly the process that it returns out of the table, and tells its watcher, if
/// it was tracked, the exit code of the status: its second lowest byte where its lowest seven bits
/// are zero, and else `-1`.
pub proof fn law_wait_takes_out_what_it_returns(
    table: Map<i32, Sender<i32>>,
    pid: i32,
    status: i32,
    other: i32,
)
    ensures
        table_after_wait(table, pid).contains_key(other) <==> table.contains_key(other) && !(pid > 0
            && other == pid),
        table_after_wait(table, pid).contains_key(other) ==> table_after_wait(table, pid)[other]
            == table[other],
        told_exit(table, pid, status) && pid > 0 && table.contains_key(pid) ==> {
            &&& handed_over(table[pid]) is Some
            &&& handed_over(table[pid])->Some_0 == if (status as int) % 128 == 0 {
                ((status as int) / 256) % 256
            } else {
                -1
            }
        },
{
    law_exit_code_is_the_second_byte(status);
}

/// Arithmetic says the same of every status: the code is the second lowest byte where the lowest
/// seven bits are zero, and else `-1`.
pub proof fn law_exit_code_is_the_second_byte(status: i32)
    ensures
        exit_code_of(status) == if (status as int) % 128 == 0 {
            ((status as int) / 256) % 256
        } else {
            -1
        },
{
    let bits: u32 = status as u32;
    assert((status & 0x7f) == (bits & 0x7f) && ((status >> 8) & 0xff) == ((bits >> 8) & 0xff))
        by (bit_vector)
        requires
            bits == status as u32,
    ;
    assert((bits & 0x7f) == bits % 128 && ((bits >> 8) & 0xff) == (bits / 256) % 256)
        by (bit_vector);
    assert(status >= 0 ==> bits == status) by (bit_vector)
        requires
            bits == status as u32,
    ;
    assert(status < 0 ==> bits == status + 0x1_0000_0000) by (bit_vector)
        requires
            bits == status as u32,
    ;
}

/// Only the lowest two bytes of a status count.
pub proof fn law_exit_code_ignores_high_bits(one: i32, other: i32)
    requires
        (one & 0xffff) == (other & 0xffff),
    ensures
        exit_code_of(one) == exit_code_of(other),
{
    assert((one & 0x7f) == (other & 0x7f) && ((one >> 8) & 0xff) == ((other >> 8) & 0xff))
        by (bit_vector)
        requires
            (one & 0xffff) == (other & 0xffff),
    ;
}

/// A pass goes on exactly after a wait that returned a child or was interrupted, is done exactly
/// after one that found no exited child or no child at all, and has failed after any other.
pub proof fn law_waits_decide_the_pass(pid: i32, errno: Option<i32>)
    ensures
        step_after_wait(pid, errno) is Again <==> pid > 0 || (pid < 0 && errno == Some(4i32)),
        step_after_wait(pid, errno) is Done <==> pid == 0 || (pid < 0 && errno == Some(10i32)),
        step_after_wait(pid, errno) is Failed <==> pid < 0 && errno != Some(4i32) && errno != Some(
            10i32,
        ),
{
}

/// A watcher that is told a code resolves to exactly this code without a warning; one that is
/// told none resolves to `-1` with a warning that names the process and the reason.
pub proof fn law_notices_say_what_was_told(
    notice: ExitNotice,
    pid: int,
    exit: Option<i32>,
    error: Seq<char>,
)
    requires
        notice.is_notice_of(pid, exit, error),
    ensures
        exit matches Some(code) ==> notice.code == code,
        exit is None ==> notice.code == -1,
        notice.warning is Some <==> exit is None,
        notice.warning matches Some(warning) ==> warning@
            == "agentd: process manager dropped the exit notification for PID "@ + decimal(pid)
            + ": "@ + error,
{
}

/// What a watcher is told is what arrives at its own channel, and the task that it leaves to be
/// woken is the one that its own channel does.
pub proof fn law_watcher_listens_to_its_channel(watcher: ProcessExitWatcher, cx: Context<'_>)
    ensures
        watcher.exit() == arriving(watcher.channel()),
        watcher.will_wake(cx) <==> wakes(watcher.channel(), cx),
{
}

/// Two notices of the same end are the same in code and warning.
pub proof fn law_notices_agree(
    one: ExitNotice,
    other: ExitNotice,
    pid: int,
    exit: Option<i32>,
    error: Seq<char>,
)
    requires
        one.is_notice_of(pid, exit, error),
        other.is_notice_of(pid, exit, error),
    ensures
        one.code == other.code,
        optional_text(one.warning) == optional_text(other.warning),
{
}

/// An emptied table has no entry left, and none of its senders was handed a code.
pub proof fn law_dropped_senders_told_nothing(
    before: Map<i32, Sender<i32>>,
    after: Map<i32, Sender<i32>>,
    pid: i32,
)
    requires
        all_dropped(before, after),
    ensures
        !after.contains_key(pid),
        before.contains_key(pid) ==> handed_over(before[pid]) is None,
{
}

/// An operation fails with a text exactly if it returns an error that states this text.
pub proof fn law_failures_state_their_text<T>(result: AgentdResult<T>, text: Seq<char>)
    ensures
        fails_with(result, text) <==> result is Err && result->Err_0.text() == text,
{
}

/// An error states its whole reason.
pub proof fn law_errors_state_their_reason(reason: String)
    ensures
        AgentdError::ExecSession(reason).text() == reason@,
        optional_text(Some(reason)) == Some(reason@),
        optional_text(None) is None,
{
}

/// A launch fails exactly if the thread was not spawned, did not report, or reported an error;
/// its error ends with the reason that it was given, and tells these three apart.
pub proof fn law_launches_fail_with_their_reason(launch: Launch)
    ensures
        launch_error(launch) is None <==> (launch matches Launch::Reported(Ok(_))),
        launch matches Launch::Reported(Err(error)) ==> launch_error(launch) == Some(error@),
        launch matches Launch::ReportLost(error) ==> launch_error(launch) == Some(
            "receive thread startup: "@ + error@,
        ),
        launch matches Launch::NotSpawned(error) ==> launch_error(launch) == Some(
            "spawn process manager thread: "@ + error@,
        ),
{
}

/// The manager terminates with the error of its thread, or with what became of the thread.
pub proof fn law_thread_ends_give_the_reason(end: ThreadEnd)
    ensures
        end matches ThreadEnd::Returned(Err(error)) ==> end_reason(end) == error@,
        end matches ThreadEnd::Returned(Ok(_)) ==> end_reason(end)
            == "process manager thread stopped unexpectedly"@,
        end is Panicked ==> end_reason(end) == "process manager thread panicked"@,
{
}

/// The outcome of a step is an error exactly if the step failed, and then with its text.
pub proof fn law_outcomes_keep_their_error(outcome: Result<(), String>)
    ensures
        outcome_error(outcome) is None <==> outcome is Ok,
        outcome matches Err(error) ==> outcome_error(outcome) == Some(error@),
{
}

/// Once readiness has been reported, whatever became of the report, the thread runs a reap pass,
/// and after every pass, whatever its outcome, it awaits a signal.
pub proof fn law_ready_thread_reaps_and_awaits(outcomes: Seq<Option<Seq<char>>>, k: int)
    requires
        0 < k <= outcomes.len(),
    ensures
        step_at(outcomes, k - 1) is ReportReady ==> step_at(outcomes, k) is Reap,
        step_at(outcomes, k - 1) is Reap ==> step_at(outcomes, k) is AwaitSignal,
        step_at(outcomes, k) is Reap ==> {
            ||| step_at(outcomes, k - 1) is ReportReady
            ||| step_at(outcomes, k - 1) is AwaitSignal && outcomes[k - 1] is None
        },
{
}

/// The thread finishes only right after a failure that it has reported, with that failure, or
/// right after awaiting a signal failed; and having finished it stays so.
pub proof fn law_thread_finishes_with_cause(outcomes: Seq<Option<Seq<char>>>, k: int)
    requires
        0 < k <= outcomes.len(),
    ensures
        step_at(outcomes, k) matches StepView::Finish(reason) ==> {
            ||| step_at(outcomes, k - 1) == StepView::ReportFailure(reason)
            ||| step_at(outcomes, k - 1) == StepView::Finish(reason)
            ||| {
                &&& step_at(outcomes, k - 1) is AwaitSignal
                &&& outcomes[k - 1] is Some
                &&& reason == "process manager SIGCHLD listener closed"@
            }
        },
        step_at(outcomes, k - 1) is AwaitSignal && outcomes[k - 1] is Some ==> step_at(
            outcomes,
            k,
        ) is Finish,
        step_at(outcomes, k - 1) is ReportFailure ==> step_at(outcomes, k) is Finish,
        step_at(outcomes, k - 1) is Finish ==> step_at(outcomes, k) == step_at(outcomes, k - 1),
{
}

/// The thread first builds the runtime, then installs the listener, and reports the first of the
/// two that fails, with its error.
pub proof fn law_thread_starts_in_order(outcomes: Seq<Option<Seq<char>>>)
    requires
        outcomes.len() >= 2,
    ensures
        step_at(outcomes, 0) is BuildRuntime,
        outcomes[0] is None ==> step_at(outcomes, 1) is InstallListener,
        outcomes[0] matches Some(error) ==> step_at(outcomes, 1) == StepView::ReportFailure(
            "build process manager Tokio runtime: "@ + error,
        ),
        outcomes[0] is None && outcomes[1] is None ==> step_at(outcomes, 2) is ReportReady,
        outcomes[0] is None ==> (outcomes[1] matches Some(error) ==> step_at(outcomes, 2)
            == StepView::ReportFailure("install process manager SIGCHLD listener: "@ + error)),
{
    reveal_with_fuel(step_at, 4);
}

/// A thread that starts keeps on reaping: as long as it receives signals it never finishes, and
/// every second step of it is a reap pass.
pub proof fn law_listening_thread_reaps_forever(outcomes: Seq<Option<Seq<char>>>, k: int)
    requires
        3 <= k <= outcomes.len(),
        outcomes[0] is None,
        outcomes[1] is None,
        forall|m: int|
            3 <= m < k && step_at(outcomes, m) is AwaitSignal ==> #[trigger] outcomes[m] is None,
    ensures
        step_at(outcomes, k) is Reap <==> k % 2 == 1,
        step_at(outcomes, k) is AwaitSignal <==> k % 2 == 0,
    decreases k,
{
    if k == 3 {
        reveal_with_fuel(step_at, 4);
    } else {
        law_listening_thread_reaps_forever(outcomes, k - 1);
        if step_at(outcomes, k - 1) is AwaitSignal {
            assert(outcomes[k - 1] is None);
        }
    }
}

/// The number that a sequence of decimal digits stands for.
pub open spec fn digits_value(digits: Seq<char>) -> int
    decreases digits.len(),
{
    if digits.len() == 0 {
        0
    } else {
        10 * digits_value(digits.drop_last()) + (digits.last() as int - '0' as int)
    }
}

/// The decimal digits of a number are digits, without leading zeros, and stand for the number.
pub proof fn law_digits_read_back(n: nat)
    ensures
        decimal_digits(n).len() > 0,
        forall|i: int|
            0 <= i < decimal_digits(n).len() ==> '0' <= #[trigger] decimal_digits(n)[i] <= '9',
        decimal_digits(n).len() > 1 ==> decimal_digits(n)[0] != '0',
        digits_value(decimal_digits(n)) == n,
    decreases n,
{
    if n >= 10 {
        law_digits_read_back(n / 10);
        assert(decimal_digits(n).drop_last() =~= decimal_digits(n / 10));
        reveal_with_fuel(decimal_digits, 2);
    } else {
        assert(decimal_digits(n).drop_last() =~= Seq::<char>::empty());
        reveal_with_fuel(digits_value, 2);
    }
}

/// A number in decimal is its digits, behind a minus sign exactly if it is negative.
pub proof fn law_decimal_reads_back(n: int)
    ensures
        n >= 0 ==> digits_value(decimal(n)) == n && '0' <= decimal(n)[0] <= '9',
        n < 0 ==> decimal(n)[0] == '-' && digits_value(decimal(n).skip(1)) == -n,
{
    if n >= 0 {
        law_digits_read_back(n as nat);
    } else {
        law_digits_read_back((-n) as nat);
        assert(decimal(n).skip(1) =~= decimal_digits((-n) as nat));
    }
}

} // verus!
