//! The process manager: spawn sections, tracking, reap passes and failure.

use crate::error::{AgentdError, AgentdResult};
use crate::sections::{SpawnSections, SpawnSlot};
use crate::launch::{startup_result, Launch};
use crate::state::ProcessManagerState;
use crate::status::ReapStep;
use crate::text::join;
use crate::watcher::ProcessExitWatcher;
use vstd::prelude::*;

#[allow(unused_imports)]
use crate::channel::all_dropped;
#[allow(unused_imports)]
use crate::error::fails_with;
#[allow(unused_imports)]
use crate::events::{happens, Event};
#[allow(unused_imports)]
use crate::sections::{SectionsView, SlotView};
#[allow(unused_imports)]
use crate::launch::launch_error;
#[allow(unused_imports)]
use crate::state::{table_after_wait, told_exit, track_outcome};
#[allow(unused_imports)]
use crate::status::{step_after_wait, LINUX_ECHILD, LINUX_EINTR};
#[allow(unused_imports)]
use crate::text::optional_text;
#[allow(unused_imports)]
use tokio::sync::oneshot::Sender;

verus! {

/// What a process manager is made of.
#[verifier::ext_equal]
pub struct ManagerView {
    /// Which manager it is. Nothing is known of the number but that the manager keeps it.
    pub id: int,
    /// Which spawn sections and reap passes are under way.
    pub sections: SectionsView,
    /// The tracked processes, each with the sender to its watcher.
    pub processes: Map<i32, Sender<i32>>,
    /// Why the manager's thread did not start.
    pub startup_error: Option<Seq<char>>,
    /// Why the manager has terminated.
    pub terminal_error: Option<Seq<char>>,
}

/// How a request for a spawn guard is answered.
pub enum SpawnAnswer {
    /// The thread already holds a guard.
    Nested,
    /// A reap pass is under way; ask again once it has ended.
    Wait,
    /// The manager has terminated, for the stated reason.
    Terminated(Seq<char>),
    /// A guard is given out.
    Granted,
}

/// Why a second guard on one thread is refused.
pub open spec fn nested_refusal() -> Seq<char> {
    "the current thread already holds a process spawn guard"@
}

impl ManagerView {
    /// A manager that nothing has happened to.
    pub open spec fn fresh(id: int) -> Self {
        ManagerView {
            id,
            sections: SectionsView::fresh(),
            processes: Map::empty(),
            startup_error: None,
            terminal_error: None,
        }
    }

    /// What always holds of a manager: reap passes exclude spawn sections, only positive PIDs are
    /// tracked, and once it has terminated nothing is tracked and no section is open.
    pub open spec fn valid(self) -> bool {
        &&& self.sections.valid()
        &&& forall|pid: i32| #[trigger] self.processes.contains_key(pid) ==> pid > 0
        &&& self.terminal_error is Some ==> self.emptied()
    }

    /// Whether nothing is tracked and no spawn section is open.
    pub open spec fn emptied(self) -> bool {
        &&& forall|pid: i32| !#[trigger] self.processes.contains_key(pid)
        &&& self.sections.open.is_empty()
    }

    /// How a thread that asks for a spawn guard is answered, where `held` says whether it
    /// already holds one.
    pub open spec fn spawn_answer(self, held: bool) -> SpawnAnswer {
        if held {
            SpawnAnswer::Nested
        } else if self.sections.reaping {
            SpawnAnswer::Wait
        } else {
            match self.terminal_error {
                Some(error) => SpawnAnswer::Terminated(error),
                None => SpawnAnswer::Granted,
            }
        }
    }

    /// Why the manager cannot be used, if so: a failed start comes before a termination.
    pub open spec fn complaint(self) -> Option<Seq<char>> {
        match self.startup_error {
            Some(error) => Some("start process manager: "@ + error),
            None => self.terminal_error,
        }
    }

    /// The manager with one more spawn section open, the one that was next.
    pub open spec fn spawn_opened(self) -> Self {
        ManagerView { sections: self.sections.opened(), ..self }
    }

    /// The manager with the given spawn section closed.
    pub open spec fn spawn_closed(self, section: nat) -> Self {
        ManagerView { sections: self.sections.closed(section), ..self }
    }

    /// The manager with another table of processes.
    pub open spec fn with_processes(self, processes: Map<i32, Sender<i32>>) -> Self {
        ManagerView { processes, ..self }
    }

    /// The manager with a reap pass under way or not.
    pub open spec fn with_reaping(self, reaping: bool) -> Self {
        ManagerView { sections: SectionsView { reaping, ..self.sections }, ..self }
    }

    /// The manager once it has terminated for the reason `error`: nothing is tracked any more.
    pub open spec fn terminated(self, error: Seq<char>) -> Self {
        ManagerView { processes: Map::empty(), terminal_error: Some(error), ..self }
    }

    /// The manager once the launch of its thread has ended with `error`, or without one. Only
    /// the first error of a launch is kept.
    pub open spec fn launched(self, error: Option<Seq<char>>) -> Self {
        match self.startup_error {
            Some(_) => self,
            None => ManagerView { startup_error: error, ..self },
        }
    }
}

/// Coordinates process spawning, exit observation, and process-wide child reaping.
pub struct ProcessManager {
    id: Ghost<int>,
    sections: SpawnSections,
    state: ProcessManagerState,
    startup_error: Option<String>,
    terminal_error: Option<String>,
}

impl View for ProcessManager {
    type V = ManagerView;

    closed spec fn view(&self) -> ManagerView {
        ManagerView {
            id: self.id@,
            sections: self.sections@,
            processes: self.state@,
            startup_error: optional_text(self.startup_error),
            terminal_error: optional_text(self.terminal_error),
        }
    }
}

/// Keeps process reaping paused until a newly spawned PID is tracked.
///
/// A guard stands for one open spawn section of the manager that gave it out, and for the slot
/// of the thread that asked for it.
pub struct ProcessSpawnGuard {
    owner: Ghost<int>,
    section: Ghost<nat>,
    slot: Ghost<int>,
}

impl ProcessManager {
    /// A manager that tracks nothing and whose thread is yet to be launched.
    pub fn new() -> (manager: Self)
        ensures
            manager@ == ManagerView::fresh(manager@.id),
            manager@.valid(),
    {
        ProcessManager {
            id: Ghost(arbitrary()),
            sections: SpawnSections::new(),
            state: ProcessManagerState::new(),
            startup_error: None,
            terminal_error: None,
        }
    }

    /// Opens a shared spawn section that must end by tracking the child PID.
    ///
    /// The returned guard permits other spawns concurrently but temporarily prevents the process
    /// manager from consuming an untracked fast exit. It must be acquired immediately before the
    /// OS spawn or fork operation. `slot` is that of the calling thread. During a reap pass there
    /// is no guard to be had: the answer is then `None`, and the caller asks again once the pass
    /// has ended. Other guards do not stand against it, as long as the machine can count them.
    ///
    /// # Errors
    ///
    /// Returns an error if the calling thread already holds a spawn guard or the process manager
    /// has terminated.
    pub fn spawn_guard(&mut self, slot: &mut SpawnSlot) -> (guard: AgentdResult<
        Option<ProcessSpawnGuard>,
    >)
        requires
            old(self)@.valid(),
            old(self)@.spawn_answer(old(slot)@.held) is Granted
                ==> old(self)@.sections.open.len() < usize::MAX,
        ensures
            final(self)@.valid(),
            guard is Err <==> old(slot)@.held || (!old(self)@.sections.reaping
                && old(self)@.terminal_error is Some),
            (guard matches Ok(None)) <==> !old(slot)@.held && old(self)@.sections.reaping,
            (guard matches Ok(Some(_))) <==> !old(slot)@.held && !old(self)@.sections.reaping
                && old(self)@.terminal_error is None,
            guard matches Err(error) ==> {
                &&& old(slot)@.held ==> error.text()
                    == "the current thread already holds a process spawn guard"@
                &&& !old(slot)@.held ==> old(self)@.terminal_error == Some(error.text())
            },
            match old(self)@.spawn_answer(old(slot)@.held) {
                SpawnAnswer::Nested => fails_with(guard, nested_refusal()),
                SpawnAnswer::Wait => guard is Ok && guard->Ok_0 is None,
                SpawnAnswer::Terminated(error) => fails_with(guard, error),
                SpawnAnswer::Granted => {
                    &&& guard is Ok
                    &&& guard->Ok_0 is Some
                    &&& guard->Ok_0->Some_0.owner() == old(self)@.id
                    &&& guard->Ok_0->Some_0.section() == old(self)@.sections.next
                    &&& guard->Ok_0->Some_0.slot() == old(slot)@.id
                    &&& guard->Ok_0->Some_0.belongs_to(final(self)@, final(slot)@)
                },
            },
            if old(self)@.spawn_answer(old(slot)@.held) is Granted {
                &&& final(self)@ == old(self)@.spawn_opened()
                &&& final(slot)@ == (SlotView { held: true, ..old(slot)@ })
                &&& happens(
                    old(self)@,
                    Event::OpenSpawn { section: old(self)@.sections.next },
                    final(self)@,
                )
            } else {
                final(self)@ == old(self)@ && final(slot)@ == old(slot)@
            },
    {
        if slot.is_held() {
            return Err(
                AgentdError::ExecSession(
                    "the current thread already holds a process spawn guard".to_owned(),
                ),
            );
        }
        if self.sections.is_reaping() {
            return Ok(None);
        }
        if let Some(error) = &self.terminal_error {
            return Err(AgentdError::ExecSession(error.clone()));
        }
        let guard = ProcessSpawnGuard {
            owner: Ghost(self@.id),
            section: Ghost(self@.sections.next),
            slot: Ghost(slot@.id),
        };
        self.sections.open_spawn();
        slot.set(true);
        Ok(Some(guard))
    }

    /// How many spawn sections are open.
    pub fn open_spawns(&self) -> (count: usize)
        ensures
            count == self@.sections.open.len(),
    {
        self.sections.open_spawns()
    }

    /// Whether a reap pass is under way.
    pub fn is_reaping(&self) -> (reaping: bool)
        ensures
            reaping == self@.sections.reaping,
    {
        self.sections.is_reaping()
    }

    /// Notes how the launch of the manager's thread ended.
    pub fn record_launch(&mut self, launch: Launch)
        requires
            old(self)@.valid(),
        ensures
            final(self)@.valid(),
            final(self)@ == old(self)@.launched(launch_error(launch)),
            old(self)@.startup_error is Some ==> final(self)@ == old(self)@,
            (launch matches Launch::Reported(Ok(_))) ==> final(self)@ == old(self)@,
            old(self)@.startup_error is None && !(launch matches Launch::Reported(Ok(_)))
                ==> final(self)@.startup_error is Some,
            final(self)@.terminal_error == old(self)@.terminal_error,
            final(self)@.processes == old(self)@.processes,
            final(self)@.sections == old(self)@.sections,
            happens(old(self)@, Event::Launch { error: launch_error(launch) }, final(self)@),
    {
        if let Err(error) = startup_result(launch) {
            if self.startup_error.is_none() {
                self.startup_error = Some(error);
            }
        }
    }

    /// Whether the manager can be used.
    ///
    /// # Errors
    ///
    /// Returns an error if the manager's thread could not start, or if the process manager has
    /// terminated unexpectedly.
    pub fn result(&self) -> (result: AgentdResult<()>)
        ensures
            match self@.complaint() {
                Some(error) => fails_with(result, error),
                None => result is Ok,
            },
            result is Ok <==> self@.startup_error is None && self@.terminal_error is None,
            result matches Err(error) ==> match self@.startup_error {
                Some(reason) => error.text() == "start process manager: "@ + reason,
                None => self@.terminal_error == Some(error.text()),
            },
    {
        if let Some(error) = &self.startup_error {
            return Err(
                AgentdError::ExecSession(join("start process manager: ", error.as_str())),
            );
        }
        match &self.terminal_error {
            Some(error) => Err(AgentdError::ExecSession(error.clone())),
            None => Ok(()),
        }
    }

    /// Terminates the manager for the reason `error`: from then on spawns are refused, and every
    /// watcher that has not been told an exit code is told that there will be none.
    ///
    /// While a spawn section is open or a reap pass is under way nothing happens: the answer is
    /// then `false`, and the caller asks again once the section or the pass has ended.
    pub fn fail(&mut self, error: &str) -> (done: bool)
        requires
            old(self)@.valid(),
        ensures
            final(self)@.valid(),
            done == old(self)@.sections.idle(),
            if done {
                &&& final(self)@ == old(self)@.terminated(error@)
                &&& all_dropped(old(self)@.processes, final(self)@.processes)
                &&& final(self)@.terminal_error == Some(error@)
                &&& forall|pid: i32| !#[trigger] final(self)@.processes.contains_key(pid)
                &&& final(self)@.startup_error == old(self)@.startup_error
                &&& happens(old(self)@, Event::Fail { reason: error@ }, final(self)@)
            } else {
                final(self)@ == old(self)@
            },
    {
        if !self.sections.is_idle() {
            return false;
        }
        self.terminal_error = Some(error.to_owned());
        self.state.clear();
        true
    }

    /// Starts a reap pass, which excludes spawn sections and other passes.
    ///
    /// While a spawn section is open or another pass is under way none starts: the answer is
    /// then `false`, and the caller asks again once the section or the pass has ended.
    pub fn begin_reap(&mut self) -> (begun: bool)
        requires
            old(self)@.valid(),
        ensures
            final(self)@.valid(),
            begun == old(self)@.sections.idle(),
            final(self)@ == if begun {
                old(self)@.with_reaping(true)
            } else {
                old(self)@
            },
            final(self)@.sections.reaping == (begun || old(self)@.sections.reaping),
            final(self)@.processes == old(self)@.processes,
            begun ==> happens(old(self)@, Event::BeginReap, final(self)@),
    {
        self.sections.begin_reap()
    }

    /// Takes in what one wait for any child, without blocking, returned during a reap pass, and
    /// decides how the pass goes on. A pass that does not go on is over.
    ///
    /// `status` counts where `pid` is positive, `errno` where it is negative.
    pub fn reap_exited(&mut self, pid: i32, status: i32, errno: Option<i32>) -> (step: ReapStep)
        requires
            old(self)@.valid(),
            old(self)@.sections.reaping,
        ensures
            final(self)@.valid(),
            final(self)@ == old(self)@.with_processes(
                table_after_wait(old(self)@.processes, pid),
            ).with_reaping(step is Again),
            told_exit(old(self)@.processes, pid, status),
            step == step_after_wait(pid, errno),
            step is Again <==> pid > 0 || (pid < 0 && errno == Some(LINUX_EINTR)),
            step is Done <==> pid == 0 || (pid < 0 && errno == Some(LINUX_ECHILD)),
            final(self)@.sections.reaping <==> step is Again,
            forall|other: i32| #[trigger]
                final(self)@.processes.contains_key(other) <==> old(
                    self,
                )@.processes.contains_key(other) && !(pid > 0 && other == pid),
            happens(old(self)@, Event::Wait { pid, status, errno }, final(self)@),
    {
        let step: ReapStep = self.state.reap_exited(pid, status, errno);
        match step {
            ReapStep::Again => {},
            ReapStep::Done | ReapStep::Failed => self.sections.end_reap(),
        }
        step
    }

    /// Gives the reap pass up before it is over, if one is under way.
    pub fn abandon_reap(&mut self)
        requires
            old(self)@.valid(),
        ensures
            final(self)@.valid(),
            final(self)@ == old(self)@.with_reaping(false),
            happens(old(self)@, Event::AbandonReap, final(self)@),
    {
        self.sections.end_reap()
    }
}

/// What is logged where a wait during a reap pass failed for the reason `error`.
pub fn reap_warning(error: &str) -> (warning: String)
    ensures
        warning@ == "agentd: waitpid failed while reaping processes: "@ + error@,
{
    join("agentd: waitpid failed while reaping processes: ", error)
}

impl ProcessSpawnGuard {
    /// The manager that gave the guard out.
    pub closed spec fn owner(self) -> int {
        self.owner@
    }

    /// The spawn section that the guard keeps open.
    pub closed spec fn section(self) -> nat {
        self.section@
    }

    /// The slot of the thread that asked for the guard.
    pub closed spec fn slot(self) -> int {
        self.slot@
    }

    /// Whether the guard is one of `manager`, which keeps its section open, and of the thread of
    /// `slot`, which holds it.
    pub open spec fn belongs_to(self, manager: ManagerView, slot: SlotView) -> bool {
        &&& self.owner() == manager.id
        &&& manager.sections.open.contains(self.section())
        &&& self.slot() == slot.id
        &&& slot.held
    }

    /// Tracks the spawned PID before allowing process reaping to proceed.
    ///
    /// Consuming the guard makes the manager the sole owner of that PID's exit status during
    /// normal operation. Poll the returned [`ProcessExitWatcher`] instead of waiting for the
    /// child. `manager` is the one that gave the guard out, and `slot` that of the thread which
    /// asked for it.
    ///
    /// # Errors
    ///
    /// Returns an error when `pid` is not positive or is already tracked.
    pub fn track(self, manager: &mut ProcessManager, slot: &mut SpawnSlot, pid: i32) -> (outcome:
        AgentdResult<ProcessExitWatcher>)
        requires
            old(manager)@.valid(),
            self.belongs_to(old(manager)@, old(slot)@),
        ensures
            final(manager)@.valid(),
            track_outcome(
                old(manager)@.processes,
                pid,
                outcome,
                final(manager)@.processes,
            ),
            final(manager)@ == old(manager)@.spawn_closed(self.section()).with_processes(
                final(manager)@.processes,
            ),
            final(slot)@ == (SlotView { held: false, ..old(slot)@ }),
            outcome is Ok <==> pid > 0 && !old(manager)@.processes.contains_key(pid),
            match outcome {
                Ok(_) => happens(
                    old(manager)@,
                    Event::Track {
                        section: self.section(),
                        pid,
                        sender: final(manager)@.processes[pid],
                    },
                    final(manager)@,
                ),
                Err(_) => happens(
                    old(manager)@,
                    Event::CloseSpawn { section: self.section() },
                    final(manager)@,
                ),
            },
    {
        let outcome: AgentdResult<ProcessExitWatcher> = manager.state.track(pid);
        self.release(manager, slot);
        outcome
    }

    /// Closes the spawn section without tracking a process.
    pub fn release(self, manager: &mut ProcessManager, slot: &mut SpawnSlot)
        requires
            old(manager)@.valid(),
            self.belongs_to(old(manager)@, old(slot)@),
        ensures
            final(manager)@.valid(),
            final(manager)@ == old(manager)@.spawn_closed(self.section()),
            final(slot)@ == (SlotView { held: false, ..old(slot)@ }),
            happens(
                old(manager)@,
                Event::CloseSpawn { section: self.section() },
                final(manager)@,
            ),
    {
        slot.set(false);
        manager.sections.close_spawn(self.section);
    }
}

} // verus!
