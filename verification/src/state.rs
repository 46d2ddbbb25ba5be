//! The table of tracked processes.

use crate::channel::{drop_senders, exit_channel, send};
use crate::error::{AgentdError, AgentdResult};
use crate::status::{exit_code, next_step, ReapStep};
use crate::text::{join, push_decimal};
use crate::watcher::ProcessExitWatcher;
use std::collections::hash_map::Entry;
use std::collections::HashMap;
use tokio::sync::oneshot::Sender;
use vstd::prelude::*;

#[allow(unused_imports)]
use crate::channel::{all_dropped, handed_over};
#[allow(unused_imports)]
use crate::error::fails_with;
#[allow(unused_imports)]
use crate::status::{exit_code_of, step_after_wait, LINUX_ECHILD, LINUX_EINTR};
#[allow(unused_imports)]
use crate::text::decimal;

verus! {

broadcast use vstd::std_specs::hash::group_hash_axioms;

/// The tracked processes, each with the sender that its watcher is told its exit code through.
pub struct ProcessManagerState {
    processes: HashMap<i32, Sender<i32>>,
}

impl View for ProcessManagerState {
    type V = Map<i32, Sender<i32>>;

    closed spec fn view(&self) -> Map<i32, Sender<i32>> {
        self.processes@
    }
}

/// Whether `pid` can be tracked: it is positive and not in the table yet.
pub open spec fn trackable(table: Map<i32, Sender<i32>>, pid: i32) -> bool {
    pid > 0 && !table.contains_key(pid)
}

/// Why `pid` cannot be tracked.
pub open spec fn track_refusal(pid: i32) -> Seq<char> {
    if pid <= 0 {
        "cannot track invalid process PID "@ + decimal(pid as int)
    } else {
        "process PID "@ + decimal(pid as int) + " is already tracked"@
    }
}

/// Whether tracking `pid` on the table `before` gives `outcome` and leaves the table `after`: a
/// process that can be tracked gains an entry whose sender tells the watcher, and for any other
/// nothing changes.
pub open spec fn track_outcome(
    before: Map<i32, Sender<i32>>,
    pid: i32,
    outcome: AgentdResult<ProcessExitWatcher>,
    after: Map<i32, Sender<i32>>,
) -> bool {
    if trackable(before, pid) {
        &&& outcome is Ok
        &&& outcome->Ok_0.pid() == pid
        &&& after.contains_key(pid)
        &&& after == before.insert(pid, after[pid])
        &&& outcome->Ok_0.exit() == handed_over(after[pid])
    } else {
        &&& fails_with(outcome, track_refusal(pid))
        &&& after == before
    }
}

/// The table once a wait has returned `pid`: a reaped process is no longer tracked.
pub open spec fn table_after_wait(table: Map<i32, Sender<i32>>, pid: i32) -> Map<i32, Sender<i32>> {
    if pid > 0 {
        table.remove(pid)
    } else {
        table
    }
}

/// Whether the watcher of `pid`, if it is tracked, has been told the exit code that `status`
/// stands for.
pub open spec fn told_exit(table: Map<i32, Sender<i32>>, pid: i32, status: i32) -> bool {
    pid > 0 && table.contains_key(pid) ==> handed_over(table[pid]) == Some(exit_code_of(status))
}

impl ProcessManagerState {
    /// An empty table.
    pub fn new() -> (state: Self)
        ensures
            state@ == Map::<i32, Sender<i32>>::empty(),
    {
        ProcessManagerState { processes: HashMap::new() }
    }

    /// Starts to track `pid`.
    ///
    /// # Errors
    ///
    /// Returns an error when `pid` is not positive or is already tracked.
    pub fn track(&mut self, pid: i32) -> (outcome: AgentdResult<ProcessExitWatcher>)
        ensures
            track_outcome(old(self)@, pid, outcome, final(self)@),
            outcome is Ok <==> pid > 0 && !old(self)@.contains_key(pid),
            outcome is Err ==> final(self)@ == old(self)@,
            outcome matches Ok(watcher) ==> {
                &&& watcher.pid() == pid
                &&& final(self)@.contains_key(pid)
                &&& watcher.exit() == handed_over(final(self)@[pid])
            },
    {
        if pid <= 0 {
            let mut refusal: String = "cannot track invalid process PID ".to_owned();
            push_decimal(&mut refusal, pid);
            return Err(AgentdError::ExecSession(refusal));
        }
        let (sender, receiver) = exit_channel();
        match self.processes.entry(pid) {
            Entry::Vacant(entry) => {
                let _ = entry.insert(sender);
                Ok(ProcessExitWatcher::new(pid, receiver))
            },
            Entry::Occupied(_entry) => {
                assert(old(self)@.insert(pid, old(self)@[pid]) == old(self)@);
                let mut refusal: String = "process PID ".to_owned();
                push_decimal(&mut refusal, pid);
                Err(AgentdError::ExecSession(join(refusal.as_str(), " is already tracked")))
            },
        }
    }

    /// Takes in what one wait for any child, without blocking, returned, and decides how the
    /// reap pass goes on.
    ///
    /// `status` counts where `pid` is positive, `errno` where it is negative. The status of a
    /// child that is not tracked is consumed without further effect.
    pub fn reap_exited(&mut self, pid: i32, status: i32, errno: Option<i32>) -> (step: ReapStep)
        ensures
            final(self)@ == table_after_wait(old(self)@, pid),
            told_exit(old(self)@, pid, status),
            step == step_after_wait(pid, errno),
            step is Again <==> pid > 0 || (pid < 0 && errno == Some(LINUX_EINTR)),
            step is Done <==> pid == 0 || (pid < 0 && errno == Some(LINUX_ECHILD)),
            forall|other: i32| #[trigger]
                final(self)@.contains_key(other) <==> old(self)@.contains_key(other) && !(pid > 0
                    && other == pid),
    {
        if pid > 0 {
            if let Some(sender) = self.processes.remove(&pid) {
                let _ = send(sender, exit_code(status));
            } else {
                assert(old(self)@.remove(pid) == old(self)@);
            }
        }
        next_step(pid, errno)
    }

    /// Stops to track every process without telling any watcher an exit code.
    pub fn clear(&mut self)
        ensures
            all_dropped(old(self)@, final(self)@),
    {
        drop_senders(&mut self.processes)
    }
}

} // verus!
