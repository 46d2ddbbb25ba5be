//! What can happen to a process manager.

use vstd::prelude::*;

#[allow(unused_imports)]
use crate::channel::all_dropped;
#[allow(unused_imports)]
use crate::manager::ManagerView;
#[allow(unused_imports)]
use crate::state::{table_after_wait, told_exit, trackable};
#[allow(unused_imports)]
use crate::status::step_after_wait;
#[allow(unused_imports)]
use tokio::sync::oneshot::Sender;

verus! {

/// One thing that happens to a process manager. What it refuses, or puts off, changes nothing
/// and is no event.
pub enum Event {
    /// The spawn guard of `section` is given out.
    OpenSpawn { section: nat },
    /// The spawn guard of `section` is given back without a process being tracked.
    CloseSpawn { section: nat },
    /// The spawn guard of `section` is given back by tracking `pid`, whose watcher is told
    /// through `sender`.
    Track { section: nat, pid: i32, sender: Sender<i32> },
    /// A reap pass starts.
    BeginReap,
    /// During a reap pass a wait returns `pid` with `status`, or fails with `errno`.
    Wait { pid: i32, status: i32, errno: Option<i32> },
    /// A reap pass is given up before it is over.
    AbandonReap,
    /// The manager terminates, for the stated reason.
    Fail { reason: Seq<char> },
    /// The launch of the manager's thread ends, with an error or without.
    Launch { error: Option<Seq<char>> },
}

/// Whether `event` can take a manager from `before` to `after`.
pub open spec fn happens(before: ManagerView, event: Event, after: ManagerView) -> bool {
    match event {
        Event::OpenSpawn { section } => {
            &&& before.spawn_answer(false) is Granted
            &&& section == before.sections.next
            &&& after == before.spawn_opened()
        },
        Event::CloseSpawn { section } => {
            &&& before.sections.open.contains(section)
            &&& after == before.spawn_closed(section)
        },
        Event::Track { section, pid, sender } => {
            &&& before.sections.open.contains(section)
            &&& trackable(before.processes, pid)
            &&& after == before.spawn_closed(section).with_processes(
                before.processes.insert(pid, sender),
            )
        },
        Event::BeginReap => {
            &&& before.sections.idle()
            &&& after == before.with_reaping(true)
        },
        Event::Wait { pid, status, errno } => {
            &&& before.sections.reaping
            &&& after == before.with_processes(
                table_after_wait(before.processes, pid),
            ).with_reaping(step_after_wait(pid, errno) is Again)
            &&& told_exit(before.processes, pid, status)
        },
        Event::AbandonReap => after == before.with_reaping(false),
        Event::Fail { reason } => {
            &&& before.sections.idle()
            &&& after == before.terminated(reason)
            &&& all_dropped(before.processes, after.processes)
        },
        Event::Launch { error } => after == before.launched(error),
    }
}

} // verus!
