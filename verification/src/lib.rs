//! Process lifecycle management for an agent daemon.
//!
//! A [`ProcessManager`] decides about process spawning, exit observation and process-wide child
//! reaping. Its reaper drains the statuses of all children, and therefore also consumes those of
//! untracked ones. Code that needs an exit status acquires a guard with
//! [`ProcessManager::spawn_guard`] before it creates the process and finishes with
//! [`ProcessSpawnGuard::track`]; no reap pass starts in between, so the status of a child that
//! exits at once is not lost. It must not wait for the same child on its own.
//!
//! The types here hold the decisions and leave the rest to the daemon: locking, blocking,
//! threads, signals and the wait calls. An operation that has to wait, because spawn sections and
//! reap passes exclude each other, says so and changes nothing, and is asked for again once a
//! section or a pass has ended.

pub mod channel;
pub mod error;
pub mod events;
pub mod sections;
pub mod guarantees;
pub mod launch;
pub mod laws;
pub mod manager;
pub mod state;
pub mod status;
pub mod text;
pub mod watcher;

pub use error::{AgentdError, AgentdResult};
pub use sections::SpawnSlot;
pub use launch::{thread_failure, Launch, ThreadEnd, ThreadStep};
pub use manager::{reap_warning, ProcessManager, ProcessSpawnGuard};
pub use state::ProcessManagerState;
pub use status::{exit_code, ReapStep};
pub use watcher::{resolve, settle, ExitNotice, ExitPoll, ProcessExitWatcher};
