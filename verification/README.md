# agentd_process

Process lifecycle management for an agent daemon: spawning without losing fast exits, observing
exit codes, and reaping children process-wide.

- `src/` is the library, verified with Verus: the process table (`state`), the exclusion between
  spawn sections and reap passes (`sections`), the manager (`manager`), exit watchers (`watcher`),
  wait statuses (`status`), and the life of the manager's thread (`launch`). `laws` holds what is
  proved of the library as a whole. `channel` and `status` hold the contracts that are believed of
  tokio's one-shot channel and of libc.
- `app/` puts locks, threads, signals and `waitpid` around it.
- `tests/` runs the library.

The wait statuses and error numbers are those of Linux.
