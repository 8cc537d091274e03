# aynur

`aynur` is a minimal process guardian for local Rust binaries. A small daemon keeps configured
processes running, redirects their output to log files, restarts them when they exit, gives up on
crash loops, and brings saved apps back when it starts.

Everything that `aynur` decides is a verified library. Files, sockets, processes and the clock stay
outside: the library names the next thing to be done, the program around it does that and hands back
what came of it.

## Layout

- `src/daemon.rs`, `src/daemon_exit.rs`, `src/daemon_restore.rs`: requests, exits and the start of the
  daemon, step by step, over the state in `src/runtime.rs`.
- `src/daemon_service.rs`, `src/pid_lock.rs`, `src/daemon_log.rs`: how the daemon comes up and turns
  to its calls and its apps, the lock that keeps it alone, and the log of its errors.
- `src/daemon_run.rs`: what holds of whole requests, however the outside world replies.
- `src/commands.rs`, `src/client.rs`, `src/cli.rs`: the commands, and what they make of the daemon's
  answers.
- `src/app.rs`, `src/saved.rs`, `src/env_file.rs`, `src/paths.rs`: configurations, the restart
  snapshot, environments and the places of files.
- `src/logs.rs`, `src/memory.rs`, `src/process.rs`: following logs, showing memory, launching
  and judging processes.
- `src/startup.rs`, `src/escape.rs`: starting the daemon with the session of the user.
- `src/atomic_write.rs`: replacing a file in one step.
- `src/text.rs`, `src/order.rs`, `src/text_map.rs`, `src/number.rs`, `src/file_path.rs`,
  `src/timestamp.rs`, `src/failure.rs`, `src/metadata.rs`: what the rest is made of.
- `app/`: the program, with its arguments, JSON, sockets, files and processes.
- `tests/`: the library against simulated files, processes and daemons.

Public proof functions whose names start with `law_` state what the library promises as a whole.
