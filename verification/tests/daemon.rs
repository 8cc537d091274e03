//! The daemon: requests, exits and what is brought back.
use aynur::app::{AppConfig, LoadReply, RestartPolicy, SaveReply};
use aynur::atomic_write::{StepError, WriteStep};
use aynur::daemon::RequestStep;
use aynur::daemon_exit::ExitStep;
use aynur::daemon_log::{append_daemon_error, daemon_ended, final_error_log, LogReply};
use aynur::daemon_restore::{ConfigReply, RestoreStep};
use aynur::daemon_service::{
    accepted, begin, connection_error_line, exit_handled, exit_taken, performed, reported, rested,
    service_failure, worked, AcceptReply, ExitReply, ServiceJob, ServiceStage, ServiceStep,
};
use aynur::failure::Failure;
use aynur::file_path::FilePath;
use aynur::ipc::{program_version, DaemonRequest, DaemonResponse, DAEMON_PROTOCOL_VERSION};
use aynur::metadata::Metadata;
use aynur::paths::AynurPaths;
use aynur::pid_lock::{acquire_pid_lock, judge_pid_lock, PidLockError, PidLockStep};
use aynur::process::{ExitEvent, LaunchPlan, SignalError, SpawnReply};
use aynur::runtime::{AppStatus, DaemonState, RuntimeApp};
use aynur::saved::{SavedApps, SnapshotReply};
use aynur::text_map::TextMap;
use aynur::timestamp::Timestamp;
use std::collections::BTreeMap;

fn test_paths() -> AynurPaths {
    AynurPaths::below(FilePath::from_text("/state"))
}

/// The file of the snapshot.
enum SnapshotFile {
    Missing,
    Corrupt,
    Holds(SavedApps),
}

/// Everything outside of the daemon.
struct World {
    configs: BTreeMap<String, AppConfig>,
    snapshot: SnapshotFile,
    log: Vec<String>,
    signals: Vec<(u32, i32)>,
    unsignallable: bool,
    waited_millis: u64,
    next_pid: u32,
    now: i64,
    snapshot_is_locked: bool,
    env_file: Result<String, String>,
    log_is_locked: bool,
}

impl World {
    fn new() -> World {
        World {
            configs: BTreeMap::new(),
            snapshot: SnapshotFile::Missing,
            log: Vec::new(),
            signals: Vec::new(),
            unsignallable: false,
            waited_millis: 0,
            next_pid: 100,
            now: 1_000,
            snapshot_is_locked: false,
            env_file: Err("gone".to_string()),
            log_is_locked: false,
        }
    }

    fn clock(&self) -> Timestamp {
        Timestamp::new(self.now, 0).expect("time")
    }

    fn inspect(&self, path: &FilePath) -> Result<Metadata, String> {
        let (is_file, is_dir) = match path.display().as_str() {
            "/bin/sleep" | "/usr/bin/false" => (true, false),
            "/state" => (false, true),
            _ => return Err("No such file or directory (os error 2)".to_string()),
        };
        Ok(Metadata { is_file, is_dir, is_symlink: false, mode: 0o755, uid: 0 })
    }

    fn spawn(&mut self, app: &RuntimeApp, plan: &LaunchPlan) -> SpawnReply {
        assert_eq!(*plan, LaunchPlan::of_app(&test_paths(), &app.config));
        if plan.program.display() == "/usr/bin/false" {
            return SpawnReply::Exited { status: "exit status: 1".to_string() };
        }
        self.next_pid += 1;
        SpawnReply::Running { pid: self.next_pid, started_at: self.clock() }
    }

    fn signal(&mut self, pid: u32, signal: i32) -> Result<(), SignalError> {
        if self.unsignallable {
            return Err(SignalError { errno: Some(1), cause: "not permitted".to_string() });
        }
        self.signals.push((pid, signal));
        Ok(())
    }

    fn read_snapshot(&self) -> SnapshotReply {
        match &self.snapshot {
            SnapshotFile::Missing => SnapshotReply::Missing,
            SnapshotFile::Corrupt => {
                SnapshotReply::Malformed { cause: "expected ident at line 1 column 2".to_string() }
            }
            SnapshotFile::Holds(saved_apps) => {
                SnapshotReply::Parsed { saved_apps: saved_apps.clone() }
            }
        }
    }

    fn append(&mut self, line: &str) -> LogReply {
        if self.log_is_locked {
            return LogReply::NotOpened { cause: "denied".to_string() };
        }
        self.log.push(line.to_string());
        LogReply::Appended
    }

    fn respond(&mut self, state: &mut DaemonState, request: DaemonRequest) -> DaemonResponse {
        let step = state.handle_request(request, self.clock());
        self.finish(state, step)
    }

    fn finish(&mut self, state: &mut DaemonState, first: RequestStep) -> DaemonResponse {
        let mut step = first;
        loop {
            step = match step {
                RequestStep::Respond { response } => return response,
                RequestStep::Inspect { config } => {
                    let binary = self.inspect(&config.binary_path);
                    let directory = self.inspect(&config.working_directory);
                    state.inspected(config, binary, directory)
                }
                RequestStep::Spawn { pending, plan } => {
                    let reply = self.spawn(&pending.app, &plan);
                    state.spawned(pending, reply)
                }
                RequestStep::Terminate { pending } => {
                    let sent = self.signal(pending.pid, libc::SIGTERM);
                    state.terminated(pending, sent)
                }
                RequestStep::Kill { pending, pause_millis } => {
                    self.waited_millis += pause_millis;
                    let sent = self.signal(pending.pid, libc::SIGKILL);
                    state.killed(pending, sent)
                }
                RequestStep::ReadEnvFile { pending } => {
                    state.env_file_read(pending, self.env_file.clone())
                }
                RequestStep::SaveConfig { pending } => {
                    self.configs.insert(pending.path.display(), pending.app.config.clone());
                    state.config_saved(pending, SaveReply::Written)
                }
                RequestStep::DeleteConfig { pending } => {
                    self.configs.remove(&pending.path.display());
                    state.config_deleted(pending, Ok(()))
                }
                RequestStep::ReadSnapshot { pending } => {
                    state.snapshot_read(pending, self.read_snapshot(), self.clock())
                }
                RequestStep::LogError { pending } => {
                    let reply = self.append(&pending.line);
                    state.rebuild_logged(pending, reply)
                }
                RequestStep::WriteSnapshot { pending } => {
                    let written = if self.snapshot_is_locked {
                        pending.write.judge(
                            WriteStep::Create,
                            Err(StepError { not_found: false, cause: "denied".to_string() }),
                        )
                    } else {
                        self.snapshot = SnapshotFile::Holds(pending.saved_apps.clone());
                        Ok(())
                    };
                    pending.written(written)
                }
            };
        }
    }

    fn exit(&mut self, state: &mut DaemonState, name: &str, pid: u32) -> Result<(), Failure> {
        let event = ExitEvent { name: name.to_string(), pid };
        let mut step = state.handle_exit_event(event, self.clock());
        loop {
            step = match step {
                ExitStep::Done => return Ok(()),
                ExitStep::Fail { failure } => return Err(failure),
                ExitStep::Spawn { pending, plan } => {
                    let reply = self.spawn(&pending.app, &plan);
                    state.restarted(pending, reply)
                }
                ExitStep::Report { pending } => {
                    let reply = self.append(&pending.line);
                    state.restart_reported(pending, reply)
                }
            };
        }
    }

    fn restore(&mut self, state: &mut DaemonState) -> Result<(), Failure> {
        let mut step = state.restore_saved_apps(self.read_snapshot());
        loop {
            step = match step {
                RestoreStep::Done => return Ok(()),
                RestoreStep::Fail { failure } => return Err(failure),
                RestoreStep::Load { pending } => {
                    let reply = match self.configs.get(&pending.path.display()) {
                        Some(config) => ConfigReply::Found {
                            read: LoadReply::Parsed { config: config.clone() },
                        },
                        None => ConfigReply::Missing,
                    };
                    state.restore_config_loaded(pending, reply)
                }
                RestoreStep::Inspect { pending } => {
                    let binary = self.inspect(&pending.app.config.binary_path);
                    let directory = self.inspect(&pending.app.config.working_directory);
                    state.restore_app_inspected(pending, binary, directory)
                }
                RestoreStep::Spawn { pending, plan } => {
                    let reply = self.spawn(&pending.app, &plan);
                    state.restore_app_spawned(pending, reply)
                }
                RestoreStep::Report { pending } => {
                    let reply = self.append(&pending.line);
                    state.restore_failure_reported(pending, reply)
                }
            };
        }
    }

    fn saved_names(&self, paths: &AynurPaths) -> Vec<String> {
        SavedApps::load_optional(paths, self.read_snapshot())
            .expect("load saved apps")
            .expect("saved apps")
            .app_names
    }

    fn save_snapshot(&mut self, names: &[&str]) {
        self.snapshot = SnapshotFile::Holds(SavedApps {
            version: 1,
            saved_at_unix_seconds: 1,
            app_names: names.iter().map(|name| name.to_string()).collect(),
        });
    }

    fn save_config(&mut self, paths: &AynurPaths, config: &AppConfig) {
        let path = paths.app_config_path(&config.name).display();
        self.configs.insert(path, config.clone());
    }
}

fn config(name: &str, binary_path: FilePath, args: &[&str]) -> AppConfig {
    AppConfig {
        name: name.to_string(),
        binary_path,
        args: args.iter().map(|arg| arg.to_string()).collect(),
        working_directory: test_paths().root_dir,
        env: TextMap::new(),
        env_file_path: None,
        restart_policy: RestartPolicy { max_restarts: 5, window_seconds: 10 },
    }
}

fn sleep_config(name: &str) -> AppConfig {
    config(name, FilePath::from_text("/bin/sleep"), &["30"])
}

fn missing_binary_config(name: &str) -> AppConfig {
    config(name, test_paths().root_dir.join_text("missing-binary"), &[])
}

fn immediate_exit_config(name: &str) -> AppConfig {
    config(name, FilePath::from_text("/usr/bin/false"), &[])
}

fn stop(name: &str) -> DaemonRequest {
    DaemonRequest::Stop { name: name.to_string() }
}

fn delete(name: &str) -> DaemonRequest {
    DaemonRequest::Delete { name: name.to_string() }
}

fn error_message(response: DaemonResponse) -> String {
    match response {
        DaemonResponse::Error { message } => message,
        response => panic!("expected an error, got {response:?}"),
    }
}

/// The file with the number of the daemon's process.
#[derive(Default)]
struct PidFile {
    content: String,
    held: bool,
}

impl PidFile {
    fn acquire(&mut self, paths: &AynurPaths, pid: u32) -> Result<(), Failure> {
        for step in acquire_pid_lock(paths, pid) {
            let done = match &step {
                PidLockStep::Lock if self.held => Err(PidLockError {
                    would_block: true,
                    cause: "Resource temporarily unavailable (os error 11)".to_string(),
                }),
                _ => Ok(()),
            };
            judge_pid_lock(paths, &step, done)?;
            match step {
                PidLockStep::Open { path } => assert_eq!(path.display(), "/state/daemon.pid"),
                PidLockStep::Lock => self.held = true,
                PidLockStep::Truncate => self.content.clear(),
                PidLockStep::Write { content } => self.content.push_str(&content),
                PidLockStep::Flush => {}
            }
        }
        Ok(())
    }
}

#[test]
fn daemon_pid_lock_rejects_a_second_daemon_for_the_same_state() {
    let paths = test_paths();
    let mut file = PidFile { content: "31415".to_string(), held: false };

    file.acquire(&paths, 42).expect("first daemon lock");
    let error = file.acquire(&paths, 43).expect_err("second daemon lock");

    assert!(error.summary.contains("daemon is already running"));
    assert_eq!(file.content, "42");
}

#[test]
fn the_lock_can_fail() {
    let expected = [
        "failed to open daemon pid at /state/daemon.pid: denied",
        "failed to lock daemon pid at /state/daemon.pid: denied",
        "failed to truncate daemon pid at /state/daemon.pid: denied",
        "failed to write daemon pid at /state/daemon.pid: denied",
        "failed to flush daemon pid at /state/daemon.pid: denied",
    ];
    let steps = acquire_pid_lock(&test_paths(), 42);
    assert_eq!(steps.len(), expected.len());
    for (step, expected) in steps.iter().zip(expected) {
        let refused = |would_block| {
            let error = PidLockError { would_block, cause: "denied".to_string() };
            judge_pid_lock(&test_paths(), step, Err(error)).expect_err("no").text()
        };
        assert_eq!(refused(false), expected);
        if *step == PidLockStep::Lock {
            assert_eq!(refused(true), "aynur daemon is already running for /state");
        } else {
            assert_eq!(refused(true), expected);
        }
    }
}

#[test]
fn the_daemon_comes_up_and_takes_calls() {
    let paths = test_paths();
    let mut step = begin();
    let mut seen = Vec::new();
    while step != ServiceStep::Accept {
        seen.push(step.clone());
        step = match step {
            ServiceStep::Work { job } => worked(job, Ok(())),
            ServiceStep::Perform { stage } => performed(&paths, stage, Ok(())),
            other => panic!("unexpected step {other:?}"),
        };
    }
    let work = |job| ServiceStep::Work { job };
    let perform = |stage| ServiceStep::Perform { stage };
    assert_eq!(
        seen,
        vec![
            work(ServiceJob::EnsureDirectories),
            work(ServiceJob::LockPid),
            perform(ServiceStage::RemoveStaleSocket),
            perform(ServiceStage::Bind),
            perform(ServiceStage::SetNonBlocking),
            work(ServiceJob::RestoreApps),
        ]
    );

    let mut stages = Vec::new();
    step = accepted(&paths, AcceptReply::Called);
    while let ServiceStep::Perform { stage } = step {
        stages.push(stage);
        step = performed(&paths, stage, Ok(()));
    }
    assert_eq!(step, ServiceStep::Accept);
    assert_eq!(
        stages,
        vec![
            ServiceStage::SetBlocking,
            ServiceStage::SetReadTimeout,
            ServiceStage::SetWriteTimeout,
            ServiceStage::ReadRequest,
            ServiceStage::SerializeResponse,
            ServiceStage::WriteResponse,
            ServiceStage::WriteNewline,
        ]
    );
    let running = Failure::new("aynur daemon is already running for /state".to_string());
    assert_eq!(
        worked(ServiceJob::LockPid, Err(running.clone())),
        ServiceStep::Fail { failure: running }
    );
}

#[test]
fn a_failed_call_does_not_end_the_daemon() {
    let paths = test_paths();
    for (stage, expected) in [
        (ServiceStage::ReadRequest, "failed to read daemon request"),
        (ServiceStage::SerializeResponse, "failed to serialize daemon response"),
        (ServiceStage::WriteResponse, "failed to write daemon response"),
        (ServiceStage::WriteNewline, "failed to write daemon response newline"),
    ] {
        assert_eq!(
            performed(&paths, stage, Err("reset".to_string())),
            ServiceStep::Report {
                line: format!("failed to handle daemon request: {expected}: reset")
            }
        );
    }
    assert_eq!(reported(&paths, LogReply::Appended), ServiceStep::Accept);
    let unlogged = reported(&paths, LogReply::NotOpened { cause: "denied".to_string() });
    assert!(matches!(
        unlogged,
        ServiceStep::Fail { failure }
            if failure.text() == "failed to open daemon error log at /state/daemon.err.log: denied"
    ));
    let unprepared = performed(&paths, ServiceStage::SetBlocking, Err("denied".to_string()));
    assert!(matches!(
        unprepared,
        ServiceStep::Fail { failure }
            if failure.text() == "failed to set daemon connection to blocking: denied"
    ));
    let refused = accepted(&paths, AcceptReply::Failed { cause: "denied".to_string() });
    assert!(matches!(
        refused,
        ServiceStep::Fail { failure }
            if failure.text() == "failed to accept daemon connection: denied"
    ));
}

#[test]
fn the_daemon_turns_to_its_apps_when_nobody_calls() {
    let paths = test_paths();
    let event = ExitEvent { name: "api".to_string(), pid: 42 };
    let failure = Failure::new("denied".to_string());
    assert_eq!(accepted(&paths, AcceptReply::NobodyCalls), ServiceStep::TakeExit);
    assert_eq!(
        exit_taken(ExitReply::Ended { event: event.clone() }),
        ServiceStep::HandleExit { event }
    );
    assert_eq!(exit_handled(Ok(())), ServiceStep::TakeExit);
    assert_eq!(exit_handled(Err(failure.clone())), ServiceStep::Fail { failure });
    assert_eq!(exit_taken(ExitReply::NoneEnded), ServiceStep::Rest { pause_millis: 50 });
    assert_eq!(rested(), ServiceStep::Accept);
    assert_eq!(
        exit_taken(ExitReply::Closed),
        ServiceStep::Fail { failure: Failure::new("exit event channel closed".to_string()) }
    );
}

#[test]
fn a_full_restart_counter_matters_for_a_restart_alone() {
    let mut world = World::new();
    let mut state = DaemonState::new(test_paths());
    world.respond(&mut state, DaemonRequest::Start { config: sleep_config("api") });
    let mut app = state.take("api").expect("app");
    let pid = app.pid.expect("pid");
    let event = |pid| ExitEvent { name: "api".to_string(), pid };
    let now = world.clock();
    app.restarts = u32::MAX;
    state.put("api".to_string(), app);

    assert!(state.restart_counter_is_full(&event(pid), &now));
    assert!(!state.restart_counter_is_full(&event(pid + 1), &now));
    assert_eq!(state.handle_exit_event(event(pid + 1), now), ExitStep::Done);
    let mut app = state.take("api").expect("app");
    app.status = AppStatus::Stopping;
    state.put("api".to_string(), app);
    assert!(!state.restart_counter_is_full(&event(pid), &now));
    assert_eq!(state.handle_exit_event(event(pid), now), ExitStep::Done);
}

#[test]
fn the_service_can_fail() {
    for (stage, expected) in [
        (
            ServiceStage::RemoveStaleSocket,
            "failed to remove stale daemon socket at /state/daemon.sock: denied",
        ),
        (ServiceStage::Bind, "failed to bind daemon socket at /state/daemon.sock: denied"),
        (ServiceStage::SetNonBlocking, "failed to set daemon socket to non-blocking: denied"),
        (ServiceStage::Accept, "failed to accept daemon connection: denied"),
        (ServiceStage::SetBlocking, "failed to set daemon connection to blocking: denied"),
        (ServiceStage::SetReadTimeout, "failed to set daemon connection read timeout: denied"),
        (
            ServiceStage::SetWriteTimeout,
            "failed to set daemon connection write timeout: denied",
        ),
        (ServiceStage::ReadRequest, "failed to read daemon request: denied"),
        (ServiceStage::SerializeResponse, "failed to serialize daemon response: denied"),
        (ServiceStage::WriteResponse, "failed to write daemon response: denied"),
        (ServiceStage::WriteNewline, "failed to write daemon response newline: denied"),
    ] {
        let failure = service_failure(&test_paths(), stage, "denied".to_string());
        assert_eq!(failure.text(), expected);
    }
    let failure = Failure::because("a".to_string(), "b".to_string());
    assert_eq!(connection_error_line(&failure), "failed to handle daemon request: a: b");
    assert_eq!(final_error_log(&failure), "a: b\n");
    assert_eq!(daemon_ended(&test_paths(), failure.clone(), Ok(())), failure);
    assert_eq!(
        daemon_ended(&test_paths(), failure, Err("denied".to_string())).text(),
        "failed to write daemon error log at /state/daemon.err.log: denied"
    );
    assert_eq!(append_daemon_error(&test_paths(), LogReply::Appended), Ok(()));
    assert_eq!(
        append_daemon_error(&test_paths(), LogReply::NotAppended { cause: "full".to_string() })
            .expect_err("no")
            .text(),
        "failed to append daemon error log at /state/daemon.err.log: full"
    );
}

#[test]
fn restores_saved_app_config_as_runtime_app() {
    let mut world = World::new();
    world.save_config(&test_paths(), &sleep_config("api"));
    world.save_snapshot(&["api"]);
    let mut state = DaemonState::new(test_paths());

    world.restore(&mut state).expect("restore saved apps");

    let app = state.get("api").expect("restored app");
    assert!(app.pid.is_some());
    assert_eq!(app.status.as_str(), "online");
    assert!(matches!(
        world.respond(&mut state, stop("api")),
        DaemonResponse::Done { .. }
    ));
}

#[test]
fn daemon_saves_only_online_runtime_apps() {
    let mut world = World::new();
    let mut state = DaemonState::new(test_paths());
    state.put(
        "online".to_string(),
        RuntimeApp::new(sleep_config("online"), AppStatus::Online),
    );
    state.put(
        "stopped".to_string(),
        RuntimeApp::new(sleep_config("stopped"), AppStatus::Stopped),
    );

    assert_eq!(
        world.respond(&mut state, DaemonRequest::Save),
        DaemonResponse::Done {
            message: "saved 1 online app(s) to /state/saved.json".to_string(),
        }
    );

    assert_eq!(world.saved_names(&state.paths), vec!["online"]);
}

#[test]
fn ping_reports_daemon_protocol_and_version() {
    let mut world = World::new();
    let mut state = DaemonState::new(test_paths());

    let response = world.respond(&mut state, DaemonRequest::Ping);

    assert!(matches!(
        response,
        DaemonResponse::Pong {
            protocol_version: DAEMON_PROTOCOL_VERSION,
            daemon_version,
        } if daemon_version == program_version()
    ));
}

#[test]
fn malformed_request_returns_a_structured_error_response() {
    let mut world = World::new();
    let mut state = DaemonState::new(test_paths());
    let parsed = Err(
        "unknown variant `futureCommand`, expected one of `ping`, `start` at line 1 column 23"
            .to_string(),
    );

    let step = state.response_from_request_line(parsed, world.clock());
    let message = error_message(world.finish(&mut state, step));

    assert!(message.contains("unsupported or malformed daemon request"));
    assert!(message.contains("futureCommand"));
}

#[test]
fn reports_an_app_that_exits_during_startup() {
    let mut world = World::new();
    let config = immediate_exit_config("api");
    world.save_config(&test_paths(), &config);
    let mut state = DaemonState::new(test_paths());

    let message = error_message(world.respond(&mut state, DaemonRequest::Start { config }));

    assert!(message.contains("app 'api' exited during startup"));
    assert!(message.contains("/usr/bin/false"));
    assert!(message.contains("api.err.log"));
    let app = state.get("api").expect("errored app state");
    assert_eq!(app.pid, None);
    assert!(matches!(app.status, AppStatus::Errored));
}

#[test]
fn marks_an_immediate_automatic_restart_failure_as_errored() {
    let mut world = World::new();
    let mut state = DaemonState::new(test_paths());
    let mut app = RuntimeApp::new(immediate_exit_config("api"), AppStatus::Online);
    app.pid = Some(42);
    state.put("api".to_string(), app);

    world
        .exit(&mut state, "api", 42)
        .expect("automatic restart failure must not stop daemon");

    let app = state.get("api").expect("errored app state");
    assert_eq!(app.pid, None);
    assert!(matches!(app.status, AppStatus::Errored));
    let log_content = world.log.join("\n");
    assert!(log_content.contains("failed to restart app 'api' after child exit"));
    assert!(log_content.contains("exited during startup"));
}

#[test]
fn lifecycle_mutations_refresh_the_restart_snapshot() {
    let mut world = World::new();
    let config = sleep_config("api");
    world.save_config(&test_paths(), &config);
    let mut state = DaemonState::new(test_paths());

    let response = world.respond(&mut state, DaemonRequest::Start { config: config.clone() });
    assert!(matches!(response, DaemonResponse::Done { .. }));
    assert_eq!(world.saved_names(&state.paths), vec!["api"]);

    let response = world.respond(&mut state, DaemonRequest::Restart { name: "api".to_string() });
    assert!(matches!(response, DaemonResponse::Done { .. }));
    assert_eq!(world.saved_names(&state.paths), vec!["api"]);

    let response = world.respond(&mut state, DaemonRequest::Reload { name: "api".to_string() });
    assert!(matches!(response, DaemonResponse::Done { .. }));
    assert_eq!(world.saved_names(&state.paths), vec!["api"]);

    let response = world.respond(&mut state, stop("api"));
    assert!(matches!(response, DaemonResponse::Done { .. }));
    assert!(world.saved_names(&state.paths).is_empty());
}

#[test]
fn delete_refreshes_the_restart_snapshot() {
    let mut world = World::new();
    let config = sleep_config("api");
    world.save_config(&test_paths(), &config);
    let mut state = DaemonState::new(test_paths());

    let response = world.respond(&mut state, DaemonRequest::Start { config });
    assert!(matches!(response, DaemonResponse::Done { .. }));

    let response = world.respond(&mut state, delete("api"));
    assert!(matches!(response, DaemonResponse::Done { .. }));
    assert!(world.saved_names(&state.paths).is_empty());
    assert!(!world.configs.contains_key(&state.paths.app_config_path("api").display()));
}

#[test]
fn failed_lifecycle_mutation_preserves_the_restart_snapshot() {
    let mut world = World::new();
    world.save_snapshot(&["api"]);
    let mut state = DaemonState::new(test_paths());

    let response = world.respond(&mut state, stop("api"));
    assert!(matches!(response, DaemonResponse::Error { .. }));
    assert_eq!(world.saved_names(&state.paths), vec!["api"]);
}

#[test]
fn automatic_sync_preserves_failed_restore_entries_until_removed() {
    let mut world = World::new();
    world.save_snapshot(&["bad", "good"]);
    let mut state = DaemonState::new(test_paths());
    state.put(
        "bad".to_string(),
        RuntimeApp::new(missing_binary_config("bad"), AppStatus::Errored),
    );
    state.put("good".to_string(), RuntimeApp::new(sleep_config("good"), AppStatus::Online));

    let response = world.respond(&mut state, stop("good"));
    assert!(matches!(response, DaemonResponse::Done { .. }));
    assert_eq!(world.saved_names(&state.paths), vec!["bad"]);

    let response = world.respond(&mut state, delete("bad"));
    assert!(matches!(response, DaemonResponse::Done { .. }));
    assert!(world.saved_names(&state.paths).is_empty());
}

#[test]
fn automatic_sync_rebuilds_a_corrupt_restart_snapshot() {
    let mut world = World::new();
    world.snapshot = SnapshotFile::Corrupt;
    let mut state = DaemonState::new(test_paths());
    state.put("api".to_string(), RuntimeApp::new(sleep_config("api"), AppStatus::Online));

    let response = world.respond(&mut state, delete("missing"));
    assert!(matches!(response, DaemonResponse::Done { .. }));
    assert_eq!(world.saved_names(&state.paths), vec!["api"]);
    assert!(world.log.join("\n").contains("rebuilding it from daemon state"));
}

#[test]
fn marks_failed_restore_as_errored_and_continues_restoring_other_apps() {
    let mut world = World::new();
    world.save_config(&test_paths(), &missing_binary_config("bad"));
    world.save_config(&test_paths(), &sleep_config("good"));
    world.save_snapshot(&["bad", "good"]);
    let mut state = DaemonState::new(test_paths());

    world.restore(&mut state).expect("restore saved apps");

    let bad_app = state.get("bad").expect("bad app");
    assert_eq!(bad_app.pid, None);
    assert!(matches!(bad_app.status, AppStatus::Errored));
    let good_app = state.get("good").expect("good app");
    assert!(good_app.pid.is_some());
    assert_eq!(good_app.status.as_str(), "online");
    assert!(world.log.join("\n").contains("failed to restore app 'bad'"));
    assert_eq!(world.saved_names(&state.paths), vec!["bad", "good"]);
    assert!(matches!(
        world.respond(&mut state, stop("good")),
        DaemonResponse::Done { .. }
    ));
}

#[test]
fn skips_missing_saved_app_config_and_logs_the_error() {
    let mut world = World::new();
    world.save_snapshot(&["missing"]);
    let mut state = DaemonState::new(test_paths());

    world.restore(&mut state).expect("restore saved apps");

    assert!(state.get("missing").is_none());
    assert!(world.log.join("\n").contains("saved app config is missing"));
    assert_eq!(world.saved_names(&state.paths), vec!["missing"]);
}

#[test]
fn a_daemon_does_not_start_on_a_corrupt_snapshot() {
    let mut world = World::new();
    world.snapshot = SnapshotFile::Corrupt;
    let mut state = DaemonState::new(test_paths());
    assert_eq!(
        world.restore(&mut state).expect_err("corrupt").summary,
        "failed to parse saved app list at /state/saved.json"
    );
    world.snapshot = SnapshotFile::Missing;
    assert_eq!(world.restore(&mut state), Ok(()));
    world.save_snapshot(&["missing"]);
    world.log_is_locked = true;
    assert_eq!(
        world.restore(&mut state).expect_err("no log").text(),
        "failed to open daemon error log at /state/daemon.err.log: denied"
    );
}

#[test]
fn stopping_terminates_then_kills() {
    let mut world = World::new();
    let mut state = DaemonState::new(test_paths());
    world.respond(&mut state, DaemonRequest::Start { config: sleep_config("api") });
    let pid = state.get("api").expect("app").pid.expect("pid");

    assert_eq!(
        world.respond(&mut state, stop("api")),
        DaemonResponse::Done { message: "stopped api".to_string() }
    );
    assert_eq!(world.signals, vec![(pid, 15), (pid, 9)]);
    assert_eq!(world.waited_millis, 800);
    let app = state.get("api").expect("app");
    assert_eq!((app.pid, app.status, app.started_at), (None, AppStatus::Stopped, None));

    world.exit(&mut state, "api", pid).expect("exit of a stopped app");
    assert_eq!(state.get("api").expect("app").status, AppStatus::Stopped);
    assert_eq!(
        world.respond(&mut state, stop("api")),
        DaemonResponse::Done { message: "stopped api".to_string() }
    );
    assert_eq!(world.signals.len(), 2);
}

#[test]
fn a_process_that_cannot_be_signalled_is_told() {
    let mut world = World::new();
    let mut state = DaemonState::new(test_paths());
    world.respond(&mut state, DaemonRequest::Start { config: sleep_config("api") });
    world.unsignallable = true;
    let pid = state.get("api").expect("app").pid.expect("pid");
    assert_eq!(
        error_message(world.respond(&mut state, stop("api"))),
        format!("failed to send signal 15 to process group {pid}: not permitted")
    );
    assert_eq!(state.get("api").expect("app").status, AppStatus::Stopping);
    assert_eq!(world.saved_names(&state.paths), vec!["api"]);
}

#[test]
fn restarts_and_reloads_give_a_new_process() {
    let mut world = World::new();
    let mut state = DaemonState::new(test_paths());
    assert_eq!(
        world.respond(&mut state, DaemonRequest::Start { config: sleep_config("api") }),
        DaemonResponse::Done { message: "started api with pid 101".to_string() }
    );
    assert_eq!(
        error_message(
            world.respond(&mut state, DaemonRequest::Start { config: sleep_config("api") })
        ),
        "app 'api' is already running"
    );
    assert_eq!(
        world.respond(&mut state, DaemonRequest::Restart { name: "api".to_string() }),
        DaemonResponse::Done { message: "restarted api with pid 102".to_string() }
    );
    assert_eq!(
        world.respond(&mut state, DaemonRequest::Reload { name: "api".to_string() }),
        DaemonResponse::Done { message: "reloaded api with pid 103".to_string() }
    );
    assert_eq!(state.get("api").expect("app").restarts, 0);
    assert_eq!(
        error_message(
            world.respond(&mut state, DaemonRequest::Reload { name: "web".to_string() })
        ),
        "app 'web' is not managed"
    );
}

#[test]
fn a_new_environment_is_saved_and_used() {
    let mut world = World::new();
    let mut state = DaemonState::new(test_paths());
    let mut config = sleep_config("api");
    config.env_file_path = Some(FilePath::from_text("/state/.env"));
    world.respond(&mut state, DaemonRequest::Start { config });
    let mut env = TextMap::new();
    env.insert("A".to_string(), "shell".to_string());
    env.insert("B".to_string(), "shell".to_string());
    let request =
        DaemonRequest::ReloadUpdateEnv { name: "api".to_string(), env: env.clone() };

    assert_eq!(
        error_message(world.respond(&mut state, request.clone())),
        "failed to read env file at /state/.env: gone"
    );
    assert_eq!(state.get("api").expect("app").pid, Some(101));

    world.env_file = Ok("B=file".to_string());
    assert_eq!(
        world.respond(&mut state, request),
        DaemonResponse::Done { message: "restarted api with pid 102".to_string() }
    );
    env.insert("B".to_string(), "file".to_string());
    assert_eq!(state.get("api").expect("app").config.env, env);
    assert_eq!(world.configs["/state/apps/api.json"].env, env);
}

#[test]
fn unexpected_exits_are_restarted_until_they_come_too_fast() {
    let mut world = World::new();
    let mut state = DaemonState::new(test_paths());
    world.respond(&mut state, DaemonRequest::Start { config: sleep_config("api") });
    for n in 1..=5 {
        let pid = state.get("api").expect("app").pid.expect("pid");
        world.now += 2;
        world.exit(&mut state, "api", pid).expect("exit");
        let app = state.get("api").expect("app");
        assert_eq!((app.status, app.restarts), (AppStatus::Online, n));
    }
    let pid = state.get("api").expect("app").pid.expect("pid");
    world.exit(&mut state, "web", pid).expect("exit of nobody");
    world.exit(&mut state, "api", pid + 1).expect("exit of another process");
    assert_eq!(state.get("api").expect("app").pid, Some(pid));
    world.now += 2;
    world.exit(&mut state, "api", pid).expect("exit");
    let app = state.get("api").expect("app");
    assert_eq!((app.status, app.pid, app.restarts), (AppStatus::Errored, None, 5));
}

#[test]
fn slow_exits_are_restarted_forever() {
    let mut world = World::new();
    let mut state = DaemonState::new(test_paths());
    world.respond(&mut state, DaemonRequest::Start { config: sleep_config("api") });
    for n in 1..=40 {
        let pid = state.get("api").expect("app").pid.expect("pid");
        world.now += 3;
        world.exit(&mut state, "api", pid).expect("exit");
        let app = state.get("api").expect("app");
        assert_eq!((app.status, app.restarts), (AppStatus::Online, n));
        assert!(app.restart_times.len() <= 4);
    }
}

#[test]
fn lists_apps_in_the_order_of_their_names() {
    let mut world = World::new();
    let mut state = DaemonState::new(test_paths());
    for name in ["web", "api", "bot"] {
        world.respond(&mut state, DaemonRequest::Start { config: sleep_config(name) });
    }
    world.now += 61;
    world.respond(&mut state, stop("bot"));
    match world.respond(&mut state, DaemonRequest::List) {
        DaemonResponse::List { apps } => {
            let rows = apps
                .iter()
                .map(|app| (app.name.as_str(), app.status.as_str(), app.uptime_seconds))
                .collect::<Vec<_>>();
            assert_eq!(
                rows,
                vec![
                    ("api", "online", Some(61)),
                    ("bot", "stopped", None),
                    ("web", "online", Some(61)),
                ]
            );
        }
        response => panic!("expected a list, got {response:?}"),
    }
}

#[test]
fn a_snapshot_that_cannot_be_written_is_told() {
    let mut world = World::new();
    world.snapshot_is_locked = true;
    let mut state = DaemonState::new(test_paths());
    assert_eq!(
        error_message(
            world.respond(&mut state, DaemonRequest::Start { config: sleep_config("api") })
        ),
        "failed to synchronize restart snapshot after successful operation: failed to create temporary saved app list at /state/.saved.json.tmp: denied"
    );
    assert_eq!(state.get("api").expect("app").status, AppStatus::Online);
    assert_eq!(
        error_message(world.respond(&mut state, DaemonRequest::Save)),
        "failed to create temporary saved app list at /state/.saved.json.tmp: denied"
    );
    world.now = -1;
    world.snapshot_is_locked = false;
    assert_eq!(
        error_message(world.respond(&mut state, DaemonRequest::Save)),
        "system time is before UNIX_EPOCH: second time provided was later than self"
    );
}

#[test]
fn what_is_saved_comes_back() {
    let mut world = World::new();
    let mut state = DaemonState::new(test_paths());
    for name in ["web", "api", "bot"] {
        world.save_config(&test_paths(), &sleep_config(name));
        world.respond(&mut state, DaemonRequest::Start { config: sleep_config(name) });
    }
    world.respond(&mut state, stop("bot"));
    world.respond(&mut state, DaemonRequest::Save);

    let mut next = DaemonState::new(test_paths());
    world.restore(&mut next).expect("restore");

    let names = next.apps.entries().iter().map(|(name, _)| name.as_str()).collect::<Vec<_>>();
    assert_eq!(names, vec!["api", "web"]);
    for name in names {
        let app = next.get(name).expect("app");
        assert_eq!((app.status, app.restarts), (AppStatus::Online, 0));
        assert_eq!(app.config, sleep_config(name));
    }
}
