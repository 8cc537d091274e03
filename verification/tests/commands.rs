//! Commands, and what they make of the daemon.
use aynur::app::{AppConfig, LoadReply, RestartPolicy, SaveReply};
use aynur::cli::{AynurCli, Command};
use aynur::client::{
    print_response, table_header, table_lines, table_row, validate_daemon_ping, ContactError,
    ContactErrorKind,
};
use aynur::commands::{
    apps_opened, awaited, config_found, config_inspected, config_read, config_saved,
    daemon_spawned, default_app_name, entry_read, environment_captured, gathered,
    is_app_config_file, memory_read, pinged, pinged_again, print_version, sent, CommandStep,
    EntryReply, ExecuteCommand, LogsUse, PendingLogs, SpawnDaemonReply, StartFacts,
};
use aynur::failure::Failure;
use aynur::file_path::FilePath;
use aynur::ipc::{
    program_version, AppStatusView, DaemonRequest, DaemonResponse, DAEMON_PROTOCOL_VERSION,
};
use aynur::logs::{flush_logs, follow_logs};
use aynur::metadata::Metadata;
use aynur::paths::AynurPaths;
use aynur::text_map::TextMap;

fn test_paths() -> AynurPaths {
    AynurPaths::below(FilePath::from_text("/state"))
}

fn app_config(paths: &AynurPaths, name: &str) -> AppConfig {
    AppConfig {
        name: name.to_string(),
        binary_path: paths.root_dir.join_text(&format!("{name}-bin")),
        args: Vec::new(),
        working_directory: paths.root_dir.clone(),
        env: TextMap::new(),
        env_file_path: None,
        restart_policy: RestartPolicy { max_restarts: 5, window_seconds: 10 },
    }
}

fn pong() -> DaemonResponse {
    DaemonResponse::Pong {
        protocol_version: DAEMON_PROTOCOL_VERSION,
        daemon_version: program_version().to_string(),
    }
}

fn unreachable_daemon(kind: ContactErrorKind) -> Result<DaemonResponse, ContactError> {
    let cause = match kind {
        ContactErrorKind::NotFound => "No such file or directory (os error 2)",
        ContactErrorKind::ConnectionRefused => "Connection refused (os error 111)",
        ContactErrorKind::Other => "Permission denied (os error 13)",
    };
    Err(ContactError { kind, cause: cause.to_string() })
}

/// Everything outside of a command.
struct World {
    paths: AynurPaths,
    answers: Vec<Result<DaemonResponse, ContactError>>,
    asked: Vec<DaemonRequest>,
    entries: Vec<(FilePath, bool, AppConfig)>,
    cwd: Result<FilePath, String>,
    env_file: Result<String, String>,
    binary: Result<Metadata, String>,
    stored: Vec<AppConfig>,
    spawned_daemons: u32,
    elapsed_millis: u64,
}

/// What a command came to.
#[derive(Debug, PartialEq)]
enum Outcome {
    Printed(Vec<String>),
    Listed(Vec<AppStatusView>),
    Failed(Failure),
    Other(CommandStep),
}

impl World {
    fn new(answers: Vec<Result<DaemonResponse, ContactError>>) -> World {
        World {
            paths: test_paths(),
            answers,
            asked: Vec::new(),
            entries: Vec::new(),
            cwd: Ok(FilePath::from_text("/work")),
            env_file: Err("gone".to_string()),
            binary: Ok(Metadata {
                is_file: true,
                is_dir: false,
                is_symlink: false,
                mode: 0o755,
                uid: 0,
            }),
            stored: Vec::new(),
            spawned_daemons: 0,
            elapsed_millis: 0,
        }
    }

    fn ask(&mut self, request: DaemonRequest) -> Result<DaemonResponse, ContactError> {
        self.asked.push(request);
        self.answers.remove(0)
    }

    fn run(&mut self, command: Command) -> Outcome {
        let mut step = command.execute(&self.paths);
        let mut entry = 0;
        loop {
            step = match step {
                CommandStep::Print { lines } => return Outcome::Printed(lines),
                CommandStep::ReadMemory { apps } => return Outcome::Listed(apps),
                CommandStep::Fail { failure } => return Outcome::Failed(failure),
                CommandStep::Ping { goal } => {
                    let asked = self.ask(DaemonRequest::Ping);
                    pinged(&self.paths, goal, asked)
                }
                CommandStep::SpawnDaemon { start } => {
                    self.spawned_daemons += 1;
                    daemon_spawned(start, SpawnDaemonReply::Spawned)
                }
                CommandStep::Await { start, pause_millis } => {
                    self.elapsed_millis += pause_millis;
                    awaited(&self.paths, start, self.elapsed_millis)
                }
                CommandStep::PingAgain { start } => {
                    let asked = self.ask(DaemonRequest::Ping);
                    pinged_again(&self.paths, start, asked)
                }
                CommandStep::Gather { start } => {
                    let mut env = TextMap::new();
                    env.insert("HOME".to_string(), "/home/me".to_string());
                    let facts = StartFacts {
                        current_dir: self.cwd.clone(),
                        env,
                        env_file: self.env_file.clone(),
                    };
                    gathered(start, facts)
                }
                CommandStep::Inspect { config } => {
                    let directory = Ok(Metadata {
                        is_file: false,
                        is_dir: true,
                        is_symlink: false,
                        mode: 0o755,
                        uid: 0,
                    });
                    config_inspected(config, self.binary.clone(), directory)
                }
                CommandStep::SaveConfig { config } => {
                    self.stored.push(config.clone());
                    config_saved(&self.paths, config, SaveReply::Written)
                }
                CommandStep::CaptureEnvironment { name } => {
                    let mut env = TextMap::new();
                    env.insert("HOME".to_string(), "/home/me".to_string());
                    environment_captured(name, env)
                }
                CommandStep::Send { pending } => {
                    let asked = self.ask(pending.request.clone());
                    sent(&self.paths, pending, asked)
                }
                CommandStep::OpenApps => apps_opened(&self.paths, Ok(())),
                CommandStep::NextEntry { apps } => {
                    let reply = match self.entries.get(entry) {
                        None => EntryReply::End,
                        Some((path, is_file, _)) => {
                            EntryReply::Entry { path: path.clone(), is_file: *is_file }
                        }
                    };
                    entry += 1;
                    entry_read(&self.paths, apps, reply)
                }
                CommandStep::ReadConfig { pending } => {
                    let config = self.entries[entry - 1].2.clone();
                    config_read(pending, LoadReply::Parsed { config })
                }
                other => return Outcome::Other(other),
            };
        }
    }
}

fn start(binary: &str) -> Command {
    Command::Start {
        binary: FilePath::from_text(binary),
        name: None,
        cwd: None,
        env_file: None,
        args: vec!["--port".to_string(), "3000".to_string()],
    }
}

fn done(message: &str) -> Result<DaemonResponse, ContactError> {
    Ok(DaemonResponse::Done { message: message.to_string() })
}

#[test]
fn accepts_matching_daemon_protocol() {
    validate_daemon_ping(&DaemonResponse::Pong {
        protocol_version: DAEMON_PROTOCOL_VERSION,
        daemon_version: program_version().to_string(),
    })
    .expect("matching daemon protocol");
}

#[test]
fn rejects_legacy_daemon_before_sending_business_requests() {
    let mut world = World::new(vec![done("pong")]);

    let error = match world.run(Command::Save) {
        Outcome::Failed(error) => error,
        other => panic!("legacy daemon must be rejected, got {other:?}"),
    };

    assert_eq!(world.asked, vec![DaemonRequest::Ping]);
    assert!(error.summary.contains("legacy protocol"));
    assert!(error.summary.contains("restart the daemon"));
}

#[test]
fn rejects_mismatched_daemon_protocol() {
    let error = validate_daemon_ping(&DaemonResponse::Pong {
        protocol_version: DAEMON_PROTOCOL_VERSION + 1,
        daemon_version: "future".to_string(),
    })
    .expect_err("mismatched daemon protocol must be rejected");

    assert!(error.summary.contains("daemon future"));
    assert!(error.summary.contains("protocol 2"));
}

#[test]
fn rejects_answers_that_are_no_pong() {
    let refused = |response: DaemonResponse| {
        validate_daemon_ping(&response).expect_err("refused").text()
    };
    assert_eq!(
        refused(DaemonResponse::Pong { protocol_version: 1, daemon_version: " ".to_string() }),
        "aynur daemon returned an invalid ping response: daemonVersion is empty for protocol 1; received daemonVersion ' '"
    );
    assert_eq!(
        refused(DaemonResponse::Done { message: "po\"ng".to_string() }),
        "aynur daemon returned an invalid ping response: Ok { message: \"po\\\"ng\" }"
    );
    assert_eq!(
        refused(DaemonResponse::Error { message: "a\nb".to_string() }),
        "aynur daemon returned an invalid ping response: Error { message: \"a\\nb\" }"
    );
    let app = AppStatusView {
        name: "api".to_string(),
        pid: Some(42),
        status: "online".to_string(),
        restarts: 1,
        uptime_seconds: None,
        binary_path: FilePath::from_text("/bin/it's"),
    };
    assert_eq!(
        refused(DaemonResponse::List { apps: vec![app.clone(), app] }),
        format!(
            "aynur daemon returned an invalid ping response: List {{ apps: [{0}, {0}] }}",
            format!(
                "AppStatusView {{ name: \"api\", pid: Some(42), status: \"online\", restarts: 1, uptime_seconds: None, binary_path: {:?} }}",
                std::path::Path::new("/bin/it's")
            )
        )
    );
}

fn assert_stopped_app(app: &AppStatusView, name: &str, binary_path: FilePath) {
    assert_eq!(app.name, name);
    assert_eq!(app.pid, None);
    assert_eq!(app.status, "stopped");
    assert_eq!(app.restarts, 0);
    assert_eq!(app.uptime_seconds, None);
    assert_eq!(app.binary_path, binary_path);
}

fn list_without_daemon(kind: ContactErrorKind, names: &[&str]) -> Vec<AppStatusView> {
    let mut world = World::new(vec![unreachable_daemon(kind)]);
    for name in names {
        let config = app_config(&world.paths, name);
        world.entries.push((world.paths.app_config_path(name), true, config));
    }
    match world.run(Command::List) {
        Outcome::Listed(apps) => apps,
        other => panic!("expected list response, got {other:?}"),
    }
}

#[test]
fn lists_no_apps_when_daemon_socket_is_missing_and_no_apps_are_configured() {
    assert!(list_without_daemon(ContactErrorKind::NotFound, &[]).is_empty());
}

#[test]
fn lists_no_apps_when_daemon_socket_is_stale_and_no_apps_are_configured() {
    assert!(list_without_daemon(ContactErrorKind::ConnectionRefused, &[]).is_empty());
}

#[test]
fn lists_configured_apps_as_stopped_when_daemon_socket_is_missing() {
    let apps = list_without_daemon(ContactErrorKind::NotFound, &["api"]);
    assert_eq!(apps.len(), 1);
    assert_stopped_app(&apps[0], "api", test_paths().root_dir.join_text("api-bin"));
}

#[test]
fn lists_configured_apps_as_stopped_when_daemon_socket_is_stale() {
    let apps = list_without_daemon(ContactErrorKind::ConnectionRefused, &["api"]);
    assert_eq!(apps.len(), 1);
    assert_stopped_app(&apps[0], "api", test_paths().root_dir.join_text("api-bin"));
}

#[test]
fn lists_only_configurations_and_in_order() {
    let mut world = World::new(vec![unreachable_daemon(ContactErrorKind::NotFound)]);
    for (file, is_file, name) in [
        ("web.json", true, "web"),
        ("dir.json", false, "dir"),
        ("notes.txt", true, "notes"),
        (".json", true, "hidden"),
        ("api.json", true, "api"),
    ] {
        let config = app_config(&world.paths, name);
        world.entries.push((world.paths.apps_dir.join_text(file), is_file, config));
    }
    match world.run(Command::List) {
        Outcome::Listed(apps) => {
            let names = apps.iter().map(|app| app.name.as_str()).collect::<Vec<_>>();
            assert_eq!(names, vec!["api", "web"]);
        }
        other => panic!("expected a list, got {other:?}"),
    }
    assert!(is_app_config_file(&FilePath::from_text("/state/apps/a.b.json")));
    assert!(!is_app_config_file(&FilePath::from_text("/state/apps/json")));
}

#[test]
fn lists_fail_where_configurations_cannot_be_read() {
    let paths = test_paths();
    let failed = |step: CommandStep| match step {
        CommandStep::Fail { failure } => failure.text(),
        step => panic!("expected a failure, got {step:?}"),
    };
    let cause = || "denied".to_string();
    assert_eq!(
        failed(apps_opened(&paths, Err(cause()))),
        "failed to read configured apps directory at /state/apps: denied"
    );
    assert_eq!(
        failed(entry_read(&paths, Vec::new(), EntryReply::Unreadable { cause: cause() })),
        "failed to read configured app entry in /state/apps: denied"
    );
    let path = FilePath::from_text("/state/apps/api.json");
    assert_eq!(
        failed(entry_read(
            &paths,
            Vec::new(),
            EntryReply::NoFileType { path: path.clone(), cause: cause() }
        )),
        "failed to read configured app file type at /state/apps/api.json: denied"
    );
    for (reply, expected) in [
        (
            LoadReply::Unreadable { cause: cause() },
            "failed to read app config at /state/apps/api.json: denied",
        ),
        (
            LoadReply::Malformed { cause: cause() },
            "failed to parse app config at /state/apps/api.json: denied",
        ),
    ] {
        let entry = EntryReply::Entry { path: path.clone(), is_file: true };
        match entry_read(&paths, Vec::new(), entry) {
            CommandStep::ReadConfig { pending } => {
                assert_eq!(failed(config_read(pending, reply)), expected);
            }
            step => panic!("expected a read, got {step:?}"),
        }
    }
}

#[test]
fn requests_go_to_a_compatible_daemon() {
    let name = || "api".to_string();
    for (command, request) in [
        (Command::Stop { name: name() }, DaemonRequest::Stop { name: name() }),
        (Command::Restart { name: name() }, DaemonRequest::Restart { name: name() }),
        (
            Command::Reload { name: name(), update_env: false },
            DaemonRequest::Reload { name: name() },
        ),
        (Command::Save, DaemonRequest::Save),
        (Command::Delete { name: name() }, DaemonRequest::Delete { name: name() }),
    ] {
        let mut world = World::new(vec![Ok(pong()), done("it is done")]);
        assert_eq!(world.run(command), Outcome::Printed(vec!["it is done".to_string()]));
        assert_eq!(world.asked, vec![DaemonRequest::Ping, request]);
    }
    let mut world = World::new(vec![Ok(pong()), done("reloaded")]);
    world.run(Command::Reload { name: name(), update_env: true });
    assert!(matches!(
        &world.asked[1],
        DaemonRequest::ReloadUpdateEnv { name, env }
            if name == "api" && env.get("HOME") == Some(&"/home/me".to_string())
    ));
}

#[test]
fn requests_need_a_daemon() {
    let mut world = World::new(vec![unreachable_daemon(ContactErrorKind::NotFound)]);
    match world.run(Command::Stop { name: "api".to_string() }) {
        Outcome::Failed(failure) => assert_eq!(
            failure.text(),
            "failed to contact aynur daemon at /state/daemon.sock; run `aynur start <binary> --name <name>` first: No such file or directory (os error 2)"
        ),
        other => panic!("expected a failure, got {other:?}"),
    }
    let mut world = World::new(vec![unreachable_daemon(ContactErrorKind::Other)]);
    assert!(matches!(world.run(Command::List), Outcome::Failed(_)));
    let mut world = World::new(vec![
        Ok(pong()),
        Ok(DaemonResponse::Error { message: "app 'api' is not managed".to_string() }),
    ]);
    assert_eq!(
        world.run(Command::Stop { name: "api".to_string() }),
        Outcome::Failed(Failure::new("app 'api' is not managed".to_string()))
    );
}

#[test]
fn starting_brings_up_a_daemon_where_there_is_none() {
    let mut world = World::new(vec![
        unreachable_daemon(ContactErrorKind::NotFound),
        unreachable_daemon(ContactErrorKind::ConnectionRefused),
        Ok(pong()),
        done("started gateway with pid 42"),
    ]);
    assert_eq!(
        world.run(start("./target/release/gateway")),
        Outcome::Printed(vec!["started gateway with pid 42".to_string()])
    );
    assert_eq!(world.spawned_daemons, 1);
    assert_eq!(world.elapsed_millis, 50);
    let config = world.stored.pop().expect("stored config");
    assert_eq!(config.name, "gateway");
    assert_eq!(config.binary_path.display(), "/work/./target/release/gateway");
    assert_eq!(config.working_directory.display(), "/work");
    assert_eq!(config.args, vec!["--port", "3000"]);
    assert_eq!(
        config.restart_policy,
        RestartPolicy { max_restarts: 5, window_seconds: 10 }
    );
    assert_eq!(world.asked.last(), Some(&DaemonRequest::Start { config }));
}

#[test]
fn a_daemon_that_does_not_come_up_is_given_up() {
    let mut answers = Vec::new();
    for _ in 0..61 {
        answers.push(unreachable_daemon(ContactErrorKind::NotFound));
    }
    let mut world = World::new(answers);
    match world.run(start("/bin/api")) {
        Outcome::Failed(failure) => assert_eq!(
            failure.text(),
            "daemon did not become ready within 3 seconds at /state/daemon.sock"
        ),
        other => panic!("expected a failure, got {other:?}"),
    }
    assert!(world.answers.is_empty());
    let step = start("/bin/api").execute(&test_paths());
    let CommandStep::Ping { goal } = step else { panic!("expected a ping") };
    let step = pinged(&test_paths(), goal, unreachable_daemon(ContactErrorKind::NotFound));
    let CommandStep::SpawnDaemon { start } = step else { panic!("expected a daemon") };
    for (reply, expected) in [
        (
            SpawnDaemonReply::NoExecutable { cause: "gone".to_string() },
            "failed to resolve current executable path: gone",
        ),
        (
            SpawnDaemonReply::NotSpawned { cause: "gone".to_string() },
            "failed to spawn aynur daemon: gone",
        ),
    ] {
        match daemon_spawned(start.clone(), reply) {
            CommandStep::Fail { failure } => assert_eq!(failure.text(), expected),
            step => panic!("expected a failure, got {step:?}"),
        }
    }
}

#[test]
fn starting_merges_the_env_file() {
    let mut world = World::new(vec![Ok(pong()), done("started")]);
    world.env_file = Ok("HOME=/srv\nPORT=1\n".to_string());
    world.run(Command::Start {
        binary: FilePath::from_text("/bin/api"),
        name: Some("web".to_string()),
        cwd: Some(FilePath::from_text("srv")),
        env_file: Some(FilePath::from_text(".env")),
        args: Vec::new(),
    });
    let config = world.stored.pop().expect("stored config");
    assert_eq!(config.name, "web");
    assert_eq!(config.working_directory.display(), "/work/srv");
    assert_eq!(config.env.get("HOME"), Some(&"/srv".to_string()));
    assert_eq!(config.env.get("PORT"), Some(&"1".to_string()));
    assert_eq!(
        config.env_file_path.map(|path| path.display()),
        Some("/work/.env".to_string())
    );
}

#[test]
fn nothing_is_stored_for_an_app_that_cannot_start() {
    let mut world = World::new(vec![Ok(pong())]);
    world.binary = Err("gone".to_string());
    match world.run(start("/bin/api")) {
        Outcome::Failed(failure) => assert_eq!(
            failure.text(),
            "binary for app 'api' does not exist at /bin/api: gone"
        ),
        other => panic!("expected a failure, got {other:?}"),
    }
    assert!(world.stored.is_empty());
    assert_eq!(world.asked, vec![DaemonRequest::Ping]);
    let mut world = World::new(vec![Ok(pong())]);
    world.cwd = Err("gone".to_string());
    match world.run(start("/bin/api")) {
        Outcome::Failed(failure) => {
            assert_eq!(failure.text(), "failed to read current working directory: gone");
        }
        other => panic!("expected a failure, got {other:?}"),
    }
}

#[test]
fn a_lost_daemon_is_told_as_it_is_after_a_start() {
    let mut world = World::new(vec![Ok(pong()), unreachable_daemon(ContactErrorKind::Other)]);
    assert_eq!(
        world.run(start("/bin/api")),
        Outcome::Failed(Failure::new("Permission denied (os error 13)".to_string()))
    );
}

#[test]
fn apps_are_called_like_their_binary() {
    assert_eq!(
        default_app_name(&FilePath::from_text("./target/release/gateway")),
        Ok("gateway".to_string())
    );
    assert_eq!(
        default_app_name(&FilePath::from_text("/")).expect_err("no name").text(),
        "failed to infer app name from binary path /; pass --name <name>"
    );
    assert!(default_app_name(&FilePath::from_bytes(vec![0xff])).is_err());
    assert!(default_app_name(&FilePath::from_text("/a/ ")).is_err());
}

#[test]
fn other_commands_go_their_own_way() {
    let name = || "api".to_string();
    let pending = |usage| PendingLogs {
        name: name(),
        path: FilePath::from_text("/state/apps/api.json"),
        usage,
    };
    for (command, step) in [
        (
            Command::Logs { name: name() },
            CommandStep::FindConfig { pending: pending(LogsUse::Follow) },
        ),
        (
            Command::Flush { name: name() },
            CommandStep::FindConfig { pending: pending(LogsUse::Flush) },
        ),
        (Command::Startup, CommandStep::Install),
        (Command::Unstartup, CommandStep::Uninstall),
        (Command::Version, CommandStep::Print { lines: vec!["aynur 0.3.0".to_string()] }),
        (Command::Daemon, CommandStep::RunDaemon),
    ] {
        assert_eq!(command.execute(&test_paths()), step);
    }
    assert_eq!(print_version(), "aynur 0.3.0");
}

#[test]
fn the_version_needs_no_command() {
    let cli = AynurCli { show_version: true, command: None };
    assert!(cli.wants_version());
    assert!(AynurCli { show_version: false, command: Some(Command::Version) }.wants_version());
    assert!(!AynurCli { show_version: false, command: Some(Command::List) }.wants_version());
    let cli = AynurCli { show_version: false, command: None };
    assert!(!cli.wants_version());
    assert_eq!(
        cli.into_command().expect_err("no command").text(),
        "missing command; run `aynur help` for usage"
    );
}

#[test]
fn responses_are_shown() {
    assert_eq!(
        print_response(&pong(), &Vec::new()).expect_err("pong").text(),
        "received an unexpected ping response from daemon 0.3.0 using protocol 1"
    );
    assert_eq!(
        table_header(),
        format!(
            "{:<20} {:<8} {:<10} {:<8} {:<10} {:<12} binary",
            "name", "pid", "status", "restarts", "uptime", "memory"
        )
    );
    let mut app = AppStatusView {
        name: "api".to_string(),
        pid: Some(42),
        status: "online".to_string(),
        restarts: 3,
        uptime_seconds: Some(61),
        binary_path: FilePath::from_text("/bin/api"),
    };
    let row = |pid: &str, status: &str, uptime: &str, memory: &str| {
        format!(
            "{:<20} {pid:<8} {status:<10} {:<8} {uptime:<10} {memory:<12} /bin/api",
            "api", "3"
        )
    };
    assert_eq!(table_row(&app, Some(1536)), row("42", "online", "61s", "1.5 KiB"));
    assert_eq!(table_row(&app, None), row("42", "online", "61s", "unavailable"));
    app.pid = None;
    app.status = "stopped".to_string();
    app.uptime_seconds = None;
    assert_eq!(table_row(&app, None), row("-", "stopped", "-", "-"));
    let message = |text: &str| DaemonResponse::Done { message: text.to_string() };
    assert_eq!(
        print_response(&message("stopped api"), &Vec::new()),
        Ok(vec!["stopped api".to_string()])
    );
}

#[test]
fn bytes_that_are_no_text_are_shown_by_number() {
    let refusal = |path: &[u8]| {
        let app = AppStatusView {
            name: "api".to_string(),
            pid: None,
            status: "stopped".to_string(),
            restarts: 0,
            uptime_seconds: Some(2),
            binary_path: FilePath::from_bytes(path.to_vec()),
        };
        validate_daemon_ping(&DaemonResponse::List { apps: vec![app] }).expect_err("no").text()
    };
    for (path, expected) in [
        (&b"\xF0hello,\tworld"[..], r#""\xF0hello,\tworld""#),
        (b"/bin/\xE2\x82a\xFF\xC3\xA9", "\"/bin/\\xE2\\x82a\\xFF\u{e9}\""),
        (b"\x80\x0a\"\xC0", r#""\x80\n\"\xC0""#),
        (b"/bin/api", r#""/bin/api""#),
    ] {
        assert_eq!(
            refusal(path),
            format!(
                "aynur daemon returned an invalid ping response: List {{ apps: [AppStatusView {{ name: \"api\", pid: None, status: \"stopped\", restarts: 0, uptime_seconds: Some(2), binary_path: {expected} }}] }}"
            )
        );
    }
}

#[test]
fn a_list_is_shown_in_full() {
    let app = |name: &str, pid| AppStatusView {
        name: name.to_string(),
        pid,
        status: "online".to_string(),
        restarts: 0,
        uptime_seconds: None,
        binary_path: FilePath::from_text("/bin/api"),
    };
    let line = |name: &str, pid: &str, memory: &str| {
        format!("{name:<20} {pid:<8} online     0        -          {memory:<12} /bin/api")
    };
    let apps = vec![app("api", Some(7)), app("web", None), app("job", Some(9))];
    let readings = vec![Some(2048), None, None];
    let expected = vec![
        table_header(),
        line("api", "7", "2 KiB"),
        line("web", "-", "-"),
        line("job", "9", "unavailable"),
    ];

    assert_eq!(table_lines(&apps, &readings), expected);
    assert_eq!(
        print_response(&DaemonResponse::List { apps: apps.clone() }, &readings),
        Ok(expected.clone())
    );
    assert_eq!(memory_read(apps, readings), CommandStep::Print { lines: expected });
    assert_eq!(
        memory_read(Vec::new(), Vec::new()),
        CommandStep::Print { lines: vec![table_header()] }
    );
}

#[test]
fn logs_are_used_for_configured_apps_alone() {
    let paths = test_paths();
    for (name, expected) in [
        (" ", "app name is empty"),
        ("../x", "app name '../x' must not contain '/'"),
    ] {
        for command in [
            Command::Logs { name: name.to_string() },
            Command::Flush { name: name.to_string() },
        ] {
            assert_eq!(
                command.execute(&paths),
                CommandStep::Fail { failure: Failure::new(expected.to_string()) }
            );
        }
        assert_eq!(flush_logs(&paths, name, true).expect_err("no").text(), expected);
        assert_eq!(follow_logs(&paths, name, true).expect_err("no").text(), expected);
    }
    for (usage, step) in [
        (
            LogsUse::Follow,
            CommandStep::FollowLogs { plan: follow_logs(&paths, "api", true).expect("plan") },
        ),
        (
            LogsUse::Flush,
            CommandStep::FlushLogs { plan: flush_logs(&paths, "api", true).expect("plan") },
        ),
    ] {
        let pending = PendingLogs {
            name: "api".to_string(),
            path: paths.app_config_path("api"),
            usage,
        };
        assert_eq!(config_found(&paths, pending.clone(), true), step);
        assert_eq!(
            config_found(&paths, pending, false),
            CommandStep::Fail {
                failure: Failure::new(
                    "app 'api' is not configured at /state/apps/api.json".to_string()
                )
            }
        );
    }
}
