//! Processes of apps.
use aynur::app::{AppConfig, RestartPolicy};
use aynur::file_path::FilePath;
use aynur::paths::AynurPaths;
use aynur::process::{
    kill_process_group, process_group, read_process_rss_bytes, spawn_app,
    terminate_process_group, watch_startup, ExitEvent, LaunchPlan, RssSample, SignalError,
    SpawnReply, WatchStep,
};
use aynur::text_map::TextMap;
use aynur::timestamp::Timestamp;

fn statm(content: &str) -> RssSample {
    RssSample::Statm { content: Ok(content.to_string()), page_size: 4096 }
}

#[test]
fn reports_missing_process_rss_as_an_error() {
    let sample = RssSample::Statm {
        content: Err("No such file or directory (os error 2)".to_string()),
        page_size: 4096,
    };
    let error = read_process_rss_bytes(u32::MAX, &sample).expect_err("missing process must fail");
    assert!(!error.summary.is_empty());
    assert_eq!(
        error.text(),
        "failed to read RSS for process 4294967295 from /proc/4294967295/statm: No such file or directory (os error 2)"
    );
}

#[test]
fn resident_pages_are_counted_in_bytes() {
    assert_eq!(read_process_rss_bytes(7, &statm("2000 256 12 1 0 34 0\n")), Ok(256 * 4096));
    let sample = RssSample::TaskInfo { returned: 96, expected: 96, resident_size: 77 };
    assert_eq!(read_process_rss_bytes(7, &sample), Ok(77));
}

#[test]
fn samples_that_tell_nothing_are_refused() {
    let refused = |sample: RssSample| read_process_rss_bytes(7, &sample).expect_err("no").text();
    assert_eq!(
        refused(statm("2000")),
        "RSS data for process 7 is missing the resident page count"
    );
    assert_eq!(
        refused(statm("2000 many")),
        "RSS data for process 7 has an invalid resident page count: invalid digit found in string"
    );
    assert_eq!(
        refused(RssSample::Statm { content: Ok("1 2".to_string()), page_size: -1 }),
        "failed to read system page size while sampling process 7 RSS"
    );
    assert_eq!(
        refused(RssSample::TaskInfo { returned: -1, expected: 96, resident_size: 0 }),
        "failed to read RSS for process 7 with proc_pidinfo (returned -1, expected 96)"
    );
    assert_eq!(
        refused(RssSample::Unsupported),
        "reading RSS is unsupported on this platform for process 7"
    );
}

#[test]
fn signals_go_to_the_whole_group() {
    assert_eq!(process_group(42), -42);
    assert_eq!(process_group(0x7fff_ffff), -0x7fff_ffff);
    assert_eq!(process_group(u32::MAX), 1);
    assert_eq!(process_group(0), 0);
}

#[test]
fn a_group_that_is_gone_counts_as_signalled() {
    let error = |errno| {
        Err(SignalError { errno, cause: "Operation not permitted (os error 1)".to_string() })
    };
    assert_eq!(terminate_process_group(42, Ok(())), Ok(()));
    assert_eq!(terminate_process_group(42, error(Some(libc::ESRCH))), Ok(()));
    assert_eq!(kill_process_group(42, error(Some(libc::ESRCH))), Ok(()));
    assert_eq!(
        terminate_process_group(42, error(Some(libc::EPERM))).expect_err("no").text(),
        format!(
            "failed to send signal {} to process group 42: Operation not permitted (os error 1)",
            libc::SIGTERM
        )
    );
    assert_eq!(
        kill_process_group(42, error(None)).expect_err("no").text(),
        format!(
            "failed to send signal {} to process group 42: Operation not permitted (os error 1)",
            libc::SIGKILL
        )
    );
}

#[test]
fn what_keeps_a_process_from_running_is_told() {
    let paths = AynurPaths::below(FilePath::from_text("/state"));
    let config = AppConfig {
        name: "api".to_string(),
        binary_path: FilePath::from_text("/usr/bin/false"),
        args: Vec::new(),
        working_directory: FilePath::from_text("/state"),
        env: TextMap::new(),
        env_file_path: None,
        restart_policy: RestartPolicy { max_restarts: 5, window_seconds: 10 },
    };
    let started_at = Timestamp::new(5, 0).expect("time");
    assert_eq!(
        spawn_app(&paths, &config, SpawnReply::Running { pid: 42, started_at }),
        Ok((42, started_at))
    );
    let cause = || "denied".to_string();
    for (reply, expected) in [
        (
            SpawnReply::NoStdoutLog { cause: cause() },
            "failed to open stdout log for app 'api': denied",
        ),
        (
            SpawnReply::NoStderrLog { cause: cause() },
            "failed to open stderr log for app 'api': denied",
        ),
        (SpawnReply::NotSpawned { cause: cause() }, "failed to spawn app 'api': denied"),
        (
            SpawnReply::Exited { status: "exit status: 1".to_string() },
            "app 'api' exited during startup with exit status: 1; binary: /usr/bin/false; see /state/logs/api.err.log",
        ),
    ] {
        assert_eq!(spawn_app(&paths, &config, reply).expect_err("no").text(), expected);
    }
}

#[test]
fn an_app_is_launched_as_configured() {
    let paths = AynurPaths::below(FilePath::from_text("/state"));
    let mut env = TextMap::new();
    env.insert("PORT".to_string(), "3000".to_string());
    let config = AppConfig {
        name: "api".to_string(),
        binary_path: FilePath::from_text("/bin/sleep"),
        args: vec!["30".to_string()],
        working_directory: FilePath::from_text("/work"),
        env: env.clone(),
        env_file_path: None,
        restart_policy: RestartPolicy { max_restarts: 5, window_seconds: 10 },
    };
    let plan = LaunchPlan::of_app(&paths, &config);
    assert_eq!(
        plan,
        LaunchPlan {
            name: "api".to_string(),
            program: FilePath::from_text("/bin/sleep"),
            args: vec!["30".to_string()],
            directory: FilePath::from_text("/work"),
            env,
            inherits_env: false,
            inherits_stdin: false,
            stdout_log: FilePath::from_text("/state/logs/api.out.log"),
            stderr_log: FilePath::from_text("/state/logs/api.err.log"),
            appends_logs: true,
            leads_group: true,
        }
    );
    assert_eq!(plan.clone(), plan);
    assert_eq!(plan.exit_event(42), ExitEvent { name: "api".to_string(), pid: 42 });
}

#[test]
fn a_new_process_is_watched_for_a_while() {
    let now = Timestamp::new(5, 0).expect("time");
    let running = WatchStep::Settled { reply: SpawnReply::Running { pid: 42, started_at: now } };
    for elapsed in [0, 10, 199] {
        assert_eq!(watch_startup(42, None, elapsed, now), WatchStep::Wait { pause_millis: 10 });
    }
    assert_eq!(watch_startup(42, None, 200, now), running);
    assert_eq!(watch_startup(42, None, 5000, now), running);
    assert_eq!(
        watch_startup(42, Some("exit status: 1".to_string()), 30, now),
        WatchStep::Settled {
            reply: SpawnReply::Exited { status: "exit status: 1".to_string() }
        }
    );
}
