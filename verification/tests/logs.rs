//! Following and clearing logs.
use aynur::file_path::FilePath;
use aynur::logs::{
    flush_logs, follow_logs, log_failure, AppLog, FlushStep, FollowStep, LogCursor, LogRange,
    LogStage, LookStep, TruncateReply,
};
use aynur::paths::AynurPaths;
use std::collections::BTreeMap;

fn test_paths() -> AynurPaths {
    AynurPaths::below(FilePath::from_text("/state"))
}

fn part(content: &[u8], range: LogRange) -> Vec<u8> {
    content[range.start as usize..(range.start + range.length) as usize].to_vec()
}

/// Looks at a log that holds `content`, and prints what is new to `output`.
fn write_new_log_content(content: &[u8], cursor: LogCursor, output: &mut Vec<u8>) -> LogCursor {
    let mut step = cursor.measured(content.len() as u64);
    loop {
        step = match step {
            LookStep::Compare { length, range } => cursor.compared(length, part(content, range)),
            LookStep::Copy { start } => {
                let new = &content[start as usize..];
                output.extend_from_slice(new);
                LogCursor::copied(start, new.len() as u64).expect("step")
            }
            LookStep::Remember { position, range } => {
                return LogCursor::at(position, part(content, range)).expect("cursor");
            }
        };
    }
}

#[test]
fn follows_new_content_after_a_log_is_truncated() {
    let mut output = Vec::new();
    let cursor = write_new_log_content(b"old stdout\n", LogCursor::start(), &mut output);

    let new_cursor = write_new_log_content(b"new\n", cursor, &mut output);

    assert_eq!(output, b"old stdout\nnew\n");
    assert_eq!(new_cursor.position(), 4);
}

#[test]
fn follows_a_truncated_log_that_regrows_past_the_previous_position() {
    let mut output = Vec::new();
    let cursor = write_new_log_content(b"old\n", LogCursor::start(), &mut output);

    let new_cursor =
        write_new_log_content(b"new content longer than old\n", cursor, &mut output);

    assert_eq!(output, b"old\nnew content longer than old\n");
    assert_eq!(new_cursor.position(), 28);
}

#[test]
fn prints_a_growing_log_once() {
    let mut content = Vec::new();
    let mut output = Vec::new();
    let mut cursor = LogCursor::start();
    for n in 0..300u32 {
        content.extend_from_slice(format!("{}\n", n * n % 17).as_bytes());
        if n % 3 != 1 {
            cursor = write_new_log_content(&content, cursor, &mut output);
        }
    }
    assert_eq!(output, content);
    assert_eq!(LogCursor::at(3, vec![0]), None);
}

#[test]
fn a_look_goes_step_by_step() {
    assert_eq!(LogCursor::start().measured(9), LookStep::Copy { start: 0 });
    let cursor = LogCursor::at(100, vec![7; 64]).expect("cursor");
    assert_eq!(
        cursor.measured(120),
        LookStep::Compare { length: 120, range: LogRange { start: 36, length: 64 } }
    );
    assert_eq!(cursor.measured(99), LookStep::Copy { start: 0 });
    assert_eq!(cursor.compared(120, vec![7; 64]), LookStep::Copy { start: 100 });
    assert_eq!(cursor.compared(120, vec![8; 64]), LookStep::Copy { start: 0 });
    assert_eq!(
        LogCursor::copied(100, 900),
        Some(LookStep::Remember { position: 1000, range: LogRange { start: 936, length: 64 } })
    );
    assert_eq!(
        LogCursor::copied(0, 5),
        Some(LookStep::Remember { position: 5, range: LogRange { start: 0, length: 5 } })
    );
    assert_eq!(LogCursor::copied(1, u64::MAX), None);
    assert!(LogCursor::copied(0, u64::MAX).is_some());
}

/// Logs by path; a link cannot be opened for clearing.
struct Logs {
    files: BTreeMap<String, String>,
    links: Vec<String>,
    configured: Vec<String>,
}

impl Logs {
    fn flush(&mut self, paths: &AynurPaths, name: &str) -> Result<String, aynur::failure::Failure> {
        let config = paths.app_config_path(name).display();
        let plan = flush_logs(paths, name, self.configured.contains(&config))?;
        for step in plan.steps {
            match step {
                FlushStep::Open { log } => {
                    let path = log.path.display();
                    let opened = if self.links.contains(&path) {
                        TruncateReply::NotOpened {
                            cause: "Too many levels of symbolic links (os error 40)".to_string(),
                        }
                    } else if self.files.contains_key(&path) {
                        TruncateReply::Opened { is_file: true }
                    } else {
                        TruncateReply::NotOpened {
                            cause: "No such file or directory (os error 2)".to_string(),
                        }
                    };
                    log.open_log_for_truncate(opened)?;
                }
                FlushStep::Truncate { log } => {
                    self.files.insert(log.path.display(), String::new());
                    log.truncate_log(Ok(()))?;
                }
            }
        }
        Ok(plan.message)
    }
}

fn logs(files: &[(&str, &str)]) -> Logs {
    Logs {
        files: files
            .iter()
            .map(|(path, content)| (path.to_string(), content.to_string()))
            .collect(),
        links: Vec::new(),
        configured: vec!["/state/apps/api.json".to_string()],
    }
}

#[test]
fn flushes_only_the_named_apps_logs_and_keeps_open_writers_valid() {
    let mut logs = logs(&[
        ("/state/logs/api.out.log", "old stdout\n"),
        ("/state/logs/api.err.log", "old stderr\n"),
        ("/state/logs/worker.out.log", "keep\n"),
    ]);

    assert_eq!(logs.flush(&test_paths(), "api").expect("flush logs"), "flushed logs for api");
    logs.files
        .get_mut("/state/logs/api.out.log")
        .expect("open stdout writer")
        .push_str("new stdout\n");

    assert_eq!(logs.files["/state/logs/api.out.log"], "new stdout\n");
    assert_eq!(logs.files["/state/logs/api.err.log"], "");
    assert_eq!(logs.files["/state/logs/worker.out.log"], "keep\n");
}

#[test]
fn rejects_an_app_that_is_not_configured() {
    let error = flush_logs(&test_paths(), "missing", false).expect_err("missing app must fail");

    assert!(error.summary.contains("app 'missing' is not configured"));
    assert_eq!(
        flush_logs(&test_paths(), " ", true).expect_err("no name").text(),
        "app name is empty"
    );
    assert_eq!(
        flush_logs(&test_paths(), "a/b", true).expect_err("no name").text(),
        "app name 'a/b' must not contain '/'"
    );
}

#[test]
fn rejects_a_configured_app_with_missing_logs() {
    let error = logs(&[]).flush(&test_paths(), "api").expect_err("missing logs must fail");

    assert!(error.summary.contains("failed to open stdout log"));
}

#[test]
fn rejects_a_symbolic_link_log_target() {
    let mut logs = logs(&[
        ("/external.log", "keep\n"),
        ("/state/logs/api.err.log", "stderr\n"),
    ]);
    logs.links.push("/state/logs/api.out.log".to_string());

    let error = logs.flush(&test_paths(), "api").expect_err("symlink must fail");

    assert!(error.summary.contains("failed to open stdout log"));
    assert_eq!(logs.files["/external.log"], "keep\n");
    assert_eq!(logs.files["/state/logs/api.err.log"], "stderr\n");
}

#[test]
fn nothing_is_cleared_unless_both_logs_can_be() {
    let mut logs = logs(&[("/state/logs/api.out.log", "old stdout\n")]);
    let error = logs.flush(&test_paths(), "api").expect_err("missing log must fail");
    assert_eq!(
        error.text(),
        "failed to open stderr log for app 'api' for truncation at /state/logs/api.err.log: No such file or directory (os error 2)"
    );
    assert_eq!(logs.files["/state/logs/api.out.log"], "old stdout\n");
}

fn api_log(stream: &str, path: &str) -> AppLog {
    AppLog {
        name: "api".to_string(),
        stream: stream.to_string(),
        path: FilePath::from_text(path),
    }
}

#[test]
fn both_logs_are_followed() {
    let out = || api_log("stdout", "/state/logs/api.out.log");
    let err = || api_log("stderr", "/state/logs/api.err.log");
    let plan = follow_logs(&test_paths(), "api", true).expect("plan");
    assert_eq!(
        plan.beginning,
        vec![
            FollowStep::Open { log: out() },
            FollowStep::Open { log: err() },
            FollowStep::Header { log: out() },
            FollowStep::Look { log: out() },
            FollowStep::Header { log: err() },
            FollowStep::Look { log: err() },
        ]
    );
    assert_eq!(
        plan.round,
        vec![
            FollowStep::Look { log: out() },
            FollowStep::Look { log: err() },
            FollowStep::Rest { pause_millis: 100 },
        ]
    );
}

#[test]
fn failures_of_logs_are_told() {
    let log = api_log("stderr", "/state/logs/api.err.log");
    let cause = || "denied".to_string();
    assert_eq!(log.header(), "==> /state/logs/api.err.log <==");
    assert_eq!(
        log.header_failure(cause()).text(),
        "failed to print stderr log header for app 'api': denied"
    );
    assert_eq!(
        log.open_failure(cause()).text(),
        "failed to open stderr log for app 'api' at /state/logs/api.err.log: denied"
    );
    assert_eq!(
        log.open_log_for_truncate(TruncateReply::Opened { is_file: false })
            .expect_err("no")
            .text(),
        "stderr log for app 'api' is not a regular file: /state/logs/api.err.log"
    );
    assert_eq!(
        log.open_log_for_truncate(TruncateReply::NotInspected { cause: cause() })
            .expect_err("no")
            .text(),
        "failed to read stderr log metadata for app 'api' at /state/logs/api.err.log: denied"
    );
    assert_eq!(
        log.truncate_log(Err(cause())).expect_err("no").text(),
        "failed to truncate stderr log for app 'api' at /state/logs/api.err.log: denied"
    );
    for (stage, expected) in [
        (LogStage::Metadata, "failed to read log metadata at /log: denied"),
        (LogStage::SeekBoundary, "failed to seek log boundary at /log: denied"),
        (LogStage::ReadBoundary, "failed to read log boundary at /log: denied"),
        (LogStage::Seek, "failed to seek log at /log: denied"),
        (LogStage::Print, "failed to print log at /log: denied"),
        (LogStage::FlushOutput, "failed to flush log output for /log: denied"),
    ] {
        assert_eq!(log_failure(&FilePath::from_text("/log"), stage, cause()).text(), expected);
    }
}
