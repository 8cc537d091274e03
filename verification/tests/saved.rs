//! The restart snapshot, timestamps and the replacement of files.
use aynur::atomic_write::{AtomicWrite, StepError, WriteStep};
use aynur::failure::Failure;
use aynur::file_path::FilePath;
use aynur::paths::AynurPaths;
use aynur::saved::{SavedApps, SnapshotReply};
use aynur::timestamp::{unix_timestamp, Timestamp};

fn test_paths(root_dir: &str) -> AynurPaths {
    AynurPaths::below(FilePath::from_text(root_dir))
}

/// Two files, of which one replaces the other.
struct Files {
    target: Option<SavedApps>,
    temporary: Option<String>,
    staged: Option<SavedApps>,
}

impl Files {
    fn replace(&mut self, write: &AtomicWrite, saved_apps: &SavedApps) -> Result<(), Failure> {
        for step in write.steps() {
            let done = match step {
                WriteStep::RemoveStale => match self.temporary.take() {
                    Some(_) => Ok(()),
                    None => Err(StepError {
                        not_found: true,
                        cause: "No such file or directory (os error 2)".to_string(),
                    }),
                },
                WriteStep::Create => match self.temporary {
                    Some(_) => Err(StepError {
                        not_found: false,
                        cause: "File exists (os error 17)".to_string(),
                    }),
                    None => {
                        self.temporary = Some(String::new());
                        Ok(())
                    }
                },
                WriteStep::Write => {
                    self.staged = Some(saved_apps.clone());
                    Ok(())
                }
                WriteStep::Flush => Ok(()),
                WriteStep::Replace => {
                    self.temporary = None;
                    self.target = self.staged.take();
                    Ok(())
                }
            };
            write.judge(step, done)?;
        }
        Ok(())
    }

    fn load(&self, paths: &AynurPaths) -> Result<Option<SavedApps>, Failure> {
        SavedApps::load_optional(
            paths,
            match &self.target {
                Some(saved_apps) => SnapshotReply::Parsed { saved_apps: saved_apps.clone() },
                None => SnapshotReply::Missing,
            },
        )
    }
}

fn snapshot(saved_at_unix_seconds: u64, names: &[&str]) -> SavedApps {
    SavedApps {
        version: 1,
        saved_at_unix_seconds,
        app_names: names.iter().map(|name| name.to_string()).collect(),
    }
}

#[test]
fn sorts_app_names_before_saving() {
    let saved_apps = SavedApps::from_app_names(vec!["web".to_string(), "api".to_string()], 42);

    assert_eq!(
        saved_apps,
        SavedApps {
            version: 1,
            saved_at_unix_seconds: 42,
            app_names: vec!["api".to_string(), "web".to_string()],
        }
    );
}

#[test]
fn replaces_a_stale_temporary_file_without_losing_the_previous_snapshot() {
    let paths = test_paths("/state");
    let mut files = Files { target: None, temporary: None, staged: None };
    let previous = snapshot(7, &["api"]);
    let write = previous.save(&paths).expect("previous snapshot");
    files.replace(&write, &previous).expect("previous snapshot");
    files.temporary = Some("partial".to_string());

    let replacement = snapshot(8, &["web"]);
    let write = replacement.save(&paths).expect("replacement");
    files.replace(&write, &replacement).expect("replace stale temporary file");
    assert_eq!(files.load(&paths).expect("load previous"), Some(replacement));
    assert_eq!(files.temporary, None);
}

#[test]
fn a_failed_write_leaves_the_snapshot() {
    let paths = test_paths("/state");
    let previous = snapshot(7, &["api"]);
    let files = Files { target: Some(previous.clone()), temporary: None, staged: None };
    let write = snapshot(8, &["web"]).save(&paths).expect("write");
    let failed = write
        .judge(
            WriteStep::Write,
            Err(StepError { not_found: false, cause: "No space left".to_string() }),
        )
        .expect_err("failed write");
    assert_eq!(
        failed.text(),
        "failed to write temporary saved app list at /state/.saved.json.tmp: No space left"
    );
    assert_eq!(files.load(&paths).expect("load"), Some(previous));
}

#[test]
fn writes_the_snapshot_beside_its_place() {
    let write = snapshot(7, &["api"]).save(&test_paths("/state")).expect("write");
    assert_eq!(write.target.display(), "/state/saved.json");
    assert_eq!(write.temporary.display(), "/state/.saved.json.tmp");
    let gone = StepError { not_found: true, cause: "gone".to_string() };
    assert_eq!(write.judge(WriteStep::RemoveStale, Err(gone.clone())), Ok(()));
    for (step, expected) in [
        (WriteStep::Create, "failed to create temporary saved app list at /state/.saved.json.tmp"),
        (WriteStep::Flush, "failed to flush temporary saved app list at /state/.saved.json.tmp"),
        (
            WriteStep::Replace,
            "failed to replace saved app list at /state/saved.json with /state/.saved.json.tmp",
        ),
    ] {
        assert_eq!(write.judge(step, Err(gone.clone())).expect_err("failure").summary, expected);
    }
    let denied = StepError { not_found: false, cause: "denied".to_string() };
    assert_eq!(
        write.judge(WriteStep::RemoveStale, Err(denied)).expect_err("failure").text(),
        "failed to remove stale temporary saved app list at /state/.saved.json.tmp: denied"
    );
}

#[test]
fn returns_none_when_saved_app_list_is_missing() {
    let paths = test_paths("/state");

    assert_eq!(
        SavedApps::load_optional(&paths, SnapshotReply::Missing).expect("missing saved apps"),
        None
    );
}

#[test]
fn rejects_duplicate_saved_app_names() {
    let paths = test_paths("/state");

    let error = SavedApps::load_optional(
        &paths,
        SnapshotReply::Parsed { saved_apps: snapshot(1, &["api", "api"]) },
    )
    .expect_err("duplicate app must fail");

    assert!(error
        .summary
        .contains("saved app list contains duplicate app name 'api'"));
}

#[test]
fn rejects_snapshots_that_no_daemon_wrote() {
    let paths = test_paths("/state");
    let mut other_version = snapshot(1, &["api"]);
    other_version.version = 2;
    for (reply, expected) in [
        (
            SnapshotReply::Parsed { saved_apps: other_version },
            "saved app list version 2 is unsupported; expected 1",
        ),
        (
            SnapshotReply::Parsed { saved_apps: snapshot(1, &["api", " "]) },
            "saved app list contains an empty app name",
        ),
        (
            SnapshotReply::Parsed { saved_apps: snapshot(1, &["a/b"]) },
            "saved app name 'a/b' must not contain '/'",
        ),
        (
            SnapshotReply::Unreadable { cause: "denied".to_string() },
            "failed to read saved app list at /state/saved.json: denied",
        ),
        (
            SnapshotReply::Malformed { cause: "expected value".to_string() },
            "failed to parse saved app list at /state/saved.json: expected value",
        ),
    ] {
        assert_eq!(
            SavedApps::load_optional(&paths, reply).expect_err("refused").text(),
            expected
        );
    }
    assert!(snapshot(1, &["a/b"]).save(&paths).is_err());
    assert_eq!(SavedApps::content(Ok("{}".to_string())), Ok("{}".to_string()));
    assert_eq!(
        SavedApps::content(Err("no".to_string())).expect_err("no content").text(),
        "failed to serialize saved app list: no"
    );
}

#[test]
fn converts_system_time_to_unix_seconds() {
    let time = Timestamp::new(123, 0).expect("time");

    assert_eq!(unix_timestamp(&time).expect("unix timestamp"), 123);
}

#[test]
fn times_before_the_epoch_have_no_unix_seconds() {
    let time = Timestamp::new(-1, 999_999_999).expect("time");
    assert_eq!(
        unix_timestamp(&time).expect_err("before the epoch").text(),
        "system time is before UNIX_EPOCH: second time provided was later than self"
    );
    assert_eq!(Timestamp::new(0, 1_000_000_000), None);
}

#[test]
fn times_are_compared_to_the_nanosecond() {
    let early = Timestamp::new(10, 500_000_000).expect("time");
    let late = Timestamp::new(12, 499_999_999).expect("time");
    assert_eq!(late.seconds_since(&early), Some(1));
    assert_eq!(early.seconds_since(&late), None);
    assert!(late.follows_within(&early, 2));
    assert!(!late.follows_within(&early, 1));
    assert!(early.follows_within(&late, 0));
}
