//! Env files, configurations, paths and directories.
use aynur::app::{AppConfig, LoadReply, RestartPolicy, SaveReply};
use aynur::env_file::{merged_environment, read_env_file, Environment};
use aynur::file_path::FilePath;
use aynur::metadata::Metadata;
use aynur::paths::{absolutize_path, AynurPaths, DirectoryReply};
use aynur::text_map::TextMap;

fn environment(entries: &[(&str, &str)]) -> Environment {
    let mut env = TextMap::new();
    for (key, value) in entries {
        env.insert(key.to_string(), value.to_string());
    }
    env
}

fn file(mode: u32) -> Metadata {
    Metadata { is_file: true, is_dir: false, is_symlink: false, mode, uid: 1000 }
}

fn directory() -> Metadata {
    Metadata { is_file: false, is_dir: true, is_symlink: false, mode: 0o755, uid: 1000 }
}

fn config(name: &str) -> AppConfig {
    AppConfig {
        name: name.to_string(),
        binary_path: FilePath::from_text("/bin/sleep"),
        args: vec!["30".to_string()],
        working_directory: FilePath::from_text("/srv"),
        env: environment(&[("A", "1")]),
        env_file_path: None,
        restart_policy: RestartPolicy { max_restarts: 5, window_seconds: 10 },
    }
}

#[test]
fn reads_key_value_lines() {
    let path = FilePath::from_text("/tmp/env");
    let content = "A=1\n# comment\nB = two \n".to_string();

    let values = read_env_file(&path, Ok(content)).expect("read env");

    assert_eq!(values.get("A"), Some(&"1".to_string()));
    assert_eq!(values.get("B"), Some(&"two".to_string()));
}

#[test]
fn later_lines_of_an_env_file_win() {
    let path = FilePath::from_text("/tmp/env");
    let content = "\u{feff}A=1\r\n\n A = a=b \nA=\n".to_string();
    let values = read_env_file(&path, Ok(content)).expect("read env");
    assert_eq!(values.get("A"), Some(&String::new()));
    assert_eq!(values.get("\u{feff}A"), Some(&"1".to_string()));
    assert_eq!(values.entries().len(), 2);
}

#[test]
fn env_file_lines_without_a_variable_are_refused() {
    let path = FilePath::from_text("/tmp/env");
    for (content, expected) in [
        (Ok("A=1\n\nB"), "invalid env file line 3 in /tmp/env; expected KEY=VALUE"),
        (Ok("  = 1"), "invalid env file line 1 in /tmp/env; key is empty"),
        (Ok("=\nB"), "invalid env file line 1 in /tmp/env; key is empty"),
        (Err("denied"), "failed to read env file at /tmp/env: denied"),
    ] {
        let content = content.map(str::to_string).map_err(str::to_string);
        assert_eq!(read_env_file(&path, content).expect_err("refused").text(), expected);
    }
}

#[test]
fn env_file_values_win_over_the_environment() {
    let path = FilePath::from_text("/tmp/env");
    let env = merged_environment(
        environment(&[("A", "old"), ("HOME", "/root")]),
        Some((path, Ok("A=new\nB=2".to_string()))),
    )
    .expect("merged");
    assert_eq!(env, environment(&[("A", "new"), ("B", "2"), ("HOME", "/root")]));
    let env = merged_environment(environment(&[("A", "old")]), None).expect("merged");
    assert_eq!(env, environment(&[("A", "old")]));
}

#[test]
fn only_apps_that_can_run_are_valid() {
    let here = Ok(file(0o755));
    let there = Ok(directory());
    assert_eq!(config("api").validate(&here, &there), Ok(()));
    assert_eq!(config("api").validate(&Ok(file(0o001)), &there), Ok(()));
    let gone: Result<Metadata, String> = Err("gone".to_string());
    for (name, binary, cwd, expected) in [
        (" ", &here, &there, "app name is empty"),
        ("a/b", &gone, &there, "app name 'a/b' must not contain '/'"),
        ("api", &gone, &there, "binary for app 'api' does not exist at /bin/sleep: gone"),
        ("api", &there, &there, "binary for app 'api' is not a file: /bin/sleep"),
        (
            "api",
            &Ok(file(0o644)),
            &there,
            "binary for app 'api' is not executable: /bin/sleep",
        ),
        ("api", &here, &gone, "working directory for app 'api' does not exist at /srv: gone"),
        ("api", &here, &here, "working directory for app 'api' is not a directory: /srv"),
    ] {
        assert_eq!(config(name).validate(binary, cwd).expect_err("refused").text(), expected);
    }
}

#[test]
fn a_saved_config_is_loaded_under_its_name() {
    let paths = AynurPaths::below(FilePath::from_text("/state"));
    let saved = config("api");
    assert_eq!(saved.save(&paths, SaveReply::Written), Ok(()));
    let loaded = AppConfig::load(&paths, "api", LoadReply::Parsed { config: saved.clone() });
    assert_eq!(loaded, Ok(saved));
}

#[test]
fn configs_that_cannot_be_used_are_refused() {
    let paths = AynurPaths::below(FilePath::from_text("/state"));
    let parsed = || LoadReply::Parsed { config: config("web") };
    for (name, read, expected) in [
        ("", parsed(), "app name is empty"),
        ("a/b", parsed(), "app name 'a/b' must not contain '/'"),
        (
            "api",
            parsed(),
            "app config at /state/apps/api.json has name 'web', expected 'api'",
        ),
        (
            "api",
            LoadReply::Unreadable { cause: "gone".to_string() },
            "failed to read app config at /state/apps/api.json: gone",
        ),
        (
            "api",
            LoadReply::Malformed { cause: "bad".to_string() },
            "failed to parse app config at /state/apps/api.json: bad",
        ),
    ] {
        assert_eq!(AppConfig::load(&paths, name, read).expect_err("refused").text(), expected);
    }
    let cause = || "denied".to_string();
    assert_eq!(
        config("api").save(&paths, SaveReply::NotWritten { cause: cause() }).expect_err("no").text(),
        "failed to write app config at /state/apps/api.json: denied"
    );
    assert_eq!(
        config("api")
            .save(&paths, SaveReply::NotSerialized { cause: cause() })
            .expect_err("no")
            .text(),
        "failed to serialize config for app 'api': denied"
    );
    assert_eq!(AppConfig::delete(&paths, "api", Ok(())), Ok(()));
    assert_eq!(
        AppConfig::delete(&paths, "api", Err(cause())).expect_err("no").text(),
        "failed to delete app config at /state/apps/api.json: denied"
    );
}

#[test]
fn the_state_directory_comes_from_the_environment() {
    let here = Ok(FilePath::from_text("/work"));
    let path = |text: &str| Some(FilePath::from_text(text));
    let root = |aynur_home, home| {
        AynurPaths::from_env(aynur_home, home, &here).map(|paths| paths.root_dir.display())
    };
    assert_eq!(root(path("/srv/aynur"), path("/home/me")), Ok("/srv/aynur".to_string()));
    assert_eq!(root(path("state"), None), Ok("/work/state".to_string()));
    assert_eq!(root(None, path("/home/me")), Ok("/home/me/.aynur".to_string()));
    assert_eq!(root(None, path("me")), Ok("/work/me/.aynur".to_string()));
    assert_eq!(
        root(None, None).expect_err("no home").text(),
        "HOME is not set; set AYNUR_HOME to choose aynur state directory"
    );
    let nowhere: Result<FilePath, String> = Err("gone".to_string());
    assert_eq!(
        absolutize_path(FilePath::from_text("x"), &nowhere).expect_err("nowhere").text(),
        "failed to read current working directory: gone"
    );
    assert_eq!(
        absolutize_path(FilePath::from_text("/x"), &nowhere).expect("absolute").display(),
        "/x"
    );
}

#[test]
fn files_have_their_places_below_the_state_directory() {
    let paths = AynurPaths::below(FilePath::from_text("/home/me/.aynur"));
    assert_eq!(paths.app_config_path("api").display(), "/home/me/.aynur/apps/api.json");
    assert_eq!(paths.saved_apps_path().display(), "/home/me/.aynur/saved.json");
    assert_eq!(paths.daemon_error_log_path().display(), "/home/me/.aynur/daemon.err.log");
    assert_eq!(paths.stdout_log_path("api").display(), "/home/me/.aynur/logs/api.out.log");
    assert_eq!(paths.stderr_log_path("api").display(), "/home/me/.aynur/logs/api.err.log");
    assert_eq!(paths.socket_path.display(), "/home/me/.aynur/daemon.sock");
    assert_eq!(paths.pid_path.display(), "/home/me/.aynur/daemon.pid");
}

#[test]
fn state_directories_are_private() {
    let paths = AynurPaths::below(FilePath::from_text("/state"));
    let directories = paths.ensure();
    assert_eq!(
        directories
            .iter()
            .map(|directory| (directory.path.display(), directory.label.clone()))
            .collect::<Vec<_>>(),
        vec![
            ("/state".to_string(), "AYNUR_HOME".to_string()),
            ("/state/apps".to_string(), "aynur apps directory".to_string()),
            ("/state/logs".to_string(), "aynur logs directory".to_string()),
        ]
    );
    let root = &directories[0];
    let inspected = |metadata| DirectoryReply::Inspected { metadata };
    assert_eq!(root.ensure_private_directory(&inspected(directory()), 1000), Ok(0o700));
    let mut link = directory();
    link.is_symlink = true;
    for (found, uid, expected) in [
        (
            DirectoryReply::NotCreated { cause: "denied".to_string() },
            1000,
            "failed to create AYNUR_HOME at /state: denied",
        ),
        (
            DirectoryReply::NotInspected { cause: "denied".to_string() },
            1000,
            "failed to inspect AYNUR_HOME at /state: denied",
        ),
        (inspected(link), 1000, "AYNUR_HOME must not be a symbolic link: /state"),
        (inspected(file(0o644)), 1000, "AYNUR_HOME is not a directory: /state"),
        (
            inspected(directory()),
            7,
            "AYNUR_HOME at /state is owned by uid 1000, expected uid 7",
        ),
    ] {
        assert_eq!(
            root.ensure_private_directory(&found, uid).expect_err("refused").text(),
            expected
        );
    }
    assert_eq!(root.restricted(Ok(())), Ok(()));
    assert_eq!(
        root.restricted(Err("denied".to_string())).expect_err("refused").text(),
        "failed to restrict permissions for AYNUR_HOME at /state: denied"
    );
}
