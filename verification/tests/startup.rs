//! Having the daemon started with the session of the user.
use aynur::atomic_write::{StepError, WriteStep};
use aynur::escape::{systemd_quote, xml_escape};
use aynur::file_path::FilePath;
use aynur::metadata::Metadata;
use aynur::paths::AynurPaths;
use aynur::startup::{
    directory_created, file_removed, install, render_launchd_plist, render_systemd_unit,
    run_command, uninstall, write_startup_file, ExecutableFacts, Platform, RunReply, StartupFacts,
    StartupStep,
};

fn test_paths(root_dir: &str) -> AynurPaths {
    AynurPaths::below(FilePath::from_text(root_dir))
}

fn facts(platform: Platform) -> StartupFacts {
    StartupFacts {
        platform,
        user: Ok("me".to_string()),
        xdg_config_home: None,
        home: Some(FilePath::from_text("/home/me")),
        current_dir: Ok(FilePath::from_text("/work")),
        uid: 501,
    }
}

fn found(is_file: bool, mode: u32, uid: u32) -> Result<Metadata, String> {
    Ok(Metadata { is_file, is_dir: !is_file, is_symlink: false, mode, uid })
}

fn executable() -> ExecutableFacts {
    ExecutableFacts {
        current: Ok(FilePath::from_text("/bin/aynur")),
        resolved: Ok(FilePath::from_text("/usr/bin/aynur")),
        inspected: found(true, 0o755, 0),
        components: vec![
            found(true, 0o755, 501),
            found(false, 0o755, 0),
            found(false, 0o755, 0),
            found(false, 0o755, 0),
        ],
    }
}

fn words(words: &[&str]) -> StartupStep {
    StartupStep::Run { command: words.iter().map(|word| word.to_string()).collect() }
}

#[test]
fn renders_linux_systemd_unit_with_executable_and_aynur_home() {
    let paths = test_paths("/home/aynur/.aynur");
    let unit = render_systemd_unit(&FilePath::from_text("/usr/local/bin/aynur"), &paths)
        .expect("systemd unit");

    assert!(unit.contains("ExecStart=\"/usr/local/bin/aynur\" __daemon"));
    assert!(unit.contains("Environment=\"AYNUR_HOME=/home/aynur/.aynur\""));
}

#[test]
fn renders_macos_launchd_plist_with_program_arguments_and_environment() {
    let paths = test_paths("/Users/aynur/.aynur");
    let plist = render_launchd_plist(&FilePath::from_text("/usr/local/bin/aynur"), &paths)
        .expect("plist");

    assert!(plist.contains("<key>ProgramArguments</key>"));
    assert!(plist.contains("<string>/usr/local/bin/aynur</string>"));
    assert!(plist.contains("<string>__daemon</string>"));
    assert!(plist.contains("<key>EnvironmentVariables</key>"));
    assert!(plist.contains("<key>AYNUR_HOME</key>"));
    assert!(plist.contains("<string>/Users/aynur/.aynur</string>"));
}

#[test]
fn renders_the_whole_unit_and_the_whole_agent() {
    let paths = test_paths("/state");
    let executable = FilePath::from_text("/bin/ay\"nur");
    assert_eq!(
        render_systemd_unit(&executable, &paths).expect("unit"),
        "[Unit]\nDescription=aynur daemon\nAfter=default.target\n\n[Service]\nType=simple\nEnvironment=\"AYNUR_HOME=/state\"\nExecStart=\"/bin/ay\\\"nur\" __daemon\nRestart=always\nRestartSec=2\n\n[Install]\nWantedBy=default.target\n"
    );
    assert_eq!(
        render_launchd_plist(&executable, &paths).expect("agent"),
        "<?xml version=\"1.0\" encoding=\"UTF-8\"?>\n<!DOCTYPE plist PUBLIC \"-//Apple//DTD PLIST 1.0//EN\" \"http://www.apple.com/DTDs/PropertyList-1.0.dtd\">\n<plist version=\"1.0\">\n<dict>\n  <key>Label</key>\n  <string>cn.aynur.daemon</string>\n  <key>ProgramArguments</key>\n  <array>\n    <string>/bin/ay&quot;nur</string>\n    <string>__daemon</string>\n  </array>\n  <key>EnvironmentVariables</key>\n  <dict>\n    <key>AYNUR_HOME</key>\n    <string>/state</string>\n  </dict>\n  <key>RunAtLoad</key>\n  <true/>\n  <key>KeepAlive</key>\n  <true/>\n</dict>\n</plist>\n"
    );
}

#[test]
fn values_are_escaped() {
    assert_eq!(systemd_quote("a\\b\"c%d e"), "\"a\\\\b\\\"c%%d e\"");
    assert_eq!(xml_escape("a&b<c>d\"e'f"), "a&amp;b&lt;c&gt;d&quot;e&apos;f");
}

#[test]
fn paths_that_do_not_fit_on_a_line_are_refused() {
    let paths = test_paths("/state");
    assert_eq!(
        render_systemd_unit(&FilePath::from_text("/bin/a\nb"), &paths).expect_err("no").text(),
        "aynur executable path contains a line break"
    );
    assert_eq!(
        render_launchd_plist(&FilePath::from_bytes(vec![b'/', 0xff]), &paths)
            .expect_err("no")
            .text(),
        "aynur executable path is not valid UTF-8: /\u{fffd}"
    );
    assert_eq!(
        render_systemd_unit(&FilePath::from_text("/bin/a"), &test_paths("/a\rb"))
            .expect_err("no")
            .text(),
        "AYNUR_HOME path contains a line break"
    );
}

#[test]
fn installs_a_systemd_unit() {
    let paths = test_paths("/state");
    let plan = install(&paths, &executable(), 501, &facts(Platform::Linux)).expect("plan");
    let unit = render_systemd_unit(&FilePath::from_text("/usr/bin/aynur"), &paths).expect("unit");
    assert_eq!(
        plan.steps,
        vec![
            StartupStep::CreateDirectory {
                path: FilePath::from_text("/home/me/.config/systemd/user"),
            },
            StartupStep::WriteFile {
                path: FilePath::from_text("/home/me/.config/systemd/user/aynur.service"),
                content: unit,
            },
            words(&["systemctl", "--user", "daemon-reload"]),
            words(&["systemctl", "--user", "enable", "aynur.service"]),
        ]
    );
    assert_eq!(
        plan.message,
        "installed aynur startup service at /home/me/.config/systemd/user/aynur.service\nIt will start at the next user session. To start aynur at boot before login, run:\n  loginctl enable-linger me"
    );
    let plan = uninstall(&facts(Platform::Linux)).expect("plan");
    assert_eq!(
        plan.steps,
        vec![
            words(&["systemctl", "--user", "disable", "aynur.service"]),
            StartupStep::RemoveFile {
                path: FilePath::from_text("/home/me/.config/systemd/user/aynur.service"),
                label: "systemd user service".to_string(),
            },
            words(&["systemctl", "--user", "daemon-reload"]),
        ]
    );
    assert_eq!(
        plan.message,
        "removed aynur startup service at /home/me/.config/systemd/user/aynur.service"
    );
}

#[test]
fn installs_a_launch_agent() {
    let paths = test_paths("/state");
    let plan = install(&paths, &executable(), 501, &facts(Platform::MacOs)).expect("plan");
    let agent = FilePath::from_text("/home/me/Library/LaunchAgents/cn.aynur.daemon.plist");
    assert_eq!(plan.steps.len(), 3);
    assert!(matches!(&plan.steps[1], StartupStep::WriteFile { path, .. } if *path == agent));
    assert_eq!(plan.steps[2], words(&["launchctl", "enable", "gui/501/cn.aynur.daemon"]));
    assert_eq!(
        plan.message,
        "installed aynur LaunchAgent at /home/me/Library/LaunchAgents/cn.aynur.daemon.plist\nIt will start at the next user login"
    );
    let plan = uninstall(&facts(Platform::MacOs)).expect("plan");
    assert_eq!(
        plan.steps,
        vec![
            words(&["launchctl", "disable", "gui/501/cn.aynur.daemon"]),
            StartupStep::RemoveFile { path: agent, label: "LaunchAgent".to_string() },
        ]
    );
}

#[test]
fn startup_files_have_a_place() {
    let mut config_home = facts(Platform::Linux);
    config_home.xdg_config_home = Some(FilePath::from_text("conf"));
    assert_eq!(
        config_home.systemd_service_path().expect("path").display(),
        "/work/conf/systemd/user/aynur.service"
    );
    let mut homeless = facts(Platform::Linux);
    homeless.home = None;
    assert_eq!(
        uninstall(&homeless).expect_err("homeless").text(),
        "HOME is not set; cannot resolve user startup service directory"
    );
    let mut nameless = facts(Platform::Linux);
    nameless.user = Err("environment variable not found".to_string());
    assert_eq!(
        install(&test_paths("/state"), &executable(), 501, &nameless).expect_err("no").text(),
        "USER is not set; cannot render loginctl enable-linger hint: environment variable not found"
    );
    assert_eq!(
        install(&test_paths("/state"), &executable(), 501, &facts(Platform::Other))
            .expect_err("no")
            .text(),
        "aynur startup is only supported on Linux systemd user services and macOS launchd"
    );
    assert_eq!(
        uninstall(&facts(Platform::Other)).expect_err("no").text(),
        "aynur unstartup is only supported on Linux systemd user services and macOS launchd"
    );
}

#[test]
fn only_safe_executables_are_installed() {
    let refuse = |change: &dyn Fn(&mut ExecutableFacts)| {
        let mut facts_of_it = executable();
        change(&mut facts_of_it);
        install(&test_paths("/state"), &facts_of_it, 501, &facts(Platform::Linux))
            .expect_err("refused")
            .text()
    };
    assert_eq!(
        refuse(&|it| it.current = Err("gone".to_string())),
        "failed to resolve current executable path: gone"
    );
    assert_eq!(
        refuse(&|it| it.resolved = Err("gone".to_string())),
        "failed to resolve aynur executable at /bin/aynur: gone"
    );
    assert_eq!(
        refuse(&|it| it.inspected = Err("gone".to_string())),
        "failed to inspect aynur executable at /usr/bin/aynur: gone"
    );
    assert_eq!(
        refuse(&|it| it.inspected = found(false, 0o755, 0)),
        "aynur executable is not a regular file: /usr/bin/aynur"
    );
    assert_eq!(
        refuse(&|it| it.inspected = found(true, 0o644, 0)),
        "aynur executable is not executable: /usr/bin/aynur"
    );
    assert_eq!(
        refuse(&|it| it.components[1] = Err("gone".to_string())),
        "failed to inspect aynur executable path component /usr/bin: gone"
    );
    assert_eq!(
        refuse(&|it| {
            it.components[2] = Ok(Metadata {
                is_file: false,
                is_dir: false,
                is_symlink: true,
                mode: 0o777,
                uid: 0,
            })
        }),
        "aynur executable path contains a symbolic link: /usr"
    );
    assert_eq!(
        refuse(&|it| it.components[3] = found(false, 0o775, 0)),
        "aynur executable path component is writable by another user: /"
    );
    assert_eq!(
        refuse(&|it| it.components[0] = found(true, 0o755, 7)),
        "aynur executable path component is owned by uid 7: /usr/bin/aynur"
    );
}

#[test]
fn startup_files_are_written_beside_their_place() {
    let write = write_startup_file(&FilePath::from_text("/conf/aynur.service")).expect("write");
    assert_eq!(write.temporary.display(), "/conf/.aynur.service.tmp");
    assert_eq!(
        write.steps(),
        vec![WriteStep::Create, WriteStep::Write, WriteStep::Flush, WriteStep::Replace]
    );
    let error = StepError { not_found: false, cause: "File exists".to_string() };
    assert_eq!(
        write.judge(WriteStep::Create, Err(error)).expect_err("no").text(),
        "failed to create temporary startup service at /conf/.aynur.service.tmp: File exists"
    );
    assert_eq!(
        write_startup_file(&FilePath::from_text("/")).expect_err("no").text(),
        "startup service path has no file name: /"
    );
}

#[test]
fn steps_of_startup_can_fail() {
    let path = FilePath::from_text("/conf");
    assert_eq!(directory_created(&path, Ok(())), Ok(()));
    assert_eq!(
        directory_created(&path, Err("denied".to_string())).expect_err("no").text(),
        "failed to create startup service directory at /conf: denied"
    );
    assert_eq!(file_removed(&path, "LaunchAgent", Ok(())), Ok(()));
    assert_eq!(
        file_removed(&path, "LaunchAgent", Err("denied".to_string())).expect_err("no").text(),
        "failed to remove LaunchAgent at /conf: denied"
    );
    let command = vec!["systemctl".to_string(), "--user".to_string()];
    let ended = |success| RunReply::Ended {
        success,
        status: "exit status: 1".to_string(),
        stdout: b"out".to_vec(),
        stderr: vec![0xff],
    };
    assert_eq!(run_command(&command, ended(true)), Ok(()));
    assert_eq!(
        run_command(&command, ended(false)).expect_err("no").text(),
        "command `systemctl --user` failed with status exit status: 1\nstdout:\nout\nstderr:\n\u{fffd}"
    );
    assert_eq!(
        run_command(&command, RunReply::NotRun { cause: "gone".to_string() })
            .expect_err("no")
            .text(),
        "failed to run command `systemctl --user`: gone"
    );
}
