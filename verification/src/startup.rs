//! Having the daemon started with the session of the user.
use crate::atomic_write::{AtomicWrite, AtomicWriteView};
use crate::escape::{self, systemd_quote, xml_escape};
use crate::failure::{self, Failure};
use crate::file_path::{self, FilePath};
use crate::metadata::Metadata;
use crate::paths::{self, absolutize_path, AynurPaths, AynurPathsView};
use crate::text::{self, contains_char, decimal, join_texts, Text};
use vstd::prelude::*;
use vstd::utf8::*;

verus! {

/// The system on which the daemon runs.
#[derive(Clone, Copy, Debug, PartialEq, Eq, Structural)]
pub enum Platform {
    /// Linux, where systemd starts it.
    Linux,
    /// macOS, where launchd starts it.
    MacOs,
    /// Another one.
    Other,
}

/// What is known of the user and of the system.
#[derive(Debug, PartialEq, Eq)]
pub struct StartupFacts {
    /// The system.
    pub platform: Platform,
    /// The variable `USER`, or why it is not known.
    pub user: Result<String, String>,
    /// The variable `XDG_CONFIG_HOME`.
    pub xdg_config_home: Option<FilePath>,
    /// The variable `HOME`.
    pub home: Option<FilePath>,
    /// What asking for the current directory gave.
    pub current_dir: Result<FilePath, String>,
    /// The number of the user.
    pub uid: u32,
}

/// What is known of the user and of the system.
pub struct StartupFactsView {
    /// The system.
    pub platform: Platform,
    /// The variable `USER`, or why it is not known.
    pub user: Result<Text, Text>,
    /// The variable `XDG_CONFIG_HOME`.
    pub xdg_config_home: Option<Seq<u8>>,
    /// The variable `HOME`.
    pub home: Option<Seq<u8>>,
    /// What asking for the current directory gave.
    pub current_dir: Result<Seq<u8>, Text>,
    /// The number of the user.
    pub uid: u32,
}

impl View for StartupFacts {
    type V = StartupFactsView;

    open spec fn view(&self) -> StartupFactsView {
        StartupFactsView {
            platform: self.platform,
            user: failure::text_reply(self.user),
            xdg_config_home: file_path::path_option(self.xdg_config_home),
            home: file_path::path_option(self.home),
            current_dir: paths::path_reply(self.current_dir),
            uid: self.uid,
        }
    }
}

/// A copy of an optional path.
fn copy_path(path: &Option<FilePath>) -> (r: Option<FilePath>)
    ensures
        file_path::path_option(r) == file_path::path_option(*path),
{
    match path {
        Some(path) => Some(path.clone()),
        None => None,
    }
}

impl StartupFactsView {
    /// The home directory of the user.
    pub open spec fn user_home(self) -> Result<Seq<u8>, Seq<Text>> {
        match self.home {
            None => Err(
                seq!["HOME is not set; cannot resolve user startup service directory"@],
            ),
            Some(home) => paths::absolutized(home, self.current_dir),
        }
    }

    /// The directory of the configurations of the user.
    pub open spec fn config_home(self) -> Result<Seq<u8>, Seq<Text>> {
        match self.xdg_config_home {
            Some(path) => paths::absolutized(path, self.current_dir),
            None => match self.user_home() {
                Ok(home) => Ok(paths::file_in(home, ".config"@)),
                Err(lines) => Err(lines),
            },
        }
    }

    /// The unit of systemd.
    pub open spec fn systemd_service(self) -> Result<Seq<u8>, Seq<Text>> {
        match self.config_home() {
            Ok(dir) => Ok(paths::file_in(paths::file_in(dir, "systemd/user"@), "aynur.service"@)),
            Err(lines) => Err(lines),
        }
    }

    /// The agent of launchd.
    pub open spec fn launchd_plist(self) -> Result<Seq<u8>, Seq<Text>> {
        match self.user_home() {
            Ok(home) => Ok(
                paths::file_in(
                    paths::file_in(paths::file_in(home, "Library"@), "LaunchAgents"@),
                    "cn.aynur.daemon.plist"@,
                ),
            ),
            Err(lines) => Err(lines),
        }
    }

    /// How launchd calls the agent of the user.
    pub open spec fn launchd_target(self) -> Text {
        "gui/"@ + text::decimal_text(self.uid as nat) + "/"@ + "cn.aynur.daemon"@
    }
}

impl StartupFacts {
    fn user_home(&self) -> (r: Result<FilePath, Failure>)
        ensures
            paths::path_outcome(r) == self@.user_home(),
    {
        match copy_path(&self.home) {
            None => Err(
                Failure::new(
                    "HOME is not set; cannot resolve user startup service directory".to_owned(),
                ),
            ),
            Some(home) => absolutize_path(home, &self.current_dir),
        }
    }

    fn xdg_config_home(&self) -> (r: Result<FilePath, Failure>)
        ensures
            paths::path_outcome(r) == self@.config_home(),
    {
        match copy_path(&self.xdg_config_home) {
            Some(path) => absolutize_path(path, &self.current_dir),
            None => match self.user_home() {
                Ok(home) => Ok(home.join_text(".config")),
                Err(failure) => Err(failure),
            },
        }
    }

    /// The unit of systemd.
    pub fn systemd_service_path(&self) -> (r: Result<FilePath, Failure>)
        ensures
            paths::path_outcome(r) == self@.systemd_service(),
    {
        match self.xdg_config_home() {
            Ok(dir) => Ok(dir.join_text("systemd/user").join_text("aynur.service")),
            Err(failure) => Err(failure),
        }
    }

    /// The agent of launchd.
    pub fn launchd_plist_path(&self) -> (r: Result<FilePath, Failure>)
        ensures
            paths::path_outcome(r) == self@.launchd_plist(),
    {
        match self.user_home() {
            Ok(home) => Ok(
                home.join_text("Library").join_text("LaunchAgents").join_text(
                    "cn.aynur.daemon.plist",
                ),
            ),
            Err(failure) => Err(failure),
        }
    }

    fn launchd_service_target(&self) -> (r: String)
        ensures
            r@ == self@.launchd_target(),
    {
        "gui/".to_owned().concat(decimal(self.uid as u64).as_str()).concat("/").concat(
            "cn.aynur.daemon",
        )
    }
}

/// The text of a path that stands on one line, or what is wrong with it.
pub open spec fn line_of_path(path: Seq<u8>, label: Text) -> Result<Text, Seq<Text>> {
    if !valid_utf8(path) {
        Err(seq![label + " is not valid UTF-8: "@ + file_path::lossy_text(path)])
    } else if decode_utf8(path).contains('\n') || decode_utf8(path).contains('\r') {
        Err(seq![label + " contains a line break"@])
    } else {
        Ok(decode_utf8(path))
    }
}

fn reject_line_breaks(value: &str, label: &str) -> (r: Result<(), Failure>)
    ensures
        failure::outcome(r) == if value@.contains('\n') || value@.contains('\r') {
            Err(seq![label@ + " contains a line break"@])
        } else {
            Ok(())
        },
{
    if contains_char(value, '\n') || contains_char(value, '\r') {
        return Err(Failure::new(label.to_owned().concat(" contains a line break")));
    }
    Ok(())
}

fn path_to_string(path: &FilePath, label: &str) -> (r: Result<String, Failure>)
    ensures
        match line_of_path(path@, label@) {
            Ok(line) => r is Ok && r->Ok_0@ == line,
            Err(lines) => r is Err && r->Err_0@ == lines,
        },
{
    match path.to_text() {
        None => Err(
            Failure::new(
                label.to_owned().concat(" is not valid UTF-8: ").concat(path.display().as_str()),
            ),
        ),
        Some(value) => match reject_line_breaks(value.as_str(), label) {
            Ok(_) => Ok(value),
            Err(failure) => Err(failure),
        },
    }
}

/// The unit that starts the daemon with this executable and this state directory.
pub open spec fn systemd_unit(executable: Text, aynur_home: Text) -> Text {
    "[Unit]\nDescription=aynur daemon\nAfter=default.target\n\n[Service]\nType=simple\nEnvironment="@
        + escape::systemd_quoted("AYNUR_HOME="@ + aynur_home) + "\nExecStart="@
        + escape::systemd_quoted(executable)
        + " __daemon\nRestart=always\nRestartSec=2\n\n[Install]\nWantedBy=default.target\n"@
}

/// The agent that starts the daemon with this executable and this state directory.
pub open spec fn launchd_agent(executable: Text, aynur_home: Text) -> Text {
    "<?xml version=\"1.0\" encoding=\"UTF-8\"?>\n<!DOCTYPE plist PUBLIC \"-//Apple//DTD PLIST 1.0//EN\" \"http://www.apple.com/DTDs/PropertyList-1.0.dtd\">\n<plist version=\"1.0\">\n<dict>\n  <key>Label</key>\n  <string>"@
        + escape::xml_escaped("cn.aynur.daemon"@)
        + "</string>\n  <key>ProgramArguments</key>\n  <array>\n    <string>"@
        + escape::xml_escaped(executable)
        + "</string>\n    <string>__daemon</string>\n  </array>\n  <key>EnvironmentVariables</key>\n  <dict>\n    <key>AYNUR_HOME</key>\n    <string>"@
        + escape::xml_escaped(aynur_home)
        + "</string>\n  </dict>\n  <key>RunAtLoad</key>\n  <true/>\n  <key>KeepAlive</key>\n  <true/>\n</dict>\n</plist>\n"@
}

/// The two lines that a startup file is made of, or what is wrong with them.
pub open spec fn startup_lines(executable: Seq<u8>, paths: AynurPathsView) -> Result<
    (Text, Text),
    Seq<Text>,
> {
    match line_of_path(executable, "aynur executable path"@) {
        Err(lines) => Err(lines),
        Ok(executable) => match line_of_path(paths.root_dir, "AYNUR_HOME path"@) {
            Err(lines) => Err(lines),
            Ok(aynur_home) => Ok((executable, aynur_home)),
        },
    }
}

fn read_startup_lines(executable: &FilePath, paths: &AynurPaths) -> (r: Result<
    (String, String),
    Failure,
>)
    ensures
        match startup_lines(executable@, paths@) {
            Ok((executable, aynur_home)) => r is Ok && r->Ok_0.0@ == executable && r->Ok_0.1@
                == aynur_home,
            Err(lines) => r is Err && r->Err_0@ == lines,
        },
{
    match path_to_string(executable, "aynur executable path") {
        Err(failure) => Err(failure),
        Ok(executable) => match path_to_string(&paths.root_dir, "AYNUR_HOME path") {
            Err(failure) => Err(failure),
            Ok(aynur_home) => Ok((executable, aynur_home)),
        },
    }
}

/// The unit that starts the daemon with this executable and the state directory of `paths`.
pub fn render_systemd_unit(executable: &FilePath, paths: &AynurPaths) -> (r: Result<
    String,
    Failure,
>)
    ensures
        match startup_lines(executable@, paths@) {
            Ok((executable, aynur_home)) => r is Ok && r->Ok_0@ == systemd_unit(
                executable,
                aynur_home,
            ),
            Err(lines) => r is Err && r->Err_0@ == lines,
        },
{
    match read_startup_lines(executable, paths) {
        Err(failure) => Err(failure),
        Ok((executable, aynur_home)) => {
            let variable = "AYNUR_HOME=".to_owned().concat(aynur_home.as_str());
            Ok(
                "[Unit]\nDescription=aynur daemon\nAfter=default.target\n\n[Service]\nType=simple\nEnvironment=".to_owned().concat(
                systemd_quote(variable.as_str()).as_str()).concat("\nExecStart=").concat(
                    systemd_quote(executable.as_str()).as_str(),
                ).concat(
                    " __daemon\nRestart=always\nRestartSec=2\n\n[Install]\nWantedBy=default.target\n",
                ),
            )
        },
    }
}

/// The agent that starts the daemon with this executable and the state directory of `paths`.
pub fn render_launchd_plist(executable: &FilePath, paths: &AynurPaths) -> (r: Result<
    String,
    Failure,
>)
    ensures
        match startup_lines(executable@, paths@) {
            Ok((executable, aynur_home)) => r is Ok && r->Ok_0@ == launchd_agent(
                executable,
                aynur_home,
            ),
            Err(lines) => r is Err && r->Err_0@ == lines,
        },
{
    match read_startup_lines(executable, paths) {
        Err(failure) => Err(failure),
        Ok((executable, aynur_home)) => Ok(
            "<?xml version=\"1.0\" encoding=\"UTF-8\"?>\n<!DOCTYPE plist PUBLIC \"-//Apple//DTD PLIST 1.0//EN\" \"http://www.apple.com/DTDs/PropertyList-1.0.dtd\">\n<plist version=\"1.0\">\n<dict>\n  <key>Label</key>\n  <string>".to_owned().concat(
            xml_escape("cn.aynur.daemon").as_str()).concat(
                "</string>\n  <key>ProgramArguments</key>\n  <array>\n    <string>",
            ).concat(xml_escape(executable.as_str()).as_str()).concat(
                "</string>\n    <string>__daemon</string>\n  </array>\n  <key>EnvironmentVariables</key>\n  <dict>\n    <key>AYNUR_HOME</key>\n    <string>",
            ).concat(xml_escape(aynur_home.as_str()).as_str()).concat(
                "</string>\n  </dict>\n  <key>RunAtLoad</key>\n  <true/>\n  <key>KeepAlive</key>\n  <true/>\n</dict>\n</plist>\n",
            ),
        ),
    }
}

/// How a startup file is written once its directory is there.
pub open spec fn startup_write(path: Seq<u8>) -> Result<AtomicWriteView, Seq<Text>> {
    match file_path::base_name(path) {
        None => Err(
            seq!["startup service path has no file name: "@ + file_path::lossy_text(path)],
        ),
        Some(name) => Ok(
            AtomicWriteView {
                target: path,
                temporary: file_path::renamed(
                    path,
                    encode_utf8("."@ + file_path::lossy_text(name) + ".tmp"@),
                ),
                label: "startup service"@,
                removes_stale: false,
            },
        ),
    }
}

/// How a startup file is written once its directory is there.
pub fn write_startup_file(path: &FilePath) -> (r: Result<AtomicWrite, Failure>)
    ensures
        match startup_write(path@) {
            Ok(write) => r is Ok && r->Ok_0@ == write,
            Err(lines) => r is Err && r->Err_0@ == lines,
        },
{
    match path.file_name() {
        None => Err(
            Failure::new(
                "startup service path has no file name: ".to_owned().concat(
                    path.display().as_str(),
                ),
            ),
        ),
        Some(name) => {
            let temporary = path.with_file_name(
                ".".to_owned().concat(name.display().as_str()).concat(".tmp").as_str(),
            );
            Ok(
                AtomicWrite {
                    target: path.clone(),
                    temporary,
                    label: "startup service".to_owned(),
                    removes_stale: false,
                },
            )
        },
    }
}

/// One step of changing how the daemon is started.
#[derive(Clone, Debug, PartialEq, Eq)]
pub enum StartupStep {
    /// Create the directory of the startup file.
    CreateDirectory {
        /// The directory.
        path: FilePath,
    },
    /// Write the startup file.
    WriteFile {
        /// The file.
        path: FilePath,
        /// What it holds.
        content: String,
    },
    /// Remove the startup file, where it is there.
    RemoveFile {
        /// The file.
        path: FilePath,
        /// What it is called in messages.
        label: String,
    },
    /// Run a command.
    Run {
        /// The program and its arguments.
        command: Vec<String>,
    },
}

/// One step of changing how the daemon is started.
#[verifier::ext_equal]
pub enum StartupStepView {
    /// Create the directory of the startup file.
    CreateDirectory(Seq<u8>),
    /// Write the startup file.
    WriteFile(Seq<u8>, Text),
    /// Remove the startup file, where it is there.
    RemoveFile(Seq<u8>, Text),
    /// Run a command.
    Run(Seq<Text>),
}

impl View for StartupStep {
    type V = StartupStepView;

    open spec fn view(&self) -> StartupStepView {
        match self {
            StartupStep::CreateDirectory { path } => StartupStepView::CreateDirectory(path@),
            StartupStep::WriteFile { path, content } => StartupStepView::WriteFile(
                path@,
                content@,
            ),
            StartupStep::RemoveFile { path, label } => StartupStepView::RemoveFile(path@, label@),
            StartupStep::Run { command } => StartupStepView::Run(text::texts(command@)),
        }
    }
}

/// How to change how the daemon is started.
#[derive(Clone, Debug, PartialEq, Eq)]
pub struct StartupPlan {
    /// The steps, in their order; the first that fails is the last.
    pub steps: Vec<StartupStep>,
    /// What is said once they are done.
    pub message: String,
}

/// How to change how the daemon is started.
#[verifier::ext_equal]
pub struct StartupPlanView {
    /// The steps, in their order; the first that fails is the last.
    pub steps: Seq<StartupStepView>,
    /// What is said once they are done.
    pub message: Text,
}

/// The views of some steps.
pub open spec fn step_views(steps: Seq<StartupStep>) -> Seq<StartupStepView> {
    steps.map_values(|step: StartupStep| step@)
}

impl View for StartupPlan {
    type V = StartupPlanView;

    open spec fn view(&self) -> StartupPlanView {
        StartupPlanView { steps: step_views(self.steps@), message: self.message@ }
    }
}

/// The plan in the outcome of an operation.
pub open spec fn plan_outcome(result: Result<StartupPlan, Failure>) -> Result<
    StartupPlanView,
    Seq<Text>,
> {
    match result {
        Ok(plan) => Ok(plan@),
        Err(failure) => Err(failure@),
    }
}

/// What is said where a startup file would have no directory.
pub open spec fn no_parent(path: Seq<u8>) -> Seq<Text> {
    seq!["startup file path has no parent: "@ + file_path::lossy_text(path)]
}

/// The command that tells systemd of changed units.
pub open spec fn reload_units() -> Seq<Text> {
    seq!["systemctl"@, "--user"@, "daemon-reload"@]
}

/// How the daemon is had started by systemd.
pub open spec fn systemd_install(
    facts: StartupFactsView,
    executable: Seq<u8>,
    paths: AynurPathsView,
) -> Result<StartupPlanView, Seq<Text>> {
    match facts.user {
        Err(cause) => Err(
            seq!["USER is not set; cannot render loginctl enable-linger hint"@, cause],
        ),
        Ok(user) => match facts.systemd_service() {
            Err(lines) => Err(lines),
            Ok(path) => match startup_lines(executable, paths) {
                Err(lines) => Err(lines),
                Ok((program, aynur_home)) => match file_path::parent_path(path) {
                    None => Err(no_parent(path)),
                    Some(parent) => Ok(
                        StartupPlanView {
                            steps: seq![
                                StartupStepView::CreateDirectory(parent),
                                StartupStepView::WriteFile(path, systemd_unit(program, aynur_home)),
                                StartupStepView::Run(reload_units()),
                                StartupStepView::Run(
                                    seq!["systemctl"@, "--user"@, "enable"@, "aynur.service"@],
                                ),
                            ],
                            message: "installed aynur startup service at "@ + file_path::lossy_text(
                                path,
                            )
                                + "\nIt will start at the next user session. To start aynur at boot before login, run:\n  loginctl enable-linger "@
                                + user,
                        },
                    ),
                },
            },
        },
    }
}

/// How the daemon is had started by launchd.
pub open spec fn launchd_install(
    facts: StartupFactsView,
    executable: Seq<u8>,
    paths: AynurPathsView,
) -> Result<StartupPlanView, Seq<Text>> {
    match facts.launchd_plist() {
        Err(lines) => Err(lines),
        Ok(path) => match startup_lines(executable, paths) {
            Err(lines) => Err(lines),
            Ok((program, aynur_home)) => match file_path::parent_path(path) {
                None => Err(no_parent(path)),
                Some(parent) => Ok(
                    StartupPlanView {
                        steps: seq![
                            StartupStepView::CreateDirectory(parent),
                            StartupStepView::WriteFile(path, launchd_agent(program, aynur_home)),
                            StartupStepView::Run(
                                seq!["launchctl"@, "enable"@, facts.launchd_target()],
                            ),
                        ],
                        message: "installed aynur LaunchAgent at "@ + file_path::lossy_text(path)
                            + "\nIt will start at the next user login"@,
                    },
                ),
            },
        },
    }
}

/// How the daemon is had started, given the executable that was found to be safe.
pub open spec fn install_plan(
    facts: StartupFactsView,
    executable: Seq<u8>,
    paths: AynurPathsView,
) -> Result<StartupPlanView, Seq<Text>> {
    match facts.platform {
        Platform::Linux => systemd_install(facts, executable, paths),
        Platform::MacOs => launchd_install(facts, executable, paths),
        Platform::Other => Err(
            seq![
                "aynur startup is only supported on Linux systemd user services and macOS launchd"@,
            ],
        ),
    }
}

/// How the daemon is had no longer started.
pub open spec fn uninstall_plan(facts: StartupFactsView) -> Result<StartupPlanView, Seq<Text>> {
    match facts.platform {
        Platform::Linux => match facts.systemd_service() {
            Err(lines) => Err(lines),
            Ok(path) => Ok(
                StartupPlanView {
                    steps: seq![
                        StartupStepView::Run(
                            seq!["systemctl"@, "--user"@, "disable"@, "aynur.service"@],
                        ),
                        StartupStepView::RemoveFile(path, "systemd user service"@),
                        StartupStepView::Run(reload_units()),
                    ],
                    message: "removed aynur startup service at "@ + file_path::lossy_text(path),
                },
            ),
        },
        Platform::MacOs => match facts.launchd_plist() {
            Err(lines) => Err(lines),
            Ok(path) => Ok(
                StartupPlanView {
                    steps: seq![
                        StartupStepView::Run(
                            seq!["launchctl"@, "disable"@, facts.launchd_target()],
                        ),
                        StartupStepView::RemoveFile(path, "LaunchAgent"@),
                    ],
                    message: "removed aynur LaunchAgent at "@ + file_path::lossy_text(path),
                },
            ),
        },
        Platform::Other => Err(
            seq![
                "aynur unstartup is only supported on Linux systemd user services and macOS launchd"@,
            ],
        ),
    }
}

fn systemctl(verb: &str, unit: Option<&str>) -> (r: StartupStep)
    ensures
        r@ == StartupStepView::Run(
            match unit {
                Some(unit) => seq!["systemctl"@, "--user"@, verb@, unit@],
                None => seq!["systemctl"@, "--user"@, verb@],
            },
        ),
{
    let mut command: Vec<String> = Vec::new();
    command.push("systemctl".to_owned());
    command.push("--user".to_owned());
    command.push(verb.to_owned());
    match unit {
        Some(unit) => {
            command.push(unit.to_owned());
            assert(text::texts(command@) =~= seq!["systemctl"@, "--user"@, verb@, unit@]);
        },
        None => {
            assert(text::texts(command@) =~= seq!["systemctl"@, "--user"@, verb@]);
        },
    }
    StartupStep::Run { command }
}

fn launchctl(verb: &str, target: String) -> (r: StartupStep)
    ensures
        r@ == StartupStepView::Run(seq!["launchctl"@, verb@, target@]),
{
    let mut command: Vec<String> = Vec::new();
    command.push("launchctl".to_owned());
    command.push(verb.to_owned());
    command.push(target);
    assert(text::texts(command@) =~= seq!["launchctl"@, verb@, target@]);
    StartupStep::Run { command }
}

fn refuse_no_parent(path: &FilePath) -> (r: Failure)
    ensures
        r@ == no_parent(path@),
{
    Failure::new("startup file path has no parent: ".to_owned().concat(path.display().as_str()))
}

fn install_with_systemd(facts: &StartupFacts, executable: &FilePath, paths: &AynurPaths) -> (r:
    Result<StartupPlan, Failure>)
    ensures
        plan_outcome(r) == systemd_install(facts@, executable@, paths@),
{
    let user = match &facts.user {
        Ok(user) => user,
        Err(cause) => {
            return Err(
                Failure::because(
                    "USER is not set; cannot render loginctl enable-linger hint".to_owned(),
                    cause.clone(),
                ),
            );
        },
    };
    let path = match facts.systemd_service_path() {
        Ok(path) => path,
        Err(failure) => {
            return Err(failure);
        },
    };
    let content = match render_systemd_unit(executable, paths) {
        Ok(content) => content,
        Err(failure) => {
            return Err(failure);
        },
    };
    let parent = match path.parent() {
        Some(parent) => parent,
        None => {
            return Err(refuse_no_parent(&path));
        },
    };
    let message = "installed aynur startup service at ".to_owned().concat(
        path.display().as_str(),
    ).concat(
        "\nIt will start at the next user session. To start aynur at boot before login, run:\n  loginctl enable-linger ",
    ).concat(user.as_str());
    let mut steps: Vec<StartupStep> = Vec::new();
    steps.push(StartupStep::CreateDirectory { path: parent });
    steps.push(StartupStep::WriteFile { path, content });
    steps.push(systemctl("daemon-reload", None));
    steps.push(systemctl("enable", Some("aynur.service")));
    let plan = StartupPlan { steps, message };
    assert(plan_outcome(Ok(plan))->Ok_0.steps =~= systemd_install(
        facts@,
        executable@,
        paths@,
    )->Ok_0.steps);
    Ok(plan)
}

fn install_with_launchd(facts: &StartupFacts, executable: &FilePath, paths: &AynurPaths) -> (r:
    Result<StartupPlan, Failure>)
    ensures
        plan_outcome(r) == launchd_install(facts@, executable@, paths@),
{
    let path = match facts.launchd_plist_path() {
        Ok(path) => path,
        Err(failure) => {
            return Err(failure);
        },
    };
    let content = match render_launchd_plist(executable, paths) {
        Ok(content) => content,
        Err(failure) => {
            return Err(failure);
        },
    };
    let parent = match path.parent() {
        Some(parent) => parent,
        None => {
            return Err(refuse_no_parent(&path));
        },
    };
    let message = "installed aynur LaunchAgent at ".to_owned().concat(
        path.display().as_str(),
    ).concat("\nIt will start at the next user login");
    let mut steps: Vec<StartupStep> = Vec::new();
    steps.push(StartupStep::CreateDirectory { path: parent });
    steps.push(StartupStep::WriteFile { path, content });
    steps.push(launchctl("enable", facts.launchd_service_target()));
    let plan = StartupPlan { steps, message };
    assert(plan_outcome(Ok(plan))->Ok_0.steps =~= launchd_install(
        facts@,
        executable@,
        paths@,
    )->Ok_0.steps);
    Ok(plan)
}

/// How the daemon is had no longer started.
pub fn uninstall(facts: &StartupFacts) -> (r: Result<StartupPlan, Failure>)
    ensures
        plan_outcome(r) == uninstall_plan(facts@),
{
    let mut steps: Vec<StartupStep> = Vec::new();
    match facts.platform {
        Platform::Linux => match facts.systemd_service_path() {
            Err(failure) => Err(failure),
            Ok(path) => {
                let message = "removed aynur startup service at ".to_owned().concat(
                    path.display().as_str(),
                );
                steps.push(systemctl("disable", Some("aynur.service")));
                steps.push(
                    StartupStep::RemoveFile { path, label: "systemd user service".to_owned() },
                );
                steps.push(systemctl("daemon-reload", None));
                assert(step_views(steps@) =~= uninstall_plan(facts@)->Ok_0.steps);
                Ok(StartupPlan { steps, message })
            },
        },
        Platform::MacOs => match facts.launchd_plist_path() {
            Err(failure) => Err(failure),
            Ok(path) => {
                let message = "removed aynur LaunchAgent at ".to_owned().concat(
                    path.display().as_str(),
                );
                steps.push(launchctl("disable", facts.launchd_service_target()));
                steps.push(StartupStep::RemoveFile { path, label: "LaunchAgent".to_owned() });
                assert(step_views(steps@) =~= uninstall_plan(facts@)->Ok_0.steps);
                Ok(StartupPlan { steps, message })
            },
        },
        Platform::Other => Err(
            Failure::new(
                "aynur unstartup is only supported on Linux systemd user services and macOS launchd".to_owned(),
            ),
        ),
    }
}

/// What is known of the executable of this program.
#[derive(Debug, PartialEq, Eq)]
pub struct ExecutableFacts {
    /// What asking for it gave.
    pub current: Result<FilePath, String>,
    /// What resolving it to a path without symbolic links gave.
    pub resolved: Result<FilePath, String>,
    /// What the file system says of the resolved path.
    pub inspected: Result<Metadata, String>,
    /// What the file system says of the resolved path and of each directory above it.
    pub components: Vec<Result<Metadata, String>>,
}

/// The complaint about one component of the path of the executable, if there is one.
pub open spec fn component_verdict(
    path: Seq<u8>,
    found: Result<Metadata, Text>,
    euid: u32,
) -> Result<(), Seq<Text>> {
    let shown = file_path::lossy_text(path);
    match found {
        Err(cause) => Err(
            seq!["failed to inspect aynur executable path component "@ + shown, cause],
        ),
        Ok(metadata) => if metadata.is_symlink {
            Err(seq!["aynur executable path contains a symbolic link: "@ + shown])
        } else if metadata.shared_writable() {
            Err(
                seq![
                    "aynur executable path component is writable by another user: "@ + shown,
                ],
            )
        } else if metadata.uid != euid && metadata.uid != 0 {
            Err(
                seq![
                    "aynur executable path component is owned by uid "@ + text::decimal_text(
                        metadata.uid as nat,
                    ) + ": "@ + shown,
                ],
            )
        } else {
            Ok(())
        },
    }
}

/// The replies of the file system, with the reasons as texts.
pub open spec fn metadata_replies(found: Seq<Result<Metadata, String>>) -> Seq<
    Result<Metadata, Text>,
> {
    found.map_values(|reply: Result<Metadata, String>| failure::reply(reply))
}

/// The first complaint about the components of the path of the executable, if there is one.
pub open spec fn components_verdict(
    paths: Seq<Seq<u8>>,
    found: Seq<Result<Metadata, Text>>,
    euid: u32,
) -> Result<(), Seq<Text>>
    decreases paths.len(),
{
    if paths.len() == 0 {
        Ok(())
    } else if components_verdict(paths.drop_last(), found, euid) is Err {
        components_verdict(paths.drop_last(), found, euid)
    } else {
        component_verdict(paths.last(), found[paths.len() - 1], euid)
    }
}

/// The executable that the daemon is started with, or why it is not safe.
pub open spec fn secure_executable(
    current: Seq<u8>,
    resolved: Result<Seq<u8>, Text>,
    inspected: Result<Metadata, Text>,
    components: Seq<Result<Metadata, Text>>,
    euid: u32,
) -> Result<Seq<u8>, Seq<Text>> {
    match resolved {
        Err(cause) => Err(
            seq![
                "failed to resolve aynur executable at "@ + file_path::lossy_text(current),
                cause,
            ],
        ),
        Ok(executable) => {
            let shown = file_path::lossy_text(executable);
            match inspected {
                Err(cause) => Err(seq!["failed to inspect aynur executable at "@ + shown, cause]),
                Ok(metadata) => if !metadata.is_file {
                    Err(seq!["aynur executable is not a regular file: "@ + shown])
                } else if !metadata.executable() {
                    Err(seq!["aynur executable is not executable: "@ + shown])
                } else {
                    match components_verdict(file_path::ancestry(executable), components, euid) {
                        Err(lines) => Err(lines),
                        Ok(_) => Ok(executable),
                    }
                },
            }
        },
    }
}

fn check_component(path: &FilePath, found: &Result<Metadata, String>, euid: u32) -> (r: Result<
    (),
    Failure,
>)
    ensures
        failure::outcome(r) == component_verdict(path@, failure::reply(*found), euid),
{
    match found {
        Err(cause) => Err(
            Failure::because(
                "failed to inspect aynur executable path component ".to_owned().concat(
                    path.display().as_str(),
                ),
                cause.clone(),
            ),
        ),
        Ok(metadata) => {
            if metadata.is_symlink {
                Err(
                    Failure::new(
                        "aynur executable path contains a symbolic link: ".to_owned().concat(
                            path.display().as_str(),
                        ),
                    ),
                )
            } else if metadata.is_shared_writable() {
                Err(
                    Failure::new(
                        "aynur executable path component is writable by another user: ".to_owned().concat(
                        path.display().as_str()),
                    ),
                )
            } else if metadata.uid != euid && metadata.uid != 0 {
                Err(
                    Failure::new(
                        "aynur executable path component is owned by uid ".to_owned().concat(
                            decimal(metadata.uid as u64).as_str(),
                        ).concat(": ").concat(path.display().as_str()),
                    ),
                )
            } else {
                Ok(())
            }
        },
    }
}

proof fn lemma_complaint_stands(
    paths: Seq<Seq<u8>>,
    found: Seq<Result<Metadata, Text>>,
    euid: u32,
    n: int,
)
    requires
        0 <= n <= paths.len(),
        components_verdict(paths.take(n), found, euid) is Err,
    ensures
        components_verdict(paths, found, euid) == components_verdict(paths.take(n), found, euid),
    decreases paths.len(),
{
    if n == paths.len() {
        assert(paths.take(n) == paths);
    } else {
        assert(paths.drop_last().take(n) == paths.take(n));
        lemma_complaint_stands(paths.drop_last(), found, euid, n);
    }
}

fn check_components(
    executable: &FilePath,
    components: &Vec<Result<Metadata, String>>,
    euid: u32,
) -> (r: Result<(), Failure>)
    requires
        components@.len() == file_path::ancestry(executable@).len(),
    ensures
        failure::outcome(r) == components_verdict(
            file_path::ancestry(executable@),
            metadata_replies(components@),
            euid,
        ),
{
    let paths = executable.ancestors();
    let ghost all = file_path::ancestry(executable@);
    let ghost found = metadata_replies(components@);
    assert(paths@.len() == file_path::path_views(paths@).len());
    let mut i: usize = 0;
    while i < paths.len()
        invariant
            i <= paths@.len(),
            paths@.len() == components@.len(),
            file_path::path_views(paths@) == all,
            all == file_path::ancestry(executable@),
            found == metadata_replies(components@),
            components_verdict(all.take(i as int), found, euid) is Ok,
        decreases paths@.len() - i,
    {
        proof {
            assert(all.take(i + 1).drop_last() == all.take(i as int));
            assert(all.take(i + 1).last() == paths@[i as int]@);
            assert(found[i as int] == failure::reply(components@[i as int]));
            if components_verdict(all.take(i + 1), found, euid) is Err {
                lemma_complaint_stands(all, found, euid, i + 1);
            }
        }
        match check_component(&paths[i], &components[i], euid) {
            Err(failure) => {
                return Err(failure);
            },
            Ok(_) => {},
        }
        i = i + 1;
    }
    assert(all.take(all.len() as int) == all);
    Ok(())
}

/// The executable that the daemon is started with, or why it is not safe. `euid` is the effective
/// user.
pub fn secure_executable_path(
    current: &FilePath,
    resolved: &Result<FilePath, String>,
    inspected: &Result<Metadata, String>,
    components: &Vec<Result<Metadata, String>>,
    euid: u32,
) -> (r: Result<FilePath, Failure>)
    requires
        resolved is Ok ==> components@.len() == file_path::ancestry(resolved->Ok_0@).len(),
    ensures
        paths::path_outcome(r) == secure_executable(
            current@,
            paths::path_reply(*resolved),
            failure::reply(*inspected),
            metadata_replies(components@),
            euid,
        ),
{
    let executable = match resolved {
        Ok(executable) => executable,
        Err(cause) => {
            return Err(
                Failure::because(
                    "failed to resolve aynur executable at ".to_owned().concat(
                        current.display().as_str(),
                    ),
                    cause.clone(),
                ),
            );
        },
    };
    match inspected {
        Err(cause) => {
            return Err(
                Failure::because(
                    "failed to inspect aynur executable at ".to_owned().concat(
                        executable.display().as_str(),
                    ),
                    cause.clone(),
                ),
            );
        },
        Ok(metadata) => {
            if !metadata.is_file {
                return Err(
                    Failure::new(
                        "aynur executable is not a regular file: ".to_owned().concat(
                            executable.display().as_str(),
                        ),
                    ),
                );
            }
            if !metadata.is_executable() {
                return Err(
                    Failure::new(
                        "aynur executable is not executable: ".to_owned().concat(
                            executable.display().as_str(),
                        ),
                    ),
                );
            }
        },
    }
    match check_components(executable, components, euid) {
        Err(failure) => Err(failure),
        Ok(_) => Ok(executable.clone()),
    }
}

/// How the daemon is had started, given what is known of the executable.
pub open spec fn installed(
    paths: AynurPathsView,
    current: Result<Seq<u8>, Text>,
    resolved: Result<Seq<u8>, Text>,
    inspected: Result<Metadata, Text>,
    components: Seq<Result<Metadata, Text>>,
    euid: u32,
    facts: StartupFactsView,
) -> Result<StartupPlanView, Seq<Text>> {
    match current {
        Err(cause) => Err(seq!["failed to resolve current executable path"@, cause]),
        Ok(current) => match secure_executable(current, resolved, inspected, components, euid) {
            Err(lines) => Err(lines),
            Ok(executable) => install_plan(facts, executable, paths),
        },
    }
}

/// How the daemon is had started. `euid` is the effective user.
pub fn install(
    paths: &AynurPaths,
    executable: &ExecutableFacts,
    euid: u32,
    facts: &StartupFacts,
) -> (r: Result<StartupPlan, Failure>)
    requires
        executable.resolved is Ok ==> executable.components@.len() == file_path::ancestry(
            executable.resolved->Ok_0@,
        ).len(),
    ensures
        plan_outcome(r) == installed(
            paths@,
            paths::path_reply(executable.current),
            paths::path_reply(executable.resolved),
            failure::reply(executable.inspected),
            metadata_replies(executable.components@),
            euid,
            facts@,
        ),
{
    let current = match &executable.current {
        Ok(current) => current,
        Err(cause) => {
            return Err(
                Failure::because(
                    "failed to resolve current executable path".to_owned(),
                    cause.clone(),
                ),
            );
        },
    };
    match secure_executable_path(
        current,
        &executable.resolved,
        &executable.inspected,
        &executable.components,
        euid,
    ) {
        Err(failure) => Err(failure),
        Ok(path) => match facts.platform {
            Platform::Linux => install_with_systemd(facts, &path, paths),
            Platform::MacOs => install_with_launchd(facts, &path, paths),
            Platform::Other => Err(
                Failure::new(
                    "aynur startup is only supported on Linux systemd user services and macOS launchd".to_owned(),
                ),
            ),
        },
    }
}

/// What came of running a command.
#[derive(Clone, Debug, PartialEq, Eq)]
pub enum RunReply {
    /// It could not be run.
    NotRun {
        /// Why.
        cause: String,
    },
    /// It has ended.
    Ended {
        /// Whether it succeeded.
        success: bool,
        /// How it ended, in words.
        status: String,
        /// What it wrote to its standard output.
        stdout: Vec<u8>,
        /// What it wrote to its standard error.
        stderr: Vec<u8>,
    },
}

/// What came of running a command.
pub enum RunReplyView {
    /// It could not be run.
    NotRun(Text),
    /// It has ended: whether it succeeded, how, and what it wrote.
    Ended(bool, Text, Seq<u8>, Seq<u8>),
}

impl View for RunReply {
    type V = RunReplyView;

    open spec fn view(&self) -> RunReplyView {
        match self {
            RunReply::NotRun { cause } => RunReplyView::NotRun(cause@),
            RunReply::Ended { success, status, stdout, stderr } => RunReplyView::Ended(
                *success,
                status@,
                stdout@,
                stderr@,
            ),
        }
    }
}

/// How running a command comes out.
pub open spec fn run_verdict(command: Seq<Text>, reply: RunReplyView) -> Result<(), Seq<Text>> {
    let shown = text::separated(command, " "@);
    match reply {
        RunReplyView::NotRun(cause) => Err(seq!["failed to run command `"@ + shown + "`"@, cause]),
        RunReplyView::Ended(success, status, stdout, stderr) => if success {
            Ok(())
        } else {
            Err(
                seq![
                    "command `"@ + shown + "` failed with status "@ + status + "\nstdout:\n"@
                        + file_path::lossy_text(stdout) + "\nstderr:\n"@ + file_path::lossy_text(
                        stderr,
                    ),
                ],
            )
        },
    }
}

/// How running a command comes out. `reply` is what running it gave.
pub fn run_command(command: &Vec<String>, reply: RunReply) -> (r: Result<(), Failure>)
    ensures
        failure::outcome(r) == run_verdict(text::texts(command@), reply@),
{
    let shown = join_texts(command, " ");
    match reply {
        RunReply::NotRun { cause } => Err(
            Failure::because(
                "failed to run command `".to_owned().concat(shown.as_str()).concat("`"),
                cause,
            ),
        ),
        RunReply::Ended { success, status, stdout, stderr } => {
            if success {
                return Ok(());
            }
            Err(
                Failure::new(
                    "command `".to_owned().concat(shown.as_str()).concat(
                        "` failed with status ",
                    ).concat(status.as_str()).concat("\nstdout:\n").concat(
                        file_path::lossy(stdout.as_slice()).as_str(),
                    ).concat("\nstderr:\n").concat(file_path::lossy(stderr.as_slice()).as_str()),
                ),
            )
        },
    }
}

/// How creating the directory of a startup file comes out. `created` is what creating it gave.
pub fn directory_created(path: &FilePath, created: Result<(), String>) -> (r: Result<(), Failure>)
    ensures
        failure::outcome(r) == match created {
            Ok(_) => Ok(()),
            Err(cause) => Err(
                seq![
                    "failed to create startup service directory at "@ + file_path::lossy_text(
                        path@,
                    ),
                    cause@,
                ],
            ),
        },
{
    match created {
        Ok(_) => Ok(()),
        Err(cause) => Err(
            Failure::because(
                "failed to create startup service directory at ".to_owned().concat(
                    path.display().as_str(),
                ),
                cause,
            ),
        ),
    }
}

/// How removing a startup file comes out. `removed` is what removing it gave; a file that is not
/// there is not removed and gives no error.
pub fn file_removed(path: &FilePath, label: &str, removed: Result<(), String>) -> (r: Result<
    (),
    Failure,
>)
    ensures
        failure::outcome(r) == match removed {
            Ok(_) => Ok(()),
            Err(cause) => Err(
                seq![
                    "failed to remove "@ + label@ + " at "@ + file_path::lossy_text(path@),
                    cause@,
                ],
            ),
        },
{
    match removed {
        Ok(_) => Ok(()),
        Err(cause) => Err(
            Failure::because(
                "failed to remove ".to_owned().concat(label).concat(" at ").concat(
                    path.display().as_str(),
                ),
                cause,
            ),
        ),
    }
}

/// A component of the path of an executable that nobody but its owner can change, and whose owner is
/// the current user or the superuser.
pub open spec fn safe_component(found: Result<Metadata, Text>, euid: u32) -> bool {
    &&& found is Ok
    &&& !found->Ok_0.is_symlink
    &&& !found->Ok_0.shared_writable()
    &&& (found->Ok_0.uid == euid || found->Ok_0.uid == 0)
}

/// The daemon is had started only with a regular executable file that nobody but the current user
/// and the superuser can replace: neither the file nor a directory above it is a symbolic link, can
/// be written by others or belongs to someone else.
pub proof fn law_only_safe_executables_are_started(
    current: Seq<u8>,
    resolved: Result<Seq<u8>, Text>,
    inspected: Result<Metadata, Text>,
    components: Seq<Result<Metadata, Text>>,
    euid: u32,
)
    requires
        resolved is Ok ==> components.len() == file_path::ancestry(resolved->Ok_0).len(),
    ensures
        secure_executable(current, resolved, inspected, components, euid) is Ok <==> {
            &&& resolved is Ok
            &&& inspected is Ok
            &&& inspected->Ok_0.is_file
            &&& inspected->Ok_0.executable()
            &&& forall|i: int|
                0 <= i < components.len() ==> safe_component(#[trigger] components[i], euid)
        },
        secure_executable(current, resolved, inspected, components, euid) is Ok
            ==> secure_executable(current, resolved, inspected, components, euid)->Ok_0
            == resolved->Ok_0,
{
    if resolved is Ok {
        lemma_safe_components(file_path::ancestry(resolved->Ok_0), components, euid);
    }
}

proof fn lemma_safe_components(
    paths: Seq<Seq<u8>>,
    found: Seq<Result<Metadata, Text>>,
    euid: u32,
)
    requires
        paths.len() <= found.len(),
    ensures
        components_verdict(paths, found, euid) is Ok <==> forall|i: int|
            0 <= i < paths.len() ==> safe_component(#[trigger] found[i], euid),
    decreases paths.len(),
{
    if paths.len() > 0 {
        lemma_safe_components(paths.drop_last(), found, euid);
        let last = paths.len() - 1;
        assert(component_verdict(paths.last(), found[last], euid) is Ok <==> safe_component(
            found[last],
            euid,
        ));
    }
}

/// What is written into a startup file has no line break that the file format did not ask for.
pub proof fn law_startup_values_stay_on_their_line(executable: Seq<u8>, paths: AynurPathsView)
    requires
        startup_lines(executable, paths) is Ok,
    ensures
        ({
            let (program, aynur_home) = startup_lines(executable, paths)->Ok_0;
            &&& !escape::systemd_quoted(program).contains('\n')
            &&& !escape::systemd_quoted(program).contains('\r')
            &&& !escape::systemd_quoted("AYNUR_HOME="@ + aynur_home).contains('\n')
            &&& !escape::systemd_quoted("AYNUR_HOME="@ + aynur_home).contains('\r')
        }),
{
    let (program, aynur_home) = startup_lines(executable, paths)->Ok_0;
    let variable = "AYNUR_HOME="@ + aynur_home;
    reveal_strlit("AYNUR_HOME=");
    assert forall|c: char| (c == '\n' || c == '\r') && !aynur_home.contains(c) implies
        !variable.contains(c) by {
        if variable.contains(c) {
            let i = variable.index_of(c);
            if i >= 11 {
                assert(aynur_home[i - 11] == c);
            }
        }
    }
    escape::law_quoting_adds_no_line_break(program, '\n');
    escape::law_quoting_adds_no_line_break(program, '\r');
    escape::law_quoting_adds_no_line_break(variable, '\n');
    escape::law_quoting_adds_no_line_break(variable, '\r');
}

/// The startup file is in place before the system is told to use it, and no step starts the daemon
/// in the current session.
pub proof fn law_file_comes_before_its_use(
    facts: StartupFactsView,
    executable: Seq<u8>,
    paths: AynurPathsView,
)
    requires
        install_plan(facts, executable, paths) is Ok,
    ensures
        ({
            let steps = install_plan(facts, executable, paths)->Ok_0.steps;
            &&& steps[0] is CreateDirectory
            &&& steps[1] is WriteFile
            &&& file_path::parent_path(steps[1]->WriteFile_0) == Some(
                steps[0]->CreateDirectory_0,
            )
            &&& forall|i: int| 2 <= i < steps.len() ==> (#[trigger] steps[i]) is Run
            &&& facts.platform is Linux ==> steps.len() == 4 && steps[2]->Run_0 == reload_units()
                && steps[3]->Run_0 == seq!["systemctl"@, "--user"@, "enable"@, "aynur.service"@]
            &&& facts.platform is MacOs ==> steps.len() == 3 && steps[2]->Run_0 == seq![
                "launchctl"@,
                "enable"@,
                facts.launchd_target(),
            ]
        }),
{
}

/// What is removed is the file that was installed.
pub proof fn law_uninstall_removes_what_was_installed(
    facts: StartupFactsView,
    executable: Seq<u8>,
    paths: AynurPathsView,
)
    requires
        install_plan(facts, executable, paths) is Ok,
    ensures
        uninstall_plan(facts) is Ok,
        uninstall_plan(facts)->Ok_0.steps[1] is RemoveFile,
        uninstall_plan(facts)->Ok_0.steps[1]->RemoveFile_0 == install_plan(
            facts,
            executable,
            paths,
        )->Ok_0.steps[1]->WriteFile_0,
{
}

/// The unit of systemd runs the executable as the daemon, with its state directory in the
/// environment, restarts it whenever it ends, and is wanted by the session of the user.
pub proof fn law_unit_runs_the_daemon(executable: Text, aynur_home: Text)
    ensures
        systemd_unit(executable, aynur_home)
            == "[Unit]\nDescription=aynur daemon\nAfter=default.target\n\n[Service]\nType=simple\nEnvironment="@
            + escape::systemd_quoted("AYNUR_HOME="@ + aynur_home) + "\nExecStart="@
            + escape::systemd_quoted(executable)
            + " __daemon\nRestart=always\nRestartSec=2\n\n[Install]\nWantedBy=default.target\n"@,
        escape::systemd_read(escape::systemd_quoted(executable).drop_first()) == Some(executable),
        escape::systemd_read(escape::systemd_quoted("AYNUR_HOME="@ + aynur_home).drop_first())
            == Some("AYNUR_HOME="@ + aynur_home),
{
    escape::law_systemd_reads_the_value(executable);
    escape::law_systemd_reads_the_value("AYNUR_HOME="@ + aynur_home);
}

/// The agent of launchd runs the executable as the daemon, with its state directory in the
/// environment, at the login of the user, and keeps it running.
pub proof fn law_agent_runs_the_daemon(executable: Text, aynur_home: Text)
    ensures
        launchd_agent(executable, aynur_home)
            == "<?xml version=\"1.0\" encoding=\"UTF-8\"?>\n<!DOCTYPE plist PUBLIC \"-//Apple//DTD PLIST 1.0//EN\" \"http://www.apple.com/DTDs/PropertyList-1.0.dtd\">\n<plist version=\"1.0\">\n<dict>\n  <key>Label</key>\n  <string>"@
            + escape::xml_escaped("cn.aynur.daemon"@)
            + "</string>\n  <key>ProgramArguments</key>\n  <array>\n    <string>"@
            + escape::xml_escaped(executable)
            + "</string>\n    <string>__daemon</string>\n  </array>\n  <key>EnvironmentVariables</key>\n  <dict>\n    <key>AYNUR_HOME</key>\n    <string>"@
            + escape::xml_escaped(aynur_home)
            + "</string>\n  </dict>\n  <key>RunAtLoad</key>\n  <true/>\n  <key>KeepAlive</key>\n  <true/>\n</dict>\n</plist>\n"@,
        escape::xml_read(escape::xml_escaped(executable)) == Some(executable),
        escape::xml_read(escape::xml_escaped(aynur_home)) == Some(aynur_home),
{
    escape::law_xml_reads_the_value(executable);
    escape::law_xml_reads_the_value(aynur_home);
}

/// The startup file stands in the directory of the user's configurations, which is the one that is
/// asked for or else the one in the home directory; that of launchd stands in the home directory.
pub proof fn law_startup_file_is_the_users(facts: StartupFactsView)
    ensures
        facts.xdg_config_home is Some && file_path::absolute(facts.xdg_config_home->0)
            ==> facts.systemd_service() == Ok::<Seq<u8>, Seq<Text>>(
            paths::file_in(
                paths::file_in(facts.xdg_config_home->0, "systemd/user"@),
                "aynur.service"@,
            ),
        ),
        facts.xdg_config_home is None && facts.home is Some && file_path::absolute(facts.home->0)
            ==> facts.systemd_service() == Ok::<Seq<u8>, Seq<Text>>(
            paths::file_in(
                paths::file_in(paths::file_in(facts.home->0, ".config"@), "systemd/user"@),
                "aynur.service"@,
            ),
        ),
        facts.xdg_config_home is None && facts.home is None ==> facts.systemd_service() is Err,
        facts.home is Some && file_path::absolute(facts.home->0) ==> facts.launchd_plist() == Ok::<
            Seq<u8>,
            Seq<Text>,
        >(
            paths::file_in(
                paths::file_in(paths::file_in(facts.home->0, "Library"@), "LaunchAgents"@),
                "cn.aynur.daemon.plist"@,
            ),
        ),
        facts.home is None ==> facts.launchd_plist() is Err,
        facts.launchd_target() == "gui/"@ + text::decimal_text(facts.uid as nat) + "/"@
            + "cn.aynur.daemon"@,
{
}

/// A path is put into a startup file as it is, where it is valid UTF-8 without a line break, and is
/// refused else.
pub proof fn law_paths_in_startup_files(path: Seq<u8>, label: Text)
    ensures
        line_of_path(path, label) is Ok <==> valid_utf8(path) && !decode_utf8(path).contains('\n')
            && !decode_utf8(path).contains('\r'),
        line_of_path(path, label) is Ok ==> encode_utf8(line_of_path(path, label)->Ok_0) == path,
{
    if valid_utf8(path) {
        decode_utf8_encode_utf8(path);
    }
}

/// Having the daemon started writes the startup file of the platform, for the executable and the
/// state directory of this program, where that executable is safe; and the executable is the one
/// without symbolic links. Elsewhere it is refused.
pub proof fn law_install_writes_the_startup_file(
    paths: AynurPathsView,
    current: Result<Seq<u8>, Text>,
    resolved: Result<Seq<u8>, Text>,
    inspected: Result<Metadata, Text>,
    components: Seq<Result<Metadata, Text>>,
    euid: u32,
    facts: StartupFactsView,
)
    requires
        installed(paths, current, resolved, inspected, components, euid, facts) is Ok,
    ensures
        ({
            let plan = installed(
                paths,
                current,
                resolved,
                inspected,
                components,
                euid,
                facts,
            )->Ok_0;
            let file = plan.steps[1];
            &&& current is Ok
            &&& secure_executable(current->Ok_0, resolved, inspected, components, euid) is Ok
            &&& resolved is Ok && valid_utf8(resolved->Ok_0) && valid_utf8(paths.root_dir)
            &&& file is WriteFile
            &&& facts.platform is Linux || facts.platform is MacOs
            &&& facts.platform is Linux ==> {
                &&& facts.user is Ok
                &&& facts.systemd_service() == Ok::<Seq<u8>, Seq<Text>>(file->WriteFile_0)
                &&& file->WriteFile_1 == systemd_unit(
                    decode_utf8(resolved->Ok_0),
                    decode_utf8(paths.root_dir),
                )
            }
            &&& facts.platform is MacOs ==> {
                &&& facts.launchd_plist() == Ok::<Seq<u8>, Seq<Text>>(file->WriteFile_0)
                &&& file->WriteFile_1 == launchd_agent(
                    decode_utf8(resolved->Ok_0),
                    decode_utf8(paths.root_dir),
                )
            }
        }),
{
}

/// Having the daemon no longer started first tells the system to leave the startup file alone, and
/// then removes it; systemd is told of that.
pub proof fn law_uninstall_disables_first(facts: StartupFactsView)
    requires
        uninstall_plan(facts) is Ok,
    ensures
        ({
            let steps = uninstall_plan(facts)->Ok_0.steps;
            &&& facts.platform is Linux || facts.platform is MacOs
            &&& steps[1] is RemoveFile
            &&& facts.platform is Linux ==> {
                &&& steps.len() == 3
                &&& steps[0] == StartupStepView::Run(
                    seq!["systemctl"@, "--user"@, "disable"@, "aynur.service"@],
                )
                &&& facts.systemd_service() == Ok::<Seq<u8>, Seq<Text>>(steps[1]->RemoveFile_0)
                &&& steps[2] == StartupStepView::Run(
                    seq!["systemctl"@, "--user"@, "daemon-reload"@],
                )
            }
            &&& facts.platform is MacOs ==> {
                &&& steps.len() == 2
                &&& steps[0] == StartupStepView::Run(
                    seq!["launchctl"@, "disable"@, facts.launchd_target()],
                )
                &&& facts.launchd_plist() == Ok::<Seq<u8>, Seq<Text>>(steps[1]->RemoveFile_0)
            }
        }),
{
}

/// A command has succeeded exactly where it was run and says so itself.
pub proof fn law_only_success_is_success(command: Seq<Text>, reply: RunReplyView)
    ensures
        run_verdict(command, reply) is Ok <==> reply is Ended && reply->Ended_0,
{
}

/// The startup file is replaced through a hidden file beside it, which must not be there before.
pub proof fn law_startup_file_is_written_beside(dir: Seq<u8>, name: Seq<u8>)
    requires
        file_path::component(name),
    ensures
        ({
            let path = dir + seq![0x2fu8] + name;
            let write = startup_write(path)->Ok_0;
            &&& startup_write(path) is Ok
            &&& write.target == path
            &&& write.temporary == file_path::renamed(
                path,
                encode_utf8("."@ + file_path::lossy_text(name) + ".tmp"@),
            )
            &&& !write.removes_stale
        }),
{
    file_path::law_base_name_is_the_last_component(dir, name);
}

} // verus!
