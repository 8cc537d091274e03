//! How commands are carried out.
//!
//! A command is worked off in steps. Each step names something to be done outside: ask the daemon,
//! look at files, print. The function that goes with the step takes what came of it and gives the
//! next step, until there is something to show or a failure.
use crate::app::{
    self, check_name, AppConfig, AppConfigView, LoadReply, LoadReplyView, RestartPolicy, SaveReply,
};
use crate::cli::Command;
use crate::client::{
    self, daemon_contact_error, print_response, validate_daemon_ping, ContactError,
    ContactErrorKind,
};
use crate::env_file::{self, merged_environment, Environment};
use crate::failure::{self, Failure};
use crate::file_path::{self, FilePath};
use crate::ipc::{
    self, program_version, sort_statuses, AppStatusRow, AppStatusView, DaemonRequest,
    DaemonRequestView, DaemonResponse, DaemonResponseView,
};
use crate::logs::{
    self, flush_logs, follow_logs, FlushPlan, FlushPlanView, FollowPlan, FollowPlanView,
};
use crate::metadata::Metadata;
use crate::order;
use crate::paths::{self, absolutize_path, AynurPaths, AynurPathsView};
use crate::text::{self, decimal, is_blank, Text};
use vstd::prelude::*;
use vstd::utf8::*;

verus! {

/// How many seconds a new daemon has to become ready.
pub const DAEMON_READY_SECONDS: u64 = 3;

/// How many milliseconds pass between two looks for a new daemon.
pub const DAEMON_POLL_MILLIS: u64 = 50;

/// How often an app may exit within the window before it counts as crashing.
pub const DEFAULT_MAX_RESTARTS: u32 = 5;

/// The length of the window.
pub const DEFAULT_WINDOW_SECONDS: u64 = 10;

/// An app that is to be started.
#[derive(Clone, Debug, PartialEq, Eq)]
pub struct StartRequest {
    /// The executable.
    pub binary: FilePath,
    /// The name of the app, where it is not the file name of the executable.
    pub name: Option<String>,
    /// Where the app runs, where it is not the current directory.
    pub cwd: Option<FilePath>,
    /// The file that adds to the environment.
    pub env_file: Option<FilePath>,
    /// The arguments of the app.
    pub args: Vec<String>,
}

/// An app that is to be started.
#[verifier::ext_equal]
pub struct StartRequestView {
    /// The executable.
    pub binary: Seq<u8>,
    /// The name of the app, where it is not the file name of the executable.
    pub name: Option<Text>,
    /// Where the app runs, where it is not the current directory.
    pub cwd: Option<Seq<u8>>,
    /// The file that adds to the environment.
    pub env_file: Option<Seq<u8>>,
    /// The arguments of the app.
    pub args: Seq<Text>,
}

impl View for StartRequest {
    type V = StartRequestView;

    open spec fn view(&self) -> StartRequestView {
        StartRequestView {
            binary: self.binary@,
            name: text::text_option(self.name),
            cwd: file_path::path_option(self.cwd),
            env_file: file_path::path_option(self.env_file),
            args: text::texts(self.args@),
        }
    }
}

/// What the daemon is asked for once it is known to speak the protocol of this program.
#[derive(Clone, Debug, PartialEq, Eq)]
pub enum Goal {
    /// To start an app; where there is no daemon, one is started first.
    Start {
        /// The app.
        start: StartRequest,
    },
    /// For what runs; where there is no daemon, the configured apps are shown.
    List,
    /// For something else.
    Request {
        /// What.
        request: DaemonRequest,
    },
}

/// What the daemon is asked for once it is known to speak the protocol of this program.
#[verifier::ext_equal]
pub enum GoalView {
    /// To start an app; where there is no daemon, one is started first.
    Start(StartRequestView),
    /// For what runs; where there is no daemon, the configured apps are shown.
    List,
    /// For something else.
    Request(DaemonRequestView),
}

impl View for Goal {
    type V = GoalView;

    open spec fn view(&self) -> GoalView {
        match self {
            Goal::Start { start } => GoalView::Start(start@),
            Goal::List => GoalView::List,
            Goal::Request { request } => GoalView::Request(request@),
        }
    }
}

/// A request that is being sent.
#[derive(Clone, Debug, PartialEq, Eq)]
pub struct PendingSend {
    /// The request.
    pub request: DaemonRequest,
    /// Whether a failure to ask is told as one.
    pub explains_failure: bool,
}

/// A request that is being sent.
#[verifier::ext_equal]
pub struct PendingSendView {
    /// The request.
    pub request: DaemonRequestView,
    /// Whether a failure to ask is told as one.
    pub explains_failure: bool,
}

impl View for PendingSend {
    type V = PendingSendView;

    open spec fn view(&self) -> PendingSendView {
        PendingSendView { request: self.request@, explains_failure: self.explains_failure }
    }
}

/// A configuration that is being read for a list.
#[derive(Clone, Debug, PartialEq, Eq)]
pub struct PendingEntry {
    /// The apps that were found before it.
    pub apps: Vec<AppStatusView>,
    /// The file.
    pub path: FilePath,
}

/// A configuration that is being read for a list.
#[verifier::ext_equal]
pub struct PendingEntryView {
    /// The apps that were found before it.
    pub apps: Seq<AppStatusRow>,
    /// The file.
    pub path: Seq<u8>,
}

impl View for PendingEntry {
    type V = PendingEntryView;

    open spec fn view(&self) -> PendingEntryView {
        PendingEntryView { apps: ipc::status_rows(self.apps@), path: self.path@ }
    }
}

/// What is done with the logs of an app.
#[derive(Clone, Copy, Debug, PartialEq, Eq, Structural)]
pub enum LogsUse {
    /// They are followed.
    Follow,
    /// They are cleared.
    Flush,
}

/// An app whose configuration is looked for before its logs are used.
#[derive(Clone, Debug, PartialEq, Eq)]
pub struct PendingLogs {
    /// The app.
    pub name: String,
    /// Where its configuration is.
    pub path: FilePath,
    /// What is then done with its logs.
    pub usage: LogsUse,
}

/// An app whose configuration is looked for before its logs are used.
#[verifier::ext_equal]
pub struct PendingLogsView {
    /// The app.
    pub name: Text,
    /// Where its configuration is.
    pub path: Seq<u8>,
    /// What is then done with its logs.
    pub usage: LogsUse,
}

impl View for PendingLogs {
    type V = PendingLogsView;

    open spec fn view(&self) -> PendingLogsView {
        PendingLogsView { name: self.name@, path: self.path@, usage: self.usage }
    }
}

/// What is to be done next for a command.
#[derive(Clone, Debug, PartialEq, Eq)]
pub enum CommandStep {
    /// Print some lines, and be done.
    Print {
        /// The lines.
        lines: Vec<String>,
    },
    /// For each app that has a process, read how many bytes the process holds in memory.
    ReadMemory {
        /// The apps, in the order in which they are listed.
        apps: Vec<AppStatusView>,
    },
    /// Report a failure.
    Fail {
        /// The failure.
        failure: Failure,
    },
    /// Ping the daemon.
    Ping {
        /// What for.
        goal: Goal,
    },
    /// Start a daemon.
    SpawnDaemon {
        /// The app that is then started.
        start: StartRequest,
    },
    /// Wait a while, then tell how long it is since the daemon was started.
    Await {
        /// The app that is then started.
        start: StartRequest,
        /// How long to wait.
        pause_millis: u64,
    },
    /// Ping the daemon that was started.
    PingAgain {
        /// The app that is then started.
        start: StartRequest,
    },
    /// Ask for the current directory, for the environment and for the env file, where one is named.
    Gather {
        /// The app that is then started.
        start: StartRequest,
    },
    /// Look at the binary and at the working directory of an app.
    Inspect {
        /// The app.
        config: AppConfig,
    },
    /// Write the configuration of an app.
    SaveConfig {
        /// The app.
        config: AppConfig,
    },
    /// Ask for the environment.
    CaptureEnvironment {
        /// The app that gets it.
        name: String,
    },
    /// Send a request to the daemon.
    Send {
        /// The request.
        pending: PendingSend,
    },
    /// Open the directory of the configurations.
    OpenApps,
    /// Get the next entry of the directory of the configurations.
    NextEntry {
        /// The apps that were found so far.
        apps: Vec<AppStatusView>,
    },
    /// Read a configuration.
    ReadConfig {
        /// The configuration.
        pending: PendingEntry,
    },
    /// Look whether the configuration of an app is a file.
    FindConfig {
        /// The app.
        pending: PendingLogs,
    },
    /// Follow the logs of an app.
    FollowLogs {
        /// How.
        plan: FollowPlan,
    },
    /// Clear the logs of an app.
    FlushLogs {
        /// How.
        plan: FlushPlan,
    },
    /// Have the daemon started with the session of the user.
    Install,
    /// Have the daemon no longer started with the session of the user.
    Uninstall,
    /// Be the daemon.
    RunDaemon,
}

/// What is to be done next for a command.
#[verifier::ext_equal]
pub enum CommandStepView {
    /// Print some lines, and be done.
    Print(Seq<Text>),
    /// For each app that has a process, read how many bytes the process holds in memory.
    ReadMemory(Seq<AppStatusRow>),
    /// Report a failure.
    Fail(Seq<Text>),
    /// Ping the daemon.
    Ping(GoalView),
    /// Start a daemon.
    SpawnDaemon(StartRequestView),
    /// Wait a while, then tell how long it is since the daemon was started.
    Await(StartRequestView, u64),
    /// Ping the daemon that was started.
    PingAgain(StartRequestView),
    /// Ask for the current directory, for the environment and for the env file, where one is named.
    Gather(StartRequestView),
    /// Look at the binary and at the working directory of an app.
    Inspect(AppConfigView),
    /// Write the configuration of an app.
    SaveConfig(AppConfigView),
    /// Ask for the environment.
    CaptureEnvironment(Text),
    /// Send a request to the daemon.
    Send(PendingSendView),
    /// Open the directory of the configurations.
    OpenApps,
    /// Get the next entry of the directory of the configurations.
    NextEntry(Seq<AppStatusRow>),
    /// Read a configuration.
    ReadConfig(PendingEntryView),
    /// Look whether the configuration of an app is a file.
    FindConfig(PendingLogsView),
    /// Follow the logs of an app.
    FollowLogs(FollowPlanView),
    /// Clear the logs of an app.
    FlushLogs(FlushPlanView),
    /// Have the daemon started with the session of the user.
    Install,
    /// Have the daemon no longer started with the session of the user.
    Uninstall,
    /// Be the daemon.
    RunDaemon,
}

impl View for CommandStep {
    type V = CommandStepView;

    open spec fn view(&self) -> CommandStepView {
        match self {
            CommandStep::Print { lines } => CommandStepView::Print(text::texts(lines@)),
            CommandStep::ReadMemory { apps } => CommandStepView::ReadMemory(
                ipc::status_rows(apps@),
            ),
            CommandStep::Fail { failure } => CommandStepView::Fail(failure@),
            CommandStep::Ping { goal } => CommandStepView::Ping(goal@),
            CommandStep::SpawnDaemon { start } => CommandStepView::SpawnDaemon(start@),
            CommandStep::Await { start, pause_millis } => CommandStepView::Await(
                start@,
                *pause_millis,
            ),
            CommandStep::PingAgain { start } => CommandStepView::PingAgain(start@),
            CommandStep::Gather { start } => CommandStepView::Gather(start@),
            CommandStep::Inspect { config } => CommandStepView::Inspect(config@),
            CommandStep::SaveConfig { config } => CommandStepView::SaveConfig(config@),
            CommandStep::CaptureEnvironment { name } => CommandStepView::CaptureEnvironment(name@),
            CommandStep::Send { pending } => CommandStepView::Send(pending@),
            CommandStep::OpenApps => CommandStepView::OpenApps,
            CommandStep::NextEntry { apps } => CommandStepView::NextEntry(ipc::status_rows(apps@)),
            CommandStep::ReadConfig { pending } => CommandStepView::ReadConfig(pending@),
            CommandStep::FindConfig { pending } => CommandStepView::FindConfig(pending@),
            CommandStep::FollowLogs { plan } => CommandStepView::FollowLogs(plan@),
            CommandStep::FlushLogs { plan } => CommandStepView::FlushLogs(plan@),
            CommandStep::Install => CommandStepView::Install,
            CommandStep::Uninstall => CommandStepView::Uninstall,
            CommandStep::RunDaemon => CommandStepView::RunDaemon,
        }
    }
}

/// Something that can be carried out.
pub trait ExecuteCommand: Sized {
    /// The step with which it begins.
    spec fn first_step(self, paths: AynurPathsView) -> CommandStepView;

    /// Begins to carry it out.
    fn execute(self, paths: &AynurPaths) -> (r: CommandStep)
        ensures
            r@ == self.first_step(paths@),
    ;
}

/// The line that shows the version.
pub open spec fn version_line() -> Text {
    "aynur "@ + "0.3.0"@
}

/// The line that shows the version.
pub fn print_version() -> (r: String)
    ensures
        r@ == version_line(),
{
    "aynur ".to_owned().concat(program_version())
}

/// The first step of a command for which the daemon has to run.
pub open spec fn request_step(request: DaemonRequestView) -> CommandStepView {
    CommandStepView::Ping(GoalView::Request(request))
}

fn request_running_daemon(request: DaemonRequest) -> (r: CommandStep)
    ensures
        r@ == request_step(request@),
{
    CommandStep::Ping { goal: Goal::Request { request } }
}

/// The first step of a command on the logs of the app called `name`.
pub open spec fn logs_step(paths: AynurPathsView, name: Text, usage: LogsUse) -> CommandStepView {
    match app::name_verdict(name) {
        Err(lines) => CommandStepView::Fail(lines),
        Ok(_) => CommandStepView::FindConfig(
            PendingLogsView { name, path: paths.app_config(name), usage },
        ),
    }
}

fn use_logs(paths: &AynurPaths, name: String, usage: LogsUse) -> (r: CommandStep)
    ensures
        r@ == logs_step(paths@, name@, usage),
{
    match check_name(name.as_str()) {
        Err(failure) => CommandStep::Fail { failure },
        Ok(_) => {
            let path = paths.app_config_path(name.as_str());
            CommandStep::FindConfig { pending: PendingLogs { name, path, usage } }
        },
    }
}

/// It was looked whether the configuration of the app is a file.
pub open spec fn config_found_step(
    paths: AynurPathsView,
    pending: PendingLogsView,
    is_file: bool,
) -> CommandStepView {
    match pending.usage {
        LogsUse::Follow => match logs::followed(paths, pending.name, is_file) {
            Ok(plan) => CommandStepView::FollowLogs(plan),
            Err(lines) => CommandStepView::Fail(lines),
        },
        LogsUse::Flush => match logs::flushed(paths, pending.name, is_file) {
            Ok(plan) => CommandStepView::FlushLogs(plan),
            Err(lines) => CommandStepView::Fail(lines),
        },
    }
}

/// Goes on once it was looked whether the configuration of the app is a file.
pub fn config_found(paths: &AynurPaths, pending: PendingLogs, is_file: bool) -> (r: CommandStep)
    ensures
        r@ == config_found_step(paths@, pending@, is_file),
{
    match pending.usage {
        LogsUse::Follow => match follow_logs(paths, pending.name.as_str(), is_file) {
            Ok(plan) => CommandStep::FollowLogs { plan },
            Err(failure) => CommandStep::Fail { failure },
        },
        LogsUse::Flush => match flush_logs(paths, pending.name.as_str(), is_file) {
            Ok(plan) => CommandStep::FlushLogs { plan },
            Err(failure) => CommandStep::Fail { failure },
        },
    }
}

impl ExecuteCommand for Command {
    open spec fn first_step(self, paths: AynurPathsView) -> CommandStepView {
        match self {
            Command::Start { binary, name, cwd, env_file, args } => CommandStepView::Ping(
                GoalView::Start((StartRequest { binary, name, cwd, env_file, args })@),
            ),
            Command::Stop { name } => request_step(DaemonRequestView::Stop(name@)),
            Command::Restart { name } => request_step(DaemonRequestView::Restart(name@)),
            Command::Reload { name, update_env } => if update_env {
                CommandStepView::CaptureEnvironment(name@)
            } else {
                request_step(DaemonRequestView::Reload(name@))
            },
            Command::List => CommandStepView::Ping(GoalView::List),
            Command::Save => request_step(DaemonRequestView::Save),
            Command::Logs { name } => logs_step(paths, name@, LogsUse::Follow),
            Command::Flush { name } => logs_step(paths, name@, LogsUse::Flush),
            Command::Delete { name } => request_step(DaemonRequestView::Delete(name@)),
            Command::Startup => CommandStepView::Install,
            Command::Unstartup => CommandStepView::Uninstall,
            Command::Version => CommandStepView::Print(seq![version_line()]),
            Command::Daemon => CommandStepView::RunDaemon,
        }
    }

    fn execute(self, paths: &AynurPaths) -> (r: CommandStep) {
        match self {
            Command::Start { binary, name, cwd, env_file, args } => CommandStep::Ping {
                goal: Goal::Start { start: StartRequest { binary, name, cwd, env_file, args } },
            },
            Command::Stop { name } => request_running_daemon(DaemonRequest::Stop { name }),
            Command::Restart { name } => request_running_daemon(DaemonRequest::Restart { name }),
            Command::Reload { name, update_env } => {
                if update_env {
                    CommandStep::CaptureEnvironment { name }
                } else {
                    request_running_daemon(DaemonRequest::Reload { name })
                }
            },
            Command::List => CommandStep::Ping { goal: Goal::List },
            Command::Save => request_running_daemon(DaemonRequest::Save),
            Command::Logs { name } => use_logs(paths, name, LogsUse::Follow),
            Command::Flush { name } => use_logs(paths, name, LogsUse::Flush),
            Command::Delete { name } => request_running_daemon(DaemonRequest::Delete { name }),
            Command::Startup => CommandStep::Install,
            Command::Unstartup => CommandStep::Uninstall,
            Command::Version => {
                let lines: Vec<String> = vec![print_version()];
                assert(text::texts(lines@) =~= seq![version_line()]);
                CommandStep::Print { lines }
            },
            Command::Daemon => CommandStep::RunDaemon,
        }
    }
}

/// What came of asking the daemon.
pub enum Asked {
    /// It answered.
    Answered(DaemonResponseView),
    /// It could not be asked: the kind of error, and the reason.
    Unreachable(ContactErrorKind, Text),
}

/// What came of asking the daemon.
pub open spec fn asked_view(asked: Result<DaemonResponse, ContactError>) -> Asked {
    match asked {
        Ok(response) => Asked::Answered(response@),
        Err(error) => Asked::Unreachable(error.kind, error.cause@),
    }
}

/// The environment was asked for.
pub open spec fn captured_step(name: Text, env: Map<Text, Text>) -> CommandStepView {
    request_step(DaemonRequestView::ReloadUpdateEnv(name, env))
}

/// Goes on once the environment was asked for.
pub fn environment_captured(name: String, env: Environment) -> (r: CommandStep)
    ensures
        r@ == captured_step(name@, env_file::text_values(env@)),
        r@ == request_step(
            DaemonRequestView::ReloadUpdateEnv(name@, env_file::text_values(env@)),
        ),
{
    request_running_daemon(DaemonRequest::ReloadUpdateEnv { name, env })
}

/// What comes once the daemon is known to speak the protocol of this program.
pub open spec fn goal_step(goal: GoalView) -> CommandStepView {
    match goal {
        GoalView::Start(start) => CommandStepView::Gather(start),
        GoalView::List => CommandStepView::Send(
            PendingSendView { request: DaemonRequestView::List, explains_failure: true },
        ),
        GoalView::Request(request) => CommandStepView::Send(
            PendingSendView { request, explains_failure: true },
        ),
    }
}

/// The daemon was pinged.
pub open spec fn ping_step(paths: AynurPathsView, goal: GoalView, asked: Asked) -> CommandStepView {
    match asked {
        Asked::Answered(response) => match client::ping_verdict(response) {
            Ok(_) => goal_step(goal),
            Err(lines) => CommandStepView::Fail(lines),
        },
        Asked::Unreachable(kind, cause) => match goal {
            GoalView::Start(start) if kind.inactive() => CommandStepView::SpawnDaemon(start),
            GoalView::List if kind.inactive() => CommandStepView::OpenApps,
            _ => CommandStepView::Fail(client::contact_failure(paths, cause)),
        },
    }
}

fn pursue(goal: Goal) -> (r: CommandStep)
    ensures
        r@ == goal_step(goal@),
{
    match goal {
        Goal::Start { start } => CommandStep::Gather { start },
        Goal::List => CommandStep::Send {
            pending: PendingSend { request: DaemonRequest::List, explains_failure: true },
        },
        Goal::Request { request } => CommandStep::Send {
            pending: PendingSend { request, explains_failure: true },
        },
    }
}

/// Goes on once the daemon was pinged.
pub fn pinged(paths: &AynurPaths, goal: Goal, asked: Result<DaemonResponse, ContactError>) -> (r:
    CommandStep)
    ensures
        r@ == ping_step(paths@, goal@, asked_view(asked)),
{
    match asked {
        Ok(response) => match validate_daemon_ping(&response) {
            Ok(_) => pursue(goal),
            Err(failure) => CommandStep::Fail { failure },
        },
        Err(error) => {
            if error.kind.is_inactive() {
                match goal {
                    Goal::Start { start } => CommandStep::SpawnDaemon { start },
                    Goal::List => CommandStep::OpenApps,
                    Goal::Request { request: _ } => CommandStep::Fail {
                        failure: daemon_contact_error(paths, error),
                    },
                }
            } else {
                CommandStep::Fail { failure: daemon_contact_error(paths, error) }
            }
        },
    }
}

/// What came of starting a daemon.
#[derive(Clone, Debug, PartialEq, Eq)]
pub enum SpawnDaemonReply {
    /// The executable of this program is not known.
    NoExecutable {
        /// Why.
        cause: String,
    },
    /// There is no process.
    NotSpawned {
        /// Why.
        cause: String,
    },
    /// There is a process.
    Spawned,
}

/// A daemon was started, or not.
pub open spec fn daemon_spawned_step(
    start: StartRequestView,
    reply: SpawnDaemonReply,
) -> CommandStepView {
    match reply {
        SpawnDaemonReply::NoExecutable { cause } => CommandStepView::Fail(
            seq!["failed to resolve current executable path"@, cause@],
        ),
        SpawnDaemonReply::NotSpawned { cause } => CommandStepView::Fail(
            seq!["failed to spawn aynur daemon"@, cause@],
        ),
        SpawnDaemonReply::Spawned => CommandStepView::Await(start, 0),
    }
}

/// Goes on once a daemon was started, or not.
pub fn daemon_spawned(start: StartRequest, reply: SpawnDaemonReply) -> (r: CommandStep)
    ensures
        r@ == daemon_spawned_step(start@, reply),
{
    match reply {
        SpawnDaemonReply::NoExecutable { cause } => CommandStep::Fail {
            failure: Failure::because(
                "failed to resolve current executable path".to_owned(),
                cause,
            ),
        },
        SpawnDaemonReply::NotSpawned { cause } => CommandStep::Fail {
            failure: Failure::because("failed to spawn aynur daemon".to_owned(), cause),
        },
        SpawnDaemonReply::Spawned => CommandStep::Await { start, pause_millis: 0 },
    }
}

/// So many milliseconds have passed since the daemon was started.
pub open spec fn awaited_step(
    paths: AynurPathsView,
    start: StartRequestView,
    elapsed_millis: u64,
) -> CommandStepView {
    if elapsed_millis < DAEMON_READY_SECONDS * 1000 {
        CommandStepView::PingAgain(start)
    } else {
        CommandStepView::Fail(
            seq![
                "daemon did not become ready within "@ + text::decimal_text(
                    DAEMON_READY_SECONDS as nat,
                ) + " seconds at "@ + file_path::lossy_text(paths.socket_path),
            ],
        )
    }
}

/// Goes on once so many milliseconds have passed since the daemon was started.
pub fn awaited(paths: &AynurPaths, start: StartRequest, elapsed_millis: u64) -> (r: CommandStep)
    ensures
        r@ == awaited_step(paths@, start@, elapsed_millis),
{
    if elapsed_millis < DAEMON_READY_SECONDS * 1000 {
        CommandStep::PingAgain { start }
    } else {
        CommandStep::Fail {
            failure: Failure::new(
                "daemon did not become ready within ".to_owned().concat(
                    decimal(DAEMON_READY_SECONDS).as_str(),
                ).concat(" seconds at ").concat(paths.socket_path.display().as_str()),
            ),
        }
    }
}

/// The daemon that was started was pinged.
pub open spec fn ping_again_step(
    paths: AynurPathsView,
    start: StartRequestView,
    asked: Asked,
) -> CommandStepView {
    match asked {
        Asked::Answered(response) => match client::ping_verdict(response) {
            Ok(_) => CommandStepView::Gather(start),
            Err(lines) => CommandStepView::Fail(lines),
        },
        Asked::Unreachable(kind, cause) => if kind.inactive() {
            CommandStepView::Await(start, DAEMON_POLL_MILLIS)
        } else {
            CommandStepView::Fail(client::contact_failure(paths, cause))
        },
    }
}

/// Goes on once the daemon that was started was pinged.
pub fn pinged_again(
    paths: &AynurPaths,
    start: StartRequest,
    asked: Result<DaemonResponse, ContactError>,
) -> (r: CommandStep)
    ensures
        r@ == ping_again_step(paths@, start@, asked_view(asked)),
{
    match asked {
        Ok(response) => match validate_daemon_ping(&response) {
            Ok(_) => CommandStep::Gather { start },
            Err(failure) => CommandStep::Fail { failure },
        },
        Err(error) => {
            if error.kind.is_inactive() {
                CommandStep::Await { start, pause_millis: DAEMON_POLL_MILLIS }
            } else {
                CommandStep::Fail { failure: daemon_contact_error(paths, error) }
            }
        },
    }
}

/// The name of an app that was given none: the file name of its executable.
pub open spec fn inferred_name(binary: Seq<u8>) -> Result<Text, Seq<Text>> {
    match file_path::base_name(binary) {
        Some(name) if valid_utf8(name) && !text::blank(decode_utf8(name)) => Ok(decode_utf8(name)),
        _ => Err(
            seq![
                "failed to infer app name from binary path "@ + file_path::lossy_text(binary)
                    + "; pass --name <name>"@,
            ],
        ),
    }
}

/// The name of an app that was given none: the file name of its executable.
pub fn default_app_name(binary: &FilePath) -> (r: Result<String, Failure>)
    ensures
        match inferred_name(binary@) {
            Ok(name) => r is Ok && r->Ok_0@ == name,
            Err(lines) => r is Err && r->Err_0@ == lines,
        },
{
    if let Some(file_name) = binary.file_name() {
        if let Some(name) = file_name.to_text() {
            if !is_blank(name.as_str()) {
                return Ok(name);
            }
        }
    }
    Err(
        Failure::new(
            "failed to infer app name from binary path ".to_owned().concat(
                binary.display().as_str(),
            ).concat("; pass --name <name>"),
        ),
    )
}

/// What has to be known to start an app.
#[derive(Debug, PartialEq, Eq)]
pub struct StartFacts {
    /// What asking for the current directory gave.
    pub current_dir: Result<FilePath, String>,
    /// The environment.
    pub env: Environment,
    /// What reading the env file gave; it is not looked at where none is named.
    pub env_file: Result<String, String>,
}

/// What has to be known to start an app.
pub struct StartFactsView {
    /// What asking for the current directory gave.
    pub current_dir: Result<Seq<u8>, Text>,
    /// The environment.
    pub env: Map<Text, Text>,
    /// What reading the env file gave.
    pub env_file: Result<Text, Text>,
}

impl View for StartFacts {
    type V = StartFactsView;

    open spec fn view(&self) -> StartFactsView {
        StartFactsView {
            current_dir: paths::path_reply(self.current_dir),
            env: env_file::text_values(self.env@),
            env_file: failure::text_reply(self.env_file),
        }
    }
}

impl StartRequestView {
    /// Where the app runs.
    pub open spec fn directory(self, facts: StartFactsView) -> Result<Seq<u8>, Seq<Text>> {
        match (self.cwd, facts.current_dir) {
            (Some(path), _) => Ok(path),
            (None, Ok(dir)) => Ok(dir),
            (None, Err(cause)) => Err(
                seq!["failed to read current working directory"@, cause],
            ),
        }
    }

    /// The name of the app.
    pub open spec fn app_name(self) -> Result<Text, Seq<Text>> {
        match self.name {
            Some(name) => Ok(name),
            None => inferred_name(self.binary),
        }
    }

    /// The environment of the app.
    pub open spec fn environment(self, facts: StartFactsView) -> Result<
        Map<Text, Text>,
        Seq<Text>,
    > {
        env_file::merged(
            facts.env,
            match self.env_file {
                Some(path) => Some((path, facts.env_file)),
                None => None,
            },
        )
    }

    /// The file that adds to the environment when it is refreshed.
    pub open spec fn lasting_env_file(self, facts: StartFactsView) -> Result<
        Option<Seq<u8>>,
        Seq<Text>,
    > {
        match self.env_file {
            None => Ok(None),
            Some(path) => match paths::absolutized(path, facts.current_dir) {
                Ok(path) => Ok(Some(path)),
                Err(lines) => Err(lines),
            },
        }
    }

    /// The configuration of the app.
    pub open spec fn config(self, facts: StartFactsView) -> Result<AppConfigView, Seq<Text>> {
        match self.directory(facts) {
            Err(lines) => Err(lines),
            Ok(directory) => match self.app_name() {
                Err(lines) => Err(lines),
                Ok(name) => match paths::absolutized(self.binary, facts.current_dir) {
                    Err(lines) => Err(lines),
                    Ok(binary_path) => match paths::absolutized(directory, facts.current_dir) {
                        Err(lines) => Err(lines),
                        Ok(working_directory) => match self.environment(facts) {
                            Err(lines) => Err(lines),
                            Ok(env) => match self.lasting_env_file(facts) {
                                Err(lines) => Err(lines),
                                Ok(env_file_path) => Ok(
                                    AppConfigView {
                                        name,
                                        binary_path,
                                        args: self.args,
                                        working_directory,
                                        env,
                                        env_file_path,
                                        restart_policy: RestartPolicy {
                                            max_restarts: DEFAULT_MAX_RESTARTS,
                                            window_seconds: DEFAULT_WINDOW_SECONDS,
                                        },
                                    },
                                ),
                            },
                        },
                    },
                },
            },
        }
    }
}

/// What has to be known to start an app is known.
pub open spec fn gathered_step(start: StartRequestView, facts: StartFactsView) -> CommandStepView {
    match start.config(facts) {
        Err(lines) => CommandStepView::Fail(lines),
        Ok(config) => CommandStepView::Inspect(config),
    }
}

fn build_config(start: StartRequest, facts: StartFacts) -> (r: Result<AppConfig, Failure>)
    ensures
        app::config_outcome(r) == start@.config(facts@),
{
    let StartRequest { binary, name, cwd, env_file, args } = start;
    let StartFacts { current_dir, env, env_file: content } = facts;
    let directory = match cwd {
        Some(path) => path,
        None => match &current_dir {
            Ok(dir) => dir.clone(),
            Err(cause) => {
                return Err(
                    Failure::because(
                        "failed to read current working directory".to_owned(),
                        cause.clone(),
                    ),
                );
            },
        },
    };
    let name = match name {
        Some(name) => name,
        None => match default_app_name(&binary) {
            Ok(name) => name,
            Err(failure) => {
                return Err(failure);
            },
        },
    };
    let binary_path = match absolutize_path(binary, &current_dir) {
        Ok(path) => path,
        Err(failure) => {
            return Err(failure);
        },
    };
    let working_directory = match absolutize_path(directory, &current_dir) {
        Ok(path) => path,
        Err(failure) => {
            return Err(failure);
        },
    };
    let read_file = match &env_file {
        Some(path) => Some((path.clone(), content)),
        None => None,
    };
    let env = match merged_environment(env, read_file) {
        Ok(env) => env,
        Err(failure) => {
            return Err(failure);
        },
    };
    let env_file_path = match env_file {
        None => None,
        Some(path) => match absolutize_path(path, &current_dir) {
            Ok(path) => Some(path),
            Err(failure) => {
                return Err(failure);
            },
        },
    };
    Ok(
        AppConfig {
            name,
            binary_path,
            args,
            working_directory,
            env,
            env_file_path,
            restart_policy: RestartPolicy {
                max_restarts: DEFAULT_MAX_RESTARTS,
                window_seconds: DEFAULT_WINDOW_SECONDS,
            },
        },
    )
}

/// Goes on once what has to be known to start an app is known.
pub fn gathered(start: StartRequest, facts: StartFacts) -> (r: CommandStep)
    ensures
        r@ == gathered_step(start@, facts@),
{
    match build_config(start, facts) {
        Err(failure) => CommandStep::Fail { failure },
        Ok(config) => CommandStep::Inspect { config },
    }
}

/// The binary and the working directory of the app were looked at.
pub open spec fn inspected_step(
    config: AppConfigView,
    binary: Result<Metadata, Text>,
    directory: Result<Metadata, Text>,
) -> CommandStepView {
    match config.verdict(binary, directory) {
        Err(lines) => CommandStepView::Fail(lines),
        Ok(_) => CommandStepView::SaveConfig(config),
    }
}

/// Goes on once the binary and the working directory of the app were looked at.
pub fn config_inspected(
    config: AppConfig,
    binary: Result<Metadata, String>,
    directory: Result<Metadata, String>,
) -> (r: CommandStep)
    ensures
        r@ == inspected_step(config@, failure::reply(binary), failure::reply(directory)),
{
    match config.validate(&binary, &directory) {
        Err(failure) => CommandStep::Fail { failure },
        Ok(_) => CommandStep::SaveConfig { config },
    }
}

/// The configuration of the app was written, or not.
pub open spec fn config_saved_step(
    paths: AynurPathsView,
    config: AppConfigView,
    written: SaveReply,
) -> CommandStepView {
    match config.saved(paths, written) {
        Err(lines) => CommandStepView::Fail(lines),
        Ok(_) => CommandStepView::Send(
            PendingSendView { request: DaemonRequestView::Start(config), explains_failure: false },
        ),
    }
}

/// Goes on once the configuration of the app was written, or not.
pub fn config_saved(paths: &AynurPaths, config: AppConfig, written: SaveReply) -> (r: CommandStep)
    ensures
        r@ == config_saved_step(paths@, config@, written),
{
    match config.save(paths, written) {
        Err(failure) => CommandStep::Fail { failure },
        Ok(_) => CommandStep::Send {
            pending: PendingSend {
                request: DaemonRequest::Start { config },
                explains_failure: false,
            },
        },
    }
}

/// What is done with a response: a list is shown once the memory of its apps was read, and anything
/// else at once.
pub open spec fn answer_step(response: DaemonResponseView) -> CommandStepView {
    match response {
        DaemonResponseView::List(rows) => CommandStepView::ReadMemory(rows),
        _ => show_step(response, Seq::empty()),
    }
}

/// A response is shown.
pub open spec fn show_step(
    response: DaemonResponseView,
    readings: Seq<Option<u64>>,
) -> CommandStepView {
    match client::shown(response, readings) {
        Ok(lines) => CommandStepView::Print(lines),
        Err(lines) => CommandStepView::Fail(lines),
    }
}

fn show(response: &DaemonResponse, readings: &Vec<Option<u64>>) -> (r: CommandStep)
    requires
        response matches DaemonResponse::List { apps } ==> apps@.len() == readings@.len(),
    ensures
        r@ == show_step(response@, readings@),
{
    match print_response(response, readings) {
        Ok(lines) => CommandStep::Print { lines },
        Err(failure) => CommandStep::Fail { failure },
    }
}

/// Goes on once the memory of the apps in a list was read: `readings` are the bytes that their
/// processes hold, app by app, where they could be read.
pub fn memory_read(apps: Vec<AppStatusView>, readings: Vec<Option<u64>>) -> (r: CommandStep)
    requires
        apps@.len() == readings@.len(),
    ensures
        r@ == CommandStepView::Print(client::table_text(ipc::status_rows(apps@), readings@)),
{
    show(&DaemonResponse::List { apps }, &readings)
}

/// The request was sent.
pub open spec fn sent_step(
    paths: AynurPathsView,
    pending: PendingSendView,
    asked: Asked,
) -> CommandStepView {
    match asked {
        Asked::Answered(response) => answer_step(response),
        Asked::Unreachable(_, cause) => CommandStepView::Fail(
            if pending.explains_failure {
                client::contact_failure(paths, cause)
            } else {
                seq![cause]
            },
        ),
    }
}

/// Goes on once the request was sent.
pub fn sent(paths: &AynurPaths, pending: PendingSend, asked: Result<DaemonResponse, ContactError>) -> (r:
    CommandStep)
    ensures
        r@ == sent_step(paths@, pending@, asked_view(asked)),
{
    match asked {
        Ok(response) => {
            if let DaemonResponse::List { apps } = response {
                return CommandStep::ReadMemory { apps };
            }
            let readings: Vec<Option<u64>> = Vec::new();
            show(&response, &readings)
        },
        Err(error) => {
            if pending.explains_failure {
                CommandStep::Fail { failure: daemon_contact_error(paths, error) }
            } else {
                CommandStep::Fail { failure: Failure::new(error.cause) }
            }
        },
    }
}

/// The directory of the configurations was opened, or not.
pub open spec fn apps_opened_step(
    paths: AynurPathsView,
    opened: Result<(), Text>,
) -> CommandStepView {
    match opened {
        Err(cause) => CommandStepView::Fail(
            seq![
                "failed to read configured apps directory at "@ + file_path::lossy_text(
                    paths.apps_dir,
                ),
                cause,
            ],
        ),
        Ok(_) => CommandStepView::NextEntry(Seq::empty()),
    }
}

/// Goes on once the directory of the configurations was opened, or not.
pub fn apps_opened(paths: &AynurPaths, opened: Result<(), String>) -> (r: CommandStep)
    ensures
        r@ == apps_opened_step(paths@, failure::reply(opened)),
{
    match opened {
        Err(cause) => CommandStep::Fail {
            failure: Failure::because(
                "failed to read configured apps directory at ".to_owned().concat(
                    paths.apps_dir.display().as_str(),
                ),
                cause,
            ),
        },
        Ok(_) => {
            let apps: Vec<AppStatusView> = Vec::new();
            assert(ipc::status_rows(apps@) =~= Seq::<AppStatusRow>::empty());
            CommandStep::NextEntry { apps }
        },
    }
}

/// What came of getting the next entry of the directory of the configurations.
#[derive(Clone, Debug, PartialEq, Eq)]
pub enum EntryReply {
    /// There is none.
    End,
    /// It could not be read.
    Unreadable {
        /// Why.
        cause: String,
    },
    /// It is not known what it is.
    NoFileType {
        /// Where it is.
        path: FilePath,
        /// Why.
        cause: String,
    },
    /// It is there.
    Entry {
        /// Where it is.
        path: FilePath,
        /// Whether it is a regular file.
        is_file: bool,
    },
}

/// What came of getting the next entry of the directory of the configurations.
pub enum EntryReplyView {
    /// There is none.
    End,
    /// It could not be read.
    Unreadable(Text),
    /// It is not known what it is.
    NoFileType(Seq<u8>, Text),
    /// It is there, and is a regular file or not.
    Entry(Seq<u8>, bool),
}

impl View for EntryReply {
    type V = EntryReplyView;

    open spec fn view(&self) -> EntryReplyView {
        match self {
            EntryReply::End => EntryReplyView::End,
            EntryReply::Unreadable { cause } => EntryReplyView::Unreadable(cause@),
            EntryReply::NoFileType { path, cause } => EntryReplyView::NoFileType(path@, cause@),
            EntryReply::Entry { path, is_file } => EntryReplyView::Entry(path@, *is_file),
        }
    }
}

/// A file of this name holds a configuration.
pub open spec fn config_file(path: Seq<u8>) -> bool {
    file_path::extension(path) == Some(encode_utf8("json"@))
}

/// Whether a file of this name holds a configuration.
pub fn is_app_config_file(path: &FilePath) -> (r: bool)
    ensures
        r == config_file(path@),
{
    match path.extension() {
        Some(extension) => extension.same_as(&FilePath::from_text("json")),
        None => false,
    }
}

/// The next entry of the directory of the configurations was got, with `rows` found before it.
pub open spec fn entry_step(
    paths: AynurPathsView,
    rows: Seq<AppStatusRow>,
    entry: EntryReplyView,
) -> CommandStepView {
    match entry {
        EntryReplyView::End => CommandStepView::ReadMemory(ipc::rows_by_name(rows)),
        EntryReplyView::Unreadable(cause) => CommandStepView::Fail(
            seq![
                "failed to read configured app entry in "@ + file_path::lossy_text(paths.apps_dir),
                cause,
            ],
        ),
        EntryReplyView::NoFileType(path, cause) => CommandStepView::Fail(
            seq![
                "failed to read configured app file type at "@ + file_path::lossy_text(path),
                cause,
            ],
        ),
        EntryReplyView::Entry(path, is_file) => if is_file && config_file(path) {
            CommandStepView::ReadConfig(PendingEntryView { apps: rows, path })
        } else {
            CommandStepView::NextEntry(rows)
        },
    }
}

/// Goes on once the next entry of the directory of the configurations was got.
pub fn entry_read(paths: &AynurPaths, apps: Vec<AppStatusView>, entry: EntryReply) -> (r:
    CommandStep)
    ensures
        r@ == entry_step(paths@, ipc::status_rows(apps@), entry@),
{
    match entry {
        EntryReply::End => CommandStep::ReadMemory { apps: sort_statuses(apps) },
        EntryReply::Unreadable { cause } => CommandStep::Fail {
            failure: Failure::because(
                "failed to read configured app entry in ".to_owned().concat(
                    paths.apps_dir.display().as_str(),
                ),
                cause,
            ),
        },
        EntryReply::NoFileType { path, cause } => CommandStep::Fail {
            failure: Failure::because(
                "failed to read configured app file type at ".to_owned().concat(
                    path.display().as_str(),
                ),
                cause,
            ),
        },
        EntryReply::Entry { path, is_file } => {
            if is_file && is_app_config_file(&path) {
                CommandStep::ReadConfig { pending: PendingEntry { apps, path } }
            } else {
                CommandStep::NextEntry { apps }
            }
        },
    }
}

/// How an app is listed where no daemon runs.
pub open spec fn stopped_row(config: AppConfigView) -> AppStatusRow {
    AppStatusRow {
        name: config.name,
        pid: None,
        status: "stopped"@,
        restarts: 0,
        uptime_seconds: None,
        binary_path: config.binary_path,
    }
}

/// A configuration was read for a list.
pub open spec fn config_read_step(
    pending: PendingEntryView,
    read: LoadReplyView,
) -> CommandStepView {
    let shown = file_path::lossy_text(pending.path);
    match read {
        LoadReplyView::Unreadable(cause) => CommandStepView::Fail(
            seq!["failed to read app config at "@ + shown, cause],
        ),
        LoadReplyView::Malformed(cause) => CommandStepView::Fail(
            seq!["failed to parse app config at "@ + shown, cause],
        ),
        LoadReplyView::Parsed(config) => CommandStepView::NextEntry(
            pending.apps.push(stopped_row(config)),
        ),
    }
}

/// Goes on once a configuration was read for a list.
pub fn config_read(pending: PendingEntry, read: LoadReply) -> (r: CommandStep)
    ensures
        r@ == config_read_step(pending@, read@),
{
    let PendingEntry { apps, path } = pending;
    match read {
        LoadReply::Unreadable { cause } => CommandStep::Fail {
            failure: Failure::because(
                "failed to read app config at ".to_owned().concat(path.display().as_str()),
                cause,
            ),
        },
        LoadReply::Malformed { cause } => CommandStep::Fail {
            failure: Failure::because(
                "failed to parse app config at ".to_owned().concat(path.display().as_str()),
                cause,
            ),
        },
        LoadReply::Parsed { config } => {
            let one = AppStatusView {
                name: config.name,
                pid: None,
                status: "stopped".to_owned(),
                restarts: 0,
                uptime_seconds: None,
                binary_path: config.binary_path,
            };
            let mut apps = apps;
            proof {
                ipc::lemma_rows_push(apps@, one);
            }
            apps.push(one);
            CommandStep::NextEntry { apps }
        },
    }
}

/// A step after which the daemon is asked for more than a ping.
pub open spec fn business(step: CommandStepView) -> bool {
    step is Send || step is Gather
}

/// Nothing but a ping is sent to a daemon that has not answered one in the protocol of this program.
pub proof fn law_pings_come_first(
    command: Command,
    paths: AynurPathsView,
    goal: GoalView,
    start: StartRequestView,
    asked: Asked,
)
    ensures
        !business(command.first_step(paths)),
        business(ping_step(paths, goal, asked)) <==> (asked matches Asked::Answered(response)
            && client::compatible(response)),
        business(ping_again_step(paths, start, asked)) <==> (asked matches Asked::Answered(response)
            && client::compatible(response)),
{
}

/// A daemon is started for a start alone, and only where none is there.
pub proof fn law_daemon_is_started_where_none_is(
    command: Command,
    paths: AynurPathsView,
    goal: GoalView,
    asked: Asked,
)
    ensures
        !(command.first_step(paths) is SpawnDaemon),
        ping_step(paths, goal, asked) is SpawnDaemon <==> goal is Start && (
        asked matches Asked::Unreachable(kind, _) && kind.inactive()),
{
}

/// No log is touched before the name of the app was found valid and its configuration was found to
/// be a file, and then the logs of that app alone are.
pub proof fn law_logs_are_checked_first(
    command: Command,
    paths: AynurPathsView,
    pending: PendingLogsView,
    is_file: bool,
)
    ensures
        !(command.first_step(paths) is FollowLogs),
        !(command.first_step(paths) is FlushLogs),
        command.first_step(paths) matches CommandStepView::FindConfig(found) ==> app::valid_name(
            found.name,
        ) && found.path == paths.app_config(found.name),
        config_found_step(paths, pending, is_file) is FollowLogs ==> app::valid_name(pending.name)
            && is_file && config_found_step(paths, pending, is_file)->FollowLogs_0
            == logs::follow_plan(paths, pending.name),
        config_found_step(paths, pending, is_file) is FlushLogs ==> app::valid_name(pending.name)
            && is_file && config_found_step(paths, pending, is_file)->FlushLogs_0.steps
            == logs::flush_plan(paths, pending.name),
{
}

/// Without a daemon the configured apps are listed, and any other request fails.
pub proof fn law_list_needs_no_daemon(
    paths: AynurPathsView,
    kind: ContactErrorKind,
    cause: Text,
    request: DaemonRequestView,
)
    requires
        kind.inactive(),
    ensures
        ping_step(paths, GoalView::List, Asked::Unreachable(kind, cause)) is OpenApps,
        ping_step(paths, GoalView::Request(request), Asked::Unreachable(kind, cause))
            == CommandStepView::Fail(client::contact_failure(paths, cause)),
{
}

/// One entry of the directory of the configurations, with what it holds where it is read.
pub struct FoundEntry {
    /// Where it is.
    pub path: Seq<u8>,
    /// Whether it is a regular file.
    pub is_file: bool,
    /// The configuration in it.
    pub config: AppConfigView,
}

/// The configurations among `entries`, as they are listed.
pub open spec fn stopped_rows(entries: Seq<FoundEntry>) -> Seq<AppStatusRow>
    decreases entries.len(),
{
    if entries.len() == 0 {
        Seq::empty()
    } else {
        let earlier = stopped_rows(entries.drop_last());
        let last = entries.last();
        if last.is_file && config_file(last.path) {
            earlier.push(stopped_row(last.config))
        } else {
            earlier
        }
    }
}

/// The step that comes once `entries` were got and read.
pub open spec fn entries_step(paths: AynurPathsView, entries: Seq<FoundEntry>) -> CommandStepView
    decreases entries.len(),
{
    if entries.len() == 0 {
        apps_opened_step(paths, Ok(()))
    } else {
        match entries_step(paths, entries.drop_last()) {
            CommandStepView::NextEntry(rows) => {
                let last = entries.last();
                match entry_step(paths, rows, EntryReplyView::Entry(last.path, last.is_file)) {
                    CommandStepView::ReadConfig(pending) => config_read_step(
                        pending,
                        LoadReplyView::Parsed(last.config),
                    ),
                    step => step,
                }
            },
            step => step,
        }
    }
}

/// Without a daemon, the list shows every configured app as stopped, in the order of the names, and
/// nothing else.
pub proof fn law_configured_apps_are_listed_as_stopped(
    paths: AynurPathsView,
    entries: Seq<FoundEntry>,
)
    ensures
        entries_step(paths, entries) == CommandStepView::NextEntry(stopped_rows(entries)),
        entry_step(paths, stopped_rows(entries), EntryReplyView::End)
            == CommandStepView::ReadMemory(ipc::rows_by_name(stopped_rows(entries))),
        forall|i: int|
            0 <= i < stopped_rows(entries).len() ==> (#[trigger] stopped_rows(entries)[i]).pid
                is None && stopped_rows(entries)[i].status == "stopped"@,
    decreases entries.len(),
{
    if entries.len() > 0 {
        law_configured_apps_are_listed_as_stopped(paths, entries.drop_last());
    }
}

/// An app that is started without a name is called like the file of its executable.
pub proof fn law_name_is_the_file_name(binary: Seq<u8>, name: Text)
    requires
        file_path::base_name(binary) == Some(encode_utf8(name)),
        !text::blank(name),
    ensures
        inferred_name(binary) == Ok::<Text, Seq<Text>>(name),
{
    encode_utf8_valid_utf8(name);
    encode_utf8_decode_utf8(name);
}

/// Every path that is kept for an app is absolute, wherever the current directory is.
pub proof fn law_kept_paths_are_absolute(start: StartRequestView, facts: StartFactsView)
    requires
        start.config(facts) is Ok,
        facts.current_dir is Ok ==> file_path::absolute(facts.current_dir->Ok_0),
    ensures
        file_path::absolute(start.config(facts)->Ok_0.binary_path),
        file_path::absolute(start.config(facts)->Ok_0.working_directory),
        start.config(facts)->Ok_0.env_file_path is Some ==> file_path::absolute(
            start.config(facts)->Ok_0.env_file_path->0,
        ),
{
    if facts.current_dir is Ok {
        let dir = facts.current_dir->Ok_0;
        file_path::law_joined_stays_absolute(dir, start.binary);
        file_path::law_joined_stays_absolute(dir, start.directory(facts)->Ok_0);
        if start.env_file is Some {
            file_path::law_joined_stays_absolute(dir, start.env_file->0);
        }
    }
}

/// An app is sent to the daemon only once its configuration is valid and stored, and exactly as it
/// is stored.
pub proof fn law_started_app_is_stored(
    paths: AynurPathsView,
    config: AppConfigView,
    binary: Result<Metadata, Text>,
    directory: Result<Metadata, Text>,
    written: SaveReply,
)
    ensures
        inspected_step(config, binary, directory) is SaveConfig <==> config.verdict(
            binary,
            directory,
        ) is Ok,
        inspected_step(config, binary, directory) is SaveConfig ==> inspected_step(
            config,
            binary,
            directory,
        ) == CommandStepView::SaveConfig(config),
        config_saved_step(paths, config, written) is Send <==> written is Written,
        written is Written ==> config_saved_step(paths, config, written)->Send_0.request
            == DaemonRequestView::Start(config),
{
}

/// Each command begins by asking the daemon for what it is called, for the app that it names. Starting
/// hands on the executable, the name, the directory, the env file and the arguments as they were
/// given; a reload with a new environment asks for the environment first.
pub proof fn law_commands_ask_for_what_they_name(command: Command, paths: AynurPathsView)
    ensures
        match command {
            Command::Start { binary, name, cwd, env_file, args } => {
                let step = command.first_step(paths);
                let start = step->Ping_0->Start_0;
                &&& step is Ping
                &&& step->Ping_0 is Start
                &&& start.binary == binary@
                &&& start.name == text::text_option(name)
                &&& start.cwd == file_path::path_option(cwd)
                &&& start.env_file == file_path::path_option(env_file)
                &&& start.args == text::texts(args@)
            },
            Command::Stop { name } => command.first_step(paths) == CommandStepView::Ping(
                GoalView::Request(DaemonRequestView::Stop(name@)),
            ),
            Command::Restart { name } => command.first_step(paths) == CommandStepView::Ping(
                GoalView::Request(DaemonRequestView::Restart(name@)),
            ),
            Command::Reload { name, update_env } => command.first_step(paths) == if update_env {
                CommandStepView::CaptureEnvironment(name@)
            } else {
                CommandStepView::Ping(GoalView::Request(DaemonRequestView::Reload(name@)))
            },
            Command::List => command.first_step(paths) == CommandStepView::Ping(GoalView::List),
            Command::Save => command.first_step(paths) == CommandStepView::Ping(
                GoalView::Request(DaemonRequestView::Save),
            ),
            Command::Logs { name } => command.first_step(paths) == if app::valid_name(name@) {
                CommandStepView::FindConfig(
                    PendingLogsView {
                        name: name@,
                        path: paths.app_config(name@),
                        usage: LogsUse::Follow,
                    },
                )
            } else {
                CommandStepView::Fail(app::name_verdict(name@)->Err_0)
            },
            Command::Flush { name } => command.first_step(paths) == if app::valid_name(name@) {
                CommandStepView::FindConfig(
                    PendingLogsView {
                        name: name@,
                        path: paths.app_config(name@),
                        usage: LogsUse::Flush,
                    },
                )
            } else {
                CommandStepView::Fail(app::name_verdict(name@)->Err_0)
            },
            Command::Delete { name } => command.first_step(paths) == CommandStepView::Ping(
                GoalView::Request(DaemonRequestView::Delete(name@)),
            ),
            Command::Startup => command.first_step(paths) is Install,
            Command::Unstartup => command.first_step(paths) is Uninstall,
            Command::Version => command.first_step(paths) == CommandStepView::Print(
                seq!["aynur "@ + "0.3.0"@],
            ),
            Command::Daemon => command.first_step(paths) is RunDaemon,
        },
        forall|request: DaemonRequestView| #[trigger]
            request_step(request) == CommandStepView::Ping(GoalView::Request(request)),
{
}

/// What the daemon was pinged for is what it is then asked for.
pub proof fn law_goal_is_pursued(
    paths: AynurPathsView,
    goal: GoalView,
    start: StartRequestView,
    response: DaemonResponseView,
)
    requires
        client::compatible(response),
    ensures
        match goal {
            GoalView::Start(asked) => ping_step(paths, goal, Asked::Answered(response))
                == CommandStepView::Gather(asked),
            GoalView::List => ping_step(paths, goal, Asked::Answered(response))
                == CommandStepView::Send(
                PendingSendView { request: DaemonRequestView::List, explains_failure: true },
            ),
            GoalView::Request(request) => ping_step(paths, goal, Asked::Answered(response))
                == CommandStepView::Send(PendingSendView { request, explains_failure: true }),
        },
        ping_again_step(paths, start, Asked::Answered(response)) == CommandStepView::Gather(start),
{
}

/// A daemon that was started for an app is pinged every 50 milliseconds until it answers, the app
/// stays the one that was asked for, and after 3 seconds it is given up.
pub proof fn law_new_daemon_is_awaited(
    paths: AynurPathsView,
    start: StartRequestView,
    elapsed_millis: u64,
    kind: ContactErrorKind,
    cause: Text,
)
    ensures
        ping_step(paths, GoalView::Start(start), Asked::Unreachable(kind, cause)) == if kind
            is Other {
            CommandStepView::Fail(client::contact_failure(paths, cause))
        } else {
            CommandStepView::SpawnDaemon(start)
        },
        daemon_spawned_step(start, SpawnDaemonReply::Spawned) == CommandStepView::Await(start, 0),
        elapsed_millis < 3000 ==> awaited_step(paths, start, elapsed_millis)
            == CommandStepView::PingAgain(start),
        elapsed_millis >= 3000 ==> awaited_step(paths, start, elapsed_millis) is Fail,
        ping_again_step(paths, start, Asked::Unreachable(kind, cause)) == if kind is Other {
            CommandStepView::Fail(client::contact_failure(paths, cause))
        } else {
            CommandStepView::Await(start, 50)
        },
{
}

/// The configuration of a new app is what was asked for: its name where one was given, else the file
/// name of the executable; its arguments, every one and in their order; its executable, its
/// directory and its env file, seen from the current directory; and the environment, with what the
/// env file sets set over it. It may exit 5 times within 10 seconds.
pub proof fn law_configuration_is_what_was_asked_for(
    start: StartRequestView,
    facts: StartFactsView,
    key: Text,
)
    requires
        start.config(facts) is Ok,
    ensures
        ({
            let config = start.config(facts)->Ok_0;
            let directory = if start.cwd is Some {
                start.cwd->0
            } else {
                facts.current_dir->Ok_0
            };
            let values = env_file::env_file_values(start.env_file->0, facts.env_file)->Ok_0;
            &&& config.args == start.args
            &&& start.name is Some ==> config.name == start.name->0
            &&& start.name is None ==> Ok::<Text, Seq<Text>>(config.name) == inferred_name(
                start.binary,
            )
            &&& paths::absolutized(start.binary, facts.current_dir) == Ok::<Seq<u8>, Seq<Text>>(
                config.binary_path,
            )
            &&& start.cwd is None ==> facts.current_dir is Ok
            &&& paths::absolutized(directory, facts.current_dir) == Ok::<Seq<u8>, Seq<Text>>(
                config.working_directory,
            )
            &&& start.env_file is None ==> config.env == facts.env && config.env_file_path is None
            &&& start.env_file is Some ==> {
                &&& config.env_file_path is Some
                &&& paths::absolutized(start.env_file->0, facts.current_dir) == Ok::<
                    Seq<u8>,
                    Seq<Text>,
                >(config.env_file_path->0)
                &&& env_file::env_file_values(start.env_file->0, facts.env_file) is Ok
                &&& values.contains_key(key) ==> config.env.contains_key(key) && config.env[key]
                    == values[key]
                &&& !values.contains_key(key) ==> config.env.contains_key(key)
                    == facts.env.contains_key(key)
                &&& !values.contains_key(key) && facts.env.contains_key(key) ==> config.env[key]
                    == facts.env[key]
            }
            &&& config.restart_policy.max_restarts == 5
            &&& config.restart_policy.window_seconds == 10
            &&& gathered_step(start, facts) == CommandStepView::Inspect(config)
        }),
{
}

/// A new app can be configured where everything that it takes is known: the current directory, where
/// a path is seen from it; a name, given or taken from the executable; and an env file that can be
/// read and has no faulty line, where one is named.
pub proof fn law_what_a_configuration_takes(start: StartRequestView, facts: StartFactsView)
    ensures
        facts.current_dir is Ok && (start.name is Some || inferred_name(start.binary) is Ok) && (
        start.env_file is Some ==> env_file::env_file_values(start.env_file->0, facts.env_file)
            is Ok) ==> start.config(facts) is Ok,
        start.config(facts) is Ok ==> start.name is Some || inferred_name(start.binary) is Ok,
        start.config(facts) is Ok && start.env_file is Some ==> env_file::env_file_values(
            start.env_file->0,
            facts.env_file,
        ) is Ok,
        start.config(facts) is Err ==> gathered_step(start, facts) == CommandStepView::Fail(
            start.config(facts)->Err_0,
        ),
{
}

/// An app without a name is called like the file that it runs, wherever that stands.
pub proof fn law_unnamed_app_is_called_like_its_file(dir: Seq<u8>, name: Text)
    requires
        file_path::component(encode_utf8(name)),
        !text::blank(name),
    ensures
        inferred_name(dir + seq![0x2fu8] + encode_utf8(name)) == Ok::<Text, Seq<Text>>(name),
        inferred_name(encode_utf8(name)) == Ok::<Text, Seq<Text>>(name),
{
    file_path::law_base_name_is_the_last_component(dir, encode_utf8(name));
    law_name_is_the_file_name(dir + seq![0x2fu8] + encode_utf8(name), name);
    law_name_is_the_file_name(encode_utf8(name), name);
}

/// What the daemon answers is what is shown: what was done as it says it, a failure as a failure, and
/// a list with its rows as they came.
pub proof fn law_answers_are_shown(
    paths: AynurPathsView,
    pending: PendingSendView,
    message: Text,
    rows: Seq<AppStatusRow>,
    kind: ContactErrorKind,
    cause: Text,
)
    ensures
        sent_step(paths, pending, Asked::Answered(DaemonResponseView::Done(message)))
            == CommandStepView::Print(seq![message]),
        sent_step(paths, pending, Asked::Answered(DaemonResponseView::Error(message)))
            == CommandStepView::Fail(seq![message]),
        sent_step(paths, pending, Asked::Answered(DaemonResponseView::List(rows)))
            == CommandStepView::ReadMemory(rows),
        sent_step(paths, pending, Asked::Unreachable(kind, cause)) is Fail,
{
}

/// A configuration that is read for a list without a daemon adds one row behind those before it: the
/// app is stopped, has no process, was not restarted and does not run. One that cannot be read ends
/// the list.
pub proof fn law_configured_app_is_listed(pending: PendingEntryView, read: LoadReplyView)
    ensures
        ({
            let step = config_read_step(pending, read);
            let row = step->NextEntry_0.last();
            &&& step is NextEntry <==> read is Parsed
            &&& !(read is Parsed) ==> step is Fail
            &&& read is Parsed ==> {
                &&& step->NextEntry_0 == pending.apps.push(row)
                &&& row.name == read->Parsed_0.name
                &&& row.binary_path == read->Parsed_0.binary_path
                &&& row.status == "stopped"@
                &&& row.pid is None
                &&& row.restarts == 0
                &&& row.uptime_seconds is None
            }
        }),
{
}

/// Of the entries of the directory of the configurations the files whose names end in `.json`, with
/// something before it, are read; any other is passed over; and at the end the rows are shown in the
/// order of the names, each as often as it was found.
pub proof fn law_entries_are_read(
    paths: AynurPathsView,
    rows: Seq<AppStatusRow>,
    path: Seq<u8>,
    is_file: bool,
)
    ensures
        config_file(path) <==> (file_path::base_name(path) matches Some(name) && name.len() > 5
            && name.skip(name.len() - 5) == seq![0x2eu8, 0x6au8, 0x73u8, 0x6fu8, 0x6eu8]),
        is_file && config_file(path) ==> entry_step(paths, rows, EntryReplyView::Entry(path, is_file))
            == CommandStepView::ReadConfig(PendingEntryView { apps: rows, path }),
        !(is_file && config_file(path)) ==> entry_step(
            paths,
            rows,
            EntryReplyView::Entry(path, is_file),
        ) == CommandStepView::NextEntry(rows),
        entry_step(paths, rows, EntryReplyView::End) is ReadMemory,
        entry_step(paths, rows, EntryReplyView::End)->ReadMemory_0.to_multiset()
            == rows.to_multiset(),
        order::ascending(
            entry_step(paths, rows, EntryReplyView::End)->ReadMemory_0,
            |row: AppStatusRow| row.name,
        ),
{
    ipc::law_list_keeps_every_row(rows);
    reveal_strlit("json");
    is_ascii_chars_encode_utf8("json"@);
    let ending = encode_utf8("json"@);
    assert(ending =~= seq![0x6au8, 0x73u8, 0x6fu8, 0x6eu8]);
    if let Some(name) = file_path::base_name(path) {
        let whole = seq![0x2eu8, 0x6au8, 0x73u8, 0x6fu8, 0x6eu8];
        file_path::lemma_last_dot_is_last(name);
        if config_file(path) {
            let at = file_path::last_dot(name);
            assert(name.skip(at + 1).len() == 4);
            assert(name.skip(at) =~= seq![name[at]] + name.skip(at + 1));
            assert(name.skip(name.len() - 5) =~= whole);
        }
        if name.len() > 5 && name.skip(name.len() - 5) == whole {
            let stem = name.take(name.len() - 5);
            assert(name =~= stem + seq![0x2eu8] + ending) by {
                assert(name =~= stem + name.skip(name.len() - 5));
                assert(whole =~= seq![0x2eu8] + ending);
            }
            assert(!ending.contains(0x2e));
            file_path::lemma_last_dot(stem, ending);
            assert(name.skip(stem.len() as int + 1) =~= ending);
        }
    }
}

/// The environment that was asked for is what the app is reloaded with, as a whole.
pub proof fn law_captured_environment_is_sent(name: Text, env: Map<Text, Text>)
    ensures
        captured_step(name, env) == CommandStepView::Ping(
            GoalView::Request(DaemonRequestView::ReloadUpdateEnv(name, env)),
        ),
{
}

/// Where no daemon listens, or there is no socket for one, the configured apps are listed, and any
/// other request fails with why; where it cannot be asked for another reason, a list fails too.
pub proof fn law_without_a_daemon(
    paths: AynurPathsView,
    kind: ContactErrorKind,
    cause: Text,
    request: DaemonRequestView,
)
    ensures
        ping_step(paths, GoalView::List, Asked::Unreachable(kind, cause)) == if kind is Other {
            CommandStepView::Fail(client::contact_failure(paths, cause))
        } else {
            CommandStepView::OpenApps
        },
        ping_step(paths, GoalView::Request(request), Asked::Unreachable(kind, cause))
            == CommandStepView::Fail(client::contact_failure(paths, cause)),
{
}

/// The logs of a configured app with a valid name are followed or cleared, as was asked for; those of
/// any other are not, and why is told.
pub proof fn law_logs_are_used_as_asked(
    paths: AynurPathsView,
    pending: PendingLogsView,
    is_file: bool,
)
    ensures
        ({
            let step = config_found_step(paths, pending, is_file);
            let usable = app::valid_name(pending.name) && is_file;
            &&& usable && pending.usage is Follow ==> step == CommandStepView::FollowLogs(
                logs::followed(paths, pending.name, true)->Ok_0,
            )
            &&& usable && pending.usage is Flush ==> step == CommandStepView::FlushLogs(
                logs::flushed(paths, pending.name, true)->Ok_0,
            )
            &&& !usable ==> step == CommandStepView::Fail(
                logs::configured(paths, pending.name, is_file)->Err_0,
            )
        }),
{
}

/// A list without a daemon begins with no row, and ends with a failure that tells where and why, as
/// soon as the directory, one of its entries or the kind of an entry cannot be read.
pub proof fn law_unreadable_directory_ends_the_list(
    paths: AynurPathsView,
    rows: Seq<AppStatusRow>,
    path: Seq<u8>,
    cause: Text,
)
    ensures
        apps_opened_step(paths, Ok(())) is NextEntry,
        apps_opened_step(paths, Ok(()))->NextEntry_0.len() == 0,
        apps_opened_step(paths, Err(cause)) == CommandStepView::Fail(
            seq![
                "failed to read configured apps directory at "@ + file_path::lossy_text(
                    paths.apps_dir,
                ),
                cause,
            ],
        ),
        entry_step(paths, rows, EntryReplyView::Unreadable(cause)) == CommandStepView::Fail(
            seq![
                "failed to read configured app entry in "@ + file_path::lossy_text(paths.apps_dir),
                cause,
            ],
        ),
        entry_step(paths, rows, EntryReplyView::NoFileType(path, cause)) == CommandStepView::Fail(
            seq![
                "failed to read configured app file type at "@ + file_path::lossy_text(path),
                cause,
            ],
        ),
{
}

/// A start that cannot go on fails with the reason: an app that is not valid with what is wrong with
/// it, one that cannot be stored with why, and a daemon that cannot be started with why.
pub proof fn law_failed_start_is_told(
    paths: AynurPathsView,
    start: StartRequestView,
    config: AppConfigView,
    binary: Result<Metadata, Text>,
    directory: Result<Metadata, Text>,
    written: SaveReply,
    reply: SpawnDaemonReply,
)
    ensures
        config.verdict(binary, directory) is Err ==> inspected_step(config, binary, directory)
            == CommandStepView::Fail(config.verdict(binary, directory)->Err_0),
        !(written is Written) ==> config_saved_step(paths, config, written)
            == CommandStepView::Fail(config.saved(paths, written)->Err_0),
        !(reply is Spawned) ==> daemon_spawned_step(start, reply) is Fail,
        reply is NotSpawned ==> daemon_spawned_step(start, reply) == CommandStepView::Fail(
            seq!["failed to spawn aynur daemon"@, reply->NotSpawned_cause@],
        ),
{
}

} // verus!
