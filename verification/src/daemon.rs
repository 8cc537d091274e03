//! How the daemon answers requests.
//!
//! A request is worked off in steps. Each step names something to be done outside: start or signal
//! a process, read or write a file. The method that goes with the step takes what came of it and
//! gives the next step, until there is a response.
use crate::app::{self, AppConfig, AppConfigView, SaveReply};
use crate::atomic_write::{AtomicWrite, AtomicWriteView};
use crate::daemon_log::{self, append_daemon_error, LogReply};
use crate::env_file::{self, read_env_file, set_over, Environment};
use crate::failure::{self, Failure};
use crate::file_path::{self, FilePath};
use crate::ipc::{
    program_version, DaemonRequest, DaemonRequestView, DaemonResponse, DaemonResponseView,
    DAEMON_PROTOCOL_VERSION,
};
use crate::metadata::Metadata;
use crate::order;
use crate::paths::AynurPathsView;
use crate::process::{
    self, kill_process_group, spawn_app, terminate_process_group, LaunchPlan, LaunchPlanView,
    SignalError, SpawnReply, SpawnReplyView,
};
use crate::runtime::{AppStatus, DaemonState, DaemonStateView, RuntimeApp, RuntimeAppView};
use crate::saved::{self, SavedApps, SavedAppsView, SnapshotReply, SnapshotReplyView};
use crate::text::{self, decimal, Text};
use crate::timestamp::{self, unix_timestamp, Timestamp};
use vstd::prelude::*;

verus! {

/// How many milliseconds the processes of an app have to end before they are killed.
pub const STOP_PAUSE_MILLIS: u64 = 800;

/// What follows once an app is stopped.
#[derive(Clone, Copy, Debug, PartialEq, Eq, Structural)]
pub enum Aim {
    /// Nothing.
    Stop,
    /// It runs again.
    Restart,
    /// It runs again, which is told as a reload.
    Reload,
    /// It is forgotten.
    Delete,
}

/// Why a process is started.
#[derive(Clone, Copy, Debug, PartialEq, Eq, Structural)]
pub enum Launch {
    /// The app is new, or was stopped.
    Start,
    /// The app is restarted.
    Restart,
    /// The app is reloaded.
    Reload,
}

impl Launch {
    /// What is said to have been done to the app.
    pub open spec fn word(self) -> Text {
        match self {
            Launch::Start => "started "@,
            Launch::Restart => "restarted "@,
            Launch::Reload => "reloaded "@,
        }
    }

    /// What is said to have been done to the app.
    pub fn as_str(&self) -> (r: &'static str)
        ensures
            r@ == self.word(),
    {
        match self {
            Launch::Start => "started ",
            Launch::Restart => "restarted ",
            Launch::Reload => "reloaded ",
        }
    }
}

/// An app whose process is being started.
#[derive(Clone, Debug, PartialEq, Eq)]
pub struct PendingSpawn {
    /// The name under which it is kept.
    pub name: String,
    /// The app.
    pub app: RuntimeApp,
    /// Why it is started.
    pub launch: Launch,
}

/// An app whose process is being started.
#[verifier::ext_equal]
pub struct PendingSpawnView {
    /// The name under which it is kept.
    pub name: Text,
    /// The app.
    pub app: RuntimeAppView,
    /// Why it is started.
    pub launch: Launch,
}

impl View for PendingSpawn {
    type V = PendingSpawnView;

    open spec fn view(&self) -> PendingSpawnView {
        PendingSpawnView { name: self.name@, app: self.app@, launch: self.launch }
    }
}

/// An app whose process is being ended.
#[derive(Clone, Debug, PartialEq, Eq)]
pub struct PendingStop {
    /// The name under which it is kept.
    pub name: String,
    /// The app.
    pub app: RuntimeApp,
    /// The process.
    pub pid: u32,
    /// What follows.
    pub aim: Aim,
}

/// An app whose process is being ended.
#[verifier::ext_equal]
pub struct PendingStopView {
    /// The name under which it is kept.
    pub name: Text,
    /// The app.
    pub app: RuntimeAppView,
    /// The process.
    pub pid: u32,
    /// What follows.
    pub aim: Aim,
}

impl View for PendingStop {
    type V = PendingStopView;

    open spec fn view(&self) -> PendingStopView {
        PendingStopView { name: self.name@, app: self.app@, pid: self.pid, aim: self.aim }
    }
}

/// An app whose env file is being read.
#[derive(Clone, Debug, PartialEq, Eq)]
pub struct PendingEnvFile {
    /// The name under which it is kept.
    pub name: String,
    /// The environment to which the file adds.
    pub env: Environment,
    /// The file.
    pub path: FilePath,
}

/// An app whose env file is being read.
#[verifier::ext_equal]
pub struct PendingEnvFileView {
    /// The name under which it is kept.
    pub name: Text,
    /// The environment to which the file adds.
    pub env: Map<Text, Text>,
    /// The file.
    pub path: Seq<u8>,
}

impl View for PendingEnvFile {
    type V = PendingEnvFileView;

    open spec fn view(&self) -> PendingEnvFileView {
        PendingEnvFileView {
            name: self.name@,
            env: env_file::text_values(self.env@),
            path: self.path@,
        }
    }
}

/// An app whose configuration is being written.
#[derive(Clone, Debug, PartialEq, Eq)]
pub struct PendingConfig {
    /// The name under which it is kept.
    pub name: String,
    /// The app.
    pub app: RuntimeApp,
    /// Where its configuration goes.
    pub path: FilePath,
}

/// An app whose configuration is being written.
#[verifier::ext_equal]
pub struct PendingConfigView {
    /// The name under which it is kept.
    pub name: Text,
    /// The app.
    pub app: RuntimeAppView,
    /// Where its configuration goes.
    pub path: Seq<u8>,
}

impl View for PendingConfig {
    type V = PendingConfigView;

    open spec fn view(&self) -> PendingConfigView {
        PendingConfigView { name: self.name@, app: self.app@, path: self.path@ }
    }
}

/// A configuration that is being deleted.
#[derive(Clone, Debug, PartialEq, Eq)]
pub struct PendingDeletion {
    /// The app.
    pub name: String,
    /// Where its configuration is.
    pub path: FilePath,
}

/// A configuration that is being deleted.
#[verifier::ext_equal]
pub struct PendingDeletionView {
    /// The app.
    pub name: Text,
    /// Where its configuration is.
    pub path: Seq<u8>,
}

impl View for PendingDeletion {
    type V = PendingDeletionView;

    open spec fn view(&self) -> PendingDeletionView {
        PendingDeletionView { name: self.name@, path: self.path@ }
    }
}

/// A snapshot that is brought up to date after a change.
#[derive(Clone, Debug, PartialEq, Eq)]
pub struct PendingSync {
    /// What the change is answered with.
    pub message: String,
    /// The name that is dropped from the snapshot.
    pub excluded: Option<String>,
}

/// A snapshot that is brought up to date after a change.
#[verifier::ext_equal]
pub struct PendingSyncView {
    /// What the change is answered with.
    pub message: Text,
    /// The name that is dropped from the snapshot.
    pub excluded: Option<Text>,
}

impl View for PendingSync {
    type V = PendingSyncView;

    open spec fn view(&self) -> PendingSyncView {
        PendingSyncView { message: self.message@, excluded: text::text_option(self.excluded) }
    }
}

/// A snapshot that is made anew because the old one cannot be read, which is reported first.
#[derive(Clone, Debug, PartialEq, Eq)]
pub struct PendingRebuild {
    /// What is being brought up to date.
    pub sync: PendingSync,
    /// The time.
    pub now: Timestamp,
    /// The report.
    pub line: String,
}

/// A snapshot that is made anew because the old one cannot be read, which is reported first.
#[verifier::ext_equal]
pub struct PendingRebuildView {
    /// What is being brought up to date.
    pub sync: PendingSyncView,
    /// The time.
    pub now: int,
    /// The report.
    pub line: Text,
}

impl View for PendingRebuild {
    type V = PendingRebuildView;

    open spec fn view(&self) -> PendingRebuildView {
        PendingRebuildView { sync: self.sync@, now: self.now@, line: self.line@ }
    }
}

/// A snapshot that is being written.
#[derive(Clone, Debug, PartialEq, Eq)]
pub struct PendingSnapshot {
    /// The snapshot.
    pub saved_apps: SavedApps,
    /// How it is written.
    pub write: AtomicWrite,
    /// What the request is answered with.
    pub message: String,
    /// Whether the snapshot only follows a change that is done.
    pub follows_change: bool,
}

/// A snapshot that is being written.
#[verifier::ext_equal]
pub struct PendingSnapshotView {
    /// The snapshot.
    pub saved_apps: SavedAppsView,
    /// How it is written.
    pub write: AtomicWriteView,
    /// What the request is answered with.
    pub message: Text,
    /// Whether the snapshot only follows a change that is done.
    pub follows_change: bool,
}

impl View for PendingSnapshot {
    type V = PendingSnapshotView;

    open spec fn view(&self) -> PendingSnapshotView {
        PendingSnapshotView {
            saved_apps: self.saved_apps@,
            write: self.write@,
            message: self.message@,
            follows_change: self.follows_change,
        }
    }
}

/// What is to be done next for a request.
#[derive(Clone, Debug, PartialEq, Eq)]
pub enum RequestStep {
    /// Answer it.
    Respond {
        /// The answer.
        response: DaemonResponse,
    },
    /// Look at the binary and at the working directory of an app.
    Inspect {
        /// The app.
        config: AppConfig,
    },
    /// Start the process of an app.
    Spawn {
        /// The app.
        pending: PendingSpawn,
        /// How to start it.
        plan: LaunchPlan,
    },
    /// Ask the processes of an app to end.
    Terminate {
        /// The app.
        pending: PendingStop,
    },
    /// Wait, then end the processes of an app.
    Kill {
        /// The app.
        pending: PendingStop,
        /// How long to wait.
        pause_millis: u64,
    },
    /// Read the env file of an app.
    ReadEnvFile {
        /// The app.
        pending: PendingEnvFile,
    },
    /// Write the configuration of an app.
    SaveConfig {
        /// The app.
        pending: PendingConfig,
    },
    /// Delete the configuration of an app.
    DeleteConfig {
        /// The app.
        pending: PendingDeletion,
    },
    /// Read the snapshot, and the clock.
    ReadSnapshot {
        /// Why.
        pending: PendingSync,
    },
    /// Add a line to the log of the daemon's errors.
    LogError {
        /// The line.
        pending: PendingRebuild,
    },
    /// Write the snapshot.
    WriteSnapshot {
        /// The snapshot.
        pending: PendingSnapshot,
    },
}

/// What is to be done next for a request.
#[verifier::ext_equal]
pub enum RequestStepView {
    /// Answer it.
    Respond(DaemonResponseView),
    /// Look at the binary and at the working directory of an app.
    Inspect(AppConfigView),
    /// Start the process of an app.
    Spawn(PendingSpawnView, LaunchPlanView),
    /// Ask the processes of an app to end.
    Terminate(PendingStopView),
    /// Wait so many milliseconds, then end the processes of an app.
    Kill(PendingStopView, u64),
    /// Read the env file of an app.
    ReadEnvFile(PendingEnvFileView),
    /// Write the configuration of an app.
    SaveConfig(PendingConfigView),
    /// Delete the configuration of an app.
    DeleteConfig(PendingDeletionView),
    /// Read the snapshot, and the clock.
    ReadSnapshot(PendingSyncView),
    /// Add a line to the log of the daemon's errors.
    LogError(PendingRebuildView),
    /// Write the snapshot.
    WriteSnapshot(PendingSnapshotView),
}

impl View for RequestStep {
    type V = RequestStepView;

    open spec fn view(&self) -> RequestStepView {
        match self {
            RequestStep::Respond { response } => RequestStepView::Respond(response@),
            RequestStep::Inspect { config } => RequestStepView::Inspect(config@),
            RequestStep::Spawn { pending, plan } => RequestStepView::Spawn(pending@, plan@),
            RequestStep::Terminate { pending } => RequestStepView::Terminate(pending@),
            RequestStep::Kill { pending, pause_millis } => RequestStepView::Kill(
                pending@,
                *pause_millis,
            ),
            RequestStep::ReadEnvFile { pending } => RequestStepView::ReadEnvFile(pending@),
            RequestStep::SaveConfig { pending } => RequestStepView::SaveConfig(pending@),
            RequestStep::DeleteConfig { pending } => RequestStepView::DeleteConfig(pending@),
            RequestStep::ReadSnapshot { pending } => RequestStepView::ReadSnapshot(pending@),
            RequestStep::LogError { pending } => RequestStepView::LogError(pending@),
            RequestStep::WriteSnapshot { pending } => RequestStepView::WriteSnapshot(pending@),
        }
    }
}

/// What the daemon knows after a step, and the step that comes next.
#[verifier::ext_equal]
pub struct Turn {
    /// What the daemon knows.
    pub state: DaemonStateView,
    /// The step that comes next.
    pub step: RequestStepView,
}

/// The answer that something failed.
pub open spec fn failed(lines: Seq<Text>) -> RequestStepView {
    RequestStepView::Respond(DaemonResponseView::Error(failure::one_line(lines)))
}

/// The complaint about an app that the daemon does not look after.
pub open spec fn not_managed(name: Text) -> Seq<Text> {
    seq!["app '"@ + name + "' is not managed"@]
}

/// The step that follows a change which is done.
pub open spec fn synchronize(message: Text, excluded: Option<Text>) -> RequestStepView {
    RequestStepView::ReadSnapshot(PendingSyncView { message, excluded })
}

/// The failure to bring the snapshot up to date after a change which is done.
pub open spec fn sync_failure(lines: Seq<Text>) -> Seq<Text> {
    seq!["failed to synchronize restart snapshot after successful operation"@] + lines
}

/// The report that the old snapshot cannot be read.
pub open spec fn rebuild_line(lines: Seq<Text>) -> Text {
    "failed to read the existing restart snapshot during automatic sync; rebuilding it from daemon state: "@
        + failure::one_line(lines)
}

/// What is done with the failure to write a snapshot.
pub open spec fn snapshot_failure(lines: Seq<Text>, follows_change: bool) -> RequestStepView {
    failed(
        if follows_change {
            sync_failure(lines)
        } else {
            lines
        },
    )
}

/// Writes a snapshot of `names`, where it can be made.
pub open spec fn write_names(
    paths: AynurPathsView,
    names: Seq<Text>,
    now: int,
    message: Text,
    follows_change: bool,
) -> RequestStepView {
    match timestamp::unix_seconds(now) {
        Err(lines) => snapshot_failure(lines, follows_change),
        Ok(seconds) => {
            let saved_apps = SavedAppsView::of_names(names, seconds);
            match saved_apps.verdict() {
                Err(lines) => snapshot_failure(lines, follows_change),
                Ok(_) => RequestStepView::WriteSnapshot(
                    PendingSnapshotView {
                        saved_apps,
                        write: saved::snapshot_write(paths),
                        message,
                        follows_change,
                    },
                ),
            }
        },
    }
}

/// What the request to save is answered with.
pub open spec fn saved_message(paths: AynurPathsView, count: nat) -> Text {
    "saved "@ + text::decimal_text(count) + " online app(s) to "@ + file_path::lossy_text(
        paths.saved_apps(),
    )
}

impl DaemonStateView {
    /// Nothing changes, and `step` comes next.
    pub open spec fn then_step(self, step: RequestStepView) -> Turn {
        Turn { state: self, step }
    }

    /// The process of an app is started next.
    pub open spec fn spawn_step(self, pending: PendingSpawnView) -> RequestStepView {
        RequestStepView::Spawn(
            pending,
            LaunchPlanView::of_app(self.paths, pending.app.config),
        )
    }

    /// The app under `name` is stopped, for `aim`. Its process is forgotten at once.
    pub open spec fn stop_turn(self, name: Text, aim: Aim) -> Turn {
        if !self.apps.contains_key(name) {
            self.then_step(failed(not_managed(name)))
        } else {
            let app = self.apps[name];
            match app.pid {
                Some(pid) => self.without(name).then_step(
                    RequestStepView::Terminate(
                        PendingStopView { name, app: app.stopping(), pid, aim },
                    ),
                ),
                None => self.without(name).stopped_turn(name, app.stopping(), aim),
            }
        }
    }

    /// The processes of `app` are gone.
    pub open spec fn stopped_turn(self, name: Text, app: RuntimeAppView, aim: Aim) -> Turn {
        match aim {
            Aim::Stop => self.with(name, app.halted()).then_step(
                synchronize("stopped "@ + name, Some(name)),
            ),
            Aim::Restart => self.then_step(
                self.spawn_step(
                    PendingSpawnView {
                        name,
                        app: app.halted().turned(AppStatus::Starting),
                        launch: Launch::Restart,
                    },
                ),
            ),
            Aim::Reload => self.then_step(
                self.spawn_step(
                    PendingSpawnView {
                        name,
                        app: app.halted().turned(AppStatus::Starting),
                        launch: Launch::Reload,
                    },
                ),
            ),
            Aim::Delete => self.then_step(self.delete_step(name)),
        }
    }

    /// The configuration of the app called `name` is deleted next.
    pub open spec fn delete_step(self, name: Text) -> RequestStepView {
        RequestStepView::DeleteConfig(
            PendingDeletionView { name, path: self.paths.app_config(name) },
        )
    }

    /// The app under `name` gets the environment `env`, and is then restarted.
    pub open spec fn environment_turn(self, name: Text, env: Map<Text, Text>) -> Turn {
        if !self.apps.contains_key(name) {
            self.then_step(failed(not_managed(name)))
        } else {
            let app = self.apps[name];
            let config = AppConfigView { env, ..app.config };
            self.without(name).then_step(
                RequestStepView::SaveConfig(
                    PendingConfigView {
                        name,
                        app: RuntimeAppView { config, status: AppStatus::Reloading, ..app },
                        path: self.paths.app_config(config.name),
                    },
                ),
            )
        }
    }

    /// A request is taken up at the time `now`.
    pub open spec fn request_turn(self, request: DaemonRequestView, now: int) -> Turn {
        match request {
            DaemonRequestView::Ping => self.then_step(
                RequestStepView::Respond(
                    DaemonResponseView::Pong(DAEMON_PROTOCOL_VERSION, "0.3.0"@),
                ),
            ),
            DaemonRequestView::Start(config) => self.then_step(RequestStepView::Inspect(config)),
            DaemonRequestView::Stop(name) => self.stop_turn(name, Aim::Stop),
            DaemonRequestView::Restart(name) => self.stop_turn(name, Aim::Restart),
            DaemonRequestView::Reload(name) => self.stop_turn(name, Aim::Reload),
            DaemonRequestView::ReloadUpdateEnv(name, env) => if !self.apps.contains_key(name) {
                self.then_step(failed(not_managed(name)))
            } else {
                match self.apps[name].config.env_file_path {
                    Some(path) => self.then_step(
                        RequestStepView::ReadEnvFile(PendingEnvFileView { name, env, path }),
                    ),
                    None => self.environment_turn(name, env),
                }
            },
            DaemonRequestView::List => self.then_step(
                RequestStepView::Respond(DaemonResponseView::List(self.rows(now))),
            ),
            DaemonRequestView::Save => self.then_step(
                write_names(
                    self.paths,
                    self.online_names(),
                    now,
                    saved_message(self.paths, self.online_names().len()),
                    false,
                ),
            ),
            DaemonRequestView::Delete(name) => if self.apps.contains_key(name) {
                self.stop_turn(name, Aim::Delete)
            } else {
                self.then_step(self.delete_step(name))
            },
        }
    }

    /// The binary and the working directory of an app to be started were looked at.
    pub open spec fn inspected_turn(
        self,
        config: AppConfigView,
        binary: Result<Metadata, Text>,
        directory: Result<Metadata, Text>,
    ) -> Turn {
        match config.verdict(binary, directory) {
            Err(lines) => self.then_step(failed(lines)),
            Ok(_) => if self.apps.contains_key(config.name) && self.apps[config.name].pid is Some {
                self.then_step(failed(seq!["app '"@ + config.name + "' is already running"@]))
            } else {
                self.then_step(
                    self.spawn_step(
                        PendingSpawnView {
                            name: config.name,
                            app: RuntimeAppView::fresh(config, AppStatus::Starting),
                            launch: Launch::Start,
                        },
                    ),
                )
            },
        }
    }

    /// The process of an app was started, or not.
    pub open spec fn spawned_turn(self, pending: PendingSpawnView, reply: SpawnReplyView) -> Turn {
        match process::spawned(self.paths, pending.app.config, reply) {
            Err(lines) => self.with(
                pending.name,
                pending.app.turned(AppStatus::Errored),
            ).then_step(failed(lines)),
            Ok((pid, started_at)) => self.with(
                pending.name,
                pending.app.running(pid, started_at),
            ).then_step(
                synchronize(
                    pending.launch.word() + pending.name + " with pid "@ + text::decimal_text(
                        pid as nat,
                    ),
                    None,
                ),
            ),
        }
    }

    /// The processes of an app were asked to end.
    pub open spec fn terminated_turn(
        self,
        pending: PendingStopView,
        sent: Result<(), SignalError>,
    ) -> Turn {
        match process::signalled(pending.pid, 15, sent) {
            Err(lines) => self.with(pending.name, pending.app).then_step(failed(lines)),
            Ok(_) => self.then_step(RequestStepView::Kill(pending, STOP_PAUSE_MILLIS)),
        }
    }

    /// The processes of an app were ended.
    pub open spec fn killed_turn(
        self,
        pending: PendingStopView,
        sent: Result<(), SignalError>,
    ) -> Turn {
        match process::signalled(pending.pid, 9, sent) {
            Err(lines) => self.with(pending.name, pending.app).then_step(failed(lines)),
            Ok(_) => self.stopped_turn(pending.name, pending.app, pending.aim),
        }
    }

    /// The env file of an app was read.
    pub open spec fn env_file_turn(
        self,
        pending: PendingEnvFileView,
        content: Result<Text, Text>,
    ) -> Turn {
        match env_file::merged(pending.env, Some((pending.path, content))) {
            Err(lines) => self.then_step(failed(lines)),
            Ok(env) => self.environment_turn(pending.name, env),
        }
    }

    /// The configuration of an app was written.
    pub open spec fn config_saved_turn(
        self,
        pending: PendingConfigView,
        written: SaveReply,
    ) -> Turn {
        let state = self.with(pending.name, pending.app);
        match pending.app.config.saved(self.paths, written) {
            Err(lines) => state.then_step(failed(lines)),
            Ok(_) => state.stop_turn(pending.name, Aim::Restart),
        }
    }

    /// The configuration of an app was deleted.
    pub open spec fn config_deleted_turn(
        self,
        pending: PendingDeletionView,
        deleted: Result<(), Text>,
    ) -> Turn {
        match app::deletion_verdict(self.paths.app_config(pending.name), deleted) {
            Err(lines) => self.then_step(failed(lines)),
            Ok(_) => self.then_step(synchronize("deleted "@ + pending.name, Some(pending.name))),
        }
    }

    /// The snapshot is brought up to date, with `previous` as the names that it held.
    pub open spec fn sync_step(
        self,
        pending: PendingSyncView,
        previous: Seq<Text>,
        now: int,
    ) -> RequestStepView {
        write_names(
            self.paths,
            order::ordered(self.kept_names(previous, pending.excluded)),
            now,
            pending.message,
            true,
        )
    }

    /// The snapshot was read, at the time `now`.
    pub open spec fn snapshot_read_turn(
        self,
        pending: PendingSyncView,
        read: SnapshotReplyView,
        now: int,
    ) -> Turn {
        match saved::loaded(self.paths, read) {
            Ok(Some(saved_apps)) => self.then_step(
                self.sync_step(pending, saved_apps.app_names, now),
            ),
            Ok(None) => self.then_step(self.sync_step(pending, Seq::empty(), now)),
            Err(lines) => self.then_step(
                RequestStepView::LogError(
                    PendingRebuildView { sync: pending, now, line: rebuild_line(lines) },
                ),
            ),
        }
    }

    /// It was reported that the old snapshot cannot be read.
    pub open spec fn rebuild_turn(self, pending: PendingRebuildView, reply: LogReply) -> Turn {
        match daemon_log::logged(self.paths, reply) {
            Err(lines) => self.then_step(failed(sync_failure(lines))),
            Ok(_) => self.then_step(self.sync_step(pending.sync, Seq::empty(), pending.now)),
        }
    }
}

impl PendingSnapshotView {
    /// The snapshot was written, or not.
    pub open spec fn response(self, written: Result<(), Seq<Text>>) -> RequestStepView {
        match written {
            Err(lines) => snapshot_failure(lines, self.follows_change),
            Ok(_) => RequestStepView::Respond(DaemonResponseView::Done(self.message)),
        }
    }
}

fn respond_failed(failure: Failure) -> (r: RequestStep)
    ensures
        r@ == failed(failure@),
{
    RequestStep::Respond { response: DaemonResponse::Error { message: failure.text() } }
}

fn refuse_unmanaged(name: &str) -> (r: RequestStep)
    ensures
        r@ == failed(not_managed(name@)),
{
    respond_failed(Failure::new("app '".to_owned().concat(name).concat("' is not managed")))
}

fn respond_snapshot_failed(failure: Failure, follows_change: bool) -> (r: RequestStep)
    ensures
        r@ == snapshot_failure(failure@, follows_change),
{
    if follows_change {
        respond_failed(
            failure.within(
                "failed to synchronize restart snapshot after successful operation".to_owned(),
            ),
        )
    } else {
        respond_failed(failure)
    }
}

impl DaemonState {
    /// Takes up a request at the time `now`.
    pub fn handle_request(&mut self, request: DaemonRequest, now: Timestamp) -> (r: RequestStep)
        ensures
            (Turn { state: final(self)@, step: r@ }) == old(self)@.request_turn(request@, now@),
    {
        match request {
            DaemonRequest::Ping => RequestStep::Respond {
                response: DaemonResponse::Pong {
                    protocol_version: DAEMON_PROTOCOL_VERSION,
                    daemon_version: program_version().to_owned(),
                },
            },
            DaemonRequest::Start { config } => RequestStep::Inspect { config },
            DaemonRequest::Stop { name } => self.stop_app(name, Aim::Stop),
            DaemonRequest::Restart { name } => self.stop_app(name, Aim::Restart),
            DaemonRequest::Reload { name } => self.stop_app(name, Aim::Reload),
            DaemonRequest::ReloadUpdateEnv { name, env } => self.reload_update_env(name, env),
            DaemonRequest::List => RequestStep::Respond {
                response: DaemonResponse::List { apps: self.list_apps(&now) },
            },
            DaemonRequest::Save => self.save_online_apps(&now),
            DaemonRequest::Delete { name } => {
                if self.get(name.as_str()).is_some() {
                    self.stop_app(name, Aim::Delete)
                } else {
                    self.delete_config(name)
                }
            },
        }
    }

    /// Takes up a line that a client sent, at the time `now`. `parsed` is the request that it holds,
    /// or why it holds none.
    pub fn response_from_request_line(
        &mut self,
        parsed: Result<DaemonRequest, String>,
        now: Timestamp,
    ) -> (r: RequestStep)
        ensures
            match parsed {
                Ok(request) => (Turn { state: final(self)@, step: r@ }) == old(self)@.request_turn(
                    request@,
                    now@,
                ),
                Err(cause) => final(self)@ == old(self)@ && r@ == RequestStepView::Respond(
                    DaemonResponseView::Error(
                        "unsupported or malformed daemon request: "@ + cause@,
                    ),
                ),
            },
    {
        match parsed {
            Ok(request) => self.handle_request(request, now),
            Err(cause) => RequestStep::Respond {
                response: DaemonResponse::Error {
                    message: "unsupported or malformed daemon request: ".to_owned().concat(
                        cause.as_str(),
                    ),
                },
            },
        }
    }

    /// Stops the app under `name`, for `aim`.
    fn stop_app(&mut self, name: String, aim: Aim) -> (r: RequestStep)
        ensures
            (Turn { state: final(self)@, step: r@ }) == old(self)@.stop_turn(name@, aim),
    {
        if self.get(name.as_str()).is_none() {
            return refuse_unmanaged(name.as_str());
        }
        match self.take(name.as_str()) {
            None => refuse_unmanaged(name.as_str()),
            Some(app) => {
                let mut app = app;
                let process = app.pid;
                app.pid = None;
                app.status = AppStatus::Stopping;
                match process {
                    Some(pid) => RequestStep::Terminate {
                        pending: PendingStop { name, app, pid, aim },
                    },
                    None => self.stopped(name, app, aim),
                }
            },
        }
    }

    /// Goes on once the processes of `app` are gone.
    fn stopped(&mut self, name: String, app: RuntimeApp, aim: Aim) -> (r: RequestStep)
        ensures
            (Turn { state: final(self)@, step: r@ }) == old(self)@.stopped_turn(name@, app@, aim),
    {
        let mut app = app;
        app.status = AppStatus::Stopped;
        app.started_at = None;
        match aim {
            Aim::Stop => {
                let message = "stopped ".to_owned().concat(name.as_str());
                let excluded = Some(name.clone());
                self.put(name, app);
                RequestStep::ReadSnapshot { pending: PendingSync { message, excluded } }
            },
            Aim::Restart => {
                app.status = AppStatus::Starting;
                self.spawn_next(PendingSpawn { name, app, launch: Launch::Restart })
            },
            Aim::Reload => {
                app.status = AppStatus::Starting;
                self.spawn_next(PendingSpawn { name, app, launch: Launch::Reload })
            },
            Aim::Delete => self.delete_config(name),
        }
    }

    fn spawn_next(&self, pending: PendingSpawn) -> (r: RequestStep)
        ensures
            r@ == self@.spawn_step(pending@),
    {
        let plan = LaunchPlan::of_app(&self.paths, &pending.app.config);
        RequestStep::Spawn { pending, plan }
    }

    fn delete_config(&self, name: String) -> (r: RequestStep)
        ensures
            r@ == self@.delete_step(name@),
    {
        let path = self.paths.app_config_path(name.as_str());
        RequestStep::DeleteConfig { pending: PendingDeletion { name, path } }
    }

    /// Reloads the app under `name` with the environment `env`, to which its env file adds.
    fn reload_update_env(&mut self, name: String, env: Environment) -> (r: RequestStep)
        ensures
            (Turn { state: final(self)@, step: r@ }) == old(self)@.request_turn(
                DaemonRequestView::ReloadUpdateEnv(name@, env_file::text_values(env@)),
                0,
            ),
    {
        let env_file_path = match self.get(name.as_str()) {
            None => {
                return refuse_unmanaged(name.as_str());
            },
            Some(app) => match &app.config.env_file_path {
                Some(path) => Some(path.clone()),
                None => None,
            },
        };
        match env_file_path {
            Some(path) => RequestStep::ReadEnvFile { pending: PendingEnvFile { name, env, path } },
            None => self.change_environment(name, env),
        }
    }

    /// Gives the app under `name` the environment `env`.
    fn change_environment(&mut self, name: String, env: Environment) -> (r: RequestStep)
        ensures
            (Turn { state: final(self)@, step: r@ }) == old(self)@.environment_turn(
                name@,
                env_file::text_values(env@),
            ),
    {
        if self.get(name.as_str()).is_none() {
            return refuse_unmanaged(name.as_str());
        }
        match self.take(name.as_str()) {
            None => refuse_unmanaged(name.as_str()),
            Some(app) => {
                let mut app = app;
                app.status = AppStatus::Reloading;
                app.config.env = env;
                let path = self.paths.app_config_path(app.config.name.as_str());
                RequestStep::SaveConfig { pending: PendingConfig { name, app, path } }
            },
        }
    }

    /// Makes a snapshot of the apps that are online.
    fn save_online_apps(&self, now: &Timestamp) -> (r: RequestStep)
        ensures
            r@ == write_names(
                self@.paths,
                self@.online_names(),
                now@,
                saved_message(self@.paths, self@.online_names().len()),
                false,
            ),
    {
        let names = self.online_app_names();
        assert(names@.len() == text::texts(names@).len());
        let message = "saved ".to_owned().concat(decimal(names.len() as u64).as_str()).concat(
            " online app(s) to ",
        ).concat(self.paths.saved_apps_path().display().as_str());
        self.write_snapshot(names, now, message, false)
    }

    fn write_snapshot(
        &self,
        names: Vec<String>,
        now: &Timestamp,
        message: String,
        follows_change: bool,
    ) -> (r: RequestStep)
        ensures
            r@ == write_names(
                self@.paths,
                text::texts(names@),
                now@,
                message@,
                follows_change,
            ),
    {
        match unix_timestamp(now) {
            Err(failure) => respond_snapshot_failed(failure, follows_change),
            Ok(seconds) => {
                let saved_apps = SavedApps::from_app_names(names, seconds);
                match saved_apps.save(&self.paths) {
                    Err(failure) => respond_snapshot_failed(failure, follows_change),
                    Ok(write) => RequestStep::WriteSnapshot {
                        pending: PendingSnapshot { saved_apps, write, message, follows_change },
                    },
                }
            },
        }
    }

    /// Goes on with starting an app. `binary` and `directory` are what the file system says of its
    /// binary and its working directory.
    pub fn inspected(
        &mut self,
        config: AppConfig,
        binary: Result<Metadata, String>,
        directory: Result<Metadata, String>,
    ) -> (r: RequestStep)
        ensures
            (Turn { state: final(self)@, step: r@ }) == old(self)@.inspected_turn(
                config@,
                failure::reply(binary),
                failure::reply(directory),
            ),
    {
        match config.validate(&binary, &directory) {
            Err(failure) => {
                return respond_failed(failure);
            },
            Ok(_) => {},
        }
        if let Some(existing) = self.get(config.name.as_str()) {
            if existing.pid.is_some() {
                return respond_failed(
                    Failure::new(
                        "app '".to_owned().concat(config.name.as_str()).concat(
                            "' is already running",
                        ),
                    ),
                );
            }
        }
        let name = config.name.clone();
        let app = RuntimeApp::new(config, AppStatus::Starting);
        self.spawn_next(PendingSpawn { name, app, launch: Launch::Start })
    }

    /// Goes on once the process of an app was started, or not.
    pub fn spawned(&mut self, pending: PendingSpawn, reply: SpawnReply) -> (r: RequestStep)
        ensures
            (Turn { state: final(self)@, step: r@ }) == old(self)@.spawned_turn(pending@, reply@),
    {
        let PendingSpawn { name, app, launch } = pending;
        let mut app = app;
        match spawn_app(&self.paths, &app.config, reply) {
            Err(failure) => {
                app.status = AppStatus::Errored;
                self.put(name, app);
                respond_failed(failure)
            },
            Ok((pid, started_at)) => {
                app.run_as(pid, started_at);
                let message = launch.as_str().to_owned().concat(name.as_str()).concat(
                    " with pid ",
                ).concat(decimal(pid as u64).as_str());
                self.put(name, app);
                RequestStep::ReadSnapshot { pending: PendingSync { message, excluded: None } }
            },
        }
    }

    /// Goes on once the processes of an app were asked to end.
    pub fn terminated(&mut self, pending: PendingStop, sent: Result<(), SignalError>) -> (r:
        RequestStep)
        ensures
            (Turn { state: final(self)@, step: r@ }) == old(self)@.terminated_turn(pending@, sent),
    {
        match terminate_process_group(pending.pid, sent) {
            Err(failure) => {
                self.put(pending.name, pending.app);
                respond_failed(failure)
            },
            Ok(_) => RequestStep::Kill { pending, pause_millis: STOP_PAUSE_MILLIS },
        }
    }

    /// Goes on once the processes of an app were ended.
    pub fn killed(&mut self, pending: PendingStop, sent: Result<(), SignalError>) -> (r: RequestStep)
        ensures
            (Turn { state: final(self)@, step: r@ }) == old(self)@.killed_turn(pending@, sent),
    {
        match kill_process_group(pending.pid, sent) {
            Err(failure) => {
                self.put(pending.name, pending.app);
                respond_failed(failure)
            },
            Ok(_) => self.stopped(pending.name, pending.app, pending.aim),
        }
    }

    /// Goes on once the env file of an app was read.
    pub fn env_file_read(&mut self, pending: PendingEnvFile, content: Result<String, String>) -> (r:
        RequestStep)
        ensures
            (Turn { state: final(self)@, step: r@ }) == old(self)@.env_file_turn(
                pending@,
                failure::text_reply(content),
            ),
    {
        match read_env_file(&pending.path, content) {
            Err(failure) => respond_failed(failure),
            Ok(values) => {
                let env = set_over(pending.env, &values);
                self.change_environment(pending.name, env)
            },
        }
    }

    /// Goes on once the configuration of an app was written.
    pub fn config_saved(&mut self, pending: PendingConfig, written: SaveReply) -> (r: RequestStep)
        ensures
            (Turn { state: final(self)@, step: r@ }) == old(self)@.config_saved_turn(
                pending@,
                written,
            ),
    {
        let PendingConfig { name, app, path: _ } = pending;
        let saved = app.config.save(&self.paths, written);
        let key = name.clone();
        self.put(name, app);
        match saved {
            Err(failure) => respond_failed(failure),
            Ok(_) => self.stop_app(key, Aim::Restart),
        }
    }

    /// Goes on once the configuration of an app was deleted.
    pub fn config_deleted(&mut self, pending: PendingDeletion, deleted: Result<(), String>) -> (r:
        RequestStep)
        ensures
            (Turn { state: final(self)@, step: r@ }) == old(self)@.config_deleted_turn(
                pending@,
                failure::reply(deleted),
            ),
    {
        match AppConfig::delete(&self.paths, pending.name.as_str(), deleted) {
            Err(failure) => respond_failed(failure),
            Ok(_) => RequestStep::ReadSnapshot {
                pending: PendingSync {
                    message: "deleted ".to_owned().concat(pending.name.as_str()),
                    excluded: Some(pending.name),
                },
            },
        }
    }

    fn synchronize_restart_snapshot(
        &self,
        pending: PendingSync,
        previous: &Vec<String>,
        now: &Timestamp,
    ) -> (r: RequestStep)
        ensures
            r@ == self@.sync_step(pending@, text::texts(previous@), now@),
    {
        let excluded = match &pending.excluded {
            Some(name) => Some(name.as_str()),
            None => None,
        };
        let names = self.restart_app_names(previous, excluded);
        self.write_snapshot(names, now, pending.message, true)
    }

    /// Goes on once the snapshot was read, at the time `now`.
    pub fn snapshot_read(&mut self, pending: PendingSync, read: SnapshotReply, now: Timestamp) -> (r:
        RequestStep)
        ensures
            (Turn { state: final(self)@, step: r@ }) == old(self)@.snapshot_read_turn(
                pending@,
                read@,
                now@,
            ),
    {
        match SavedApps::load_optional(&self.paths, read) {
            Ok(Some(saved_apps)) => self.synchronize_restart_snapshot(
                pending,
                &saved_apps.app_names,
                &now,
            ),
            Ok(None) => {
                let nothing: Vec<String> = Vec::new();
                assert(text::texts(nothing@) =~= Seq::<Text>::empty());
                self.synchronize_restart_snapshot(pending, &nothing, &now)
            },
            Err(failure) => {
                let line =
                    "failed to read the existing restart snapshot during automatic sync; rebuilding it from daemon state: ".to_owned().concat(
                failure.text().as_str());
                RequestStep::LogError { pending: PendingRebuild { sync: pending, now, line } }
            },
        }
    }

    /// Goes on once it was reported that the old snapshot cannot be read.
    pub fn rebuild_logged(&mut self, pending: PendingRebuild, reply: LogReply) -> (r: RequestStep)
        ensures
            (Turn { state: final(self)@, step: r@ }) == old(self)@.rebuild_turn(pending@, reply),
    {
        match append_daemon_error(&self.paths, reply) {
            Err(failure) => respond_snapshot_failed(failure, true),
            Ok(_) => {
                let nothing: Vec<String> = Vec::new();
                assert(text::texts(nothing@) =~= Seq::<Text>::empty());
                self.synchronize_restart_snapshot(pending.sync, &nothing, &pending.now)
            },
        }
    }
}

impl PendingSnapshot {
    /// Answers the request once the snapshot was written, or not.
    pub fn written(self, written: Result<(), Failure>) -> (r: RequestStep)
        ensures
            r@ == self@.response(failure::outcome(written)),
    {
        match written {
            Err(failure) => respond_snapshot_failed(failure, self.follows_change),
            Ok(_) => RequestStep::Respond {
                response: DaemonResponse::Done { message: self.message },
            },
        }
    }
}

} // verus!
