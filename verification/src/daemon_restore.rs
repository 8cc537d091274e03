//! How the daemon brings back the apps of the snapshot when it starts.
use crate::app::{self, AppConfig, AppConfigView, LoadReply, LoadReplyView};
use crate::daemon_log::{self, append_daemon_error, LogReply};
use crate::failure::{self, Failure};
use crate::file_path::{self, FilePath};
use crate::metadata::Metadata;
use crate::paths::AynurPathsView;
use crate::process::{
    self, spawn_app, LaunchPlan, LaunchPlanView, SpawnReply, SpawnReplyView,
};
use crate::runtime::{
    self, AppStatus, DaemonState, DaemonStateView, RuntimeApp, RuntimeAppView,
};
use crate::saved::{self, SavedApps, SnapshotReply, SnapshotReplyView};
use crate::text::{self, Text};
use vstd::prelude::*;

verus! {

/// What came of looking for the configuration of an app.
#[derive(Clone, Debug, PartialEq, Eq)]
pub enum ConfigReply {
    /// There is no such file.
    Missing,
    /// There is one.
    Found {
        /// What reading it gave.
        read: LoadReply,
    },
}

/// What came of looking for the configuration of an app.
pub enum ConfigReplyView {
    /// There is no such file.
    Missing,
    /// There is one.
    Found(LoadReplyView),
}

impl View for ConfigReply {
    type V = ConfigReplyView;

    open spec fn view(&self) -> ConfigReplyView {
        match self {
            ConfigReply::Missing => ConfigReplyView::Missing,
            ConfigReply::Found { read } => ConfigReplyView::Found(read@),
        }
    }
}

/// An app whose configuration is being looked for.
#[derive(Clone, Debug, PartialEq, Eq)]
pub struct PendingLoad {
    /// Its name.
    pub name: String,
    /// Where its configuration is.
    pub path: FilePath,
    /// The names of the apps that come after it.
    pub rest: Vec<String>,
}

/// An app whose configuration is being looked for.
#[verifier::ext_equal]
pub struct PendingLoadView {
    /// Its name.
    pub name: Text,
    /// Where its configuration is.
    pub path: Seq<u8>,
    /// The names of the apps that come after it.
    pub rest: Seq<Text>,
}

impl View for PendingLoad {
    type V = PendingLoadView;

    open spec fn view(&self) -> PendingLoadView {
        PendingLoadView { name: self.name@, path: self.path@, rest: text::texts(self.rest@) }
    }
}

/// An app that is being brought back.
#[derive(Clone, Debug, PartialEq, Eq)]
pub struct PendingRestore {
    /// The app.
    pub app: RuntimeApp,
    /// The names of the apps that come after it.
    pub rest: Vec<String>,
}

/// An app that is being brought back.
#[verifier::ext_equal]
pub struct PendingRestoreView {
    /// The app.
    pub app: RuntimeAppView,
    /// The names of the apps that come after it.
    pub rest: Seq<Text>,
}

impl View for PendingRestore {
    type V = PendingRestoreView;

    open spec fn view(&self) -> PendingRestoreView {
        PendingRestoreView { app: self.app@, rest: text::texts(self.rest@) }
    }
}

/// An app that could not be brought back, which is reported.
#[derive(Clone, Debug, PartialEq, Eq)]
pub struct PendingRestoreReport {
    /// The report.
    pub line: String,
    /// The app, where its configuration is known.
    pub app: Option<RuntimeApp>,
    /// The names of the apps that come after it.
    pub rest: Vec<String>,
}

/// An app that could not be brought back, which is reported.
#[verifier::ext_equal]
pub struct PendingRestoreReportView {
    /// The report.
    pub line: Text,
    /// The app, where its configuration is known.
    pub app: Option<RuntimeAppView>,
    /// The names of the apps that come after it.
    pub rest: Seq<Text>,
}

/// The view of an optional app.
pub open spec fn app_option(app: Option<RuntimeApp>) -> Option<RuntimeAppView> {
    match app {
        None => None,
        Some(a) => Some(a@),
    }
}

impl View for PendingRestoreReport {
    type V = PendingRestoreReportView;

    open spec fn view(&self) -> PendingRestoreReportView {
        PendingRestoreReportView {
            line: self.line@,
            app: app_option(self.app),
            rest: text::texts(self.rest@),
        }
    }
}

/// What is to be done next to bring back the apps.
#[derive(Clone, Debug, PartialEq, Eq)]
pub enum RestoreStep {
    /// Nothing.
    Done,
    /// Look for the configuration of an app.
    Load {
        /// The app.
        pending: PendingLoad,
    },
    /// Look at the binary and at the working directory of an app.
    Inspect {
        /// The app.
        pending: PendingRestore,
    },
    /// Start the process of an app.
    Spawn {
        /// The app.
        pending: PendingRestore,
        /// How to start it.
        plan: LaunchPlan,
    },
    /// Add a line to the log of the daemon's errors.
    Report {
        /// The line.
        pending: PendingRestoreReport,
    },
    /// End the daemon.
    Fail {
        /// Why.
        failure: Failure,
    },
}

/// What is to be done next to bring back the apps.
#[verifier::ext_equal]
pub enum RestoreStepView {
    /// Nothing.
    Done,
    /// Look for the configuration of an app.
    Load(PendingLoadView),
    /// Look at the binary and at the working directory of an app.
    Inspect(PendingRestoreView),
    /// Start the process of an app.
    Spawn(PendingRestoreView, LaunchPlanView),
    /// Add a line to the log of the daemon's errors.
    Report(PendingRestoreReportView),
    /// End the daemon.
    Fail(Seq<Text>),
}

impl View for RestoreStep {
    type V = RestoreStepView;

    open spec fn view(&self) -> RestoreStepView {
        match self {
            RestoreStep::Done => RestoreStepView::Done,
            RestoreStep::Load { pending } => RestoreStepView::Load(pending@),
            RestoreStep::Inspect { pending } => RestoreStepView::Inspect(pending@),
            RestoreStep::Spawn { pending, plan } => RestoreStepView::Spawn(pending@, plan@),
            RestoreStep::Report { pending } => RestoreStepView::Report(pending@),
            RestoreStep::Fail { failure } => RestoreStepView::Fail(failure@),
        }
    }
}

/// What the daemon knows after a step, and the step that comes next.
#[verifier::ext_equal]
pub struct RestoreTurn {
    /// What the daemon knows.
    pub state: DaemonStateView,
    /// The step that comes next.
    pub step: RestoreStepView,
}

/// The report that an app could not be brought back.
pub open spec fn restore_report(name: Text, reason: Text) -> Text {
    "failed to restore app '"@ + name + "': "@ + reason
}

/// The reason that the configuration of an app is missing at `path`.
pub open spec fn missing_config(path: Seq<u8>) -> Text {
    "saved app config is missing at "@ + file_path::lossy_text(path)
}

impl DaemonStateView {
    /// The apps called `names` are yet to be brought back.
    pub open spec fn restore_next(self, names: Seq<Text>) -> RestoreTurn {
        RestoreTurn {
            state: self,
            step: if names.len() == 0 {
                RestoreStepView::Done
            } else {
                RestoreStepView::Load(
                    PendingLoadView {
                        name: names[0],
                        path: self.paths.app_config(names[0]),
                        rest: names.drop_first(),
                    },
                )
            },
        }
    }

    /// The snapshot was read.
    pub open spec fn restore_turn(self, read: SnapshotReplyView) -> RestoreTurn {
        match saved::loaded(self.paths, read) {
            Err(lines) => RestoreTurn { state: self, step: RestoreStepView::Fail(lines) },
            Ok(None) => RestoreTurn { state: self, step: RestoreStepView::Done },
            Ok(Some(saved_apps)) => self.restore_next(saved_apps.app_names),
        }
    }

    /// An app could not be brought back.
    pub open spec fn report_restore(
        self,
        line: Text,
        app: Option<RuntimeAppView>,
        rest: Seq<Text>,
    ) -> RestoreTurn {
        RestoreTurn {
            state: self,
            step: RestoreStepView::Report(PendingRestoreReportView { line, app, rest }),
        }
    }

    /// The configuration of an app was looked for.
    pub open spec fn restore_loaded(
        self,
        pending: PendingLoadView,
        reply: ConfigReplyView,
    ) -> RestoreTurn {
        match reply {
            ConfigReplyView::Missing => self.report_restore(
                restore_report(pending.name, missing_config(self.paths.app_config(pending.name))),
                None,
                pending.rest,
            ),
            ConfigReplyView::Found(read) => match app::loaded(self.paths, pending.name, read) {
                Err(lines) => self.report_restore(
                    restore_report(pending.name, failure::one_line(lines)),
                    None,
                    pending.rest,
                ),
                Ok(config) => RestoreTurn {
                    state: self,
                    step: RestoreStepView::Inspect(
                        PendingRestoreView {
                            app: RuntimeAppView::fresh(config, AppStatus::Starting),
                            rest: pending.rest,
                        },
                    ),
                },
            },
        }
    }

    /// An app whose configuration is known could not be brought back.
    pub open spec fn restore_failed(
        self,
        pending: PendingRestoreView,
        lines: Seq<Text>,
    ) -> RestoreTurn {
        self.report_restore(
            restore_report(pending.app.config.name, failure::one_line(lines)),
            Some(
                RuntimeAppView {
                    pid: None,
                    started_at: None,
                    status: AppStatus::Errored,
                    ..pending.app
                },
            ),
            pending.rest,
        )
    }

    /// The binary and the working directory of an app were looked at.
    pub open spec fn restore_inspected(
        self,
        pending: PendingRestoreView,
        binary: Result<Metadata, Text>,
        directory: Result<Metadata, Text>,
    ) -> RestoreTurn {
        match pending.app.config.verdict(binary, directory) {
            Err(lines) => self.restore_failed(pending, lines),
            Ok(_) => RestoreTurn {
                state: self,
                step: RestoreStepView::Spawn(
                    pending,
                    LaunchPlanView::of_app(self.paths, pending.app.config),
                ),
            },
        }
    }

    /// The process of an app was started, or not.
    pub open spec fn restore_spawned(
        self,
        pending: PendingRestoreView,
        reply: SpawnReplyView,
    ) -> RestoreTurn {
        match process::spawned(self.paths, pending.app.config, reply) {
            Err(lines) => self.restore_failed(pending, lines),
            Ok((pid, started_at)) => self.with(
                pending.app.config.name,
                pending.app.running(pid, started_at),
            ).restore_next(pending.rest),
        }
    }

    /// It was reported that an app could not be brought back.
    pub open spec fn restore_reported(
        self,
        pending: PendingRestoreReportView,
        reply: LogReply,
    ) -> RestoreTurn {
        match daemon_log::logged(self.paths, reply) {
            Err(lines) => RestoreTurn { state: self, step: RestoreStepView::Fail(lines) },
            Ok(_) => match pending.app {
                Some(app) => self.with(app.config.name, app).restore_next(pending.rest),
                None => self.restore_next(pending.rest),
            },
        }
    }
}

fn report_line(name: &str, reason: &str) -> (r: String)
    ensures
        r@ == restore_report(name@, reason@),
{
    "failed to restore app '".to_owned().concat(name).concat("': ").concat(reason)
}

impl DaemonState {
    fn restore_rest(&self, names: Vec<String>) -> (r: RestoreStep)
        ensures
            (RestoreTurn { state: self@, step: r@ }) == self@.restore_next(text::texts(names@)),
    {
        let mut names = names;
        if names.len() == 0 {
            return RestoreStep::Done;
        }
        let ghost all = names@;
        let name = names.remove(0);
        assert(text::texts(names@) =~= text::texts(all).drop_first());
        let path = self.paths.app_config_path(name.as_str());
        RestoreStep::Load { pending: PendingLoad { name, path, rest: names } }
    }

    /// Takes up what reading the snapshot gave when the daemon starts.
    pub fn restore_saved_apps(&mut self, read: SnapshotReply) -> (r: RestoreStep)
        ensures
            (RestoreTurn { state: final(self)@, step: r@ }) == old(self)@.restore_turn(read@),
    {
        match SavedApps::load_optional(&self.paths, read) {
            Err(failure) => RestoreStep::Fail { failure },
            Ok(None) => RestoreStep::Done,
            Ok(Some(saved_apps)) => self.restore_rest(saved_apps.app_names),
        }
    }

    /// Goes on once the configuration of an app was looked for.
    pub fn restore_config_loaded(&mut self, pending: PendingLoad, reply: ConfigReply) -> (r:
        RestoreStep)
        ensures
            (RestoreTurn { state: final(self)@, step: r@ }) == old(self)@.restore_loaded(
                pending@,
                reply@,
            ),
    {
        let PendingLoad { name, path: _, rest } = pending;
        match reply {
            ConfigReply::Missing => {
                let reason = "saved app config is missing at ".to_owned().concat(
                    self.paths.app_config_path(name.as_str()).display().as_str(),
                );
                let line = report_line(name.as_str(), reason.as_str());
                RestoreStep::Report { pending: PendingRestoreReport { line, app: None, rest } }
            },
            ConfigReply::Found { read } => match AppConfig::load(
                &self.paths,
                name.as_str(),
                read,
            ) {
                Err(failure) => {
                    let line = report_line(name.as_str(), failure.text().as_str());
                    RestoreStep::Report {
                        pending: PendingRestoreReport { line, app: None, rest },
                    }
                },
                Ok(config) => {
                    let app = RuntimeApp::new(config, AppStatus::Starting);
                    RestoreStep::Inspect { pending: PendingRestore { app, rest } }
                },
            },
        }
    }

    fn report_failed_restore(&self, pending: PendingRestore, failure: Failure) -> (r: RestoreStep)
        ensures
            (RestoreTurn { state: self@, step: r@ }) == self@.restore_failed(pending@, failure@),
    {
        let PendingRestore { app, rest } = pending;
        let mut app = app;
        app.pid = None;
        app.started_at = None;
        app.status = AppStatus::Errored;
        let line = report_line(app.config.name.as_str(), failure.text().as_str());
        RestoreStep::Report { pending: PendingRestoreReport { line, app: Some(app), rest } }
    }

    /// Goes on once the binary and the working directory of an app were looked at.
    pub fn restore_app_inspected(
        &mut self,
        pending: PendingRestore,
        binary: Result<Metadata, String>,
        directory: Result<Metadata, String>,
    ) -> (r: RestoreStep)
        ensures
            (RestoreTurn { state: final(self)@, step: r@ }) == old(self)@.restore_inspected(
                pending@,
                failure::reply(binary),
                failure::reply(directory),
            ),
    {
        match pending.app.config.validate(&binary, &directory) {
            Err(failure) => self.report_failed_restore(pending, failure),
            Ok(_) => {
                let plan = LaunchPlan::of_app(&self.paths, &pending.app.config);
                RestoreStep::Spawn { pending, plan }
            },
        }
    }

    /// Goes on once the process of an app was started, or not.
    pub fn restore_app_spawned(&mut self, pending: PendingRestore, reply: SpawnReply) -> (r:
        RestoreStep)
        ensures
            (RestoreTurn { state: final(self)@, step: r@ }) == old(self)@.restore_spawned(
                pending@,
                reply@,
            ),
    {
        match spawn_app(&self.paths, &pending.app.config, reply) {
            Err(failure) => self.report_failed_restore(pending, failure),
            Ok((pid, started_at)) => {
                let PendingRestore { app, rest } = pending;
                let mut app = app;
                app.run_as(pid, started_at);
                let name = app.config.name.clone();
                self.put(name, app);
                self.restore_rest(rest)
            },
        }
    }

    /// Goes on once it was reported that an app could not be brought back.
    pub fn restore_failure_reported(&mut self, pending: PendingRestoreReport, reply: LogReply) -> (r:
        RestoreStep)
        ensures
            (RestoreTurn { state: final(self)@, step: r@ }) == old(self)@.restore_reported(
                pending@,
                reply,
            ),
    {
        match append_daemon_error(&self.paths, reply) {
            Err(failure) => RestoreStep::Fail { failure },
            Ok(_) => {
                let PendingRestoreReport { line: _, app, rest } = pending;
                if let Some(app) = app {
                    let name = app.config.name.clone();
                    self.put(name, app);
                }
                self.restore_rest(rest)
            },
        }
    }
}

/// What the outside world replies while one app is brought back.
pub struct RestoreReplies {
    /// What came of looking for its configuration.
    pub config: ConfigReplyView,
    /// What the file system says of its binary.
    pub binary: Result<Metadata, Text>,
    /// What the file system says of its working directory.
    pub directory: Result<Metadata, Text>,
    /// What came of starting its process.
    pub spawn: SpawnReplyView,
}

/// The turn that follows `turn`, where reports can be written.
pub open spec fn next_restore(turn: RestoreTurn, replies: RestoreReplies) -> RestoreTurn {
    let state = turn.state;
    match turn.step {
        RestoreStepView::Load(pending) => state.restore_loaded(pending, replies.config),
        RestoreStepView::Inspect(pending) => state.restore_inspected(
            pending,
            replies.binary,
            replies.directory,
        ),
        RestoreStepView::Spawn(pending, _) => state.restore_spawned(pending, replies.spawn),
        RestoreStepView::Report(pending) => state.restore_reported(pending, LogReply::Appended),
        _ => turn,
    }
}

/// The configuration that is found for the app called `name`.
pub open spec fn found_config(paths: AynurPathsView, name: Text, config: ConfigReplyView) -> Result<
    AppConfigView,
    Seq<Text>,
> {
    match config {
        ConfigReplyView::Missing => Err(seq![missing_config(paths.app_config(name))]),
        ConfigReplyView::Found(read) => app::loaded(paths, name, read),
    }
}

/// The app called `name` once it was brought back, or not: without a configuration there is none;
/// else it is online, or errored without a process.
pub open spec fn restored_app(paths: AynurPathsView, name: Text, replies: RestoreReplies) -> Option<
    RuntimeAppView,
> {
    match found_config(paths, name, replies.config) {
        Err(_) => None,
        Ok(config) => {
            let app = RuntimeAppView::fresh(config, AppStatus::Starting);
            let started = process::spawned(paths, config, replies.spawn);
            Some(
                if config.verdict(replies.binary, replies.directory) is Ok && started is Ok {
                    app.running(started->Ok_0.0, started->Ok_0.1)
                } else {
                    app.turned(AppStatus::Errored)
                },
            )
        },
    }
}

/// What the daemon knows once the app called `name` was brought back, or not.
pub open spec fn one_restored(
    state: DaemonStateView,
    name: Text,
    replies: RestoreReplies,
) -> DaemonStateView {
    match restored_app(state.paths, name, replies) {
        None => state,
        Some(app) => state.with(name, app),
    }
}

/// What the daemon knows once the apps called `names` were brought back, or not.
pub open spec fn all_restored(
    state: DaemonStateView,
    names: Seq<Text>,
    replies: spec_fn(Text) -> RestoreReplies,
) -> DaemonStateView
    decreases names.len(),
{
    if names.len() == 0 {
        state
    } else {
        all_restored(
            one_restored(state, names[0], replies(names[0])),
            names.drop_first(),
            replies,
        )
    }
}

/// The turn after `n` more replies to what concerns the app called `name`.
pub open spec fn restore_after(turn: RestoreTurn, replies: RestoreReplies, n: nat) -> RestoreTurn
    decreases n,
{
    if n == 0 {
        turn
    } else {
        next_restore(restore_after(turn, replies, (n - 1) as nat), replies)
    }
}

/// How many replies it takes until the app called `name` is done with.
pub open spec fn restore_length(state: DaemonStateView, name: Text, replies: RestoreReplies) -> nat {
    match found_config(state.paths, name, replies.config) {
        Err(_) => 2,
        Ok(config) => if config.verdict(replies.binary, replies.directory) is Err {
            3
        } else if process::spawned(state.paths, config, replies.spawn) is Err {
            4
        } else {
            3
        },
    }
}

/// Bringing back one app, well or badly, ends with going on to the apps after it: a failure neither
/// ends the daemon nor keeps the other apps away.
pub proof fn law_restore_goes_on(
    state: DaemonStateView,
    names: Seq<Text>,
    replies: RestoreReplies,
)
    requires
        names.len() > 0,
    ensures
        restore_after(
            state.restore_next(names),
            replies,
            restore_length(state, names[0], replies),
        ) == one_restored(state, names[0], replies).restore_next(names.drop_first()),
{
    reveal_with_fuel(restore_after, 5);
    let name = names[0];
    if let ConfigReplyView::Found(read) = replies.config {
        app::law_loaded_config_has_its_name(state.paths, name, read);
    }
}

/// The turn after everything that concerns the apps called `names`.
pub open spec fn restore_run(
    state: DaemonStateView,
    names: Seq<Text>,
    replies: spec_fn(Text) -> RestoreReplies,
) -> RestoreTurn
    decreases names.len(),
{
    if names.len() == 0 {
        state.restore_next(names)
    } else {
        let after = restore_after(
            state.restore_next(names),
            replies(names[0]),
            restore_length(state, names[0], replies(names[0])),
        );
        restore_run(after.state, names.drop_first(), replies)
    }
}

/// The daemon goes through the whole snapshot: every app of it that has a configuration of its name
/// is then online, or errored without a process; the others are left out.
pub proof fn law_restore_brings_back_the_snapshot(
    state: DaemonStateView,
    names: Seq<Text>,
    replies: spec_fn(Text) -> RestoreReplies,
)
    ensures
        restore_run(state, names, replies) == (RestoreTurn {
            state: all_restored(state, names, replies),
            step: RestoreStepView::Done,
        }),
    decreases names.len(),
{
    if names.len() > 0 {
        law_restore_goes_on(state, names, replies(names[0]));
        law_restore_brings_back_the_snapshot(
            one_restored(state, names[0], replies(names[0])),
            names.drop_first(),
            replies,
        );
    }
}

/// Apps that are not in the snapshot are not touched, and what is brought back stands under its own
/// valid name, with a process, a status and a time that fit together.
pub proof fn law_restored_apps_are_in_order(
    state: DaemonStateView,
    names: Seq<Text>,
    replies: spec_fn(Text) -> RestoreReplies,
)
    requires
        state.well_named(),
        state.well_tracked(),
    ensures
        all_restored(state, names, replies).well_named(),
        all_restored(state, names, replies).well_tracked(),
        all_restored(state, names, replies).paths == state.paths,
        forall|other: Text|
            !names.contains(other) ==> #[trigger] runtime::same_app(
                state,
                all_restored(state, names, replies),
                other,
            ),
    decreases names.len(),
{
    if names.len() > 0 {
        let name = names[0];
        let one = one_restored(state, name, replies(name));
        if let ConfigReplyView::Found(read) = replies(name).config {
            app::law_loaded_config_has_its_name(state.paths, name, read);
        }
        law_restored_apps_are_in_order(one, names.drop_first(), replies);
    }
    assert forall|other: Text| !names.contains(other) implies #[trigger] runtime::same_app(
        state,
        all_restored(state, names, replies),
        other,
    ) by {
        lemma_others_stay(state, names, replies, other);
    }
}

/// Each app of the snapshot is as its own replies make it, whatever the replies for the others.
pub proof fn law_restored_apps_are_independent(
    state: DaemonStateView,
    names: Seq<Text>,
    replies: spec_fn(Text) -> RestoreReplies,
    name: Text,
)
    requires
        names.no_duplicates(),
        names.contains(name),
        !state.apps.contains_key(name),
    ensures
        ({
            let after = all_restored(state, names, replies);
            &&& after.apps.contains_key(name) <==> restored_app(
                state.paths,
                name,
                replies(name),
            ) is Some
            &&& after.apps.contains_key(name) ==> Some(after.apps[name]) == restored_app(
                state.paths,
                name,
                replies(name),
            )
        }),
    decreases names.len(),
{
    let one = one_restored(state, names[0], replies(names[0]));
    let rest = names.drop_first();
    assert(rest.no_duplicates());
    if names[0] == name {
        assert(!rest.contains(name)) by {
            if rest.contains(name) {
                let i = rest.index_of(name);
                assert(names[i + 1] == names[0]);
            }
        }
        lemma_others_stay(one, rest, replies, name);
    } else {
        assert(rest.contains(name)) by {
            let i = names.index_of(name);
            assert(rest[i - 1] == name);
        }
        law_restored_apps_are_independent(one, rest, replies, name);
    }
}

proof fn lemma_others_stay(
    state: DaemonStateView,
    names: Seq<Text>,
    replies: spec_fn(Text) -> RestoreReplies,
    other: Text,
)
    requires
        !names.contains(other),
    ensures
        runtime::same_app(state, all_restored(state, names, replies), other),
    decreases names.len(),
{
    if names.len() > 0 {
        let rest = names.drop_first();
        assert(names.contains(names[0]));
        assert(!rest.contains(other)) by {
            if rest.contains(other) {
                let i = rest.index_of(other);
                assert(names[i + 1] == other);
            }
        }
        lemma_others_stay(
            one_restored(state, names[0], replies(names[0])),
            rest,
            replies,
            other,
        );
    }
}

/// The name that a report is about.
pub open spec fn reports_on(step: RestoreStepView, name: Text) -> bool {
    step is Report ==> exists|reason: Text| step->Report_0.line == #[trigger] restore_report(
        name,
        reason,
    )
}

/// What keeps an app from being brought back is reported by its name.
pub proof fn law_failed_restore_is_reported(
    state: DaemonStateView,
    pending: PendingRestoreView,
    load: PendingLoadView,
    replies: RestoreReplies,
)
    ensures
        reports_on(state.restore_loaded(load, replies.config).step, load.name),
        reports_on(
            state.restore_inspected(pending, replies.binary, replies.directory).step,
            pending.app.config.name,
        ),
        reports_on(
            state.restore_spawned(pending, replies.spawn).step,
            pending.app.config.name,
        ),
{
}

/// An app of the snapshot whose configuration is found under its name is looked after again, as a new
/// one with that configuration: online as the process that comes up, where the configuration is
/// valid and one does; else errored without a process. Without a configuration of its name it is not
/// looked after.
pub proof fn law_what_is_brought_back(
    state: DaemonStateView,
    names: Seq<Text>,
    replies: spec_fn(Text) -> RestoreReplies,
    name: Text,
)
    requires
        names.no_duplicates(),
        names.contains(name),
        !state.apps.contains_key(name),
        app::valid_name(name),
    ensures
        ({
            let reply = replies(name);
            let found = reply.config is Found && reply.config->Found_0 is Parsed
                && reply.config->Found_0->Parsed_0.name == name;
            let config = reply.config->Found_0->Parsed_0;
            let last = restore_run(state, names, replies);
            let app = last.state.apps[name];
            let valid = config.verdict(reply.binary, reply.directory) is Ok;
            &&& last.step is Done
            &&& last.state.apps.contains_key(name) <==> found
            &&& found ==> {
                &&& app.config == config
                &&& app.restarts == 0
                &&& app.restart_times.len() == 0
                &&& valid && reply.spawn is Running ==> app.status is Online && app.pid == Some(
                    reply.spawn->Running_0,
                ) && app.started_at == Some(reply.spawn->Running_1)
                &&& !(valid && reply.spawn is Running) ==> app.status is Errored && app.pid is None
                    && app.started_at is None
            }
        }),
{
    law_restore_brings_back_the_snapshot(state, names, replies);
    law_restored_apps_are_independent(state, names, replies, name);
}

/// The daemon begins with the snapshot: without one it has nothing to bring back, with one that
/// cannot be read it ends, and else it takes the apps of it in their order, each by its own
/// configuration. It starts none whose configuration is not valid, and starts the others as they are
/// configured.
pub proof fn law_snapshot_is_gone_through(
    state: DaemonStateView,
    read: SnapshotReplyView,
    pending: PendingRestoreView,
    binary: Result<Metadata, Text>,
    directory: Result<Metadata, Text>,
)
    ensures
        ({
            let first = state.restore_turn(read);
            &&& first.state == state
            &&& read is Missing ==> first.step is Done
            &&& saved::loaded(state.paths, read) is Err ==> first.step == RestoreStepView::Fail(
                saved::loaded(state.paths, read)->Err_0,
            )
            &&& saved::loaded(state.paths, read) is Ok && read is Parsed ==> ({
                let names = read->Parsed_0.app_names;
                &&& names.len() == 0 ==> first.step is Done
                &&& names.len() > 0 ==> {
                    &&& first.step is Load
                    &&& first.step->Load_0.name == names[0]
                    &&& first.step->Load_0.path == state.paths.app_config(names[0])
                    &&& first.step->Load_0.rest == names.skip(1)
                }
            })
        }),
        ({
            let step = state.restore_inspected(pending, binary, directory).step;
            &&& step is Spawn <==> pending.app.config.verdict(binary, directory) is Ok
            &&& step is Spawn ==> step->Spawn_1.program == pending.app.config.binary_path
                && step->Spawn_1.args == pending.app.config.args && step->Spawn_1.env
                == pending.app.config.env
        }),
{
    saved::law_loaded_snapshot_is_valid(state.paths, read);
    if read is Parsed && read->Parsed_0.app_names.len() > 0 {
        assert(read->Parsed_0.app_names.drop_first() =~= read->Parsed_0.app_names.skip(1));
    }
}

/// What keeps an app from being brought back is reported with its name and the reason, and nothing
/// else changes; only where that cannot be reported does the daemon end.
pub proof fn law_missing_app_is_reported(
    state: DaemonStateView,
    load: PendingLoadView,
    report: PendingRestoreReportView,
    reply: LogReply,
)
    ensures
        ({
            let missing = state.restore_loaded(load, ConfigReplyView::Missing);
            &&& missing.state == state
            &&& missing.step is Report
            &&& missing.step->Report_0.line == "failed to restore app '"@ + load.name + "': "@ + (
            "saved app config is missing at "@ + file_path::lossy_text(
                state.paths.app_config(load.name),
            ))
            &&& missing.step->Report_0.app is None
            &&& missing.step->Report_0.rest == load.rest
        }),
        !(reply is Appended) ==> state.restore_reported(report, reply).step is Fail,
        reply is Appended ==> !(state.restore_reported(report, reply).step is Fail),
{
}

} // verus!
