//! Whole requests: what holds however the outside world replies to the steps.
use crate::app::{self, AppConfigView, SaveReply};
use crate::daemon::{self, Aim, RequestStepView, Turn};
use crate::daemon_exit::ExitStepView;
use crate::daemon_log::LogReply;
use crate::daemon_restore::{self, PendingRestoreView, RestoreReplies, RestoreStepView};
use crate::env_file;
use crate::ipc::{AppStatusRow, DaemonRequestView};
use crate::metadata::Metadata;
use crate::order;
use crate::paths::AynurPathsView;
use crate::process::{self, ExitEventView, LaunchPlanView, SignalError, SpawnReplyView};
use crate::runtime::{self, AppStatus, DaemonStateView, RuntimeAppView};
use crate::saved::{self, SnapshotReplyView};
use crate::text::{self, Text};
use crate::timestamp;
use vstd::prelude::*;

verus! {

/// What came of a step.
pub enum Reply {
    /// What the file system says of a binary and of a working directory.
    Inspected(Result<Metadata, Text>, Result<Metadata, Text>),
    /// What came of starting a process.
    Spawned(SpawnReplyView),
    /// What came of sending a signal.
    Signalled(Result<(), SignalError>),
    /// What came of reading an env file.
    EnvFile(Result<Text, Text>),
    /// What came of writing a configuration.
    ConfigSaved(SaveReply),
    /// What came of deleting a configuration.
    ConfigDeleted(Result<(), Text>),
    /// What came of reading the snapshot, and the time.
    SnapshotRead(SnapshotReplyView, int),
    /// What came of adding a line to the log.
    Logged(LogReply),
    /// What came of writing the snapshot.
    SnapshotWritten(Result<(), Seq<Text>>),
}

/// The turn that follows `turn` where its step has come to `reply`. A reply that does not belong to
/// the step leads nowhere, and so does any reply once there is a response.
pub open spec fn next_turn(turn: Turn, reply: Reply) -> Turn {
    let state = turn.state;
    match (turn.step, reply) {
        (
            RequestStepView::Inspect(config),
            Reply::Inspected(binary, directory),
        ) => state.inspected_turn(config, binary, directory),
        (RequestStepView::Spawn(pending, _), Reply::Spawned(reply)) => state.spawned_turn(
            pending,
            reply,
        ),
        (RequestStepView::Terminate(pending), Reply::Signalled(sent)) => state.terminated_turn(
            pending,
            sent,
        ),
        (RequestStepView::Kill(pending, _), Reply::Signalled(sent)) => state.killed_turn(
            pending,
            sent,
        ),
        (RequestStepView::ReadEnvFile(pending), Reply::EnvFile(content)) => state.env_file_turn(
            pending,
            content,
        ),
        (
            RequestStepView::SaveConfig(pending),
            Reply::ConfigSaved(written),
        ) => state.config_saved_turn(pending, written),
        (
            RequestStepView::DeleteConfig(pending),
            Reply::ConfigDeleted(deleted),
        ) => state.config_deleted_turn(pending, deleted),
        (
            RequestStepView::ReadSnapshot(pending),
            Reply::SnapshotRead(read, now),
        ) => state.snapshot_read_turn(pending, read, now),
        (RequestStepView::LogError(pending), Reply::Logged(reply)) => state.rebuild_turn(
            pending,
            reply,
        ),
        (
            RequestStepView::WriteSnapshot(pending),
            Reply::SnapshotWritten(written),
        ) => Turn { state, step: pending.response(written) },
        _ => turn,
    }
}

/// The turn after some replies.
pub open spec fn turn_after(turn: Turn, replies: Seq<Reply>) -> Turn
    decreases replies.len(),
{
    if replies.len() == 0 {
        turn
    } else {
        next_turn(turn_after(turn, replies.drop_last()), replies.last())
    }
}

/// An app is kept under its own name, which is valid.
pub open spec fn named_app(name: Text, app: RuntimeAppView) -> bool {
    app.config.name == name && app::valid_name(name)
}

/// What a step holds of an app is as it should be.
pub open spec fn step_fits(step: RequestStepView) -> bool {
    match step {
        RequestStepView::Spawn(pending, _) => named_app(pending.name, pending.app)
            && pending.app.pid is None && pending.app.status is Starting,
        RequestStepView::Terminate(pending) => named_app(pending.name, pending.app)
            && pending.app.pid is None && pending.app.status is Stopping,
        RequestStepView::Kill(pending, _) => named_app(pending.name, pending.app)
            && pending.app.pid is None && pending.app.status is Stopping,
        RequestStepView::SaveConfig(pending) => named_app(pending.name, pending.app)
            && runtime::tracked_app(pending.app) && pending.app.status is Reloading,
        _ => true,
    }
}

/// Everything the daemon knows is as it should be.
pub open spec fn turn_fits(turn: Turn) -> bool {
    turn.state.well_named() && turn.state.well_tracked() && step_fits(turn.step)
}

/// Every request, and every reply to every step of it, leaves the daemon with apps that stand under
/// their own valid names and whose processes, statuses and times fit together.
pub proof fn law_requests_keep_the_apps_in_order(
    state: DaemonStateView,
    request: DaemonRequestView,
    now: int,
    replies: Seq<Reply>,
)
    requires
        state.well_named(),
        state.well_tracked(),
    ensures
        turn_fits(turn_after(state.request_turn(request, now), replies)),
    decreases replies.len(),
{
    if replies.len() == 0 {
        lemma_request_fits(state, request, now);
    } else {
        law_requests_keep_the_apps_in_order(state, request, now, replies.drop_last());
        lemma_next_fits(
            turn_after(state.request_turn(request, now), replies.drop_last()),
            replies.last(),
        );
    }
}

proof fn lemma_request_fits(state: DaemonStateView, request: DaemonRequestView, now: int)
    requires
        state.well_named(),
        state.well_tracked(),
    ensures
        turn_fits(state.request_turn(request, now)),
{
}

proof fn lemma_next_fits(turn: Turn, reply: Reply)
    requires
        turn_fits(turn),
    ensures
        turn_fits(next_turn(turn, reply)),
{
}

/// A process that the step starts is started as the app is configured, below these paths.
pub open spec fn launches_as_configured(paths: AynurPathsView, turn: Turn) -> bool {
    turn.state.paths == paths && match turn.step {
        RequestStepView::Spawn(pending, plan) => plan == LaunchPlanView::of_app(
            paths,
            pending.app.config,
        ),
        _ => true,
    }
}

/// Whatever is requested and whatever the replies are, every process that is started runs the
/// configured program with its arguments in its directory, with the configured environment and
/// nothing else, without input, in a process group of its own, and adds its output to the logs of
/// its app.
pub proof fn law_processes_get_what_is_configured(
    state: DaemonStateView,
    request: DaemonRequestView,
    now: int,
    replies: Seq<Reply>,
)
    ensures
        launches_as_configured(
            state.paths,
            turn_after(state.request_turn(request, now), replies),
        ),
    decreases replies.len(),
{
    if replies.len() == 0 {
        lemma_request_launches(state, request, now);
    } else {
        law_processes_get_what_is_configured(state, request, now, replies.drop_last());
        lemma_next_launches(
            state.paths,
            turn_after(state.request_turn(request, now), replies.drop_last()),
            replies.last(),
        );
    }
}

proof fn lemma_request_launches(state: DaemonStateView, request: DaemonRequestView, now: int)
    ensures
        launches_as_configured(state.paths, state.request_turn(request, now)),
{
}

proof fn lemma_next_launches(paths: AynurPathsView, turn: Turn, reply: Reply)
    requires
        launches_as_configured(paths, turn),
    ensures
        launches_as_configured(paths, next_turn(turn, reply)),
{
}

/// The same holds of a process that is started again after it has ended, and of one that is brought
/// back from the snapshot.
pub proof fn law_returning_processes_get_what_is_configured(
    state: DaemonStateView,
    event: ExitEventView,
    now: int,
    pending: PendingRestoreView,
    binary: Result<Metadata, Text>,
    directory: Result<Metadata, Text>,
)
    ensures
        match state.exit_turn(event, now).step {
            ExitStepView::Spawn(restart, plan) => plan == LaunchPlanView::of_app(
                state.paths,
                restart.app.config,
            ) && restart.app.config == state.apps[event.name].config,
            _ => true,
        },
        match state.restore_inspected(pending, binary, directory).step {
            RestoreStepView::Spawn(restored, plan) => plan == LaunchPlanView::of_app(
                state.paths,
                restored.app.config,
            ) && restored == pending,
            _ => true,
        },
{
}

/// The app that a step is about.
pub open spec fn subject(step: RequestStepView) -> Option<Text> {
    match step {
        RequestStepView::Inspect(config) => Some(config.name),
        RequestStepView::Spawn(pending, _) => Some(pending.name),
        RequestStepView::Terminate(pending) => Some(pending.name),
        RequestStepView::Kill(pending, _) => Some(pending.name),
        RequestStepView::ReadEnvFile(pending) => Some(pending.name),
        RequestStepView::SaveConfig(pending) => Some(pending.name),
        RequestStepView::DeleteConfig(pending) => Some(pending.name),
        _ => None,
    }
}

/// The app that a request is about.
pub open spec fn request_subject(request: DaemonRequestView) -> Option<Text> {
    match request {
        DaemonRequestView::Start(config) => Some(config.name),
        DaemonRequestView::Stop(name) => Some(name),
        DaemonRequestView::Restart(name) => Some(name),
        DaemonRequestView::Reload(name) => Some(name),
        DaemonRequestView::ReloadUpdateEnv(name, _) => Some(name),
        DaemonRequestView::Delete(name) => Some(name),
        _ => None,
    }
}

/// A request changes nothing but the app that it names, however it goes, and leaves the paths of
/// the daemon alone.
pub proof fn law_requests_leave_other_apps_alone(
    state: DaemonStateView,
    request: DaemonRequestView,
    now: int,
    replies: Seq<Reply>,
    other: Text,
)
    requires
        request_subject(request) != Some(other),
    ensures
        runtime::same_app(state, turn_after(state.request_turn(request, now), replies).state, other),
        turn_after(state.request_turn(request, now), replies).state.paths == state.paths,
        subject(turn_after(state.request_turn(request, now), replies).step) != Some(other),
    decreases replies.len(),
{
    if replies.len() > 0 {
        law_requests_leave_other_apps_alone(state, request, now, replies.drop_last(), other);
        lemma_next_leaves_alone(
            turn_after(state.request_turn(request, now), replies.drop_last()),
            replies.last(),
            other,
        );
    }
}

/// `turn` knows the same of the app under `other` as `state`, and is not about it.
spec fn leaves_alone(state: DaemonStateView, turn: Turn, other: Text) -> bool {
    &&& runtime::same_app(state, turn.state, other)
    &&& turn.state.paths == state.paths
    &&& subject(turn.step) != Some(other)
}

proof fn lemma_stop_leaves_alone(state: DaemonStateView, name: Text, aim: Aim, other: Text)
    requires
        name != other,
    ensures
        leaves_alone(state, state.stop_turn(name, aim), other),
{
}

proof fn lemma_sync_leaves_alone(
    state: DaemonStateView,
    pending: daemon::PendingSyncView,
    previous: Seq<Text>,
    now: int,
    other: Text,
)
    ensures
        leaves_alone(state, state.then_step(state.sync_step(pending, previous, now)), other),
{
}

proof fn lemma_next_leaves_alone(turn: Turn, reply: Reply, other: Text)
    requires
        subject(turn.step) != Some(other),
    ensures
        leaves_alone(turn.state, next_turn(turn, reply), other),
{
    let state = turn.state;
    match (turn.step, reply) {
        (RequestStepView::Inspect(config), Reply::Inspected(binary, directory)) => {},
        (RequestStepView::Spawn(pending, _), Reply::Spawned(reply)) => {},
        (RequestStepView::Terminate(pending), Reply::Signalled(sent)) => {},
        (RequestStepView::Kill(pending, _), Reply::Signalled(sent)) => {},
        (RequestStepView::ReadEnvFile(pending), Reply::EnvFile(content)) => {},
        (RequestStepView::SaveConfig(pending), Reply::ConfigSaved(written)) => {
            lemma_stop_leaves_alone(
                state.with(pending.name, pending.app),
                pending.name,
                Aim::Restart,
                other,
            );
        },
        (RequestStepView::DeleteConfig(pending), Reply::ConfigDeleted(deleted)) => {},
        (RequestStepView::ReadSnapshot(pending), Reply::SnapshotRead(read, now)) => {
            match saved::loaded(state.paths, read) {
                Ok(Some(saved_apps)) => {
                    lemma_sync_leaves_alone(state, pending, saved_apps.app_names, now, other);
                },
                Ok(None) => {
                    lemma_sync_leaves_alone(state, pending, Seq::empty(), now, other);
                },
                Err(_) => {},
            }
        },
        (RequestStepView::LogError(pending), Reply::Logged(reply)) => {
            lemma_sync_leaves_alone(state, pending.sync, Seq::empty(), pending.now, other);
        },
        _ => {},
    }
}

/// Asking for a ping, a list or a snapshot changes no app.
pub proof fn law_questions_change_nothing(
    state: DaemonStateView,
    request: DaemonRequestView,
    now: int,
    replies: Seq<Reply>,
)
    requires
        request_subject(request) is None,
    ensures
        turn_after(state.request_turn(request, now), replies).state == state,
    decreases replies.len(),
{
    if replies.len() > 0 {
        law_questions_change_nothing(state, request, now, replies.drop_last());
        lemma_questions_stay_questions(state, request, now, replies.drop_last());
    }
}

/// The step has to do with the snapshot or is a response.
pub open spec fn snapshot_step(step: RequestStepView) -> bool {
    step is ReadSnapshot || step is LogError || step is WriteSnapshot || step is Respond
}

proof fn lemma_questions_stay_questions(
    state: DaemonStateView,
    request: DaemonRequestView,
    now: int,
    replies: Seq<Reply>,
)
    requires
        request_subject(request) is None,
    ensures
        snapshot_step(turn_after(state.request_turn(request, now), replies).step),
    decreases replies.len(),
{
    if replies.len() > 0 {
        lemma_questions_stay_questions(state, request, now, replies.drop_last());
    }
}

/// A response is final.
pub proof fn law_responses_are_final(turn: Turn, replies: Seq<Reply>)
    requires
        turn.step is Respond,
    ensures
        turn_after(turn, replies) == turn,
    decreases replies.len(),
{
    if replies.len() > 0 {
        law_responses_are_final(turn, replies.drop_last());
    }
}

/// A change that fails is answered with an error, and the snapshot is neither read nor written: a
/// step of a change is followed by another one, by the final error, or, where the change is done,
/// by a look at the snapshot.
pub proof fn law_failed_change_leaves_the_snapshot(turn: Turn, reply: Reply, replies: Seq<Reply>)
    requires
        !snapshot_step(turn.step),
    ensures
        ({
            let after = next_turn(turn, reply);
            &&& after.step is Respond ==> after.step->Respond_0 is Error && turn_after(
                after,
                replies,
            ) == after
            &&& !(after.step is LogError) && !(after.step is WriteSnapshot)
        }),
{
    let after = next_turn(turn, reply);
    if after.step is Respond {
        law_responses_are_final(after, replies);
    }
}

/// The snapshot is brought up to date only where a change is done, and a change that is done is not
/// answered before that.
pub proof fn law_snapshot_follows_success(turn: Turn, reply: Reply)
    requires
        !snapshot_step(turn.step),
        next_turn(turn, reply).step is ReadSnapshot,
    ensures
        match (turn.step, reply) {
            (RequestStepView::Spawn(_, _), Reply::Spawned(reply)) => reply is Running,
            (RequestStepView::Kill(pending, _), Reply::Signalled(sent)) => process::signalled(
                pending.pid,
                9,
                sent,
            ) is Ok && pending.aim is Stop,
            (RequestStepView::DeleteConfig(_), Reply::ConfigDeleted(deleted)) => deleted is Ok,
            _ => false,
        },
{
}

/// Only a snapshot that is in place is answered with success.
pub proof fn law_success_means_a_snapshot(turn: Turn, reply: Reply)
    requires
        !(turn.step is Respond),
        next_turn(turn, reply).step is Respond,
        next_turn(turn, reply).step->Respond_0 is Done,
    ensures
        turn.step is WriteSnapshot,
        reply is SnapshotWritten,
        reply->SnapshotWritten_0 is Ok,
{
}

/// Starting an app that runs is refused, and the app runs on untouched.
pub proof fn law_running_app_is_not_started_again(
    state: DaemonStateView,
    config: AppConfigView,
    binary: Result<Metadata, Text>,
    directory: Result<Metadata, Text>,
)
    requires
        config.verdict(binary, directory) is Ok,
        state.apps.contains_key(config.name),
        state.apps[config.name].pid is Some,
    ensures
        state.inspected_turn(config, binary, directory) == (Turn {
            state,
            step: daemon::failed(seq!["app '"@ + config.name + "' is already running"@]),
        }),
{
}

/// A valid app that does not run yet and whose process starts is online under its name, with the
/// configuration that was asked for.
pub proof fn law_started_app_is_online(
    state: DaemonStateView,
    config: AppConfigView,
    now: int,
    binary: Result<Metadata, Text>,
    directory: Result<Metadata, Text>,
    pid: u32,
    started_at: int,
)
    requires
        config.verdict(binary, directory) is Ok,
        !state.apps.contains_key(config.name) || state.apps[config.name].pid is None,
    ensures
        ({
            let start = state.request_turn(DaemonRequestView::Start(config), now);
            let inspected = next_turn(start, Reply::Inspected(binary, directory));
            let after = next_turn(
                inspected,
                Reply::Spawned(SpawnReplyView::Running(pid, started_at)),
            );
            &&& after.state == state.with(
                config.name,
                RuntimeAppView::fresh(config, AppStatus::Starting).running(pid, started_at),
            )
            &&& after.state.apps[config.name].status is Online
            &&& after.state.apps[config.name].pid == Some(pid)
            &&& after.step == daemon::synchronize(
                "started "@ + config.name + " with pid "@ + text::decimal_text(pid as nat),
                None,
            )
        }),
{
}

/// An app whose process does not come up, or ends at once, is kept as errored without a process.
pub proof fn law_failed_start_is_errored(turn: Turn, reply: SpawnReplyView)
    requires
        turn_fits(turn),
        turn.step is Spawn,
        !(reply is Running),
    ensures
        ({
            let after = next_turn(turn, Reply::Spawned(reply));
            let name = turn.step->Spawn_0.name;
            &&& after.state.apps.contains_key(name)
            &&& after.state.apps[name].status is Errored
            &&& after.state.apps[name].pid is None
            &&& after.step is Respond
            &&& after.step->Respond_0 is Error
        }),
{
}

/// Stopping a running app asks its processes to end, waits, ends them, and only then calls the app
/// stopped. What else is known of the app stays.
pub proof fn law_stop_goes_in_order(
    state: DaemonStateView,
    name: Text,
    now: int,
    first: Result<(), SignalError>,
    second: Result<(), SignalError>,
)
    requires
        state.apps.contains_key(name),
        state.apps[name].pid is Some,
        process::signalled(state.apps[name].pid->0, 15, first) is Ok,
        process::signalled(state.apps[name].pid->0, 9, second) is Ok,
    ensures
        ({
            let app = state.apps[name];
            let asked = state.request_turn(DaemonRequestView::Stop(name), now);
            let waiting = next_turn(asked, Reply::Signalled(first));
            let after = next_turn(waiting, Reply::Signalled(second));
            &&& asked.step is Terminate
            &&& asked.step->Terminate_0.pid == app.pid->0
            &&& waiting.step is Kill
            &&& waiting.step->Kill_0.pid == app.pid->0
            &&& waiting.step->Kill_1 == daemon::STOP_PAUSE_MILLIS
            &&& after.state == state.with(
                name,
                RuntimeAppView {
                    pid: None,
                    status: AppStatus::Stopped,
                    started_at: None,
                    ..app
                },
            )
            &&& after.step == daemon::synchronize("stopped "@ + name, Some(name))
        }),
{
    let app = state.apps[name];
    let stopped = RuntimeAppView {
        pid: None,
        status: AppStatus::Stopped,
        started_at: None,
        ..app
    };
    assert(state.without(name).with(name, stopped).apps =~= state.with(name, stopped).apps);
}

/// Restarting an app, or reloading it, keeps its configuration, its count of restarts and its
/// record of exits, and gives it a new process.
pub proof fn law_restart_keeps_the_app(
    state: DaemonStateView,
    name: Text,
    aim: Aim,
    first: Result<(), SignalError>,
    second: Result<(), SignalError>,
    pid: u32,
    started_at: int,
)
    requires
        aim is Restart || aim is Reload,
        state.apps.contains_key(name),
        state.apps[name].pid is Some,
        process::signalled(state.apps[name].pid->0, 15, first) is Ok,
        process::signalled(state.apps[name].pid->0, 9, second) is Ok,
    ensures
        ({
            let asked = state.stop_turn(name, aim);
            let waiting = next_turn(asked, Reply::Signalled(first));
            let stopped = next_turn(waiting, Reply::Signalled(second));
            let after = next_turn(
                stopped,
                Reply::Spawned(SpawnReplyView::Running(pid, started_at)),
            );
            &&& after.state == state.with(name, state.apps[name].running(pid, started_at))
            &&& after.step is ReadSnapshot
        }),
{
    let app = state.apps[name].running(pid, started_at);
    assert(state.without(name).with(name, app).apps =~= state.with(name, app).apps);
}

/// Reloading an app with a new environment gives it the environment of the caller with the values
/// of its env file over it, saves that, and changes nothing else of its configuration.
pub proof fn law_reload_refreshes_the_environment(
    state: DaemonStateView,
    name: Text,
    env: Map<Text, Text>,
    now: int,
    content: Result<Text, Text>,
)
    requires
        state.apps.contains_key(name),
        state.apps[name].config.env_file_path is Some,
        env_file::env_file_values(state.apps[name].config.env_file_path->0, content) is Ok,
    ensures
        ({
            let app = state.apps[name];
            let asked = state.request_turn(DaemonRequestView::ReloadUpdateEnv(name, env), now);
            let read = next_turn(asked, Reply::EnvFile(content));
            let values = env_file::env_file_values(app.config.env_file_path->0, content)->Ok_0;
            &&& asked.step is ReadEnvFile
            &&& asked.step->ReadEnvFile_0.path == app.config.env_file_path->0
            &&& read.step is SaveConfig
            &&& read.step->SaveConfig_0.app.config == (AppConfigView {
                env: env.union_prefer_right(values),
                ..app.config
            })
            &&& read.step->SaveConfig_0.path == state.paths.app_config(app.config.name)
        }),
{
}

/// A faulty env file leaves the app as it was.
pub proof fn law_faulty_env_file_changes_nothing(
    state: DaemonStateView,
    name: Text,
    env: Map<Text, Text>,
    now: int,
    content: Result<Text, Text>,
)
    requires
        state.apps.contains_key(name),
        state.apps[name].config.env_file_path is Some,
        env_file::env_file_values(state.apps[name].config.env_file_path->0, content) is Err,
    ensures
        ({
            let asked = state.request_turn(DaemonRequestView::ReloadUpdateEnv(name, env), now);
            let read = next_turn(asked, Reply::EnvFile(content));
            &&& read.state == state
            &&& read.step is Respond
            &&& read.step->Respond_0 is Error
        }),
{
}

/// An app that is deleted is gone from the daemon, and the name is dropped from the snapshot.
pub proof fn law_deleted_app_is_gone(
    state: DaemonStateView,
    name: Text,
    now: int,
    first: Result<(), SignalError>,
    second: Result<(), SignalError>,
)
    requires
        state.apps.contains_key(name) && state.apps[name].pid is Some ==> process::signalled(
            state.apps[name].pid->0,
            15,
            first,
        ) is Ok && process::signalled(state.apps[name].pid->0, 9, second) is Ok,
    ensures
        ({
            let asked = state.request_turn(DaemonRequestView::Delete(name), now);
            let signals = seq![Reply::Signalled(first), Reply::Signalled(second)];
            let stopped = turn_after(asked, signals);
            let after = next_turn(stopped, Reply::ConfigDeleted(Ok(())));
            &&& stopped.step is DeleteConfig
            &&& stopped.step->DeleteConfig_0.path == state.paths.app_config(name)
            &&& after.state == state.without(name)
            &&& after.step == daemon::synchronize("deleted "@ + name, Some(name))
        }),
{
    let asked = state.request_turn(DaemonRequestView::Delete(name), now);
    let signals = seq![Reply::Signalled(first), Reply::Signalled(second)];
    assert(signals.drop_last() == seq![Reply::Signalled(first)]);
    assert(signals.drop_last().drop_last() == Seq::<Reply>::empty());
    reveal_with_fuel(turn_after, 3);
    if !state.apps.contains_key(name) {
        assert(state.without(name).apps =~= state.apps);
    }
}

/// A request for an app that the daemon does not look after is refused by name, and nothing
/// changes.
pub proof fn law_unknown_app_is_refused(
    state: DaemonStateView,
    request: DaemonRequestView,
    now: int,
)
    requires
        request is Stop || request is Restart || request is Reload || request is ReloadUpdateEnv,
        !state.apps.contains_key(request_subject(request)->0),
    ensures
        state.request_turn(request, now) == (Turn {
            state,
            step: daemon::failed(daemon::not_managed(request_subject(request)->0)),
        }),
{
}

/// The names that belong into a snapshot of a daemon in order are a finite set of valid names.
proof fn lemma_kept_names(state: DaemonStateView, previous: Seq<Text>, excluded: Option<Text>)
    requires
        state.well_named(),
        state.apps.dom().finite(),
        saved::valid_names(previous),
    ensures
        ({
            let kept = state.kept_names(previous, excluded);
            &&& kept.finite()
            &&& order::lists(order::ordered(kept), kept)
            &&& saved::valid_names(order::ordered(kept))
        }),
{
    let kept = state.kept_names(previous, excluded);
    let all = state.apps.dom().union(previous.to_set());
    vstd::seq_lib::seq_to_set_is_finite(previous);
    assert forall|name: Text| kept.contains(name) implies all.contains(name) by {
        if state.runs_or_failed(name) {
            let key = choose|key: Text| #[trigger]
                state.apps.contains_key(key) && (state.apps[key].status is Online
                    || state.apps[key].status is Errored) && state.apps[key].config.name == name;
            assert(state.apps.contains_key(key));
        }
    }
    vstd::set_lib::lemma_set_subset_finite(all, kept);
    order::lemma_finite_set_is_listed(kept);
    let listed = order::ordered(kept);
    assert forall|i: int| 0 <= i < listed.len() implies app::valid_name(#[trigger] listed[i]) by {
        let name = listed[i];
        assert(listed.contains(name));
        assert(kept.contains(name));
        if state.runs_or_failed(name) {
            let key = choose|key: Text| #[trigger]
                state.apps.contains_key(key) && (state.apps[key].status is Online
                    || state.apps[key].status is Errored) && state.apps[key].config.name == name;
            assert(state.apps.contains_key(key));
        } else {
            let j = previous.index_of(name);
            assert(app::valid_name(previous[j]));
        }
    }
    assert(listed.no_duplicates()) by {
        assert forall|i: int, j: int|
            0 <= i < listed.len() && 0 <= j < listed.len() && i != j implies listed[i]
            != listed[j] by {
            if i < j {
                assert(order::text_lt(listed[i], listed[j]));
            } else {
                assert(order::text_lt(listed[j], listed[i]));
            }
        }
    }
}

/// After a change that is done, the snapshot that is written lists, in order and each once: every
/// app that is online or errored, and every name of the old snapshot that the daemon does not look
/// after, but for the one that was stopped or deleted. It is a valid snapshot.
pub proof fn law_snapshot_after_a_change(
    state: DaemonStateView,
    pending: daemon::PendingSyncView,
    read: SnapshotReplyView,
    now: int,
)
    requires
        state.well_named(),
        state.apps.dom().finite(),
        saved::loaded(state.paths, read) is Ok,
        now >= 0,
    ensures
        ({
            let previous = match saved::loaded(state.paths, read)->Ok_0 {
                Some(saved_apps) => saved_apps.app_names,
                None => Seq::empty(),
            };
            let after = state.snapshot_read_turn(pending, read, now);
            &&& after.state == state
            &&& after.step is WriteSnapshot
            &&& after.step->WriteSnapshot_0.message == pending.message
            &&& after.step->WriteSnapshot_0.saved_apps.verdict() is Ok
            &&& order::lists(
                after.step->WriteSnapshot_0.saved_apps.app_names,
                state.kept_names(previous, pending.excluded),
            )
        }),
{
    let previous = match saved::loaded(state.paths, read)->Ok_0 {
        Some(saved_apps) => saved_apps.app_names,
        None => Seq::empty(),
    };
    saved::law_loaded_snapshot_is_valid(state.paths, read);
    if let Some(saved_apps) = saved::loaded(state.paths, read)->Ok_0 {
        saved::law_valid_snapshot(saved_apps);
    }
    assert(saved::valid_names(previous));
    lemma_snapshot_is_written(state, pending, previous, now);
}

proof fn lemma_snapshot_is_written(
    state: DaemonStateView,
    pending: daemon::PendingSyncView,
    previous: Seq<Text>,
    now: int,
)
    requires
        state.well_named(),
        state.apps.dom().finite(),
        saved::valid_names(previous),
        now >= 0,
    ensures
        ({
            let step = state.sync_step(pending, previous, now);
            &&& step is WriteSnapshot
            &&& step->WriteSnapshot_0.message == pending.message
            &&& step->WriteSnapshot_0.saved_apps.verdict() is Ok
            &&& order::lists(
                step->WriteSnapshot_0.saved_apps.app_names,
                state.kept_names(previous, pending.excluded),
            )
        }),
{
    let kept = state.kept_names(previous, pending.excluded);
    lemma_kept_names(state, previous, pending.excluded);
    let names = order::ordered(kept);
    let seconds = timestamp::unix_seconds(now)->Ok_0;
    saved::law_snapshot_of_valid_names(names, seconds);
    let key = |name: Text| name;
    assert(order::ascending(names, key)) by {
        assert forall|i: int, j: int| 0 <= i <= j < names.len() implies order::text_le(
            key(#[trigger] names[i]),
            key(#[trigger] names[j]),
        ) by {
            if i == j {
                order::law_text_order_reflexive(names[i]);
            } else {
                assert(order::text_lt(names[i], names[j]));
            }
        }
    }
    order::law_arranged_keeps_order(names, key);
}

/// A snapshot that cannot be read is made anew from what the daemon knows, once that is reported.
pub proof fn law_unreadable_snapshot_is_rebuilt(
    state: DaemonStateView,
    pending: daemon::PendingSyncView,
    read: SnapshotReplyView,
    now: int,
)
    requires
        state.well_named(),
        state.apps.dom().finite(),
        saved::loaded(state.paths, read) is Err,
        now >= 0,
    ensures
        ({
            let reporting = state.snapshot_read_turn(pending, read, now);
            let after = next_turn(reporting, Reply::Logged(LogReply::Appended));
            &&& reporting.step is LogError
            &&& reporting.step->LogError_0.line == daemon::rebuild_line(
                saved::loaded(state.paths, read)->Err_0,
            )
            &&& after.state == state
            &&& after.step is WriteSnapshot
            &&& after.step->WriteSnapshot_0.message == pending.message
            &&& order::lists(
                after.step->WriteSnapshot_0.saved_apps.app_names,
                state.kept_names(Seq::empty(), pending.excluded),
            )
        }),
{
    assert(saved::valid_names(Seq::empty()));
    lemma_snapshot_is_written(state, pending, Seq::empty(), now);
}

/// An app that is stopped or deleted is not in the snapshot that follows, unless it is still online
/// or errored; an app that was started or restarted is.
pub proof fn law_snapshot_follows_the_change(
    state: DaemonStateView,
    previous: Seq<Text>,
    name: Text,
)
    requires
        state.well_named(),
    ensures
        !state.apps.contains_key(name) || state.apps[name].status is Stopped
            ==> !state.kept_names(previous, Some(name)).contains(name),
        state.apps.contains_key(name) && state.apps[name].status is Online ==> state.kept_names(
            previous,
            None,
        ).contains(name),
{
    if state.runs_or_failed(name) {
        let key = choose|key: Text| #[trigger]
            state.apps.contains_key(key) && (state.apps[key].status is Online
                || state.apps[key].status is Errored) && state.apps[key].config.name == name;
        assert(state.apps.contains_key(key));
    }
    if state.apps.contains_key(name) && state.apps[name].status is Online {
        assert(state.runs_or_failed(name));
    }
}

/// An app that could not be brought back stays in the snapshot, whatever happens to the others.
pub proof fn law_errored_app_stays_in_the_snapshot(
    state: DaemonStateView,
    previous: Seq<Text>,
    excluded: Option<Text>,
    name: Text,
)
    requires
        state.well_named(),
        state.apps.contains_key(name),
        state.apps[name].status is Errored,
    ensures
        state.kept_names(previous, excluded).contains(name),
{
    assert(state.runs_or_failed(name));
}

/// The request to save writes a valid snapshot that lists exactly the apps that are online, in
/// order and each once, and says how many they are.
pub proof fn law_save_lists_what_is_online(state: DaemonStateView, now: int)
    requires
        state.well_named(),
        state.apps.dom().finite(),
        now >= 0,
    ensures
        ({
            let after = state.request_turn(DaemonRequestView::Save, now);
            let online = Set::new(
                |name: Text| state.apps.contains_key(name) && state.apps[name].status is Online,
            );
            &&& after.state == state
            &&& after.step is WriteSnapshot
            &&& after.step->WriteSnapshot_0.saved_apps.verdict() is Ok
            &&& order::lists(after.step->WriteSnapshot_0.saved_apps.app_names, online)
            &&& after.step->WriteSnapshot_0.message == daemon::saved_message(
                state.paths,
                after.step->WriteSnapshot_0.saved_apps.app_names.len(),
            )
        }),
{
    let online = Set::new(
        |name: Text| state.apps.contains_key(name) && state.apps[name].status is Online,
    );
    order::lemma_finite_set_is_listed(state.apps.dom());
    let all = order::ordered(state.apps.dom());
    let is_online = |name: Text| state.apps[name].status is Online;
    let called = |name: Text| state.apps[name].config.name;
    let picked = all.filter(is_online);
    order::lemma_filtered_listing(all, state.apps.dom(), is_online);
    let names = picked.map_values(called);
    assert(names =~= picked) by {
        assert forall|i: int| 0 <= i < picked.len() implies called(#[trigger] picked[i])
            == picked[i] by {
            assert(picked.contains(picked[i]));
            assert(state.apps.dom().contains(picked[i]));
        }
    }
    assert(state.apps.dom().filter(is_online) =~= online);
    assert(saved::valid_names(names)) by {
        assert forall|i: int| 0 <= i < names.len() implies app::valid_name(#[trigger] names[i]) by {
            assert(picked.contains(picked[i]));
            assert(state.apps.contains_key(picked[i]));
        }
        assert forall|i: int, j: int|
            0 <= i < names.len() && 0 <= j < names.len() && i != j implies names[i]
            != names[j] by {
            if i < j {
                assert(order::text_lt(picked[i], picked[j]));
            } else {
                assert(order::text_lt(picked[j], picked[i]));
            }
        }
    }
    let seconds = timestamp::unix_seconds(now)->Ok_0;
    saved::law_snapshot_of_valid_names(names, seconds);
    let key = |name: Text| name;
    assert(order::ascending(names, key)) by {
        assert forall|i: int, j: int| 0 <= i <= j < names.len() implies order::text_le(
            key(#[trigger] names[i]),
            key(#[trigger] names[j]),
        ) by {
            if i == j {
                order::law_text_order_reflexive(names[i]);
            } else {
                assert(order::text_lt(picked[i], picked[j]));
            }
        }
    }
    order::law_arranged_keeps_order(names, key);
}

/// A list has one row for each app, in the order of the names.
pub proof fn law_list_has_every_app(state: DaemonStateView, now: int)
    requires
        state.well_named(),
        state.apps.dom().finite(),
    ensures
        ({
            let all = order::ordered(state.apps.dom());
            &&& order::lists(all, state.apps.dom())
            &&& state.rows(now) == all.map_values(|name: Text| state.apps[name].row(now))
            &&& forall|i: int|
                0 <= i < all.len() ==> (#[trigger] state.rows(now)[i]).name == all[i]
        }),
{
    order::lemma_finite_set_is_listed(state.apps.dom());
    let all = order::ordered(state.apps.dom());
    let rows = all.map_values(|name: Text| state.apps[name].row(now));
    let key = |row: AppStatusRow| row.name;
    assert forall|i: int| 0 <= i < all.len() implies (#[trigger] rows[i]).name == all[i] by {
        assert(all.contains(all[i]));
        assert(state.apps.contains_key(all[i]));
    }
    assert(order::ascending(rows, key)) by {
        assert forall|i: int, j: int| 0 <= i <= j < rows.len() implies order::text_le(
            key(#[trigger] rows[i]),
            key(#[trigger] rows[j]),
        ) by {
            if i == j {
                order::law_text_order_reflexive(rows[i].name);
            } else {
                assert(order::text_lt(all[i], all[j]));
            }
        }
    }
    order::law_arranged_keeps_order(rows, key);
}

/// What is saved is what comes back: a daemon that starts on the snapshot of a request to save goes
/// through it to the end, and then looks after exactly the apps that were online, as far as their
/// configurations are found. Those whose process comes up are online again.
pub proof fn law_saved_apps_come_back(
    state: DaemonStateView,
    now: int,
    replies: spec_fn(Text) -> RestoreReplies,
    name: Text,
)
    requires
        state.well_named(),
        state.apps.dom().finite(),
        now >= 0,
    ensures
        ({
            let saved_apps = state.request_turn(
                DaemonRequestView::Save,
                now,
            ).step->WriteSnapshot_0.saved_apps;
            let fresh = DaemonStateView { paths: state.paths, apps: Map::empty() };
            let first = fresh.restore_turn(SnapshotReplyView::Parsed(saved_apps));
            let last = daemon_restore::restore_run(fresh, saved_apps.app_names, replies);
            let was_online = state.apps.contains_key(name) && state.apps[name].status is Online;
            let back = daemon_restore::restored_app(state.paths, name, replies(name));
            &&& first == fresh.restore_next(saved_apps.app_names)
            &&& last.step is Done
            &&& last.state.apps.contains_key(name) <==> was_online && back is Some
            &&& last.state.apps.contains_key(name) ==> last.state.apps[name] == back->0
        }),
{
    let saved_apps = state.request_turn(
        DaemonRequestView::Save,
        now,
    ).step->WriteSnapshot_0.saved_apps;
    let fresh = DaemonStateView { paths: state.paths, apps: Map::empty() };
    let names = saved_apps.app_names;
    law_save_lists_what_is_online(state, now);
    saved::law_saved_snapshot_is_loaded(state.paths, saved_apps);
    saved::law_valid_snapshot(saved_apps);
    daemon_restore::law_restore_brings_back_the_snapshot(fresh, names, replies);
    if names.contains(name) {
        daemon_restore::law_restored_apps_are_independent(fresh, names, replies, name);
    } else {
        daemon_restore::law_restored_apps_are_in_order(fresh, names, replies);
        assert(runtime::same_app(
            fresh,
            daemon_restore::all_restored(fresh, names, replies),
            name,
        ));
    }
}

} // verus!
