//! What comes of each request: what the daemon then knows of the app, what it does outside, and what
//! it answers.
use crate::app::{AppConfigView, SaveReply};
use crate::daemon::{self, RequestStepView, Turn};
use crate::daemon_log::LogReply;
use crate::daemon_run::{self, Reply};
use crate::env_file;
use crate::failure;
use crate::file_path;
use crate::ipc::{AppStatusRow, DaemonRequestView, DaemonResponseView};
use crate::metadata::Metadata;
use crate::order;
use crate::process::{self, SignalError, SpawnReplyView};
use crate::runtime::{self, DaemonStateView, RuntimeAppView};
use crate::saved::{self, SnapshotReplyView};
use crate::text::{self, Text};
use crate::timestamp;
use vstd::prelude::*;

verus! {

/// A signal reached the processes, or there were none left to reach.
pub open spec fn delivered(sent: Result<(), SignalError>) -> bool {
    sent is Err ==> sent->Err_0.errno == Some(3i32)
}

/// The turn once the processes that `turn` ends, if any, were asked to end and were ended.
pub open spec fn once_ended(
    turn: Turn,
    first: Result<(), SignalError>,
    second: Result<(), SignalError>,
) -> Turn {
    if turn.step is Terminate {
        daemon_run::next_turn(
            daemon_run::next_turn(turn, Reply::Signalled(first)),
            Reply::Signalled(second),
        )
    } else {
        turn
    }
}

/// The turn once the process that `turn` starts runs.
pub open spec fn once_running(turn: Turn, pid: u32, started_at: int) -> Turn {
    daemon_run::next_turn(turn, Reply::Spawned(SpawnReplyView::Running(pid, started_at)))
}

/// The app runs as this process, and what else is known of it is what was known of `before`.
pub open spec fn runs_as(
    app: RuntimeAppView,
    before: RuntimeAppView,
    pid: u32,
    started_at: int,
) -> bool {
    &&& app.status is Online
    &&& app.pid == Some(pid)
    &&& app.started_at == Some(started_at)
    &&& app.config == before.config
    &&& app.restarts == before.restarts
    &&& app.restart_times == before.restart_times
}

/// The change is done, and the snapshot is looked at before it is answered so.
pub open spec fn done(step: RequestStepView, message: Text, excluded: Option<Text>) -> bool {
    &&& step is ReadSnapshot
    &&& step->ReadSnapshot_0.message == message
    &&& step->ReadSnapshot_0.excluded == excluded
}

/// The step is the final answer that the request failed for this reason.
pub open spec fn refused(step: RequestStepView, reason: Text) -> bool {
    step == RequestStepView::Respond(DaemonResponseView::Error(reason))
}

/// Which process is ended where the app has one: first asked to end, then ended 800 milliseconds
/// later. An app without a process is not signalled at all.
pub proof fn law_processes_are_ended_first(
    state: DaemonStateView,
    request: DaemonRequestView,
    now: int,
    first: Result<(), SignalError>,
)
    requires
        request is Stop || request is Restart || request is Reload || request is Delete,
        state.apps.contains_key(daemon_run::request_subject(request)->0),
        delivered(first),
    ensures
        ({
            let app = state.apps[daemon_run::request_subject(request)->0];
            let asked = state.request_turn(request, now);
            let waiting = daemon_run::next_turn(asked, Reply::Signalled(first));
            &&& asked.step is Terminate <==> app.pid is Some
            &&& app.pid is Some ==> {
                &&& asked.step->Terminate_0.pid == app.pid->0
                &&& waiting.step is Kill
                &&& waiting.step->Kill_0.pid == app.pid->0
                &&& waiting.step->Kill_1 == 800
            }
        }),
{
}

/// Restarting or reloading an app that is looked after starts it, whether it runs, was stopped or
/// has been given up. A process that it has is ended first. The new process gets the configuration
/// of the app, and the app is then online as that process, with its configuration, its count of
/// restarts and its record of exits as they were; and that is what is answered.
pub proof fn law_restart_starts_the_app(
    state: DaemonStateView,
    request: DaemonRequestView,
    now: int,
    first: Result<(), SignalError>,
    second: Result<(), SignalError>,
    pid: u32,
    started_at: int,
)
    requires
        request is Restart || request is Reload,
        state.apps.contains_key(daemon_run::request_subject(request)->0),
        delivered(first),
        delivered(second),
    ensures
        ({
            let name = daemon_run::request_subject(request)->0;
            let before = state.apps[name];
            let ended = once_ended(state.request_turn(request, now), first, second);
            let after = once_running(ended, pid, started_at);
            let word = if request is Restart {
                "restarted "@
            } else {
                "reloaded "@
            };
            &&& ended.step is Spawn
            &&& ended.step->Spawn_0.name == name
            &&& ended.step->Spawn_0.app.config == before.config
            &&& ended.step->Spawn_0.app.status is Starting
            &&& ended.step->Spawn_0.app.pid is None
            &&& ended.step->Spawn_1.program == before.config.binary_path
            &&& ended.step->Spawn_1.args == before.config.args
            &&& ended.step->Spawn_1.env == before.config.env
            &&& after.state.apps.dom() == state.apps.dom()
            &&& runs_as(after.state.apps[name], before, pid, started_at)
            &&& done(
                after.step,
                word + name + " with pid "@ + text::decimal_text(pid as nat),
                None,
            )
        }),
{
    let name = daemon_run::request_subject(request)->0;
    let ended = once_ended(state.request_turn(request, now), first, second);
    let after = once_running(ended, pid, started_at);
    assert(after.state.apps.dom() =~= state.apps.dom());
}

/// Stopping an app leaves it known and stopped without a process, whether it ran or not; its
/// configuration, its count of restarts and its record of exits stay, and no process is started.
pub proof fn law_stop_stops_the_app(
    state: DaemonStateView,
    name: Text,
    now: int,
    first: Result<(), SignalError>,
    second: Result<(), SignalError>,
)
    requires
        state.apps.contains_key(name),
        delivered(first),
        delivered(second),
    ensures
        ({
            let before = state.apps[name];
            let after = once_ended(
                state.request_turn(DaemonRequestView::Stop(name), now),
                first,
                second,
            );
            let app = after.state.apps[name];
            &&& after.state.apps.dom() == state.apps.dom()
            &&& app.status is Stopped
            &&& app.pid is None
            &&& app.started_at is None
            &&& app.config == before.config
            &&& app.restarts == before.restarts
            &&& app.restart_times == before.restart_times
            &&& done(after.step, "stopped "@ + name, Some(name))
        }),
{
    let after = once_ended(state.request_turn(DaemonRequestView::Stop(name), now), first, second);
    assert(after.state.apps.dom() =~= state.apps.dom());
}

/// A process that cannot be ended fails the request, which says which signal could not be sent to
/// which process and why; the app stays known without the process, as one that is being stopped.
pub proof fn law_unreachable_process_fails_the_request(
    state: DaemonStateView,
    request: DaemonRequestView,
    now: int,
    first: Result<(), SignalError>,
    second: Result<(), SignalError>,
)
    requires
        request is Stop || request is Restart || request is Reload || request is Delete,
        state.apps.contains_key(daemon_run::request_subject(request)->0),
        state.apps[daemon_run::request_subject(request)->0].pid is Some,
        !delivered(first) || !delivered(second),
    ensures
        ({
            let name = daemon_run::request_subject(request)->0;
            let before = state.apps[name];
            let after = once_ended(state.request_turn(request, now), first, second);
            let app = after.state.apps[name];
            let (signal, cause) = if !delivered(first) {
                ("15"@, first->Err_0.cause@)
            } else {
                ("9"@, second->Err_0.cause@)
            };
            &&& refused(
                after.step,
                "failed to send signal "@ + signal + " to process group "@ + text::decimal_text(
                    before.pid->0 as nat,
                ) + ": "@ + cause,
            )
            &&& after.state.apps.contains_key(name)
            &&& app.status is Stopping
            &&& app.pid is None
            &&& app.config == before.config
            &&& app.restarts == before.restarts
            &&& app.restart_times == before.restart_times
        }),
{
    reveal_strlit("15");
    reveal_strlit("9");
    reveal_with_fuel(text::decimal_text, 3);
    assert(text::decimal_text(15) =~= "15"@);
    assert(text::decimal_text(9) =~= "9"@);
}

/// Starting a valid app that does not run yet runs it as it was asked for, with no restart and no
/// exit on record, whatever was known under its name before; and that is what is answered.
pub proof fn law_start_runs_what_was_asked_for(
    state: DaemonStateView,
    config: AppConfigView,
    now: int,
    binary: Result<Metadata, Text>,
    directory: Result<Metadata, Text>,
    pid: u32,
    started_at: int,
)
    requires
        config.verdict(binary, directory) is Ok,
        state.apps.contains_key(config.name) ==> state.apps[config.name].pid is None,
    ensures
        ({
            let asked = state.request_turn(DaemonRequestView::Start(config), now);
            let found = daemon_run::next_turn(asked, Reply::Inspected(binary, directory));
            let after = once_running(found, pid, started_at);
            let app = after.state.apps[config.name];
            &&& asked.state == state
            &&& asked.step == RequestStepView::Inspect(config)
            &&& found.step is Spawn
            &&& found.step->Spawn_1.program == config.binary_path
            &&& found.step->Spawn_1.args == config.args
            &&& found.step->Spawn_1.env == config.env
            &&& after.state.apps.contains_key(config.name)
            &&& app.config == config
            &&& app.status is Online
            &&& app.pid == Some(pid)
            &&& app.started_at == Some(started_at)
            &&& app.restarts == 0
            &&& app.restart_times.len() == 0
            &&& done(
                after.step,
                "started "@ + config.name + " with pid "@ + text::decimal_text(pid as nat),
                None,
            )
        }),
{
}

/// Starting is refused, and nothing changes, where the app is not valid, with what is wrong with
/// it; and where it runs already, by name.
pub proof fn law_start_is_refused(
    state: DaemonStateView,
    config: AppConfigView,
    now: int,
    binary: Result<Metadata, Text>,
    directory: Result<Metadata, Text>,
)
    ensures
        ({
            let asked = state.request_turn(DaemonRequestView::Start(config), now);
            let found = daemon_run::next_turn(asked, Reply::Inspected(binary, directory));
            let runs = state.apps.contains_key(config.name) && state.apps[config.name].pid is Some;
            let verdict = config.verdict(binary, directory);
            &&& found.state == state
            &&& verdict is Err ==> refused(found.step, failure::one_line(verdict->Err_0))
            &&& verdict is Ok && runs ==> refused(
                found.step,
                "app '"@ + config.name + "' is already running"@,
            )
            &&& verdict is Ok && !runs ==> found.step is Spawn
        }),
{
}

/// A process that does not come up leaves the app errored and without a process, with everything
/// else that is known of it as it was, and the answer says why.
pub proof fn law_process_that_does_not_come_up(turn: Turn, reply: SpawnReplyView)
    requires
        turn.step is Spawn,
        turn.step->Spawn_0.app.pid is None,
        !(reply is Running),
    ensures
        ({
            let pending = turn.step->Spawn_0;
            let after = daemon_run::next_turn(turn, Reply::Spawned(reply));
            let app = after.state.apps[pending.name];
            &&& after.state.apps.contains_key(pending.name)
            &&& app.status is Errored
            &&& app.pid is None
            &&& app.config == pending.app.config
            &&& app.restarts == pending.app.restarts
            &&& app.restart_times == pending.app.restart_times
            &&& after.step is Respond
            &&& after.step->Respond_0 is Error
            &&& match reply {
                SpawnReplyView::NoStdoutLog(cause) => after.step->Respond_0->Error_0
                    == "failed to open stdout log for app '"@ + app.config.name + "'"@ + ": "@
                    + cause,
                SpawnReplyView::NoStderrLog(cause) => after.step->Respond_0->Error_0
                    == "failed to open stderr log for app '"@ + app.config.name + "'"@ + ": "@
                    + cause,
                SpawnReplyView::NotSpawned(cause) => after.step->Respond_0->Error_0
                    == "failed to spawn app '"@ + app.config.name + "'"@ + ": "@ + cause,
                SpawnReplyView::Exited(status) => after.step->Respond_0->Error_0 == "app '"@
                    + app.config.name + "' exited during startup with "@ + status + "; binary: "@
                    + file_path::lossy_text(app.config.binary_path) + "; see "@
                    + file_path::lossy_text(turn.state.paths.stderr_log(app.config.name)),
                SpawnReplyView::Running(_, _) => true,
            }
        }),
{
    reveal_with_fuel(text::separated, 3);
    let pending = turn.step->Spawn_0;
    let lines = process::spawned(turn.state.paths, pending.app.config, reply)->Err_0;
    if lines.len() == 2 {
        assert(lines.drop_last() =~= seq![lines[0]]);
    }
}

/// Reloading an app with a new environment, where it has no env file, gives it exactly the
/// environment that was sent, keeps the rest of its configuration, and stores that.
pub proof fn law_sent_environment_is_taken_over(
    state: DaemonStateView,
    name: Text,
    env: Map<Text, Text>,
    now: int,
)
    requires
        state.apps.contains_key(name),
        state.apps[name].config.env_file_path is None,
    ensures
        ({
            let before = state.apps[name];
            let asked = state.request_turn(DaemonRequestView::ReloadUpdateEnv(name, env), now);
            let pending = asked.step->SaveConfig_0;
            &&& asked.step is SaveConfig
            &&& pending.name == name
            &&& pending.path == state.paths.app_config(before.config.name)
            &&& environment_replaced(pending.app, before, env)
        }),
{
}

/// The app with this environment and nothing else of its configuration changed, about to be
/// restarted.
pub open spec fn environment_replaced(
    app: RuntimeAppView,
    before: RuntimeAppView,
    env: Map<Text, Text>,
) -> bool {
    &&& app.config.env == env
    &&& app.config.name == before.config.name
    &&& app.config.binary_path == before.config.binary_path
    &&& app.config.args == before.config.args
    &&& app.config.working_directory == before.config.working_directory
    &&& app.config.env_file_path == before.config.env_file_path
    &&& app.config.restart_policy == before.config.restart_policy
    &&& app.status is Reloading
    &&& app.pid == before.pid
    &&& app.started_at == before.started_at
    &&& app.restarts == before.restarts
    &&& app.restart_times == before.restart_times
}

/// Reloading an app with a new environment, where it has an env file, reads that file anew. A
/// variable that the file sets has the value of the file, any other one that was sent has the value
/// that was sent, and there are no others. The rest of the configuration stays.
pub proof fn law_env_file_is_set_over_what_was_sent(
    state: DaemonStateView,
    name: Text,
    env: Map<Text, Text>,
    now: int,
    content: Result<Text, Text>,
    key: Text,
)
    requires
        state.apps.contains_key(name),
        state.apps[name].config.env_file_path is Some,
        env_file::env_file_values(state.apps[name].config.env_file_path->0, content) is Ok,
    ensures
        ({
            let before = state.apps[name];
            let path = before.config.env_file_path->0;
            let values = env_file::env_file_values(path, content)->Ok_0;
            let asked = state.request_turn(DaemonRequestView::ReloadUpdateEnv(name, env), now);
            let read = daemon_run::next_turn(asked, Reply::EnvFile(content));
            let pending = read.step->SaveConfig_0;
            &&& asked.state == state
            &&& asked.step is ReadEnvFile
            &&& asked.step->ReadEnvFile_0.path == path
            &&& read.step is SaveConfig
            &&& pending.name == name
            &&& pending.path == state.paths.app_config(before.config.name)
            &&& environment_replaced(pending.app, before, pending.app.config.env)
            &&& values.contains_key(key) ==> pending.app.config.env.contains_key(key)
                && pending.app.config.env[key] == values[key]
            &&& !values.contains_key(key) ==> pending.app.config.env.contains_key(key)
                == env.contains_key(key)
            &&& !values.contains_key(key) && env.contains_key(key)
                ==> pending.app.config.env[key] == env[key]
        }),
{
}

/// A configuration with a new environment that is stored is what the app is then restarted with. One
/// that cannot be stored fails the request, and the app goes on being reloaded.
pub proof fn law_stored_environment_is_used(
    turn: Turn,
    written: SaveReply,
    first: Result<(), SignalError>,
    second: Result<(), SignalError>,
    pid: u32,
    started_at: int,
)
    requires
        turn.step is SaveConfig,
        delivered(first),
        delivered(second),
    ensures
        ({
            let pending = turn.step->SaveConfig_0;
            let stored = daemon_run::next_turn(turn, Reply::ConfigSaved(written));
            let ended = once_ended(stored, first, second);
            let after = once_running(ended, pid, started_at);
            &&& written is Written ==> {
                &&& stored.step is Terminate <==> pending.app.pid is Some
                &&& stored.step is Terminate ==> stored.step->Terminate_0.pid == pending.app.pid->0
                &&& ended.step is Spawn
                &&& ended.step->Spawn_1.env == pending.app.config.env
                &&& after.state.apps.contains_key(pending.name)
                &&& runs_as(after.state.apps[pending.name], pending.app, pid, started_at)
                &&& done(
                    after.step,
                    "restarted "@ + pending.name + " with pid "@ + text::decimal_text(pid as nat),
                    None,
                )
            }
            &&& !(written is Written) ==> {
                &&& stored.step is Respond
                &&& stored.step->Respond_0 is Error
                &&& stored.state.apps.contains_key(pending.name)
                &&& stored.state.apps[pending.name] == pending.app
            }
        }),
{
}

/// Deleting an app, known or not, deletes its configuration once its process is gone, and forgets
/// it. A configuration that cannot be deleted fails the request.
pub proof fn law_delete_forgets_the_app(
    state: DaemonStateView,
    name: Text,
    now: int,
    first: Result<(), SignalError>,
    second: Result<(), SignalError>,
    deleted: Result<(), Text>,
)
    requires
        delivered(first),
        delivered(second),
    ensures
        ({
            let ended = once_ended(
                state.request_turn(DaemonRequestView::Delete(name), now),
                first,
                second,
            );
            let after = daemon_run::next_turn(ended, Reply::ConfigDeleted(deleted));
            &&& ended.step is DeleteConfig
            &&& ended.step->DeleteConfig_0.path == state.paths.app_config(name)
            &&& !after.state.apps.contains_key(name)
            &&& deleted is Ok ==> done(after.step, "deleted "@ + name, Some(name))
            &&& deleted is Err ==> refused(
                after.step,
                "failed to delete app config at "@ + file_path::lossy_text(
                    state.paths.app_config(name),
                ) + ": "@ + deleted->Err_0,
            )
        }),
{
    reveal_with_fuel(text::separated, 3);
    if let Err(cause) = deleted {
        let line = "failed to delete app config at "@ + file_path::lossy_text(
            state.paths.app_config(name),
        );
        assert(seq![line, cause].drop_last() =~= seq![line]);
    }
}

/// A request for an app that is not looked after is refused by name.
pub proof fn law_unknown_name_is_told(
    state: DaemonStateView,
    request: DaemonRequestView,
    now: int,
)
    requires
        request is Stop || request is Restart || request is Reload || request is ReloadUpdateEnv,
        !state.apps.contains_key(daemon_run::request_subject(request)->0),
    ensures
        refused(
            state.request_turn(request, now).step,
            "app '"@ + daemon_run::request_subject(request)->0 + "' is not managed"@,
        ),
        state.request_turn(request, now).state == state,
{
}

/// A ping is answered with the protocol and the version of the daemon.
pub proof fn law_ping_tells_the_version(state: DaemonStateView, now: int)
    ensures
        state.request_turn(DaemonRequestView::Ping, now).step == RequestStepView::Respond(
            DaemonResponseView::Pong(1, "0.3.0"@),
        ),
{
}

/// The answer to the request for a list has one row for each app and no other, in the order of the
/// names, and each row carries what is known of its app: the process, the word for the status, the
/// count of restarts, the executable, and how long it has been running.
pub proof fn law_list_tells_every_app(state: DaemonStateView, now: int)
    requires
        state.well_named(),
        state.apps.dom().finite(),
    ensures
        ({
            let step = state.request_turn(DaemonRequestView::List, now).step;
            let rows = step->Respond_0->List_0;
            &&& step is Respond
            &&& step->Respond_0 is List
            &&& forall|i: int, j: int|
                0 <= i < j < rows.len() ==> order::text_lt(
                    (#[trigger] rows[i]).name,
                    (#[trigger] rows[j]).name,
                )
            &&& forall|name: Text|
                state.apps.contains_key(name) <==> exists|i: int|
                    0 <= i < rows.len() && (#[trigger] rows[i]).name == name
            &&& forall|i: int|
                0 <= i < rows.len() ==> tells((#[trigger] rows[i]), state.apps[rows[i].name], now)
        }),
{
    daemon_run::law_list_has_every_app(state, now);
    let all = order::ordered(state.apps.dom());
    let rows = state.rows(now);
    assert forall|name: Text|
        state.apps.contains_key(name) <==> exists|i: int|
            0 <= i < rows.len() && (#[trigger] rows[i]).name == name by {
        if state.apps.contains_key(name) {
            assert(all.contains(name));
            let i = all.index_of(name);
            assert(rows[i].name == name);
        }
        if exists|i: int| 0 <= i < rows.len() && (#[trigger] rows[i]).name == name {
            let i = choose|i: int| 0 <= i < rows.len() && (#[trigger] rows[i]).name == name;
            assert(all.contains(all[i]));
        }
    }
    assert forall|i: int, j: int| 0 <= i < j < rows.len() implies order::text_lt(
        (#[trigger] rows[i]).name,
        (#[trigger] rows[j]).name,
    ) by {
        assert(order::text_lt(all[i], all[j]));
    }
    assert forall|i: int| 0 <= i < rows.len() implies tells(
        (#[trigger] rows[i]),
        state.apps[rows[i].name],
        now,
    ) by {
        runtime::law_row_tells_the_app(state.apps[all[i]], now);
        assert(rows[i].name == all[i]);
    }
}

/// The row tells what is known of the app.
pub open spec fn tells(row: AppStatusRow, app: RuntimeAppView, now: int) -> bool {
    &&& row.pid == app.pid
    &&& row.restarts == app.restarts
    &&& row.binary_path == app.config.binary_path
    &&& row.status == match app.status {
        runtime::AppStatus::Stopped => "stopped"@,
        runtime::AppStatus::Starting => "starting"@,
        runtime::AppStatus::Online => "online"@,
        runtime::AppStatus::Stopping => "stopping"@,
        runtime::AppStatus::Reloading => "reloading"@,
        runtime::AppStatus::Errored => "errored"@,
    }
    &&& row.uptime_seconds is Some <==> app.started_at is Some && app.started_at->0 <= now
    &&& row.uptime_seconds is Some && now - app.started_at->0 < 0x1_0000_0000_0000_0000
        * 1_000_000_000 ==> row.uptime_seconds->0 * 1_000_000_000 <= now - app.started_at->0 < (
    row.uptime_seconds->0 + 1) * 1_000_000_000
}

/// A snapshot that is to be written at this time, in its place.
pub open spec fn dated_snapshot(step: RequestStepView, state: DaemonStateView, now: int) -> bool {
    let pending = step->WriteSnapshot_0;
    &&& step is WriteSnapshot
    &&& pending.saved_apps.version == 1
    &&& now < 0x1_0000_0000_0000_0000 * 1_000_000_000
        ==> pending.saved_apps.saved_at_unix_seconds * 1_000_000_000 <= now < (
    pending.saved_apps.saved_at_unix_seconds + 1) * 1_000_000_000
    &&& pending.write.target == state.paths.saved_apps()
    &&& pending.write == saved::snapshot_write(state.paths)
}

/// The request to save writes a snapshot, dated now, of exactly the apps that are online, in the
/// order of their names and each once. What is then answered is how many they are and where they
/// are saved; a snapshot that cannot be written is answered with why.
pub proof fn law_save_writes_what_is_online(
    state: DaemonStateView,
    now: int,
    written: Result<(), Seq<Text>>,
)
    requires
        state.well_named(),
        state.apps.dom().finite(),
        now >= 0,
    ensures
        ({
            let asked = state.request_turn(DaemonRequestView::Save, now);
            let names = asked.step->WriteSnapshot_0.saved_apps.app_names;
            let answer = daemon_run::next_turn(asked, Reply::SnapshotWritten(written));
            &&& dated_snapshot(asked.step, state, now)
            &&& order::strictly_ascending(names)
            &&& forall|name: Text|
                names.contains(name) <==> state.apps.contains_key(name) && state.apps[name].status
                    is Online
            &&& answer.state == state
            &&& written is Ok ==> answer.step == RequestStepView::Respond(
                DaemonResponseView::Done(
                    "saved "@ + text::decimal_text(names.len()) + " online app(s) to "@
                        + file_path::lossy_text(state.paths.saved_apps()),
                ),
            )
            &&& written is Err ==> refused(answer.step, failure::one_line(written->Err_0))
        }),
{
    daemon_run::law_save_lists_what_is_online(state, now);
    timestamp::law_seconds_are_whole(0, now, 0);
}

/// What a snapshot lists after a change: an app that is looked after is in it exactly where it is
/// online or errored; another name is in it exactly where the old snapshot has it and it is not the
/// one that was stopped or deleted.
pub open spec fn belongs(
    state: DaemonStateView,
    previous: Seq<Text>,
    excluded: Option<Text>,
    name: Text,
) -> bool {
    if state.apps.contains_key(name) {
        state.apps[name].status is Online || state.apps[name].status is Errored
    } else {
        previous.contains(name) && excluded != Some(name)
    }
}

proof fn lemma_belongs(
    state: DaemonStateView,
    previous: Seq<Text>,
    excluded: Option<Text>,
    name: Text,
)
    requires
        state.well_named(),
    ensures
        state.kept_names(previous, excluded).contains(name) <==> belongs(
            state,
            previous,
            excluded,
            name,
        ),
{
    if state.runs_or_failed(name) {
        let key = choose|key: Text| #[trigger]
            state.apps.contains_key(key) && (state.apps[key].status is Online
                || state.apps[key].status is Errored) && state.apps[key].config.name == name;
        assert(state.apps.contains_key(key));
    }
    if state.apps.contains_key(name) && (state.apps[name].status is Online
        || state.apps[name].status is Errored) {
        assert(state.runs_or_failed(name));
    }
}

/// A change that is done is answered once the snapshot is up to date: the old one is read, the new
/// one, dated now, lists what belongs into it in order, and what was done is answered once it is
/// written. Where it cannot be written the answer says that, though the change is done.
pub proof fn law_change_is_answered_with_its_snapshot(
    state: DaemonStateView,
    pending: daemon::PendingSyncView,
    read: SnapshotReplyView,
    now: int,
    written: Result<(), Seq<Text>>,
)
    requires
        state.well_named(),
        state.apps.dom().finite(),
        saved::loaded(state.paths, read) is Ok,
        now >= 0,
    ensures
        ({
            let turn = Turn { state, step: RequestStepView::ReadSnapshot(pending) };
            let after = daemon_run::next_turn(turn, Reply::SnapshotRead(read, now));
            let names = after.step->WriteSnapshot_0.saved_apps.app_names;
            let answer = daemon_run::next_turn(after, Reply::SnapshotWritten(written));
            let previous = match read {
                SnapshotReplyView::Parsed(old) => old.app_names,
                _ => Seq::empty(),
            };
            &&& dated_snapshot(after.step, state, now)
            &&& order::strictly_ascending(names)
            &&& forall|name: Text|
                names.contains(name) <==> #[trigger] belongs(
                    state,
                    previous,
                    pending.excluded,
                    name,
                )
            &&& answer.state == state
            &&& written is Ok ==> answer.step == RequestStepView::Respond(
                DaemonResponseView::Done(pending.message),
            )
            &&& written is Err ==> refused(
                answer.step,
                failure::one_line(
                    seq!["failed to synchronize restart snapshot after successful operation"@]
                        + written->Err_0,
                ),
            )
        }),
{
    daemon_run::law_snapshot_after_a_change(state, pending, read, now);
    saved::law_loaded_snapshot_is_valid(state.paths, read);
    timestamp::law_seconds_are_whole(0, now, 0);
    let previous = match read {
        SnapshotReplyView::Parsed(old) => old.app_names,
        _ => Seq::empty(),
    };
    let after = state.snapshot_read_turn(pending, read, now);
    let names = after.step->WriteSnapshot_0.saved_apps.app_names;
    assert forall|name: Text|
        names.contains(name) <==> #[trigger] belongs(state, previous, pending.excluded, name) by {
        lemma_belongs(state, previous, pending.excluded, name);
    }
}

/// An old snapshot that cannot be read does not keep a change from being answered: it is reported,
/// and the new one lists what the daemon knows. Where not even the report can be written, the answer
/// says so.
pub proof fn law_lost_snapshot_is_replaced(
    state: DaemonStateView,
    pending: daemon::PendingSyncView,
    read: SnapshotReplyView,
    now: int,
    reply: LogReply,
)
    requires
        state.well_named(),
        state.apps.dom().finite(),
        saved::loaded(state.paths, read) is Err,
        now >= 0,
    ensures
        ({
            let turn = Turn { state, step: RequestStepView::ReadSnapshot(pending) };
            let reporting = daemon_run::next_turn(turn, Reply::SnapshotRead(read, now));
            let after = daemon_run::next_turn(reporting, Reply::Logged(reply));
            let names = after.step->WriteSnapshot_0.saved_apps.app_names;
            &&& reporting.step is LogError
            &&& reporting.step->LogError_0.line
                == "failed to read the existing restart snapshot during automatic sync; rebuilding it from daemon state: "@
                + failure::one_line(saved::loaded(state.paths, read)->Err_0)
            &&& reply is Appended ==> {
                &&& dated_snapshot(after.step, state, now)
                &&& after.step->WriteSnapshot_0.message == pending.message
                &&& order::strictly_ascending(names)
                &&& forall|name: Text|
                    names.contains(name) <==> #[trigger] belongs(
                        state,
                        Seq::empty(),
                        pending.excluded,
                        name,
                    )
            }
            &&& !(reply is Appended) ==> after.step is Respond && after.step->Respond_0 is Error
            &&& after.state == state
        }),
{
    daemon_run::law_unreadable_snapshot_is_rebuilt(state, pending, read, now);
    timestamp::law_seconds_are_whole(0, now, 0);
    let reporting = state.snapshot_read_turn(pending, read, now);
    if reply is Appended {
        let after = daemon_run::next_turn(reporting, Reply::Logged(reply));
        let names = after.step->WriteSnapshot_0.saved_apps.app_names;
        assert forall|name: Text|
            names.contains(name) <==> #[trigger] belongs(
                state,
                Seq::empty(),
                pending.excluded,
                name,
            ) by {
            lemma_belongs(state, Seq::empty(), pending.excluded, name);
        }
    }
}

/// An env file that cannot be read, or that has a faulty line, fails the request with what is wrong
/// with it, and the app runs on as it was.
pub proof fn law_faulty_env_file_is_told(
    state: DaemonStateView,
    name: Text,
    env: Map<Text, Text>,
    now: int,
    content: Result<Text, Text>,
)
    requires
        state.apps.contains_key(name),
        state.apps[name].config.env_file_path is Some,
        env_file::env_file_values(state.apps[name].config.env_file_path->0, content) is Err,
    ensures
        ({
            let path = state.apps[name].config.env_file_path->0;
            let asked = state.request_turn(DaemonRequestView::ReloadUpdateEnv(name, env), now);
            let read = daemon_run::next_turn(asked, Reply::EnvFile(content));
            &&& read.state == state
            &&& refused(
                read.step,
                failure::one_line(env_file::env_file_values(path, content)->Err_0),
            )
        }),
{
}

/// At a time before the epoch no snapshot is written: the request to save is refused, and so is a
/// change that needs one.
pub proof fn law_no_snapshot_before_the_epoch(
    state: DaemonStateView,
    pending: daemon::PendingSyncView,
    read: SnapshotReplyView,
    now: int,
)
    requires
        now < 0,
        saved::loaded(state.paths, read) is Ok,
    ensures
        ({
            let saving = state.request_turn(DaemonRequestView::Save, now);
            let turn = Turn { state, step: RequestStepView::ReadSnapshot(pending) };
            let after = daemon_run::next_turn(turn, Reply::SnapshotRead(read, now));
            &&& saving.state == state
            &&& saving.step is Respond && saving.step->Respond_0 is Error
            &&& after.state == state
            &&& after.step is Respond && after.step->Respond_0 is Error
        }),
{
}

} // verus!
