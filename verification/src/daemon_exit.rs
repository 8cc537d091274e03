//! What the daemon does when a process of an app ends.
use crate::daemon_log::{self, append_daemon_error, LogReply};
use crate::failure::{self, Failure};
use crate::process::{
    self, spawn_app, ExitEvent, ExitEventView, LaunchPlan, LaunchPlanView, SpawnReply,
    SpawnReplyView,
};
use crate::runtime::{
    self, AppStatus, DaemonState, DaemonStateView, RuntimeApp, RuntimeAppView,
};
use crate::text::Text;
use crate::timestamp::{self, Timestamp};
use vstd::prelude::*;

verus! {

/// An app that is being restarted after an exit.
#[derive(Clone, Debug, PartialEq, Eq)]
pub struct PendingRestart {
    /// The name under which it is kept.
    pub name: String,
    /// The app.
    pub app: RuntimeApp,
}

/// An app that is being restarted after an exit.
#[verifier::ext_equal]
pub struct PendingRestartView {
    /// The name under which it is kept.
    pub name: Text,
    /// The app.
    pub app: RuntimeAppView,
}

impl View for PendingRestart {
    type V = PendingRestartView;

    open spec fn view(&self) -> PendingRestartView {
        PendingRestartView { name: self.name@, app: self.app@ }
    }
}

/// An app whose restart failed, which is reported.
#[derive(Clone, Debug, PartialEq, Eq)]
pub struct PendingReport {
    /// The name under which it is kept.
    pub name: String,
    /// The app.
    pub app: RuntimeApp,
    /// The report.
    pub line: String,
}

/// An app whose restart failed, which is reported.
#[verifier::ext_equal]
pub struct PendingReportView {
    /// The name under which it is kept.
    pub name: Text,
    /// The app.
    pub app: RuntimeAppView,
    /// The report.
    pub line: Text,
}

impl View for PendingReport {
    type V = PendingReportView;

    open spec fn view(&self) -> PendingReportView {
        PendingReportView { name: self.name@, app: self.app@, line: self.line@ }
    }
}

/// What is to be done next after an exit.
#[derive(Clone, Debug, PartialEq, Eq)]
pub enum ExitStep {
    /// Nothing.
    Done,
    /// Start the process of the app again.
    Spawn {
        /// The app.
        pending: PendingRestart,
        /// How to start it.
        plan: LaunchPlan,
    },
    /// Add a line to the log of the daemon's errors.
    Report {
        /// The app.
        pending: PendingReport,
    },
    /// End the daemon.
    Fail {
        /// Why.
        failure: Failure,
    },
}

/// What is to be done next after an exit.
#[verifier::ext_equal]
pub enum ExitStepView {
    /// Nothing.
    Done,
    /// Start the process of the app again.
    Spawn(PendingRestartView, LaunchPlanView),
    /// Add a line to the log of the daemon's errors.
    Report(PendingReportView),
    /// End the daemon.
    Fail(Seq<Text>),
}

impl View for ExitStep {
    type V = ExitStepView;

    open spec fn view(&self) -> ExitStepView {
        match self {
            ExitStep::Done => ExitStepView::Done,
            ExitStep::Spawn { pending, plan } => ExitStepView::Spawn(pending@, plan@),
            ExitStep::Report { pending } => ExitStepView::Report(pending@),
            ExitStep::Fail { failure } => ExitStepView::Fail(failure@),
        }
    }
}

/// What the daemon knows after a step, and the step that comes next.
#[verifier::ext_equal]
pub struct ExitTurn {
    /// What the daemon knows.
    pub state: DaemonStateView,
    /// The step that comes next.
    pub step: ExitStepView,
}

impl RuntimeAppView {
    /// The app once its process has ended.
    pub open spec fn exited(self) -> RuntimeAppView {
        RuntimeAppView { pid: None, started_at: None, ..self }
    }

    /// The app with its exit at the time `now` counted.
    pub open spec fn counted(self, now: int) -> RuntimeAppView {
        RuntimeAppView { restart_times: self.exits(now), ..self }
    }

    /// The app on its way to being restarted after an exit.
    pub open spec fn restarting(self) -> RuntimeAppView {
        RuntimeAppView {
            restarts: (self.restarts + 1) as u32,
            status: AppStatus::Starting,
            ..self
        }
    }
}

/// The report that an app could not be restarted.
pub open spec fn restart_report(name: Text, lines: Seq<Text>) -> Text {
    "failed to restart app '"@ + name + "' after child exit: "@ + failure::one_line(lines)
}

impl DaemonStateView {
    /// A process has ended, at the time `now`. It counts only where it is the process of the app.
    pub open spec fn exit_turn(self, event: ExitEventView, now: int) -> ExitTurn {
        if !self.apps.contains_key(event.name) || self.apps[event.name].pid != Some(event.pid) {
            ExitTurn { state: self, step: ExitStepView::Done }
        } else {
            let app = self.apps[event.name].exited();
            let name = app.config.name;
            let rest = self.without(event.name);
            if app.status is Stopped || app.status is Stopping {
                ExitTurn {
                    state: rest.with(name, app.turned(AppStatus::Stopped)),
                    step: ExitStepView::Done,
                }
            } else if app.crashing(now) {
                ExitTurn {
                    state: rest.with(name, app.counted(now).turned(AppStatus::Errored)),
                    step: ExitStepView::Done,
                }
            } else {
                ExitTurn {
                    state: rest,
                    step: ExitStepView::Spawn(
                        PendingRestartView { name, app: app.counted(now).restarting() },
                        LaunchPlanView::of_app(self.paths, app.config),
                    ),
                }
            }
        }
    }

    /// The process of the app was started again, or not.
    pub open spec fn restarted_turn(
        self,
        pending: PendingRestartView,
        reply: SpawnReplyView,
    ) -> ExitTurn {
        match process::spawned(self.paths, pending.app.config, reply) {
            Ok((pid, started_at)) => ExitTurn {
                state: self.with(pending.name, pending.app.running(pid, started_at)),
                step: ExitStepView::Done,
            },
            Err(lines) => ExitTurn {
                state: self,
                step: ExitStepView::Report(
                    PendingReportView {
                        name: pending.name,
                        app: pending.app.turned(AppStatus::Errored),
                        line: restart_report(pending.name, lines),
                    },
                ),
            },
        }
    }

    /// The failed restart was reported, or not.
    pub open spec fn reported_turn(self, pending: PendingReportView, reply: LogReply) -> ExitTurn {
        match daemon_log::logged(self.paths, reply) {
            Ok(_) => ExitTurn {
                state: self.with(pending.name, pending.app),
                step: ExitStepView::Done,
            },
            Err(lines) => ExitTurn { state: self, step: ExitStepView::Fail(lines) },
        }
    }
}

impl DaemonState {
    /// Whether the app would be restarted after this exit, at the time `now`, and has been restarted
    /// as often as can be counted.
    pub fn restart_counter_is_full(&self, event: &ExitEvent, now: &Timestamp) -> (r: bool)
        ensures
            r == (self@.exit_turn(event@, now@).step is Spawn && self@.apps[event@.name].restarts
                == u32::MAX),
    {
        match self.get(event.name.as_str()) {
            None => false,
            Some(app) => {
                let is_current = match app.pid {
                    Some(pid) => pid == event.pid,
                    None => false,
                };
                is_current && !matches!(app.status, AppStatus::Stopped | AppStatus::Stopping)
                    && !app.is_crashing(now) && app.restarts == u32::MAX
            },
        }
    }

    /// Takes up that a process has ended, at the time `now`.
    pub fn handle_exit_event(&mut self, event: ExitEvent, now: Timestamp) -> (r: ExitStep)
        requires
            old(self)@.exit_turn(event@, now@).step is Spawn
                ==> old(self)@.apps[event@.name].restarts < u32::MAX,
        ensures
            (ExitTurn { state: final(self)@, step: r@ }) == old(self)@.exit_turn(event@, now@),
    {
        match self.get(event.name.as_str()) {
            None => {
                return ExitStep::Done;
            },
            Some(app) => {
                let is_current = match app.pid {
                    Some(pid) => pid == event.pid,
                    None => false,
                };
                if !is_current {
                    return ExitStep::Done;
                }
            },
        }
        let mut app = match self.take(event.name.as_str()) {
            None => {
                return ExitStep::Done;
            },
            Some(app) => app,
        };
        app.pid = None;
        app.started_at = None;
        let name = app.config.name.clone();
        if matches!(app.status, AppStatus::Stopped | AppStatus::Stopping) {
            app.status = AppStatus::Stopped;
            self.put(name, app);
            return ExitStep::Done;
        }
        if app.should_mark_errored(&now) {
            app.status = AppStatus::Errored;
            self.put(name, app);
            return ExitStep::Done;
        }
        app.restarts = app.restarts + 1;
        app.status = AppStatus::Starting;
        let plan = LaunchPlan::of_app(&self.paths, &app.config);
        ExitStep::Spawn { pending: PendingRestart { name, app }, plan }
    }

    /// Goes on once the process of the app was started again, or not.
    pub fn restarted(&mut self, pending: PendingRestart, reply: SpawnReply) -> (r: ExitStep)
        ensures
            (ExitTurn { state: final(self)@, step: r@ }) == old(self)@.restarted_turn(
                pending@,
                reply@,
            ),
    {
        let PendingRestart { name, app } = pending;
        let mut app = app;
        match spawn_app(&self.paths, &app.config, reply) {
            Ok((pid, started_at)) => {
                app.run_as(pid, started_at);
                self.put(name, app);
                ExitStep::Done
            },
            Err(failure) => {
                app.status = AppStatus::Errored;
                let line = "failed to restart app '".to_owned().concat(name.as_str()).concat(
                    "' after child exit: ",
                ).concat(failure.text().as_str());
                ExitStep::Report { pending: PendingReport { name, app, line } }
            },
        }
    }

    /// Goes on once the failed restart was reported, or not.
    pub fn restart_reported(&mut self, pending: PendingReport, reply: LogReply) -> (r: ExitStep)
        ensures
            (ExitTurn { state: final(self)@, step: r@ }) == old(self)@.reported_turn(
                pending@,
                reply,
            ),
    {
        match append_daemon_error(&self.paths, reply) {
            Ok(_) => {
                self.put(pending.name, pending.app);
                ExitStep::Done
            },
            Err(failure) => ExitStep::Fail { failure },
        }
    }
}

/// An exit is news only from the process that the daemon takes for the process of the app: that of
/// an earlier process, or of an app that was stopped or deleted, changes nothing.
pub proof fn law_stale_exit_is_ignored(state: DaemonStateView, event: ExitEventView, now: int)
    requires
        !state.apps.contains_key(event.name) || state.apps[event.name].pid != Some(event.pid),
    ensures
        state.exit_turn(event, now) == (ExitTurn { state, step: ExitStepView::Done }),
{
}

/// What an exit leads to leaves the other apps alone, however the restart goes.
pub proof fn law_exit_leaves_other_apps_alone(
    state: DaemonStateView,
    event: ExitEventView,
    now: int,
    reply: SpawnReplyView,
    logged: LogReply,
    other: Text,
)
    requires
        state.well_named(),
        other != event.name,
    ensures
        runtime::same_app(state, after_exit(state, event, now, reply, logged), other),
        after_exit(state, event, now, reply, logged).paths == state.paths,
{
}

/// What the daemon knows once everything that an exit leads to is done.
pub open spec fn after_exit(
    state: DaemonStateView,
    event: ExitEventView,
    now: int,
    reply: SpawnReplyView,
    logged: LogReply,
) -> DaemonStateView {
    let first = state.exit_turn(event, now);
    match first.step {
        ExitStepView::Spawn(pending, _) => {
            let second = first.state.restarted_turn(pending, reply);
            match second.step {
                ExitStepView::Report(report) => second.state.reported_turn(report, logged).state,
                _ => second.state,
            }
        },
        _ => first.state,
    }
}

/// What an exit leads to leaves the daemon with apps that stand under their own valid names and
/// whose processes, statuses and times fit together, however the restart goes.
pub proof fn law_exits_keep_the_apps_in_order(
    state: DaemonStateView,
    event: ExitEventView,
    now: int,
    reply: SpawnReplyView,
    logged: LogReply,
)
    requires
        state.well_named(),
        state.well_tracked(),
    ensures
        after_exit(state, event, now, reply, logged).well_named(),
        after_exit(state, event, now, reply, logged).well_tracked(),
{
}

/// An app that ends unexpectedly, and not too often, runs again: with a new process, one restart
/// more, and the same configuration.
pub proof fn law_unexpected_exit_is_restarted(
    state: DaemonStateView,
    event: ExitEventView,
    now: int,
    pid: u32,
    started_at: int,
    logged: LogReply,
)
    requires
        state.well_named(),
        state.apps.contains_key(event.name),
        state.apps[event.name].pid == Some(event.pid),
        state.apps[event.name].status is Online,
        state.apps[event.name].restarts < u32::MAX,
        !state.apps[event.name].crashing(now),
    ensures
        ({
            let before = state.apps[event.name];
            let after = after_exit(
                state,
                event,
                now,
                SpawnReplyView::Running(pid, started_at),
                logged,
            ).apps[event.name];
            &&& after.status is Online
            &&& after.pid == Some(pid)
            &&& after.started_at == Some(started_at)
            &&& after.restarts == before.restarts + 1
            &&& after.config == before.config
        }),
{
}

/// An app that crashes too often is marked as errored and not restarted.
pub proof fn law_crash_loop_ends(state: DaemonStateView, event: ExitEventView, now: int)
    requires
        state.well_named(),
        state.apps.contains_key(event.name),
        state.apps[event.name].pid == Some(event.pid),
        state.apps[event.name].status is Online,
        state.apps[event.name].crashing(now),
    ensures
        ({
            let after = state.exit_turn(event, now);
            &&& after.step is Done
            &&& after.state.apps.contains_key(event.name)
            &&& after.state.apps[event.name].status is Errored
            &&& after.state.apps[event.name].pid is None
            &&& after.state.apps[event.name].restarts == state.apps[event.name].restarts
        }),
{
}

/// An app whose restart fails, at once or soon, is marked as errored, which is reported by name.
/// The daemon goes on.
pub proof fn law_failed_restart_is_errored(
    state: DaemonStateView,
    pending: PendingRestartView,
    reply: SpawnReplyView,
)
    requires
        pending.app.pid is None,
        process::spawned(state.paths, pending.app.config, reply) is Err,
    ensures
        ({
            let lines = process::spawned(state.paths, pending.app.config, reply)->Err_0;
            let reporting = state.restarted_turn(pending, reply);
            let after = state.reported_turn(reporting.step->Report_0, LogReply::Appended);
            &&& reporting.state == state
            &&& reporting.step is Report
            &&& reporting.step->Report_0.line == restart_report(pending.name, lines)
            &&& after.step is Done
            &&& after.state.apps[pending.name].status is Errored
            &&& after.state.apps[pending.name].pid is None
        }),
{
}

/// The app once its exits at `moments` are counted.
pub open spec fn after_exits(app: RuntimeAppView, moments: Seq<int>) -> RuntimeAppView
    decreases moments.len(),
{
    if moments.len() == 0 {
        app
    } else {
        after_exits(app, moments.drop_last()).counted(moments.last())
    }
}

/// Moments in the order of time.
pub open spec fn in_time(moments: Seq<int>) -> bool {
    forall|i: int, j: int| 0 <= i <= j < moments.len() ==> moments[i] <= moments[j]
}

/// Those of `moments` that lie within the window of the app before `now`.
pub open spec fn within_window(app: RuntimeAppView, moments: Seq<int>, now: int) -> Seq<int> {
    moments.filter(
        |time: int| timestamp::recent(time, now, app.config.restart_policy.window_seconds),
    )
}

proof fn lemma_filter_twice(s: Seq<int>, wide: spec_fn(int) -> bool, narrow: spec_fn(int) -> bool)
    requires
        forall|x: int| #[trigger] narrow(x) ==> wide(x),
    ensures
        s.filter(wide).filter(narrow) == s.filter(narrow),
    decreases s.len(),
{
    reveal(Seq::filter);
    if s.len() > 0 {
        lemma_filter_twice(s.drop_last(), wide, narrow);
        if wide(s.last()) {
            s.drop_last().filter(wide).lemma_filter_push(s.last(), narrow);
        }
    }
}

proof fn lemma_counted_exits(app: RuntimeAppView, moments: Seq<int>)
    requires
        app.restart_times.len() == 0,
        in_time(moments),
    ensures
        after_exits(app, moments).config == app.config,
        after_exits(app, moments).restart_times == if moments.len() == 0 {
            Seq::empty()
        } else {
            within_window(app, moments, moments.last())
        },
    decreases moments.len(),
{
    let seconds = app.config.restart_policy.window_seconds;
    if moments.len() == 0 {
        assert(app.restart_times =~= Seq::<int>::empty());
    } else {
        let front = moments.drop_last();
        let now = moments.last();
        assert(in_time(front)) by {
            assert forall|i: int, j: int| 0 <= i <= j < front.len() implies front[i]
                <= front[j] by {
                assert(moments[i] <= moments[j]);
            }
        }
        lemma_counted_exits(app, front);
        let narrow = |time: int| timestamp::recent(time, now, seconds);
        front.lemma_filter_push(now, narrow);
        assert(moments == front.push(now));
        if front.len() > 0 {
            let wide = |time: int| timestamp::recent(time, front.last(), seconds);
            assert(moments[front.len() - 1] <= moments[moments.len() - 1]);
            lemma_filter_twice(front, wide, narrow);
        } else {
            reveal(Seq::filter);
            assert(front =~= Seq::<int>::empty());
        }
    }
}

/// An app that starts without a record and whose process ends at `moments`, in the order of time,
/// is marked as errored at the last of them exactly where more of them than its policy allows lie
/// within its window before that moment.
pub proof fn law_crash_loop_is_counted_exactly(app: RuntimeAppView, moments: Seq<int>)
    requires
        app.restart_times.len() == 0,
        moments.len() > 0,
        in_time(moments),
    ensures
        after_exits(app, moments.drop_last()).crashing(moments.last()) <==> within_window(
            app,
            moments,
            moments.last(),
        ).len() > app.config.restart_policy.max_restarts,
{
    lemma_counted_exits(app, moments);
    let front = moments.drop_last();
    assert(in_time(front)) by {
        assert forall|i: int, j: int| 0 <= i <= j < front.len() implies front[i] <= front[j] by {
            assert(moments[i] <= moments[j]);
        }
    }
    lemma_counted_exits(app, front);
}

/// An app whose process ends slowly, so that of any `max_restarts + 1` exits in a row the first is
/// out of the window of the last, is restarted forever.
pub proof fn law_slow_exits_are_restarted_forever(app: RuntimeAppView, moments: Seq<int>)
    requires
        app.restart_times.len() == 0,
        moments.len() > 0,
        in_time(moments),
        app.config.restart_policy.max_restarts > 0,
        forall|i: int|
            0 <= i && i + app.config.restart_policy.max_restarts < moments.len()
                ==> !timestamp::recent(
                #[trigger] moments[i],
                moments[i + app.config.restart_policy.max_restarts],
                app.config.restart_policy.window_seconds,
            ),
    ensures
        !after_exits(app, moments.drop_last()).crashing(moments.last()),
{
    law_crash_loop_is_counted_exactly(app, moments);
    let most = app.config.restart_policy.max_restarts as int;
    let now = moments.last();
    let seconds = app.config.restart_policy.window_seconds;
    let counts = |time: int| timestamp::recent(time, now, seconds);
    if moments.len() > most {
        let split = moments.len() - most;
        let (old, new) = (moments.take(split), moments.skip(split));
        assert(moments == old + new);
        Seq::filter_distributes_over_add(old, new, counts);
        let last_old = split - 1;
        assert(!timestamp::recent(moments[last_old], moments[last_old + most], seconds));
        assert forall|i: int| 0 <= i < old.len() implies !counts(#[trigger] old[i]) by {
            assert(moments[i] <= moments[last_old]);
        }
        old.lemma_all_neg_filter_empty(counts);
        new.lemma_filter_len(counts);
    } else {
        moments.lemma_filter_len(counts);
    }
}

/// An app whose process ends fast, so that `max_restarts + 1` exits in a row lie within its window,
/// is marked as errored at the last of them at the latest.
pub proof fn law_fast_exits_are_errored(app: RuntimeAppView, moments: Seq<int>)
    requires
        app.restart_times.len() == 0,
        in_time(moments),
        moments.len() > app.config.restart_policy.max_restarts,
        timestamp::recent(
            moments[moments.len() - 1 - app.config.restart_policy.max_restarts],
            moments.last(),
            app.config.restart_policy.window_seconds,
        ),
    ensures
        after_exits(app, moments.drop_last()).crashing(moments.last()),
{
    law_crash_loop_is_counted_exactly(app, moments);
    let most = app.config.restart_policy.max_restarts as int;
    let now = moments.last();
    let counts = |time: int|
        timestamp::recent(time, now, app.config.restart_policy.window_seconds);
    let split = moments.len() - 1 - most;
    let (old, new) = (moments.take(split), moments.skip(split));
    assert(moments == old + new);
    Seq::filter_distributes_over_add(old, new, counts);
    assert forall|i: int| 0 <= i < new.len() implies counts(#[trigger] new[i]) by {
        assert(new[i] == moments[split + i]);
        assert(moments[split] <= moments[split + i]);
    }
    lemma_filter_keeps_all(new, counts);
}

proof fn lemma_filter_keeps_all(s: Seq<int>, picks: spec_fn(int) -> bool)
    requires
        forall|i: int| 0 <= i < s.len() ==> picks(#[trigger] s[i]),
    ensures
        s.filter(picks) == s,
    decreases s.len(),
{
    reveal(Seq::filter);
    if s.len() > 0 {
        let front = s.drop_last();
        assert forall|i: int| 0 <= i < front.len() implies picks(#[trigger] front[i]) by {
            assert(front[i] == s[i]);
        }
        lemma_filter_keeps_all(front, picks);
        assert(picks(s[s.len() - 1]));
        assert(s == front.push(s.last()));
    }
}

/// The exits that count at the time `now`: those recorded that are no further back than the window
/// of the app is long, and the present one.
pub open spec fn record_at(app: RuntimeAppView, now: int) -> Seq<int> {
    app.restart_times.filter(
        |time: int| now - time <= app.config.restart_policy.window_seconds * 1_000_000_000,
    ).push(now)
}

/// An exit that nobody asked for is recorded, however the app goes on: afterwards the record holds
/// the earlier exits that are still within the window and this one, whatever the count of restarts.
/// Where the record is longer than the restarts that are allowed, the app is errored without a
/// process and its restarts stay as they are. Where it is not, the app is started again, which is
/// one restart more: it is online with the process that came up, or errored where none did. Its
/// configuration stays, and so do the names that the daemon knows.
pub proof fn law_every_exit_is_recorded(
    state: DaemonStateView,
    event: ExitEventView,
    now: int,
    reply: SpawnReplyView,
)
    requires
        state.apps.contains_key(event.name),
        state.apps[event.name].config.name == event.name,
        state.apps[event.name].pid == Some(event.pid),
        !(state.apps[event.name].status is Stopped),
        !(state.apps[event.name].status is Stopping),
        state.apps[event.name].restarts < u32::MAX,
    ensures
        ({
            let before = state.apps[event.name];
            let most = before.config.restart_policy.max_restarts;
            let record = record_at(before, now);
            let last = after_exit(state, event, now, reply, LogReply::Appended);
            let after = last.apps[event.name];
            &&& last.apps.dom() == state.apps.dom()
            &&& after.restart_times == record
            &&& after.config == before.config
            &&& state.exit_turn(event, now).step is Spawn <==> record.len() <= most
            &&& record.len() > most ==> after.status is Errored && after.pid is None
                && after.started_at is None && after.restarts == before.restarts
            &&& record.len() <= most ==> after.restarts == before.restarts + 1
            &&& record.len() <= most ==> match reply {
                SpawnReplyView::Running(pid, started_at) => after.status is Online && after.pid
                    == Some(pid) && after.started_at == Some(started_at),
                _ => after.status is Errored && after.pid is None && after.started_at is None,
            }
        }),
{
    let before = state.apps[event.name];
    runtime::law_exits_count_within_the_window(before, now);
    runtime::law_exits_count_within_the_window(before.exited(), now);
    let last = after_exit(state, event, now, reply, LogReply::Appended);
    assert(last.apps.dom() =~= state.apps.dom());
}

/// The end of a process that was asked to end is no crash: the app is stopped without a process, is
/// not started again, and what else is known of it stays.
pub proof fn law_expected_exit_is_no_crash(state: DaemonStateView, event: ExitEventView, now: int)
    requires
        state.apps.contains_key(event.name),
        state.apps[event.name].config.name == event.name,
        state.apps[event.name].pid == Some(event.pid),
        state.apps[event.name].status is Stopped || state.apps[event.name].status is Stopping,
    ensures
        ({
            let before = state.apps[event.name];
            let turn = state.exit_turn(event, now);
            let after = turn.state.apps[event.name];
            &&& turn.step is Done
            &&& turn.state.apps.contains_key(event.name)
            &&& after.status is Stopped
            &&& after.pid is None
            &&& after.started_at is None
            &&& after.config == before.config
            &&& after.restarts == before.restarts
            &&& after.restart_times == before.restart_times
        }),
{
}

/// One end of the process of an app, and the process that is then started in its place.
pub struct Ending {
    /// When the process ended.
    pub at: int,
    /// The process that comes up, where one is started.
    pub pid: u32,
    /// Since when that one runs.
    pub started_at: int,
}

/// What the daemon knows once the app under `name` has ended and come up again so often. Without a
/// process there is nothing to end.
pub open spec fn after_endings(state: DaemonStateView, name: Text, endings: Seq<Ending>) ->
    DaemonStateView
    decreases endings.len(),
{
    if endings.len() == 0 {
        state
    } else {
        let before = after_endings(state, name, endings.drop_last());
        let last = endings.last();
        match before.apps[name].pid {
            None => before,
            Some(pid) => after_exit(
                before,
                ExitEventView { name, pid },
                last.at,
                SpawnReplyView::Running(last.pid, last.started_at),
                LogReply::Appended,
            ),
        }
    }
}

/// Endings in the order of time.
pub open spec fn endings_in_time(endings: Seq<Ending>) -> bool {
    forall|i: int, j: int| 0 <= i <= j < endings.len() ==> endings[i].at <= endings[j].at
}

/// The app under `name` runs, or has been given up.
pub open spec fn runs_or_given_up(state: DaemonStateView, name: Text) -> bool {
    let app = state.apps[name];
    &&& state.apps.contains_key(name)
    &&& app.config.name == name
    &&& (app.status is Online && app.pid is Some) || (app.status is Errored && app.pid is None)
}

proof fn lemma_one_ending(state: DaemonStateView, name: Text, endings: Seq<Ending>)
    requires
        endings.len() > 0,
        runs_or_given_up(after_endings(state, name, endings.drop_last()), name),
    ensures
        ({
            let before = after_endings(state, name, endings.drop_last());
            let after = after_endings(state, name, endings);
            let most = before.apps[name].config.restart_policy.max_restarts;
            let record = record_at(before.apps[name], endings.last().at);
            &&& runs_or_given_up(after, name)
            &&& after.apps[name].config == before.apps[name].config
            &&& before.apps[name].status is Errored ==> after == before
            &&& before.apps[name].status is Online ==> after.apps[name].restart_times == record
            &&& before.apps[name].status is Online ==> (after.apps[name].status is Online
                <==> record.len() <= most)
            &&& before.apps[name].restarts < u32::MAX && after.apps[name].status is Online
                ==> after.apps[name].restarts == before.apps[name].restarts + 1
        }),
{
    let before = after_endings(state, name, endings.drop_last());
    let app = before.apps[name];
    let now = endings.last().at;
    runtime::law_exits_count_within_the_window(app, now);
    runtime::law_exits_count_within_the_window(app.exited(), now);
}

proof fn lemma_ending_keeps_to_the_policy(state: DaemonStateView, name: Text, endings: Seq<Ending>)
    requires
        runs_or_given_up(state, name),
    ensures
        runs_or_given_up(after_endings(state, name, endings), name),
        after_endings(state, name, endings).apps[name].config == state.apps[name].config,
        after_endings(state, name, endings).apps[name].status is Online
            && state.apps[name].restarts + endings.len() <= u32::MAX ==> after_endings(
            state,
            name,
            endings,
        ).apps[name].restarts == state.apps[name].restarts + endings.len(),
    decreases endings.len(),
{
    if endings.len() > 0 {
        lemma_ending_keeps_to_the_policy(state, name, endings.drop_last());
        lemma_one_ending(state, name, endings);
    }
}

proof fn lemma_kept_ending(s: Seq<int>, n: int, picks: spec_fn(int) -> bool)
    requires
        0 <= n <= s.len(),
        forall|i: int| n <= i < s.len() ==> picks(#[trigger] s[i]),
    ensures
        s.filter(picks) == s.take(n).filter(picks) + s.skip(n),
{
    assert(s == s.take(n) + s.skip(n));
    Seq::filter_distributes_over_add(s.take(n), s.skip(n), picks);
    lemma_filter_keeps_all(s.skip(n), picks);
}

/// The times of some endings.
pub open spec fn ending_times(endings: Seq<Ending>) -> Seq<int> {
    endings.map_values(|ending: Ending| ending.at)
}

proof fn lemma_record_ends_in(
    state: DaemonStateView,
    name: Text,
    endings: Seq<Ending>,
    from: int,
)
    requires
        runs_or_given_up(state, name),
        endings_in_time(endings),
        0 <= from <= endings.len(),
        from < endings.len() ==> endings.last().at - endings[from].at
            <= state.apps[name].config.restart_policy.window_seconds * 1_000_000_000,
    ensures
        ({
            let app = after_endings(state, name, endings).apps[name];
            app.status is Online ==> {
                let record = app.restart_times;
                &&& record.len() >= endings.len() - from
                &&& record.skip(record.len() - (endings.len() - from)) == ending_times(
                    endings,
                ).skip(from)
            }
        }),
    decreases endings.len(),
{
    let times = ending_times(endings);
    let after = after_endings(state, name, endings).apps[name];
    lemma_ending_keeps_to_the_policy(state, name, endings);
    if from == endings.len() {
        assert(after.restart_times.skip(after.restart_times.len() as int) =~= times.skip(from));
    } else {
        let front = endings.drop_last();
        let now = endings.last().at;
        assert(endings_in_time(front)) by {
            assert forall|i: int, j: int| 0 <= i <= j < front.len() implies front[i].at
                <= front[j].at by {
                assert(endings[i].at <= endings[j].at);
            }
        }
        if from < front.len() {
            assert(endings[front.len() - 1].at <= endings[endings.len() - 1].at);
        }
        lemma_record_ends_in(state, name, front, from);
        lemma_ending_keeps_to_the_policy(state, name, front);
        lemma_one_ending(state, name, endings);
        let before = after_endings(state, name, front).apps[name];
        if after.status is Online {
            let record = before.restart_times;
            let picks = |time: int|
                now - time <= before.config.restart_policy.window_seconds * 1_000_000_000;
            let n = record.len() - (front.len() - from);
            assert(ending_times(front).skip(from) =~= times.skip(from).drop_last());
            assert forall|i: int| n <= i < record.len() implies picks(#[trigger] record[i]) by {
                assert(record[i] == record.skip(n)[i - n]);
                assert(record.skip(n)[i - n] == ending_times(front).skip(from)[i - n]);
                assert(record[i] == endings[from + (i - n)].at);
                assert(endings[from].at <= endings[from + (i - n)].at);
            }
            lemma_kept_ending(record, n, picks);
            let kept = record.filter(picks);
            let left = record.take(n).filter(picks);
            assert(after.restart_times == kept.push(now));
            assert(after.restart_times.skip(left.len() as int) =~= record.skip(n).push(now));
            assert(times.skip(from) =~= times.skip(from).drop_last().push(now));
        }
    }
}

/// A fast crash loop is given up, whatever the app has been through before: where its process ends
/// once more often than restarts are allowed, all of it within the window, the app ends up errored
/// and without a process, however often it comes up in between, and however often it was restarted
/// and however many exits were recorded before.
pub proof fn law_crash_loop_is_given_up(state: DaemonStateView, name: Text, endings: Seq<Ending>)
    requires
        state.apps.contains_key(name),
        state.apps[name].config.name == name,
        state.apps[name].status is Online,
        state.apps[name].pid is Some,
        endings_in_time(endings),
        endings.len() > state.apps[name].config.restart_policy.max_restarts,
        endings.last().at - endings[endings.len() - 1
            - state.apps[name].config.restart_policy.max_restarts].at
            <= state.apps[name].config.restart_policy.window_seconds * 1_000_000_000,
    ensures
        after_endings(state, name, endings).apps.contains_key(name),
        after_endings(state, name, endings).apps[name].status is Errored,
        after_endings(state, name, endings).apps[name].pid is None,
{
    let from = endings.len() - 1 - state.apps[name].config.restart_policy.max_restarts;
    lemma_record_ends_in(state, name, endings, from);
    lemma_ending_keeps_to_the_policy(state, name, endings);
    lemma_ending_keeps_to_the_policy(state, name, endings.drop_last());
    lemma_one_ending(state, name, endings);
}

proof fn lemma_record_is_counted(state: DaemonStateView, name: Text, endings: Seq<Ending>)
    requires
        runs_or_given_up(state, name),
        state.apps[name].restart_times.len() == 0,
        endings_in_time(endings),
        after_endings(state, name, endings).apps[name].status is Online,
        endings.len() > 0,
    ensures
        state.apps[name].status is Online,
        after_endings(state, name, endings).apps[name].restart_times == ending_times(
            endings,
        ).filter(
            |time: int|
                endings.last().at - time
                    <= state.apps[name].config.restart_policy.window_seconds * 1_000_000_000,
        ),
    decreases endings.len(),
{
    let front = endings.drop_last();
    let now = endings.last().at;
    let seconds = state.apps[name].config.restart_policy.window_seconds;
    let narrow = |time: int| now - time <= seconds * 1_000_000_000;
    lemma_ending_keeps_to_the_policy(state, name, front);
    lemma_one_ending(state, name, endings);
    let before = after_endings(state, name, front).apps[name];
    ending_times(front).lemma_filter_push(now, narrow);
    assert(ending_times(endings) =~= ending_times(front).push(now));
    if front.len() == 0 {
        reveal(Seq::filter);
        assert(before.restart_times =~= ending_times(front));
    } else {
        assert(endings_in_time(front)) by {
            assert forall|i: int, j: int| 0 <= i <= j < front.len() implies front[i].at
                <= front[j].at by {
                assert(endings[i].at <= endings[j].at);
            }
        }
        lemma_record_is_counted(state, name, front);
        let wide = |time: int| front.last().at - time <= seconds * 1_000_000_000;
        assert(endings[front.len() - 1].at <= endings[endings.len() - 1].at);
        lemma_filter_twice(ending_times(front), wide, narrow);
    }
}

/// An app whose process ends slowly enough is kept running forever: where it starts without a record
/// and of any so many exits in a row as make one too many the first is out of the window of the
/// last, it is online after every one of them, with one restart more for each.
pub proof fn law_slow_endings_are_restarted(
    state: DaemonStateView,
    name: Text,
    endings: Seq<Ending>,
)
    requires
        state.apps.contains_key(name),
        state.apps[name].config.name == name,
        state.apps[name].status is Online,
        state.apps[name].pid is Some,
        state.apps[name].restart_times.len() == 0,
        state.apps[name].config.restart_policy.max_restarts > 0,
        state.apps[name].restarts + endings.len() <= u32::MAX,
        endings_in_time(endings),
        forall|i: int|
            0 <= i && i + state.apps[name].config.restart_policy.max_restarts < endings.len()
                ==> endings[i + state.apps[name].config.restart_policy.max_restarts].at - (
            #[trigger] endings[i]).at
                > state.apps[name].config.restart_policy.window_seconds * 1_000_000_000,
    ensures
        after_endings(state, name, endings).apps[name].status is Online,
        after_endings(state, name, endings).apps[name].pid is Some,
        after_endings(state, name, endings).apps[name].restarts == state.apps[name].restarts
            + endings.len(),
        endings.len() > 0 ==> after_endings(state, name, endings).apps[name].pid == Some(
            endings.last().pid,
        ),
    decreases endings.len(),
{
    lemma_ending_keeps_to_the_policy(state, name, endings);
    if endings.len() > 0 {
        let front = endings.drop_last();
        let policy = state.apps[name].config.restart_policy;
        let most = policy.max_restarts as int;
        let now = endings.last().at;
        let counts = |time: int| now - time <= policy.window_seconds * 1_000_000_000;
        assert(endings_in_time(front)) by {
            assert forall|i: int, j: int| 0 <= i <= j < front.len() implies front[i].at
                <= front[j].at by {
                assert(endings[i].at <= endings[j].at);
            }
        }
        assert forall|i: int| 0 <= i && i + most < front.len() implies front[i + most].at - (
        #[trigger] front[i]).at > policy.window_seconds * 1_000_000_000 by {
            assert(endings[i + most].at - endings[i].at > policy.window_seconds * 1_000_000_000);
        }
        law_slow_endings_are_restarted(state, name, front);
        lemma_ending_keeps_to_the_policy(state, name, front);
        lemma_one_ending(state, name, endings);
        let before = after_endings(state, name, front).apps[name];
        let record = before.restart_times.filter(counts);
        if front.len() == 0 {
            reveal(Seq::filter);
        } else {
            lemma_record_is_counted(state, name, front);
            let wide = |time: int|
                front.last().at - time <= policy.window_seconds * 1_000_000_000;
            assert(endings[front.len() - 1].at <= endings[endings.len() - 1].at);
            let times = ending_times(front);
            lemma_filter_twice(times, wide, counts);
            assert(record == times.filter(counts));
            if front.len() >= most {
                let split = front.len() - most + 1;
                let (old, new) = (times.take(split), times.skip(split));
                assert(times == old + new);
                Seq::filter_distributes_over_add(old, new, counts);
                let last_old = split - 1;
                assert(endings[last_old + most].at - endings[last_old].at
                    > policy.window_seconds * 1_000_000_000);
                assert forall|i: int| 0 <= i < old.len() implies !counts(#[trigger] old[i]) by {
                    assert(old[i] == endings[i].at);
                    assert(endings[i].at <= endings[last_old].at);
                }
                old.lemma_all_neg_filter_empty(counts);
                new.lemma_filter_len(counts);
            } else {
                times.lemma_filter_len(counts);
            }
        }
        assert(record_at(before, now).len() <= most);
    }
}

/// A restart that fails is reported with the name of the app and the reason; where even that cannot
/// be reported, the daemon ends.
pub proof fn law_failed_restart_is_told(
    state: DaemonStateView,
    pending: PendingRestartView,
    cause: Text,
    report: PendingReportView,
    logged: LogReply,
)
    ensures
        ({
            let step = state.restarted_turn(pending, SpawnReplyView::NotSpawned(cause)).step;
            &&& step is Report
            &&& step->Report_0.name == pending.name
            &&& step->Report_0.line == "failed to restart app '"@ + pending.name
                + "' after child exit: "@ + failure::one_line(
                seq!["failed to spawn app '"@ + pending.app.config.name + "'"@, cause],
            )
        }),
        state.reported_turn(report, logged).step is Fail <==> !(logged is Appended),
{
}

} // verus!
