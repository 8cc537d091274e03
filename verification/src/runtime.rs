//! The apps that the daemon looks after, and how each of them is doing.
use crate::app::{self, AppConfig, AppConfigView};
use crate::ipc::{self, sort_statuses, AppStatusRow, AppStatusView};
use crate::order;
use crate::paths::{AynurPaths, AynurPathsView};
use crate::text::{self, same_text, Text};
use crate::text_map::{self, TextMap};
use crate::timestamp::{self, Timestamp};
use vstd::prelude::*;

verus! {

/// How an app is doing.
#[derive(Clone, Copy, Debug, PartialEq, Eq, Structural)]
pub enum AppStatus {
    /// It does not run, and is not meant to.
    Stopped,
    /// Its process is being started.
    Starting,
    /// It runs.
    Online,
    /// Its process is being ended.
    Stopping,
    /// It is being restarted with another environment.
    Reloading,
    /// It could not be kept running.
    Errored,
}

impl AppStatus {
    /// The status in a word.
    pub open spec fn word(self) -> Text {
        match self {
            AppStatus::Stopped => "stopped"@,
            AppStatus::Starting => "starting"@,
            AppStatus::Online => "online"@,
            AppStatus::Stopping => "stopping"@,
            AppStatus::Reloading => "reloading"@,
            AppStatus::Errored => "errored"@,
        }
    }

    /// The status in a word.
    pub fn as_str(&self) -> (r: &'static str)
        ensures
            r@ == self.word(),
    {
        match self {
            AppStatus::Stopped => "stopped",
            AppStatus::Starting => "starting",
            AppStatus::Online => "online",
            AppStatus::Stopping => "stopping",
            AppStatus::Reloading => "reloading",
            AppStatus::Errored => "errored",
        }
    }
}

/// An app that the daemon looks after.
#[derive(Clone, Debug, PartialEq, Eq)]
pub struct RuntimeApp {
    /// What is known of it.
    pub config: AppConfig,
    /// Its process, where it has one.
    pub pid: Option<u32>,
    /// How it is doing.
    pub status: AppStatus,
    /// How often it was restarted after an exit.
    pub restarts: u32,
    /// Since when its process runs.
    pub started_at: Option<Timestamp>,
    /// When its process ended lately.
    pub restart_times: Vec<Timestamp>,
}

/// An app that the daemon looks after.
#[verifier::ext_equal]
pub struct RuntimeAppView {
    /// What is known of it.
    pub config: AppConfigView,
    /// Its process, where it has one.
    pub pid: Option<u32>,
    /// How it is doing.
    pub status: AppStatus,
    /// How often it was restarted after an exit.
    pub restarts: u32,
    /// Since when its process runs.
    pub started_at: Option<int>,
    /// When its process ended lately.
    pub restart_times: Seq<int>,
}

/// The times of some timestamps.
pub open spec fn times(stamps: Seq<Timestamp>) -> Seq<int> {
    stamps.map_values(|t: Timestamp| t@)
}

impl View for RuntimeApp {
    type V = RuntimeAppView;

    open spec fn view(&self) -> RuntimeAppView {
        RuntimeAppView {
            config: self.config@,
            pid: self.pid,
            status: self.status,
            restarts: self.restarts,
            started_at: timestamp::time_option(self.started_at),
            restart_times: times(self.restart_times@),
        }
    }
}

impl RuntimeAppView {
    /// An app that has not run yet.
    pub open spec fn fresh(config: AppConfigView, status: AppStatus) -> RuntimeAppView {
        RuntimeAppView {
            config,
            pid: None,
            status,
            restarts: 0,
            started_at: None,
            restart_times: Seq::empty(),
        }
    }

    /// The app with another status.
    pub open spec fn turned(self, status: AppStatus) -> RuntimeAppView {
        RuntimeAppView { status, ..self }
    }

    /// The app with a process that runs.
    pub open spec fn running(self, pid: u32, started_at: int) -> RuntimeAppView {
        RuntimeAppView {
            pid: Some(pid),
            status: AppStatus::Online,
            started_at: Some(started_at),
            ..self
        }
    }

    /// The app without a process, on its way to being stopped.
    pub open spec fn stopping(self) -> RuntimeAppView {
        RuntimeAppView { pid: None, status: AppStatus::Stopping, ..self }
    }

    /// The app once it is stopped.
    pub open spec fn halted(self) -> RuntimeAppView {
        RuntimeAppView { status: AppStatus::Stopped, started_at: None, ..self }
    }

    /// How the app is listed at the time `now`.
    pub open spec fn row(self, now: int) -> AppStatusRow {
        AppStatusRow {
            name: self.config.name,
            pid: self.pid,
            status: self.status.word(),
            restarts: self.restarts,
            uptime_seconds: match self.started_at {
                Some(started_at) => timestamp::seconds_between(started_at, now),
                None => None,
            },
            binary_path: self.config.binary_path,
        }
    }

    /// The exits that still count at the time `now`, with one more at that time.
    pub open spec fn exits(self, now: int) -> Seq<int> {
        self.restart_times.filter(
            |time: int| timestamp::recent(time, now, self.config.restart_policy.window_seconds),
        ).push(now)
    }

    /// Whether one more exit at the time `now` is one too many.
    pub open spec fn crashing(self, now: int) -> bool {
        self.exits(now).len() > self.config.restart_policy.max_restarts
    }
}

impl RuntimeApp {
    /// An app that has not run yet.
    pub fn new(config: AppConfig, status: AppStatus) -> (r: RuntimeApp)
        ensures
            r@ == RuntimeAppView::fresh(config@, status),
    {
        let r = RuntimeApp {
            config,
            pid: None,
            status,
            restarts: 0,
            started_at: None,
            restart_times: Vec::new(),
        };
        assert(times(r.restart_times@) =~= Seq::<int>::empty());
        r
    }

    /// Records a process that runs.
    pub fn run_as(&mut self, pid: u32, started_at: Timestamp)
        ensures
            final(self)@ == old(self)@.running(pid, started_at@),
    {
        self.pid = Some(pid);
        self.status = AppStatus::Online;
        self.started_at = Some(started_at);
    }

    /// How the app is listed at the time `now`.
    pub fn status_view(&self, now: &Timestamp) -> (r: AppStatusView)
        ensures
            r@ == self@.row(now@),
    {
        let uptime_seconds = match &self.started_at {
            Some(started_at) => now.seconds_since(started_at),
            None => None,
        };
        AppStatusView {
            name: self.config.name.clone(),
            pid: self.pid,
            status: self.status.as_str().to_owned(),
            restarts: self.restarts,
            uptime_seconds,
            binary_path: self.config.binary_path.clone(),
        }
    }

    /// The exits that still count at the time `now`, with one more at that time.
    fn counted_exits(&self, now: &Timestamp) -> (r: Vec<Timestamp>)
        ensures
            times(r@) == self@.exits(now@),
            r@.len() == self@.exits(now@).len(),
    {
        let seconds: u64 = self.config.restart_policy.window_seconds;
        let ghost counts = |time: int| timestamp::recent(time, now@, seconds);
        let ghost all = times(self.restart_times@);
        let mut kept: Vec<Timestamp> = Vec::new();
        let mut i: usize = 0;
        assert(times(kept@) =~= all.take(0).filter(counts));
        while i < self.restart_times.len()
            invariant
                i <= self.restart_times@.len(),
                all == times(self.restart_times@),
                counts == (|time: int| timestamp::recent(time, now@, seconds)),
                times(kept@) == all.take(i as int).filter(counts),
            decreases self.restart_times@.len() - i,
        {
            let time = self.restart_times[i];
            proof {
                assert(all.take(i + 1) == all.take(i as int).push(time@));
                all.take(i as int).lemma_filter_push(time@, counts);
                assert(times(kept@.push(time)) =~= times(kept@).push(time@));
            }
            if now.follows_within(&time, seconds) {
                kept.push(time);
            }
            i = i + 1;
        }
        assert(all.take(all.len() as int) == all);
        assert(times(kept@.push(*now)) =~= times(kept@).push(now@));
        kept.push(*now);
        assert(kept@.len() == times(kept@).len());
        kept
    }

    /// Whether one more exit at the time `now` is one too many.
    pub fn is_crashing(&self, now: &Timestamp) -> (r: bool)
        ensures
            r == self@.crashing(now@),
    {
        self.counted_exits(now).len() > self.config.restart_policy.max_restarts as usize
    }

    /// Records an exit at the time `now`, and tells whether it is one too many.
    pub fn should_mark_errored(&mut self, now: &Timestamp) -> (r: bool)
        ensures
            r == old(self)@.crashing(now@),
            final(self)@ == (RuntimeAppView { restart_times: old(self)@.exits(now@), ..old(self)@ }),
    {
        let kept = self.counted_exits(now);
        self.restart_times = kept;
        self.restart_times.len() > self.config.restart_policy.max_restarts as usize
    }
}

/// What the daemon knows.
#[derive(Debug)]
pub struct DaemonState {
    /// Where it keeps its state.
    pub paths: AynurPaths,
    /// The apps that it looks after, by name.
    pub apps: TextMap<RuntimeApp>,
}

/// What the daemon knows.
#[verifier::ext_equal]
pub struct DaemonStateView {
    /// Where it keeps its state.
    pub paths: AynurPathsView,
    /// The apps that it looks after, by name.
    pub apps: Map<Text, RuntimeAppView>,
}

impl View for DaemonState {
    type V = DaemonStateView;

    open spec fn view(&self) -> DaemonStateView {
        DaemonStateView {
            paths: self.paths@,
            apps: self.apps@.map_values(|app: RuntimeApp| app@),
        }
    }
}

impl DaemonStateView {
    /// The state with `app` under `name`.
    pub open spec fn with(self, name: Text, app: RuntimeAppView) -> DaemonStateView {
        DaemonStateView { apps: self.apps.insert(name, app), ..self }
    }

    /// The state with nothing under `name`.
    pub open spec fn without(self, name: Text) -> DaemonStateView {
        DaemonStateView { apps: self.apps.remove(name), ..self }
    }

    /// Every app stands under its own name, which is valid.
    pub open spec fn well_named(self) -> bool {
        forall|name: Text| #[trigger]
            self.apps.contains_key(name) ==> self.apps[name].config.name == name
                && app::valid_name(name)
    }

    /// What is online has a process, and what has a process is online or about to be restarted.
    pub open spec fn well_tracked(self) -> bool {
        forall|name: Text| #[trigger]
            self.apps.contains_key(name) ==> tracked_app(self.apps[name])
    }

    /// How the apps are listed at the time `now`.
    pub open spec fn rows(self, now: int) -> Seq<AppStatusRow> {
        ipc::rows_by_name(
            order::ordered(self.apps.dom()).map_values(|name: Text| self.apps[name].row(now)),
        )
    }

    /// The names of the apps that are online.
    pub open spec fn online_names(self) -> Seq<Text> {
        order::ordered(self.apps.dom()).filter(
            |name: Text| self.apps[name].status is Online,
        ).map_values(|name: Text| self.apps[name].config.name)
    }

    /// The names that belong into a snapshot: the apps that run or failed to, and what an earlier
    /// snapshot names and nobody has taken over, except for one name.
    pub open spec fn kept_names(self, previous: Seq<Text>, excluded: Option<Text>) -> Set<Text> {
        Set::new(
            |name: Text|
                {
                    ||| self.runs_or_failed(name)
                    ||| previous.contains(name) && excluded != Some(name)
                        && !self.apps.contains_key(name)
                },
        )
    }

    /// Some app of this name is online or errored.
    pub open spec fn runs_or_failed(self, name: Text) -> bool {
        exists|key: Text| #[trigger]
            self.apps.contains_key(key) && (self.apps[key].status is Online
                || self.apps[key].status is Errored) && self.apps[key].config.name == name
    }
}

/// Two states know the same of the app under `name`.
pub open spec fn same_app(a: DaemonStateView, b: DaemonStateView, name: Text) -> bool {
    a.apps.contains_key(name) == b.apps.contains_key(name) && (a.apps.contains_key(name)
        ==> a.apps[name] == b.apps[name])
}

/// The process of an app, its status and the time since when it runs fit together.
pub open spec fn tracked_app(app: RuntimeAppView) -> bool {
    &&& app.status is Online ==> app.pid is Some
    &&& app.pid is Some ==> (app.status is Online || app.status is Reloading)
        && app.started_at is Some
}

impl DaemonState {
    /// A daemon that looks after nothing yet.
    pub fn new(paths: AynurPaths) -> (r: DaemonState)
        ensures
            r@ == (DaemonStateView { paths: paths@, apps: Map::empty() }),
            r@.well_named(),
            r@.well_tracked(),
    {
        let r = DaemonState { paths, apps: TextMap::new() };
        assert(r@.apps =~= Map::<Text, RuntimeAppView>::empty());
        r
    }

    /// Puts `app` under `name`, in place of what stood there.
    pub fn put(&mut self, name: String, app: RuntimeApp)
        ensures
            final(self)@ == old(self)@.with(name@, app@),
    {
        self.apps.insert(name, app);
        assert(self@.apps =~= old(self)@.apps.insert(name@, app@));
    }

    /// Takes out the app under `name`.
    pub fn take(&mut self, name: &str) -> (r: Option<RuntimeApp>)
        ensures
            final(self)@ == old(self)@.without(name@),
            r is Some == old(self)@.apps.contains_key(name@),
            r is Some ==> r->0@ == old(self)@.apps[name@],
    {
        let r = self.apps.remove(name);
        assert(self@.apps =~= old(self)@.apps.remove(name@));
        r
    }

    /// The app under `name`.
    pub fn get(&self, name: &str) -> (r: Option<&RuntimeApp>)
        ensures
            r is Some == self@.apps.contains_key(name@),
            r is Some ==> r->0@ == self@.apps[name@],
    {
        self.apps.get(name)
    }

    /// How the apps are listed at the time `now`.
    pub fn list_apps(&self, now: &Timestamp) -> (r: Vec<AppStatusView>)
        ensures
            ipc::status_rows(r@) == self@.rows(now@),
    {
        let entries = self.apps.entries();
        let ghost keys = text_map::entry_keys(entries@);
        let ghost row = |name: Text| self@.apps[name].row(now@);
        let mut rows: Vec<AppStatusView> = Vec::new();
        let mut i: usize = 0;
        assert(self@.apps.dom() =~= self.apps@.dom());
        assert(ipc::status_rows(rows@) =~= keys.map_values(row).take(0));
        while i < entries.len()
            invariant
                i <= entries@.len(),
                keys == text_map::entry_keys(entries@),
                row == (|name: Text| self@.apps[name].row(now@)),
                forall|i: int|
                    0 <= i < entries@.len() ==> self.apps@.contains_key((#[trigger] entries@[i]).0@)
                        && self.apps@[entries@[i].0@] == entries@[i].1,
                ipc::status_rows(rows@) == keys.map_values(row).take(i as int),
            decreases entries@.len() - i,
        {
            let one = entries[i].1.status_view(now);
            proof {
                ipc::lemma_rows_push(rows@, one);
                let key = entries@[i as int].0@;
                assert(keys[i as int] == key);
                assert(self@.apps[key] == entries@[i as int].1@);
                assert(keys.map_values(row).take(i + 1) == keys.map_values(row).take(i as int).push(
                    one@,
                ));
            }
            rows.push(one);
            i = i + 1;
        }
        assert(keys.map_values(row).take(keys.len() as int) == keys.map_values(row));
        sort_statuses(rows)
    }

    /// The names of the apps that are online.
    pub fn online_app_names(&self) -> (r: Vec<String>)
        ensures
            text::texts(r@) == self@.online_names(),
    {
        let entries = self.apps.entries();
        let ghost keys = text_map::entry_keys(entries@);
        let ghost online = |name: Text| self@.apps[name].status is Online;
        let ghost named = |name: Text| self@.apps[name].config.name;
        let mut names: Vec<String> = Vec::new();
        let mut i: usize = 0;
        assert(self@.apps.dom() =~= self.apps@.dom());
        assert(text::texts(names@) =~= keys.take(0).filter(online).map_values(named));
        while i < entries.len()
            invariant
                i <= entries@.len(),
                keys == text_map::entry_keys(entries@),
                online == (|name: Text| self@.apps[name].status is Online),
                named == (|name: Text| self@.apps[name].config.name),
                forall|i: int|
                    0 <= i < entries@.len() ==> self.apps@.contains_key((#[trigger] entries@[i]).0@)
                        && self.apps@[entries@[i].0@] == entries@[i].1,
                text::texts(names@) == keys.take(i as int).filter(online).map_values(named),
            decreases entries@.len() - i,
        {
            proof {
                let key = entries@[i as int].0@;
                assert(keys[i as int] == key);
                assert(self@.apps[key] == entries@[i as int].1@);
                let part = keys.take(i as int);
                assert(keys.take(i + 1) == part.push(key));
                part.lemma_filter_push(key, online);
                assert(part.filter(online).push(key).map_values(named) =~= part.filter(
                    online,
                ).map_values(named).push(named(key)));
                text::lemma_texts_push(names@, entries@[i as int].1.config.name);
            }
            if matches!(entries[i].1.status, AppStatus::Online) {
                names.push(entries[i].1.config.name.clone());
            }
            i = i + 1;
        }
        assert(keys.take(keys.len() as int) == keys);
        names
    }

    /// The names that belong into a snapshot, in order. `previous` are the names of an earlier
    /// snapshot.
    pub fn restart_app_names(&self, previous: &Vec<String>, excluded: Option<&str>) -> (r: Vec<
        String,
    >)
        ensures
            text::texts(r@) == order::ordered(
                self@.kept_names(text::texts(previous@), text::str_option(excluded)),
            ),
    {
        let entries = self.apps.entries();
        let mut kept: TextMap<()> = TextMap::new();
        let mut i: usize = 0;
        while i < entries.len()
            invariant
                i <= entries@.len(),
                forall|name: Text|
                    kept@.contains_key(name) <==> exists|j: int|
                        0 <= j < i && #[trigger] belongs(entries@[j].1, name),
            decreases entries@.len() - i,
        {
            let ghost before = kept@;
            let app = &entries[i].1;
            let belongs_to_it = matches!(app.status, AppStatus::Online | AppStatus::Errored);
            if belongs_to_it {
                kept.insert(app.config.name.clone(), ());
            }
            proof {
                assert forall|name: Text|
                    kept@.contains_key(name) <==> exists|j: int|
                        0 <= j < i + 1 && #[trigger] belongs(entries@[j].1, name) by {
                    if belongs(entries@[i as int].1, name) {
                        assert(kept@.contains_key(name));
                    }
                    if before.contains_key(name) {
                        let j = choose|j: int|
                            0 <= j < i && #[trigger] belongs(entries@[j].1, name);
                        assert(belongs(entries@[j].1, name));
                    }
                }
            }
            i = i + 1;
        }
        proof {
            assert forall|name: Text| kept@.contains_key(name) <==> self@.runs_or_failed(name) by {
                if kept@.contains_key(name) {
                    let j = choose|j: int|
                        0 <= j < entries@.len() && #[trigger] belongs(entries@[j].1, name);
                    let key = entries@[j].0@;
                    assert(self.apps@.contains_key(key));
                    assert(self@.apps.contains_key(key));
                }
                if self@.runs_or_failed(name) {
                    let key = choose|key: Text| #[trigger]
                        self@.apps.contains_key(key) && (self@.apps[key].status is Online
                            || self@.apps[key].status is Errored) && self@.apps[key].config.name
                            == name;
                    assert(self.apps@.contains_key(key));
                    let j = choose|j: int| text_map::stands_at(entries@, key, j);
                    assert(self.apps@.contains_key(entries@[j].0@));
                    assert(belongs(entries@[j].1, name));
                }
            }
        }
        let ghost names = text::texts(previous@);
        let ghost except = text::str_option(excluded);
        let mut i: usize = 0;
        assert(kept@.dom() =~= self@.kept_names(names.take(0), except));
        while i < previous.len()
            invariant
                i <= previous@.len(),
                names == text::texts(previous@),
                except == text::str_option(excluded),
                kept@.dom() == self@.kept_names(names.take(i as int), except),
            decreases previous@.len() - i,
        {
            let name = previous[i].as_str();
            let is_excluded = match excluded {
                Some(excluded) => same_text(excluded, name),
                None => false,
            };
            let ghost before = kept@;
            if !is_excluded && self.get(name).is_none() {
                kept.insert(previous[i].clone(), ());
            }
            proof {
                let (part, more) = (names.take(i as int), names.take(i + 1));
                let (held, wanted) = (
                    self@.kept_names(part, except),
                    self@.kept_names(more, except),
                );
                assert forall|other: Text| kept@.dom().contains(other) <==> wanted.contains(
                    other,
                ) by {
                    if part.contains(other) {
                        let j = part.index_of(other);
                        assert(more[j] == other);
                        assert(more.contains(other));
                    }
                    if more.contains(other) {
                        let j = more.index_of(other);
                        if j < i {
                            assert(part[j] == other);
                            assert(part.contains(other));
                        } else {
                            assert(other == name@);
                        }
                    }
                    assert(more[i as int] == name@);
                    assert(more.contains(name@));
                    assert(held.contains(other) <==> before.contains_key(other));
                }
                assert(kept@.dom() =~= self@.kept_names(names.take(i + 1), except));
            }
            i = i + 1;
        }
        assert(names.take(names.len() as int) == names);
        let listed = kept.entries();
        let mut result: Vec<String> = Vec::new();
        let mut i: usize = 0;
        assert(text::texts(result@) =~= text_map::entry_keys(listed@).take(0));
        while i < listed.len()
            invariant
                i <= listed@.len(),
                text::texts(result@) == text_map::entry_keys(listed@).take(i as int),
            decreases listed@.len() - i,
        {
            proof {
                let keys = text_map::entry_keys(listed@);
                text::lemma_texts_push(result@, listed@[i as int].0);
                assert(keys.take(i + 1) == keys.take(i as int).push(listed@[i as int].0@));
            }
            result.push(listed[i].0.clone());
            i = i + 1;
        }
        let ghost keys = text_map::entry_keys(listed@);
        assert(keys.take(keys.len() as int) == keys);
        result
    }
}

/// The daemon looks after finitely many apps.
pub proof fn law_apps_are_finite(state: DaemonState)
    ensures
        state@.apps.dom().finite(),
{
    text_map::lemma_finite(state.apps);
    assert(state@.apps.dom() =~= state.apps@.dom());
}

/// `app` is online or errored, and called `name`.
spec fn belongs(app: RuntimeApp, name: Text) -> bool {
    (app.status is Online || app.status is Errored) && app.config.name@ == name
}

/// A row tells the app: its name, its process, its status in a word, how often it was restarted, for
/// how many whole seconds it has been running, and its executable.
pub proof fn law_row_tells_the_app(app: RuntimeAppView, now: int)
    ensures
        ({
            let row = app.row(now);
            &&& row.name == app.config.name
            &&& row.pid == app.pid
            &&& row.restarts == app.restarts
            &&& row.binary_path == app.config.binary_path
            &&& app.status is Stopped ==> row.status == "stopped"@
            &&& app.status is Starting ==> row.status == "starting"@
            &&& app.status is Online ==> row.status == "online"@
            &&& app.status is Stopping ==> row.status == "stopping"@
            &&& app.status is Reloading ==> row.status == "reloading"@
            &&& app.status is Errored ==> row.status == "errored"@
            &&& row.uptime_seconds is Some <==> app.started_at is Some && app.started_at->0 <= now
            &&& row.uptime_seconds is Some && now - app.started_at->0 < 0x1_0000_0000_0000_0000
                * 1_000_000_000 ==> row.uptime_seconds->0 * 1_000_000_000 <= now
                - app.started_at->0 < (row.uptime_seconds->0 + 1) * 1_000_000_000
        }),
{
}

/// Choosing by two tests that agree chooses the same.
pub proof fn lemma_same_choice(s: Seq<int>, p: spec_fn(int) -> bool, q: spec_fn(int) -> bool)
    requires
        forall|x: int| #[trigger] p(x) == q(x),
    ensures
        s.filter(p) == s.filter(q),
    decreases s.len(),
{
    reveal(Seq::filter);
    if s.len() > 0 {
        lemma_same_choice(s.drop_last(), p, q);
        assert(p(s.last()) == q(s.last()));
    }
}

/// Of the recorded exits those count that are no further back than the window is long; the present
/// one counts too. It is one too many where more count than restarts are allowed.
pub proof fn law_exits_count_within_the_window(app: RuntimeAppView, now: int)
    ensures
        ({
            let policy = app.config.restart_policy;
            let counted = app.restart_times.filter(
                |time: int| now - time <= policy.window_seconds * 1_000_000_000,
            );
            &&& app.exits(now) == counted.push(now)
            &&& app.crashing(now) <==> counted.len() + 1 > policy.max_restarts
        }),
{
    let policy = app.config.restart_policy;
    lemma_same_choice(
        app.restart_times,
        |time: int| timestamp::recent(time, now, policy.window_seconds),
        |time: int| now - time <= policy.window_seconds * 1_000_000_000,
    );
}

/// An app that was never run has no process, no restart and no recorded exit.
pub proof fn law_fresh_app_has_no_past(config: AppConfigView, status: AppStatus)
    ensures
        ({
            let app = RuntimeAppView::fresh(config, status);
            &&& app.config == config
            &&& app.status == status
            &&& app.pid is None
            &&& app.started_at is None
            &&& app.restarts == 0
            &&& app.restart_times.len() == 0
        }),
{
}

} // verus!
