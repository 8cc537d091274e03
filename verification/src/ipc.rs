//! What the command line and the daemon say to each other.
use crate::app::{AppConfig, AppConfigView};
use crate::env_file::{self, Environment};
use crate::file_path::FilePath;
use crate::order::{self, Named};
use crate::text::Text;
use vstd::prelude::*;

verus! {

/// The version of the protocol that this program speaks.
pub const DAEMON_PROTOCOL_VERSION: u32 = 1;

/// The version of this program.
pub fn program_version() -> (r: &'static str)
    ensures
        r@ == "0.3.0"@,
{
    "0.3.0"
}

/// What the daemon is asked for.
#[derive(Clone, Debug, PartialEq, Eq)]
pub enum DaemonRequest {
    /// Which protocol it speaks.
    Ping,
    /// To run an app.
    Start {
        /// The app.
        config: AppConfig,
    },
    /// To stop an app.
    Stop {
        /// Its name.
        name: String,
    },
    /// To stop an app and run it again.
    Restart {
        /// Its name.
        name: String,
    },
    /// To stop an app and run it again with its environment as saved.
    Reload {
        /// Its name.
        name: String,
    },
    /// To stop an app and run it again with a new environment.
    ReloadUpdateEnv {
        /// Its name.
        name: String,
        /// The environment, to which the env file of the app adds.
        env: Environment,
    },
    /// What runs.
    List,
    /// To make a snapshot of what is online.
    Save,
    /// To stop an app and forget it.
    Delete {
        /// Its name.
        name: String,
    },
}

/// What the daemon is asked for.
pub enum DaemonRequestView {
    /// Which protocol it speaks.
    Ping,
    /// To run an app.
    Start(AppConfigView),
    /// To stop an app.
    Stop(Text),
    /// To stop an app and run it again.
    Restart(Text),
    /// To stop an app and run it again with its environment as saved.
    Reload(Text),
    /// To stop an app and run it again with a new environment.
    ReloadUpdateEnv(Text, Map<Text, Text>),
    /// What runs.
    List,
    /// To make a snapshot of what is online.
    Save,
    /// To stop an app and forget it.
    Delete(Text),
}

impl View for DaemonRequest {
    type V = DaemonRequestView;

    open spec fn view(&self) -> DaemonRequestView {
        match self {
            DaemonRequest::Ping => DaemonRequestView::Ping,
            DaemonRequest::Start { config } => DaemonRequestView::Start(config@),
            DaemonRequest::Stop { name } => DaemonRequestView::Stop(name@),
            DaemonRequest::Restart { name } => DaemonRequestView::Restart(name@),
            DaemonRequest::Reload { name } => DaemonRequestView::Reload(name@),
            DaemonRequest::ReloadUpdateEnv { name, env } => DaemonRequestView::ReloadUpdateEnv(
                name@,
                env_file::text_values(env@),
            ),
            DaemonRequest::List => DaemonRequestView::List,
            DaemonRequest::Save => DaemonRequestView::Save,
            DaemonRequest::Delete { name } => DaemonRequestView::Delete(name@),
        }
    }
}

/// How one app is doing, as it is listed.
#[derive(Debug, PartialEq, Eq)]
pub struct AppStatusView {
    /// Its name.
    pub name: String,
    /// The process, where it runs.
    pub pid: Option<u32>,
    /// Its status, in a word.
    pub status: String,
    /// How often it was restarted after an exit.
    pub restarts: u32,
    /// For how long it has been running.
    pub uptime_seconds: Option<u64>,
    /// The executable.
    pub binary_path: FilePath,
}

/// How one app is doing, as it is listed.
pub struct AppStatusRow {
    /// Its name.
    pub name: Text,
    /// The process, where it runs.
    pub pid: Option<u32>,
    /// Its status, in a word.
    pub status: Text,
    /// How often it was restarted after an exit.
    pub restarts: u32,
    /// For how long it has been running.
    pub uptime_seconds: Option<u64>,
    /// The executable.
    pub binary_path: Seq<u8>,
}

impl View for AppStatusView {
    type V = AppStatusRow;

    open spec fn view(&self) -> AppStatusRow {
        AppStatusRow {
            name: self.name@,
            pid: self.pid,
            status: self.status@,
            restarts: self.restarts,
            uptime_seconds: self.uptime_seconds,
            binary_path: self.binary_path@,
        }
    }
}

impl Clone for AppStatusView {
    fn clone(&self) -> (r: AppStatusView)
        ensures
            r@ == self@,
    {
        AppStatusView {
            name: self.name.clone(),
            pid: self.pid,
            status: self.status.clone(),
            restarts: self.restarts,
            uptime_seconds: self.uptime_seconds,
            binary_path: self.binary_path.clone(),
        }
    }
}

impl Named for AppStatusView {
    open spec fn name_text(&self) -> Text {
        self.name@
    }

    fn listed_name(&self) -> (r: &str) {
        self.name.as_str()
    }
}

/// The rows of a list.
pub open spec fn status_rows(apps: Seq<AppStatusView>) -> Seq<AppStatusRow> {
    apps.map_values(|app: AppStatusView| app@)
}

/// Rows in the order of their names.
pub open spec fn rows_by_name(rows: Seq<AppStatusRow>) -> Seq<AppStatusRow> {
    order::arranged(rows, |row: AppStatusRow| row.name)
}

/// A row that is pushed adds its view.
pub proof fn lemma_rows_push(apps: Seq<AppStatusView>, last: AppStatusView)
    ensures
        status_rows(apps.push(last)) == status_rows(apps).push(last@),
{
    assert(status_rows(apps.push(last)) =~= status_rows(apps).push(last@));
}

/// Sorts a list by name.
pub fn sort_statuses(apps: Vec<AppStatusView>) -> (r: Vec<AppStatusView>)
    ensures
        status_rows(r@) == rows_by_name(status_rows(apps@)),
{
    proof {
        order::lemma_arranged_of_forms(
            apps@,
            |app: AppStatusView| app@,
            order::by_name::<AppStatusView>(),
            |row: AppStatusRow| row.name,
        );
    }
    order::sort_by_name(apps)
}

/// What the daemon answers.
#[derive(Clone, Debug, PartialEq, Eq)]
pub enum DaemonResponse {
    /// Which protocol it speaks.
    Pong {
        /// The version of the protocol.
        protocol_version: u32,
        /// The version of the daemon.
        daemon_version: String,
    },
    /// It was done.
    Done {
        /// What was done.
        message: String,
    },
    /// It failed.
    Error {
        /// Why.
        message: String,
    },
    /// What runs.
    List {
        /// The apps.
        apps: Vec<AppStatusView>,
    },
}

/// What the daemon answers.
pub enum DaemonResponseView {
    /// Which protocol it speaks, and its own version.
    Pong(u32, Text),
    /// It was done.
    Done(Text),
    /// It failed.
    Error(Text),
    /// What runs.
    List(Seq<AppStatusRow>),
}

impl View for DaemonResponse {
    type V = DaemonResponseView;

    open spec fn view(&self) -> DaemonResponseView {
        match self {
            DaemonResponse::Pong { protocol_version, daemon_version } => DaemonResponseView::Pong(
                *protocol_version,
                daemon_version@,
            ),
            DaemonResponse::Done { message } => DaemonResponseView::Done(message@),
            DaemonResponse::Error { message } => DaemonResponseView::Error(message@),
            DaemonResponse::List { apps } => DaemonResponseView::List(status_rows(apps@)),
        }
    }
}

/// Listing by name loses and adds no row.
pub proof fn law_list_keeps_every_row(rows: Seq<AppStatusRow>)
    ensures
        rows_by_name(rows).to_multiset() == rows.to_multiset(),
        order::ascending(rows_by_name(rows), |row: AppStatusRow| row.name),
{
    order::law_arranged_is_permutation(rows, |row: AppStatusRow| row.name);
    order::law_arranged_is_ascending(rows, |row: AppStatusRow| row.name);
}

} // verus!
