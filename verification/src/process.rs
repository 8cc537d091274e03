//! The processes of apps: how starting and signalling them comes out, and the memory they hold.
use crate::app::{self, AppConfig, AppConfigView};
use crate::failure::{self, Failure};
use crate::env_file::{self, Environment};
use crate::file_path::{self, FilePath};
use crate::number::{self, parse_number, split_words};
use crate::paths::{self, AynurPaths, AynurPathsView};
use crate::text::{self, copy_texts, decimal, Text};
use crate::timestamp::Timestamp;
use vstd::prelude::*;

verus! {

/// `libc::SIGTERM`, which is 15 on Linux and on macOS: asks a process to end.
#[verifier::external_body]
pub(crate) fn termination_signal() -> (r: i32)
    ensures
        r == 15,
{
    libc::SIGTERM
}

/// `libc::SIGKILL`, which is 9 on Linux and on macOS: ends a process.
#[verifier::external_body]
pub(crate) fn kill_signal() -> (r: i32)
    ensures
        r == 9,
{
    libc::SIGKILL
}

/// `libc::ESRCH`, which is 3 on Linux and on macOS: there is no such process.
#[verifier::external_body]
pub(crate) fn no_such_process() -> (r: i32)
    ensures
        r == 3,
{
    libc::ESRCH
}

/// A process of an app has ended.
#[derive(Clone, Debug, PartialEq, Eq)]
pub struct ExitEvent {
    /// The app.
    pub name: String,
    /// The process.
    pub pid: u32,
}

/// A process of an app has ended.
pub struct ExitEventView {
    /// The app.
    pub name: Text,
    /// The process.
    pub pid: u32,
}

impl View for ExitEvent {
    type V = ExitEventView;

    open spec fn view(&self) -> ExitEventView {
        ExitEventView { name: self.name@, pid: self.pid }
    }
}

/// What came of starting the process of an app.
#[derive(Clone, Debug, PartialEq, Eq)]
pub enum SpawnReply {
    /// The log for its standard output could not be opened.
    NoStdoutLog {
        /// Why.
        cause: String,
    },
    /// The log for its standard error could not be opened.
    NoStderrLog {
        /// Why.
        cause: String,
    },
    /// There is no process.
    NotSpawned {
        /// Why.
        cause: String,
    },
    /// The process ended at once.
    Exited {
        /// How it ended.
        status: String,
    },
    /// The process runs.
    Running {
        /// The process.
        pid: u32,
        /// Since when it runs.
        started_at: Timestamp,
    },
}

/// What came of starting the process of an app.
pub enum SpawnReplyView {
    /// The log for its standard output could not be opened.
    NoStdoutLog(Text),
    /// The log for its standard error could not be opened.
    NoStderrLog(Text),
    /// There is no process.
    NotSpawned(Text),
    /// The process ended at once.
    Exited(Text),
    /// The process runs, since when.
    Running(u32, int),
}

impl View for SpawnReply {
    type V = SpawnReplyView;

    open spec fn view(&self) -> SpawnReplyView {
        match self {
            SpawnReply::NoStdoutLog { cause } => SpawnReplyView::NoStdoutLog(cause@),
            SpawnReply::NoStderrLog { cause } => SpawnReplyView::NoStderrLog(cause@),
            SpawnReply::NotSpawned { cause } => SpawnReplyView::NotSpawned(cause@),
            SpawnReply::Exited { status } => SpawnReplyView::Exited(status@),
            SpawnReply::Running { pid, started_at } => SpawnReplyView::Running(*pid, started_at@),
        }
    }
}

/// How the process of an app is to be started.
#[derive(Debug, PartialEq, Eq)]
pub struct LaunchPlan {
    /// The app, under whose name the end of the process is reported.
    pub name: String,
    /// The executable.
    pub program: FilePath,
    /// The arguments.
    pub args: Vec<String>,
    /// Where it runs.
    pub directory: FilePath,
    /// Its environment.
    pub env: Environment,
    /// Whether it gets the environment of the daemon besides.
    pub inherits_env: bool,
    /// Whether it can read from the daemon's standard input.
    pub inherits_stdin: bool,
    /// The file that takes its standard output; it is created where it is not there.
    pub stdout_log: FilePath,
    /// The file that takes its standard error; it is created where it is not there.
    pub stderr_log: FilePath,
    /// Whether the two files keep what they hold, with what is new behind it.
    pub appends_logs: bool,
    /// Whether it leads a process group of its own.
    pub leads_group: bool,
}

/// How the process of an app is to be started.
#[verifier::ext_equal]
pub struct LaunchPlanView {
    /// The app, under whose name the end of the process is reported.
    pub name: Text,
    /// The executable.
    pub program: Seq<u8>,
    /// The arguments.
    pub args: Seq<Text>,
    /// Where it runs.
    pub directory: Seq<u8>,
    /// Its environment.
    pub env: Map<Text, Text>,
    /// Whether it gets the environment of the daemon besides.
    pub inherits_env: bool,
    /// Whether it can read from the daemon's standard input.
    pub inherits_stdin: bool,
    /// The file that takes its standard output.
    pub stdout_log: Seq<u8>,
    /// The file that takes its standard error.
    pub stderr_log: Seq<u8>,
    /// Whether the two files keep what they hold, with what is new behind it.
    pub appends_logs: bool,
    /// Whether it leads a process group of its own.
    pub leads_group: bool,
}

impl View for LaunchPlan {
    type V = LaunchPlanView;

    open spec fn view(&self) -> LaunchPlanView {
        LaunchPlanView {
            name: self.name@,
            program: self.program@,
            args: text::texts(self.args@),
            directory: self.directory@,
            env: env_file::text_values(self.env@),
            inherits_env: self.inherits_env,
            inherits_stdin: self.inherits_stdin,
            stdout_log: self.stdout_log@,
            stderr_log: self.stderr_log@,
            appends_logs: self.appends_logs,
            leads_group: self.leads_group,
        }
    }
}

impl Clone for LaunchPlan {
    fn clone(&self) -> (r: LaunchPlan)
        ensures
            r@ == self@,
    {
        LaunchPlan {
            name: self.name.clone(),
            program: self.program.clone(),
            args: copy_texts(&self.args),
            directory: self.directory.clone(),
            env: self.env.clone(),
            inherits_env: self.inherits_env,
            inherits_stdin: self.inherits_stdin,
            stdout_log: self.stdout_log.clone(),
            stderr_log: self.stderr_log.clone(),
            appends_logs: self.appends_logs,
            leads_group: self.leads_group,
        }
    }
}

impl LaunchPlanView {
    /// How the process of the app with this configuration is started: its program with its
    /// arguments in its directory, with its environment and nothing else, in a process group of its
    /// own, with no input, and with its output appended to the two logs of the app.
    pub open spec fn of_app(paths: AynurPathsView, config: AppConfigView) -> LaunchPlanView {
        LaunchPlanView {
            name: config.name,
            program: config.binary_path,
            args: config.args,
            directory: config.working_directory,
            env: config.env,
            inherits_env: false,
            inherits_stdin: false,
            stdout_log: paths.stdout_log(config.name),
            stderr_log: paths.stderr_log(config.name),
            appends_logs: true,
            leads_group: true,
        }
    }
}

impl LaunchPlan {
    /// How the process of the app with this configuration is started.
    pub fn of_app(paths: &AynurPaths, config: &AppConfig) -> (r: LaunchPlan)
        ensures
            r@ == LaunchPlanView::of_app(paths@, config@),
    {
        LaunchPlan {
            name: config.name.clone(),
            program: config.binary_path.clone(),
            args: copy_texts(&config.args),
            directory: config.working_directory.clone(),
            env: config.env.clone(),
            inherits_env: false,
            inherits_stdin: false,
            stdout_log: paths.stdout_log_path(config.name.as_str()),
            stderr_log: paths.stderr_log_path(config.name.as_str()),
            appends_logs: true,
            leads_group: true,
        }
    }

    /// What is reported once the process `pid` that was started so has ended.
    pub fn exit_event(&self, pid: u32) -> (r: ExitEvent)
        ensures
            r@ == (ExitEventView { name: self@.name, pid }),
    {
        ExitEvent { name: self.name.clone(), pid }
    }
}

/// How many milliseconds a new process is watched before it counts as running.
pub const STARTUP_WATCH_MILLIS: u64 = 200;

/// How many milliseconds pass between two looks at a new process.
pub const STARTUP_POLL_MILLIS: u64 = 10;

/// What is to be done next for a process that was just started.
#[derive(Clone, Debug, PartialEq, Eq)]
pub enum WatchStep {
    /// Wait, then look at it again.
    Wait {
        /// How long to wait.
        pause_millis: u64,
    },
    /// Stop looking.
    Settled {
        /// What came of starting it.
        reply: SpawnReply,
    },
}

/// What is to be done next for a process that was just started.
#[verifier::ext_equal]
pub enum WatchStepView {
    /// Wait so many milliseconds, then look at it again.
    Wait(u64),
    /// Stop looking, with what came of starting it.
    Settled(SpawnReplyView),
}

impl View for WatchStep {
    type V = WatchStepView;

    open spec fn view(&self) -> WatchStepView {
        match self {
            WatchStep::Wait { pause_millis } => WatchStepView::Wait(*pause_millis),
            WatchStep::Settled { reply } => WatchStepView::Settled(reply@),
        }
    }
}

/// A process that was started so many milliseconds ago was looked at: an exit within the watch is a
/// failed start, and a process that outlasts the watch runs.
pub open spec fn watched(
    pid: u32,
    exit_status: Option<Text>,
    elapsed_millis: u64,
    now: int,
) -> WatchStepView {
    match exit_status {
        Some(status) => WatchStepView::Settled(SpawnReplyView::Exited(status)),
        None => if elapsed_millis < STARTUP_WATCH_MILLIS {
            WatchStepView::Wait(STARTUP_POLL_MILLIS)
        } else {
            WatchStepView::Settled(SpawnReplyView::Running(pid, now))
        },
    }
}

/// Goes on once the process `pid`, which was started so many milliseconds ago, was looked at.
/// `exit_status` is how it ended, where it has; `now` is the time.
pub fn watch_startup(
    pid: u32,
    exit_status: Option<String>,
    elapsed_millis: u64,
    now: Timestamp,
) -> (r: WatchStep)
    ensures
        r@ == watched(pid, text::text_option(exit_status), elapsed_millis, now@),
{
    match exit_status {
        Some(status) => WatchStep::Settled { reply: SpawnReply::Exited { status } },
        None => {
            if elapsed_millis < STARTUP_WATCH_MILLIS {
                WatchStep::Wait { pause_millis: STARTUP_POLL_MILLIS }
            } else {
                WatchStep::Settled { reply: SpawnReply::Running { pid, started_at: now } }
            }
        },
    }
}

/// The process that runs, and since when; or why there is none.
pub open spec fn spawned(
    paths: AynurPathsView,
    config: AppConfigView,
    reply: SpawnReplyView,
) -> Result<(u32, int), Seq<Text>> {
    match reply {
        SpawnReplyView::NoStdoutLog(cause) => Err(
            seq!["failed to open stdout log for app '"@ + config.name + "'"@, cause],
        ),
        SpawnReplyView::NoStderrLog(cause) => Err(
            seq!["failed to open stderr log for app '"@ + config.name + "'"@, cause],
        ),
        SpawnReplyView::NotSpawned(cause) => Err(
            seq!["failed to spawn app '"@ + config.name + "'"@, cause],
        ),
        SpawnReplyView::Exited(status) => Err(
            seq![
                "app '"@ + config.name + "' exited during startup with "@ + status + "; binary: "@
                    + file_path::lossy_text(config.binary_path) + "; see "@ + file_path::lossy_text(
                    paths.stderr_log(config.name),
                ),
            ],
        ),
        SpawnReplyView::Running(pid, started_at) => Ok((pid, started_at)),
    }
}

/// The process in the outcome of an operation.
pub open spec fn process_outcome(result: Result<(u32, Timestamp), Failure>) -> Result<
    (u32, int),
    Seq<Text>,
> {
    match result {
        Ok((pid, started_at)) => Ok((pid, started_at@)),
        Err(failure) => Err(failure@),
    }
}

fn about_app(before: &str, config: &AppConfig) -> (r: String)
    ensures
        r@ == before@ + config@.name + "'"@,
{
    before.to_owned().concat(config.name.as_str()).concat("'")
}

/// The process that runs, and since when; or why there is none. `reply` is what starting it gave.
pub fn spawn_app(paths: &AynurPaths, config: &AppConfig, reply: SpawnReply) -> (r: Result<
    (u32, Timestamp),
    Failure,
>)
    ensures
        process_outcome(r) == spawned(paths@, config@, reply@),
{
    match reply {
        SpawnReply::NoStdoutLog { cause } => Err(
            Failure::because(about_app("failed to open stdout log for app '", config), cause),
        ),
        SpawnReply::NoStderrLog { cause } => Err(
            Failure::because(about_app("failed to open stderr log for app '", config), cause),
        ),
        SpawnReply::NotSpawned { cause } => Err(
            Failure::because(about_app("failed to spawn app '", config), cause),
        ),
        SpawnReply::Exited { status } => Err(
            Failure::new(
                "app '".to_owned().concat(config.name.as_str()).concat(
                    "' exited during startup with ",
                ).concat(status.as_str()).concat("; binary: ").concat(
                    config.binary_path.display().as_str(),
                ).concat("; see ").concat(
                    paths.stderr_log_path(config.name.as_str()).display().as_str(),
                ),
            ),
        ),
        SpawnReply::Running { pid, started_at } => Ok((pid, started_at)),
    }
}

/// What a signal is sent to for the whole group of the process `pid`.
pub open spec fn group_target(pid: u32) -> int {
    if pid < 0x8000_0000 {
        -pid
    } else {
        0x1_0000_0000 - pid
    }
}

/// What a signal is sent to for the whole group of the process `pid`: the negative number of the
/// process.
pub fn process_group(pid: u32) -> (r: i32)
    requires
        pid != 0x8000_0000,
    ensures
        r == group_target(pid),
{
    if pid < 0x8000_0000 {
        -(pid as i32)
    } else {
        let distance: u32 = 0xffff_ffff - pid;
        distance as i32 + 1
    }
}

/// Why a signal was not sent.
#[derive(Clone, Debug, PartialEq, Eq)]
pub struct SignalError {
    /// The error number of the system, where there is one.
    pub errno: Option<i32>,
    /// The reason, in words.
    pub cause: String,
}

/// How sending a signal to a group of processes comes out. A group that is gone is no failure.
pub open spec fn signalled(pid: u32, signal: int, sent: Result<(), SignalError>) -> Result<
    (),
    Seq<Text>,
> {
    match sent {
        Ok(_) => Ok(()),
        Err(error) => if error.errno == Some(3i32) {
            Ok(())
        } else {
            Err(
                seq![
                    "failed to send signal "@ + text::decimal_text(signal as nat)
                        + " to process group "@ + text::decimal_text(pid as nat) + ": "@
                        + error.cause@,
                ],
            )
        },
    }
}

fn send_signal_to_process_group(pid: u32, signal: i32, sent: Result<(), SignalError>) -> (r: Result<
    (),
    Failure,
>)
    requires
        signal >= 0,
    ensures
        failure::outcome(r) == signalled(pid, signal as int, sent),
{
    match sent {
        Ok(_) => Ok(()),
        Err(error) => {
            if let Some(errno) = error.errno {
                if errno == no_such_process() {
                    return Ok(());
                }
            }
            Err(
                Failure::new(
                    "failed to send signal ".to_owned().concat(
                        decimal(signal as u64).as_str(),
                    ).concat(" to process group ").concat(decimal(pid as u64).as_str()).concat(
                        ": ",
                    ).concat(error.cause.as_str()),
                ),
            )
        },
    }
}

/// How asking the processes of an app to end comes out. `sent` is what sending the signal to their
/// group gave.
pub fn terminate_process_group(pid: u32, sent: Result<(), SignalError>) -> (r: Result<(), Failure>)
    ensures
        failure::outcome(r) == signalled(pid, 15, sent),
{
    send_signal_to_process_group(pid, termination_signal(), sent)
}

/// How ending the processes of an app comes out. `sent` is what sending the signal to their group
/// gave.
pub fn kill_process_group(pid: u32, sent: Result<(), SignalError>) -> (r: Result<(), Failure>)
    ensures
        failure::outcome(r) == signalled(pid, 9, sent),
{
    send_signal_to_process_group(pid, kill_signal(), sent)
}

/// What the system says of the memory of a process.
#[derive(Debug, PartialEq, Eq)]
pub enum RssSample {
    /// The file `statm` of the process, which counts pages.
    Statm {
        /// What reading it gave.
        content: Result<String, String>,
        /// The bytes in a page; not positive where the system does not say.
        page_size: i64,
    },
    /// A record on the process, which counts bytes.
    TaskInfo {
        /// How much of the record there is.
        returned: i32,
        /// How long a record is.
        expected: i32,
        /// The bytes.
        resident_size: u64,
    },
    /// The system cannot say.
    Unsupported,
}

/// The complaint that the memory of the process `pid` cannot be told.
pub open spec fn about_rss(before: Text, pid: u32, after: Text) -> Text {
    before + text::decimal_text(pid as nat) + after
}

/// The resident pages that the content of `statm` names, or why it names none.
pub open spec fn resident_pages(pid: u32, content: Result<Text, Text>) -> Result<nat, Seq<Text>> {
    match content {
        Err(cause) => Err(
            seq![
                about_rss(
                    about_rss("failed to read RSS for process "@, pid, " from /proc/"@),
                    pid,
                    "/statm"@,
                ),
                cause,
            ],
        ),
        Ok(text) => if number::words(text).len() < 2 {
            Err(
                seq![
                    about_rss(
                        "RSS data for process "@,
                        pid,
                        " is missing the resident page count"@,
                    ),
                ],
            )
        } else {
            match number::number_value(number::words(text)[1]) {
                Ok(pages) => Ok(pages),
                Err(error) => Err(
                    seq![
                        about_rss(
                            "RSS data for process "@,
                            pid,
                            " has an invalid resident page count"@,
                        ),
                        error.text(),
                    ],
                ),
            }
        },
    }
}

/// The bytes that the process `pid` holds in memory, or why they cannot be told.
pub open spec fn resident_bytes(pid: u32, sample: RssSample) -> Result<int, Seq<Text>> {
    match sample {
        RssSample::Statm { content, page_size } => match resident_pages(
            pid,
            failure::text_reply(content),
        ) {
            Err(lines) => Err(lines),
            Ok(pages) => if page_size <= 0 {
                Err(
                    seq![
                        about_rss(
                            "failed to read system page size while sampling process "@,
                            pid,
                            " RSS"@,
                        ),
                    ],
                )
            } else {
                Ok(pages * page_size)
            },
        },
        RssSample::TaskInfo { returned, expected, resident_size } => if returned != expected {
            Err(
                seq![
                    about_rss(
                        "failed to read RSS for process "@,
                        pid,
                        " with proc_pidinfo (returned "@,
                    ) + text::integer_text(returned as int) + ", expected "@ + text::integer_text(
                        expected as int,
                    ) + ")"@,
                ],
            )
        } else {
            Ok(resident_size as int)
        },
        RssSample::Unsupported => Err(
            seq![
                about_rss(
                    "reading RSS is unsupported on this platform for process "@,
                    pid,
                    ""@,
                ),
            ],
        ),
    }
}

fn tell_rss(before: &str, pid: u32, after: &str) -> (r: String)
    ensures
        r@ == about_rss(before@, pid, after@),
{
    before.to_owned().concat(decimal(pid as u64).as_str()).concat(after)
}

/// The resident pages that the content of `statm` names, or why it names none.
pub fn read_resident_pages(pid: u32, content: &Result<String, String>) -> (r: Result<u64, Failure>)
    ensures
        match resident_pages(pid, failure::text_reply(*content)) {
            Ok(pages) => r is Ok && r->Ok_0 == pages,
            Err(lines) => r is Err && r->Err_0@ == lines,
        },
{
    let statm = match content {
        Ok(statm) => statm,
        Err(cause) => {
            return Err(
                Failure::because(
                    tell_rss(
                        tell_rss("failed to read RSS for process ", pid, " from /proc/").as_str(),
                        pid,
                        "/statm",
                    ),
                    cause.clone(),
                ),
            );
        },
    };
    let words = split_words(statm.as_str());
    assert(text::texts(words@) == number::words(statm@));
    if words.len() < 2 {
        return Err(
            Failure::new(
                tell_rss("RSS data for process ", pid, " is missing the resident page count"),
            ),
        );
    }
    assert(number::words(statm@)[1] == words@[1]@);
    match parse_number(words[1].as_str()) {
        Ok(pages) => Ok(pages),
        Err(error) => Err(
            Failure::because(
                tell_rss("RSS data for process ", pid, " has an invalid resident page count"),
                error.message(),
            ),
        ),
    }
}

/// The bytes that the process `pid` holds in memory, or why they cannot be told. `sample` is what
/// the system says of it.
pub fn read_process_rss_bytes(pid: u32, sample: &RssSample) -> (r: Result<u64, Failure>)
    requires
        resident_bytes(pid, *sample) is Ok ==> resident_bytes(pid, *sample)->Ok_0 <= u64::MAX,
    ensures
        match resident_bytes(pid, *sample) {
            Ok(bytes) => r is Ok && r->Ok_0 == bytes,
            Err(lines) => r is Err && r->Err_0@ == lines,
        },
{
    match sample {
        RssSample::Statm { content, page_size } => match read_resident_pages(pid, content) {
            Err(failure) => Err(failure),
            Ok(pages) => {
                if *page_size <= 0 {
                    Err(
                        Failure::new(
                            tell_rss(
                                "failed to read system page size while sampling process ",
                                pid,
                                " RSS",
                            ),
                        ),
                    )
                } else {
                    Ok(pages * *page_size as u64)
                }
            },
        },
        RssSample::TaskInfo { returned, expected, resident_size } => {
            if *returned != *expected {
                Err(
                    Failure::new(
                        tell_rss(
                            "failed to read RSS for process ",
                            pid,
                            " with proc_pidinfo (returned ",
                        ).concat(text::integer(*returned as i64).as_str()).concat(
                            ", expected ",
                        ).concat(text::integer(*expected as i64).as_str()).concat(")"),
                    ),
                )
            } else {
                Ok(*resident_size)
            }
        },
        RssSample::Unsupported => Err(
            Failure::new(
                tell_rss(
                    "reading RSS is unsupported on this platform for process ",
                    pid,
                    "",
                ),
            ),
        ),
    }
}

/// Apps of different valid names never write to one log, and the two streams of an app go to two
/// files.
pub proof fn law_launched_apps_log_apart(
    paths: AynurPathsView,
    a: AppConfigView,
    b: AppConfigView,
)
    requires
        app::valid_name(a.name),
        app::valid_name(b.name),
    ensures
        ({
            let (first, second) = (
                LaunchPlanView::of_app(paths, a),
                LaunchPlanView::of_app(paths, b),
            );
            &&& first.stdout_log != second.stderr_log
            &&& a.name != b.name ==> first.stdout_log != second.stdout_log && first.stderr_log
                != second.stderr_log
        }),
{
    assert(a.name[0] != '/') by {
        assert(a.name.contains(a.name[0]));
    }
    assert(b.name[0] != '/') by {
        assert(b.name.contains(b.name[0]));
    }
    paths::law_app_files_are_apart(paths, a.name, b.name);
}

/// A process counts as running only where it has outlasted the whole watch without an end, and any
/// end that is seen before makes it a failed start.
pub proof fn law_early_exit_is_no_start(
    pid: u32,
    exit_status: Option<Text>,
    elapsed_millis: u64,
    now: int,
)
    ensures
        watched(pid, exit_status, elapsed_millis, now) == WatchStepView::Settled(
            SpawnReplyView::Running(pid, now),
        ) <==> exit_status is None && elapsed_millis >= STARTUP_WATCH_MILLIS,
        exit_status is Some ==> watched(pid, exit_status, elapsed_millis, now)
            == WatchStepView::Settled(SpawnReplyView::Exited(exit_status->0)),
{
}

/// A signal to a process that the system could have given out reaches the whole group, and
/// nothing that is not in it: its target is the negative number of the process.
pub proof fn law_signals_reach_the_group(pid: u32)
    requires
        0 < pid < 0x8000_0000,
    ensures
        group_target(pid) == -pid,
        group_target(pid) < 0,
{
}

/// A process that is gone already counts as stopped: only another failure to signal is reported.
pub proof fn law_gone_processes_are_no_failure(
    pid: u32,
    signal: int,
    sent: Result<(), SignalError>,
)
    ensures
        signalled(pid, signal, sent) is Err <==> sent is Err && sent->Err_0.errno != Some(3i32),
{
}

/// A process is started as its app is configured, and in no other way: with the program, the
/// arguments, the directory and the environment of the configuration, nothing of the daemon's own
/// environment or input, in a process group of its own, and with its output behind what the two
/// logs of the app hold already. Its end is reported under the name of the app.
pub proof fn law_plan_is_the_configuration(paths: AynurPathsView, config: AppConfigView)
    ensures
        ({
            let plan = LaunchPlanView::of_app(paths, config);
            &&& plan.name == config.name
            &&& plan.program == config.binary_path
            &&& plan.args == config.args
            &&& plan.directory == config.working_directory
            &&& plan.env == config.env
            &&& !plan.inherits_env
            &&& !plan.inherits_stdin
            &&& plan.stdout_log == paths.stdout_log(config.name)
            &&& plan.stderr_log == paths.stderr_log(config.name)
            &&& plan.appends_logs
            &&& plan.leads_group
        }),
{
}

/// Starting a process succeeds exactly where it runs, and then gives that process and the time
/// since when it runs.
pub proof fn law_only_a_running_process_is_a_start(
    paths: AynurPathsView,
    config: AppConfigView,
    reply: SpawnReplyView,
)
    ensures
        spawned(paths, config, reply) is Ok <==> reply is Running,
        reply is Running ==> spawned(paths, config, reply)->Ok_0 == (
            reply->Running_0,
            reply->Running_1,
        ),
{
}

/// A new process is looked at every 10 milliseconds until 200 have passed; it then runs.
pub proof fn law_new_process_is_watched(
    pid: u32,
    exit_status: Option<Text>,
    elapsed_millis: u64,
    now: int,
)
    ensures
        exit_status is None && elapsed_millis < 200 ==> watched(
            pid,
            exit_status,
            elapsed_millis,
            now,
        ) == WatchStepView::Wait(10),
        exit_status is None && elapsed_millis >= 200 ==> watched(
            pid,
            exit_status,
            elapsed_millis,
            now,
        ) == WatchStepView::Settled(SpawnReplyView::Running(pid, now)),
        exit_status is Some ==> watched(pid, exit_status, elapsed_millis, now)
            == WatchStepView::Settled(SpawnReplyView::Exited(exit_status->0)),
{
}

/// A signal that was sent, or for which no process is left, is no failure. Any other is told with
/// the signal, the process and the reason.
pub proof fn law_signal_failure_is_told(
    pid: u32,
    signal: int,
    sent: Result<(), SignalError>,
)
    ensures
        sent is Ok || sent->Err_0.errno == Some(3i32) ==> signalled(pid, signal, sent) is Ok,
        sent is Err && sent->Err_0.errno != Some(3i32) ==> signalled(pid, signal, sent) == Err::<
            (),
            Seq<Text>,
        >(
            seq![
                "failed to send signal "@ + text::decimal_text(signal as nat)
                    + " to process group "@ + text::decimal_text(pid as nat) + ": "@
                    + sent->Err_0.cause@,
            ],
        ),
{
}

/// The memory of a process is the second number of its `statm`, times the size of a page; what
/// follows that number does not matter.
pub proof fn law_resident_pages_are_counted(
    pid: u32,
    size: Text,
    pages: nat,
    rest: Text,
    content: Result<String, String>,
    page_size: i64,
)
    requires
        size.len() > 0,
        forall|i: int| 0 <= i < size.len() ==> !text::white_space(#[trigger] size[i]),
        pages <= u64::MAX,
        page_size > 0,
        content is Ok,
        content->Ok_0@ == size + seq![' '] + text::decimal_text(pages) + seq![' '] + rest,
    ensures
        resident_bytes(pid, RssSample::Statm { content, page_size }) == Ok::<int, Seq<Text>>(
            pages * page_size,
        ),
{
    let number = text::decimal_text(pages);
    text::law_decimal_is_digits(pages);
    number::law_decimal_is_read_back(pages);
    number::law_first_word(size, number + seq![' '] + rest);
    number::law_first_word(number, rest);
    assert(content->Ok_0@ =~= size + seq![' '] + (number + seq![' '] + rest));
    assert(number::words(content->Ok_0@)[1] == number);
}

/// A record on a process that is whole tells its memory, and any other tells nothing.
pub proof fn law_whole_records_are_believed(
    pid: u32,
    returned: i32,
    expected: i32,
    resident_size: u64,
)
    ensures
        ({
            let told = resident_bytes(pid, RssSample::TaskInfo { returned, expected, resident_size });
            &&& returned == expected ==> told == Ok::<int, Seq<Text>>(resident_size as int)
            &&& returned != expected ==> told is Err
            &&& resident_bytes(pid, RssSample::Unsupported) is Err
        }),
{
}

} // verus!
