//! The logs of an app: following them and clearing them.
use crate::app::{self, check_name};
use crate::failure::{self, Failure};
use crate::file_path::{self, FilePath};
use crate::paths::{AynurPaths, AynurPathsView};
use crate::text::Text;
use vstd::prelude::*;

verus! {

/// How many bytes before the place up to which a log was read are remembered.
pub const LOG_BOUNDARY_BYTES: u64 = 64;

/// How many milliseconds pass between two looks at the logs.
pub const FOLLOW_REST_MILLIS: u64 = 100;

/// Up to where a log was read, and the bytes right before that place.
#[derive(Debug, PartialEq, Eq)]
pub struct LogCursor {
    position: u64,
    boundary: Vec<u8>,
}

/// Up to where a log was read, and the bytes right before that place.
#[verifier::ext_equal]
pub struct LogCursorView {
    /// The place.
    pub position: nat,
    /// The bytes before it.
    pub boundary: Seq<u8>,
}

impl View for LogCursor {
    type V = LogCursorView;

    closed spec fn view(&self) -> LogCursorView {
        LogCursorView { position: self.position as nat, boundary: self.boundary@ }
    }
}

/// A part of a log.
#[derive(Clone, Copy, Debug, PartialEq, Eq, Structural)]
pub struct LogRange {
    /// Where it starts.
    pub start: u64,
    /// How many bytes it has.
    pub length: u64,
}

/// What is done next in one look at a log, once its length is known.
#[derive(Clone, Copy, Debug, PartialEq, Eq, Structural)]
pub enum LookStep {
    /// Read the part of the log that is compared with what is remembered.
    Compare {
        /// The length of the log.
        length: u64,
        /// The part.
        range: LogRange,
    },
    /// Print the log from here up to its end.
    Copy {
        /// Where to begin.
        start: u64,
    },
    /// Read the part of the log that is remembered.
    Remember {
        /// Up to where the log was printed.
        position: u64,
        /// The part.
        range: LogRange,
    },
}

/// How many bytes are remembered before `position`.
pub open spec fn boundary_length(position: nat) -> nat {
    if position < LOG_BOUNDARY_BYTES {
        position
    } else {
        LOG_BOUNDARY_BYTES as nat
    }
}

impl LogCursorView {
    /// The cursor of a log that was not read yet.
    pub open spec fn at_start() -> LogCursorView {
        LogCursorView { position: 0, boundary: Seq::empty() }
    }

    /// The cursor of a log that was read up to its end.
    pub open spec fn at_end(content: Seq<u8>) -> LogCursorView {
        LogCursorView {
            position: content.len(),
            boundary: content.skip(content.len() - boundary_length(content.len())),
        }
    }

    /// Whether the remembered bytes have to be compared with a log of this length.
    pub open spec fn compares(self, length: nat) -> bool {
        self.boundary.len() > 0 && length >= self.position
    }

    /// From where a log of this length is read on, given the bytes that now stand where the
    /// remembered ones stood: from the start where it has become shorter or other bytes stand there.
    pub open spec fn reads_from(self, length: nat, found: Option<Seq<u8>>) -> nat {
        if length < self.position || self.compares(length) && found != Some(self.boundary) {
            0
        } else {
            self.position
        }
    }

    /// The bytes of `content` where the remembered ones stood.
    pub open spec fn found_in(self, content: Seq<u8>) -> Option<Seq<u8>> {
        if self.compares(content.len()) {
            Some(content.subrange(self.position - self.boundary.len(), self.position as int))
        } else {
            None
        }
    }

    /// What is remembered fits the place.
    pub open spec fn sound(self) -> bool {
        self.position <= u64::MAX && self.boundary.len() == boundary_length(self.position)
    }

    /// The log has this length.
    pub open spec fn measured_step(self, length: u64) -> LookStep {
        if self.compares(length as nat) {
            LookStep::Compare {
                length,
                range: LogRange {
                    start: (self.position - self.boundary.len()) as u64,
                    length: self.boundary.len() as u64,
                },
            }
        } else {
            LookStep::Copy { start: self.reads_from(length as nat, None) as u64 }
        }
    }

    /// These bytes stand where the remembered ones stood.
    pub open spec fn compared_step(self, length: u64, found: Seq<u8>) -> LookStep {
        LookStep::Copy { start: self.reads_from(length as nat, Some(found)) as u64 }
    }

    /// What is printed of a log that holds `content`.
    pub open spec fn printed(self, content: Seq<u8>) -> Seq<u8> {
        content.skip(self.reads_from(content.len(), self.found_in(content)) as int)
    }
}

/// So many bytes were printed from `start` on; nothing follows where the place behind them cannot be
/// counted.
pub open spec fn copied_step(start: u64, printed: u64) -> Option<LookStep> {
    if start + printed > u64::MAX {
        None
    } else {
        let position = (start + printed) as u64;
        let size = boundary_length(position as nat) as u64;
        Some(
            LookStep::Remember {
                position,
                range: LogRange { start: (position - size) as u64, length: size },
            },
        )
    }
}

/// The bytes that were found, where any were looked at.
pub open spec fn found_view(found: Option<Vec<u8>>) -> Option<Seq<u8>> {
    match found {
        None => None,
        Some(bytes) => Some(bytes@),
    }
}

fn same_bytes(a: &Vec<u8>, b: &Vec<u8>) -> (r: bool)
    ensures
        r == (a@ == b@),
{
    if a.len() != b.len() {
        return false;
    }
    let mut i: usize = 0;
    while i < a.len()
        invariant
            i <= a@.len(),
            a@.len() == b@.len(),
            forall|j: int| 0 <= j < i ==> a@[j] == b@[j],
        decreases a@.len() - i,
    {
        if a[i] != b[i] {
            return false;
        }
        i = i + 1;
    }
    assert(a@ =~= b@);
    true
}

impl LogCursor {
    #[verifier::type_invariant]
    spec fn remembers_enough(self) -> bool {
        self.boundary@.len() == boundary_length(self.position as nat)
    }

    /// The cursor of a log that was not read yet.
    pub fn start() -> (r: LogCursor)
        ensures
            r@ == LogCursorView::at_start(),
    {
        LogCursor { position: 0, boundary: Vec::new() }
    }

    /// Up to where the log was read.
    pub fn position(&self) -> (r: u64)
        ensures
            r == self@.position,
    {
        self.position
    }

    /// The part of a log of this length that has to be compared with what is remembered, if any.
    fn boundary_to_compare(&self, length: u64) -> (r: Option<LogRange>)
        ensures
            r is Some == self@.compares(length as nat),
            r is Some ==> r->0.start == self@.position - self@.boundary.len() && r->0.length
                == self@.boundary.len(),
    {
        proof {
            use_type_invariant(self);
        }
        if self.boundary.len() == 0 || length < self.position {
            return None;
        }
        let size: u64 = self.boundary.len() as u64;
        Some(LogRange { start: self.position - size, length: size })
    }

    /// From where a log of this length is read on. `found` are the bytes of the part that had to be
    /// compared.
    fn read_position(&self, length: u64, found: &Option<Vec<u8>>) -> (r: u64)
        ensures
            r == self@.reads_from(length as nat, found_view(*found)),
    {
        if length < self.position {
            return 0;
        }
        if self.boundary.len() == 0 {
            return self.position;
        }
        match found {
            Some(bytes) => {
                if same_bytes(bytes, &self.boundary) {
                    self.position
                } else {
                    0
                }
            },
            None => 0,
        }
    }

    /// The part of a log that is remembered once it was read up to `position`.
    fn boundary_to_remember(position: u64) -> (r: LogRange)
        ensures
            r.length == boundary_length(position as nat),
            r.start == position - boundary_length(position as nat),
    {
        let length: u64 = if position < LOG_BOUNDARY_BYTES {
            position
        } else {
            LOG_BOUNDARY_BYTES
        };
        LogRange { start: position - length, length }
    }

    /// Goes on once the length of the log is known.
    pub fn measured(&self, length: u64) -> (r: LookStep)
        ensures
            r == self@.measured_step(length),
    {
        match self.boundary_to_compare(length) {
            Some(range) => LookStep::Compare { length, range },
            None => LookStep::Copy { start: self.read_position(length, &None) },
        }
    }

    /// Goes on once the part that is compared was read from a log of this length.
    pub fn compared(&self, length: u64, found: Vec<u8>) -> (r: LookStep)
        ensures
            r == self@.compared_step(length, found@),
    {
        LookStep::Copy { start: self.read_position(length, &Some(found)) }
    }

    /// Goes on once so many bytes of the log were printed from `start` on.
    pub fn copied(start: u64, printed: u64) -> (r: Option<LookStep>)
        ensures
            r == copied_step(start, printed),
    {
        if printed > u64::MAX - start {
            return None;
        }
        let position: u64 = start + printed;
        Some(LookStep::Remember { position, range: LogCursor::boundary_to_remember(position) })
    }

    /// The cursor of a log that was read up to `position`, with the part that is to be remembered.
    pub fn at(position: u64, boundary: Vec<u8>) -> (r: Option<LogCursor>)
        ensures
            r is Some == (boundary@.len() == boundary_length(position as nat)),
            r is Some ==> r->0@ == (LogCursorView {
                position: position as nat,
                boundary: boundary@,
            }),
    {
        let wanted: u64 = LogCursor::boundary_to_remember(position).length;
        if boundary.len() as u64 == wanted {
            Some(LogCursor { position, boundary })
        } else {
            None
        }
    }
}

/// What can fail while a log is looked at.
#[derive(Clone, Copy, Debug, PartialEq, Eq, Structural)]
pub enum LogStage {
    /// Asking for its length.
    Metadata,
    /// Going to the part that is compared or remembered.
    SeekBoundary,
    /// Reading that part.
    ReadBoundary,
    /// Going to where it is read on.
    Seek,
    /// Printing what is new.
    Print,
    /// Making sure that it is printed.
    FlushOutput,
}

/// What is said where a stage fails.
pub open spec fn log_complaint(path: Seq<u8>, stage: LogStage) -> Text {
    let shown = file_path::lossy_text(path);
    match stage {
        LogStage::Metadata => "failed to read log metadata at "@ + shown,
        LogStage::SeekBoundary => "failed to seek log boundary at "@ + shown,
        LogStage::ReadBoundary => "failed to read log boundary at "@ + shown,
        LogStage::Seek => "failed to seek log at "@ + shown,
        LogStage::Print => "failed to print log at "@ + shown,
        LogStage::FlushOutput => "failed to flush log output for "@ + shown,
    }
}

/// The failure of a stage.
pub fn log_failure(path: &FilePath, stage: LogStage, cause: String) -> (r: Failure)
    ensures
        r@ == seq![log_complaint(path@, stage), cause@],
{
    let before = match stage {
        LogStage::Metadata => "failed to read log metadata at ",
        LogStage::SeekBoundary => "failed to seek log boundary at ",
        LogStage::ReadBoundary => "failed to read log boundary at ",
        LogStage::Seek => "failed to seek log at ",
        LogStage::Print => "failed to print log at ",
        LogStage::FlushOutput => "failed to flush log output for ",
    };
    Failure::because(before.to_owned().concat(path.display().as_str()), cause)
}

/// Whether an app is configured, that is whether its name is valid and its configuration is a file.
pub open spec fn configured(paths: AynurPathsView, name: Text, is_file: bool) -> Result<
    (),
    Seq<Text>,
> {
    if app::name_verdict(name) is Err {
        app::name_verdict(name)
    } else if !is_file {
        Err(
            seq![
                "app '"@ + name + "' is not configured at "@ + file_path::lossy_text(
                    paths.app_config(name),
                ),
            ],
        )
    } else {
        Ok(())
    }
}

/// Refuses an app that is not configured. `is_file` is whether its configuration is a file.
pub fn ensure_configured_app(paths: &AynurPaths, name: &str, is_file: bool) -> (r: Result<
    (),
    Failure,
>)
    ensures
        failure::outcome(r) == configured(paths@, name@, is_file),
{
    match check_name(name) {
        Err(failure) => Err(failure),
        Ok(_) => {
            if !is_file {
                Err(
                    Failure::new(
                        "app '".to_owned().concat(name).concat("' is not configured at ").concat(
                            paths.app_config_path(name).display().as_str(),
                        ),
                    ),
                )
            } else {
                Ok(())
            }
        },
    }
}

/// One log of an app.
#[derive(Debug, PartialEq, Eq)]
pub struct AppLog {
    /// The app.
    pub name: String,
    /// Which of its streams it holds, in a word.
    pub stream: String,
    /// The file.
    pub path: FilePath,
}

/// One log of an app.
pub struct AppLogView {
    /// The app.
    pub name: Text,
    /// Which of its streams it holds, in a word.
    pub stream: Text,
    /// The file.
    pub path: Seq<u8>,
}

impl View for AppLog {
    type V = AppLogView;

    open spec fn view(&self) -> AppLogView {
        AppLogView { name: self.name@, stream: self.stream@, path: self.path@ }
    }
}

impl Clone for AppLog {
    fn clone(&self) -> (r: AppLog)
        ensures
            r@ == self@,
    {
        AppLog { name: self.name.clone(), stream: self.stream.clone(), path: self.path.clone() }
    }
}

/// The logs of the app called `name`, in the order in which they are printed.
pub open spec fn logs_of(paths: AynurPathsView, name: Text) -> Seq<AppLogView> {
    seq![
        AppLogView { name, stream: "stdout"@, path: paths.stdout_log(name) },
        AppLogView { name, stream: "stderr"@, path: paths.stderr_log(name) },
    ]
}

/// The views of some logs.
pub open spec fn log_views(logs: Seq<AppLog>) -> Seq<AppLogView> {
    logs.map_values(|log: AppLog| log@)
}

/// The logs of the app called `name`, in the order in which they are printed.
fn app_logs(paths: &AynurPaths, name: &str) -> (r: Vec<AppLog>)
    ensures
        log_views(r@) == logs_of(paths@, name@),
{
    let mut logs: Vec<AppLog> = Vec::new();
    logs.push(
        AppLog {
            name: name.to_owned(),
            stream: "stdout".to_owned(),
            path: paths.stdout_log_path(name),
        },
    );
    logs.push(
        AppLog {
            name: name.to_owned(),
            stream: "stderr".to_owned(),
            path: paths.stderr_log_path(name),
        },
    );
    assert(log_views(logs@) =~= logs_of(paths@, name@));
    logs
}

/// What came of opening a log in order to clear it.
#[derive(Clone, Debug, PartialEq, Eq)]
pub enum TruncateReply {
    /// It could not be opened; a symbolic link cannot.
    NotOpened {
        /// Why.
        cause: String,
    },
    /// It could not be inspected.
    NotInspected {
        /// Why.
        cause: String,
    },
    /// It was opened.
    Opened {
        /// Whether it is a regular file.
        is_file: bool,
    },
}

impl AppLogView {
    /// `before`, which stream the log holds, `between`, then the name of the app and the quote that
    /// ends it.
    pub open spec fn told(self, before: Text, between: Text) -> Text {
        before + self.stream + between + self.name + "'"@
    }

    /// What is said where the log cannot be opened.
    pub open spec fn open_complaint(self) -> Text {
        self.told("failed to open "@, " log for app '"@) + " at "@ + file_path::lossy_text(
            self.path,
        )
    }

    /// Whether the log may be cleared.
    pub open spec fn clearable(self, opened: TruncateReply) -> Result<(), Seq<Text>> {
        let shown = file_path::lossy_text(self.path);
        match opened {
            TruncateReply::NotOpened { cause } => Err(
                seq![
                    self.told("failed to open "@, " log for app '"@) + " for truncation at "@
                        + shown,
                    cause@,
                ],
            ),
            TruncateReply::NotInspected { cause } => Err(
                seq![
                    self.told("failed to read "@, " log metadata for app '"@) + " at "@ + shown,
                    cause@,
                ],
            ),
            TruncateReply::Opened { is_file } => if is_file {
                Ok(())
            } else {
                Err(seq![self.told(""@, " log for app '"@) + " is not a regular file: "@ + shown])
            },
        }
    }

    /// How clearing the log comes out.
    pub open spec fn cleared(self, truncated: Result<(), Text>) -> Result<(), Seq<Text>> {
        match truncated {
            Ok(_) => Ok(()),
            Err(cause) => Err(
                seq![
                    self.told("failed to truncate "@, " log for app '"@) + " at "@
                        + file_path::lossy_text(self.path),
                    cause,
                ],
            ),
        }
    }
}

impl AppLog {
    fn tell(&self, before: &str, between: &str) -> (r: String)
        ensures
            r@ == self@.told(before@, between@),
    {
        before.to_owned().concat(self.stream.as_str()).concat(between).concat(
            self.name.as_str(),
        ).concat("'")
    }

    /// The line that is printed before the log.
    pub fn header(&self) -> (r: String)
        ensures
            r@ == "==> "@ + file_path::lossy_text(self@.path) + " <=="@,
    {
        "==> ".to_owned().concat(self.path.display().as_str()).concat(" <==")
    }

    /// The failure to print the line before the log.
    pub fn header_failure(&self, cause: String) -> (r: Failure)
        ensures
            r@ == seq![self@.told("failed to print "@, " log header for app '"@), cause@],
    {
        Failure::because(self.tell("failed to print ", " log header for app '"), cause)
    }

    /// The failure to open the log.
    pub fn open_failure(&self, cause: String) -> (r: Failure)
        ensures
            r@ == seq![self@.open_complaint(), cause@],
    {
        Failure::because(
            self.tell("failed to open ", " log for app '").concat(" at ").concat(
                self.path.display().as_str(),
            ),
            cause,
        )
    }

    /// Whether the log may be cleared. `opened` is what opening it gave.
    pub fn open_log_for_truncate(&self, opened: TruncateReply) -> (r: Result<(), Failure>)
        ensures
            failure::outcome(r) == self@.clearable(opened),
    {
        match opened {
            TruncateReply::NotOpened { cause } => Err(
                Failure::because(
                    self.tell("failed to open ", " log for app '").concat(
                        " for truncation at ",
                    ).concat(self.path.display().as_str()),
                    cause,
                ),
            ),
            TruncateReply::NotInspected { cause } => Err(
                Failure::because(
                    self.tell("failed to read ", " log metadata for app '").concat(
                        " at ",
                    ).concat(self.path.display().as_str()),
                    cause,
                ),
            ),
            TruncateReply::Opened { is_file } => {
                if is_file {
                    Ok(())
                } else {
                    Err(
                        Failure::new(
                            self.tell("", " log for app '").concat(
                                " is not a regular file: ",
                            ).concat(self.path.display().as_str()),
                        ),
                    )
                }
            },
        }
    }

    /// How clearing the log comes out. `truncated` is what clearing it gave.
    pub fn truncate_log(&self, truncated: Result<(), String>) -> (r: Result<(), Failure>)
        ensures
            failure::outcome(r) == self@.cleared(failure::reply(truncated)),
    {
        match truncated {
            Ok(_) => Ok(()),
            Err(cause) => Err(
                Failure::because(
                    self.tell("failed to truncate ", " log for app '").concat(" at ").concat(
                        self.path.display().as_str(),
                    ),
                    cause,
                ),
            ),
        }
    }
}

/// One step of clearing the logs of an app.
#[derive(Clone, Debug, PartialEq, Eq)]
pub enum FlushStep {
    /// Open a log in order to clear it.
    Open {
        /// The log.
        log: AppLog,
    },
    /// Clear a log that is open.
    Truncate {
        /// The log.
        log: AppLog,
    },
}

/// One step of clearing the logs of an app.
pub enum FlushStepView {
    /// Open a log in order to clear it.
    Open(AppLogView),
    /// Clear a log that is open.
    Truncate(AppLogView),
}

impl View for FlushStep {
    type V = FlushStepView;

    open spec fn view(&self) -> FlushStepView {
        match self {
            FlushStep::Open { log } => FlushStepView::Open(log@),
            FlushStep::Truncate { log } => FlushStepView::Truncate(log@),
        }
    }
}

/// The steps of clearing the logs of the app called `name`: all are opened before any is cleared.
pub open spec fn flush_plan(paths: AynurPathsView, name: Text) -> Seq<FlushStepView> {
    let logs = logs_of(paths, name);
    logs.map_values(|log: AppLogView| FlushStepView::Open(log)) + logs.map_values(
        |log: AppLogView| FlushStepView::Truncate(log),
    )
}

/// How the logs of an app are cleared.
#[derive(Clone, Debug, PartialEq, Eq)]
pub struct FlushPlan {
    /// The steps; where one fails, those behind it are not taken.
    pub steps: Vec<FlushStep>,
    /// What is said once they are done.
    pub message: String,
}

/// How the logs of an app are cleared.
#[verifier::ext_equal]
pub struct FlushPlanView {
    /// The steps; where one fails, those behind it are not taken.
    pub steps: Seq<FlushStepView>,
    /// What is said once they are done.
    pub message: Text,
}

impl View for FlushPlan {
    type V = FlushPlanView;

    open spec fn view(&self) -> FlushPlanView {
        FlushPlanView {
            steps: self.steps@.map_values(|step: FlushStep| step@),
            message: self.message@,
        }
    }
}

/// How the logs of the app called `name` are cleared, or why they are not.
pub open spec fn flushed(paths: AynurPathsView, name: Text, is_file: bool) -> Result<
    FlushPlanView,
    Seq<Text>,
> {
    match configured(paths, name, is_file) {
        Err(lines) => Err(lines),
        Ok(_) => Ok(
            FlushPlanView {
                steps: flush_plan(paths, name),
                message: "flushed logs for "@ + name,
            },
        ),
    }
}

/// How the logs of the app called `name` are cleared, or why they are not. `is_file` is whether its
/// configuration is a file.
pub fn flush_logs(paths: &AynurPaths, name: &str, is_file: bool) -> (r: Result<FlushPlan, Failure>)
    ensures
        match flushed(paths@, name@, is_file) {
            Ok(plan) => r is Ok && r->Ok_0@ == plan,
            Err(lines) => r is Err && r->Err_0@ == lines,
        },
{
    if let Err(failure) = ensure_configured_app(paths, name, is_file) {
        return Err(failure);
    }
    let logs = app_logs(paths, name);
    let mut steps: Vec<FlushStep> = Vec::new();
    assert(logs@.len() == log_views(logs@).len());
    assert(logs@[0]@ == log_views(logs@)[0]);
    assert(logs@[1]@ == log_views(logs@)[1]);
    steps.push(FlushStep::Open { log: logs[0].clone() });
    steps.push(FlushStep::Open { log: logs[1].clone() });
    steps.push(FlushStep::Truncate { log: logs[0].clone() });
    steps.push(FlushStep::Truncate { log: logs[1].clone() });
    assert(steps@.map_values(|step: FlushStep| step@) =~= flush_plan(paths@, name@));
    Ok(FlushPlan { steps, message: "flushed logs for ".to_owned().concat(name) })
}

/// One step of following the logs of an app.
#[derive(Clone, Debug, PartialEq, Eq)]
pub enum FollowStep {
    /// Open a log in order to read it.
    Open {
        /// The log.
        log: AppLog,
    },
    /// Print the line that stands before a log.
    Header {
        /// The log.
        log: AppLog,
    },
    /// Print what is new in a log.
    Look {
        /// The log.
        log: AppLog,
    },
    /// Wait.
    Rest {
        /// How long to wait.
        pause_millis: u64,
    },
}

/// One step of following the logs of an app.
pub enum FollowStepView {
    /// Open a log in order to read it.
    Open(AppLogView),
    /// Print the line that stands before a log.
    Header(AppLogView),
    /// Print what is new in a log.
    Look(AppLogView),
    /// Wait so many milliseconds.
    Rest(u64),
}

impl View for FollowStep {
    type V = FollowStepView;

    open spec fn view(&self) -> FollowStepView {
        match self {
            FollowStep::Open { log } => FollowStepView::Open(log@),
            FollowStep::Header { log } => FollowStepView::Header(log@),
            FollowStep::Look { log } => FollowStepView::Look(log@),
            FollowStep::Rest { pause_millis } => FollowStepView::Rest(*pause_millis),
        }
    }
}

/// How the logs of an app are followed.
#[derive(Clone, Debug, PartialEq, Eq)]
pub struct FollowPlan {
    /// What comes first.
    pub beginning: Vec<FollowStep>,
    /// What is then repeated until the program is ended.
    pub round: Vec<FollowStep>,
}

/// How the logs of an app are followed.
#[verifier::ext_equal]
pub struct FollowPlanView {
    /// What comes first.
    pub beginning: Seq<FollowStepView>,
    /// What is then repeated until the program is ended.
    pub round: Seq<FollowStepView>,
}

/// The views of some steps.
pub open spec fn follow_views(steps: Seq<FollowStep>) -> Seq<FollowStepView> {
    steps.map_values(|step: FollowStep| step@)
}

impl View for FollowPlan {
    type V = FollowPlanView;

    open spec fn view(&self) -> FollowPlanView {
        FollowPlanView {
            beginning: follow_views(self.beginning@),
            round: follow_views(self.round@),
        }
    }
}

/// How the logs of the app called `name` are followed: both are opened, then each is printed under
/// its header, then what is new in each is printed over and over.
pub open spec fn follow_plan(paths: AynurPathsView, name: Text) -> FollowPlanView {
    let out = logs_of(paths, name)[0];
    let err = logs_of(paths, name)[1];
    FollowPlanView {
        beginning: seq![
            FollowStepView::Open(out),
            FollowStepView::Open(err),
            FollowStepView::Header(out),
            FollowStepView::Look(out),
            FollowStepView::Header(err),
            FollowStepView::Look(err),
        ],
        round: seq![
            FollowStepView::Look(out),
            FollowStepView::Look(err),
            FollowStepView::Rest(FOLLOW_REST_MILLIS),
        ],
    }
}

/// How the logs of the app called `name` are followed, or why they are not.
pub open spec fn followed(paths: AynurPathsView, name: Text, is_file: bool) -> Result<
    FollowPlanView,
    Seq<Text>,
> {
    match configured(paths, name, is_file) {
        Err(lines) => Err(lines),
        Ok(_) => Ok(follow_plan(paths, name)),
    }
}

/// How the logs of the app called `name` are followed, or why they are not. `is_file` is whether its
/// configuration is a file.
pub fn follow_logs(paths: &AynurPaths, name: &str, is_file: bool) -> (r: Result<
    FollowPlan,
    Failure,
>)
    ensures
        match followed(paths@, name@, is_file) {
            Ok(plan) => r is Ok && r->Ok_0@ == plan,
            Err(lines) => r is Err && r->Err_0@ == lines,
        },
{
    if let Err(failure) = ensure_configured_app(paths, name, is_file) {
        return Err(failure);
    }
    let logs = app_logs(paths, name);
    assert(logs@.len() == log_views(logs@).len());
    assert(logs@[0]@ == log_views(logs@)[0]);
    assert(logs@[1]@ == log_views(logs@)[1]);
    let mut beginning: Vec<FollowStep> = Vec::new();
    beginning.push(FollowStep::Open { log: logs[0].clone() });
    beginning.push(FollowStep::Open { log: logs[1].clone() });
    beginning.push(FollowStep::Header { log: logs[0].clone() });
    beginning.push(FollowStep::Look { log: logs[0].clone() });
    beginning.push(FollowStep::Header { log: logs[1].clone() });
    beginning.push(FollowStep::Look { log: logs[1].clone() });
    let mut round: Vec<FollowStep> = Vec::new();
    round.push(FollowStep::Look { log: logs[0].clone() });
    round.push(FollowStep::Look { log: logs[1].clone() });
    round.push(FollowStep::Rest { pause_millis: FOLLOW_REST_MILLIS });
    assert(follow_views(beginning@) =~= follow_plan(paths@, name@).beginning);
    assert(follow_views(round@) =~= follow_plan(paths@, name@).round);
    Ok(FollowPlan { beginning, round })
}

/// Logs are followed or cleared for a configured app with a valid name, and for no other.
pub proof fn law_only_configured_apps_have_logs(paths: AynurPathsView, name: Text, is_file: bool)
    ensures
        flushed(paths, name, is_file) is Ok <==> app::valid_name(name) && is_file,
        followed(paths, name, is_file) is Ok <==> app::valid_name(name) && is_file,
{
}

/// Clearing the logs of one app touches no other log, and clears none before all are open.
pub proof fn law_flush_is_confined(paths: AynurPathsView, name: Text, i: int)
    requires
        0 <= i < flush_plan(paths, name).len(),
    ensures
        flush_plan(paths, name).len() == 4,
        flush_plan(paths, name)[i] is Open <==> i < 2,
        match flush_plan(paths, name)[i] {
            FlushStepView::Open(log) => logs_of(paths, name).contains(log),
            FlushStepView::Truncate(log) => logs_of(paths, name).contains(log),
        },
        forall|log: AppLogView| #[trigger]
            logs_of(paths, name).contains(log) ==> log.path == paths.stdout_log(name) || log.path
                == paths.stderr_log(name),
{
    let logs = logs_of(paths, name);
    assert(logs.contains(logs[0]));
    assert(logs.contains(logs[1]));
}

/// A log that was read up to its end and has only grown since gives exactly what was added, and is
/// then read up to its end again.
pub proof fn law_only_new_content_is_printed(content: Seq<u8>, more: Seq<u8>)
    ensures
        LogCursorView::at_end(content).printed(content + more) == more,
{
    let cursor = LogCursorView::at_end(content);
    let all = content + more;
    if cursor.compares(all.len()) {
        assert(all.subrange(
            cursor.position - cursor.boundary.len(),
            cursor.position as int,
        ) =~= cursor.boundary);
    }
    assert(all.skip(content.len() as int) =~= more);
}

/// The bytes of `content` in a part of it.
pub open spec fn part(content: Seq<u8>, range: LogRange) -> Seq<u8> {
    content.subrange(range.start as int, range.start + range.length)
}

/// One look at a log that holds `content` all the while: what is printed, and the cursor then.
pub open spec fn look(cursor: LogCursorView, content: Seq<u8>) -> (Seq<u8>, LogCursorView) {
    let first = cursor.measured_step(content.len() as u64);
    let copy = match first {
        LookStep::Compare { length, range } => cursor.compared_step(length, part(content, range)),
        _ => first,
    };
    match copy {
        LookStep::Copy { start } => {
            let printed = content.skip(start as int);
            match copied_step(start, printed.len() as u64) {
                Some(LookStep::Remember { position, range }) => (
                    printed,
                    LogCursorView { position: position as nat, boundary: part(content, range) },
                ),
                _ => (printed, cursor),
            }
        },
        _ => (Seq::empty(), cursor),
    }
}

/// A look at a log prints what is new in it, and ends at its end wherever it began: the place up to
/// which it was printed is the end, and the bytes that are then remembered are the last ones.
pub proof fn law_a_look_ends_at_the_end(cursor: LogCursorView, content: Seq<u8>)
    requires
        cursor.sound(),
        content.len() <= u64::MAX,
    ensures
        look(cursor, content) == (cursor.printed(content), LogCursorView::at_end(content)),
        LogCursorView::at_end(content).sound(),
{
    let size = boundary_length(content.len());
    assert(content.subrange(content.len() - size, content.len() as int) =~= content.skip(
        content.len() - size,
    ));
}

/// The first look at a log prints all of it.
pub proof fn law_first_look_prints_everything(content: Seq<u8>)
    ensures
        LogCursorView::at_start().printed(content) == content,
{
    assert(content.skip(0) =~= content);
}

/// A log that has become shorter since it was read is printed from its start.
pub proof fn law_shortened_log_is_printed_anew(content: Seq<u8>, shorter: Seq<u8>)
    requires
        shorter.len() < content.len(),
    ensures
        LogCursorView::at_end(content).printed(shorter) == shorter,
{
    assert(shorter.skip(0) =~= shorter);
}

/// A log that was cleared and has grown past the place up to which it was read is printed from its
/// start, where other bytes than the remembered ones stand before that place.
pub proof fn law_regrown_log_is_printed_anew(content: Seq<u8>, regrown: Seq<u8>)
    requires
        regrown.len() >= content.len(),
        content.len() > 0,
        regrown.subrange(content.len() - boundary_length(content.len()), content.len() as int)
            != content.skip(content.len() - boundary_length(content.len())),
    ensures
        LogCursorView::at_end(content).printed(regrown) == regrown,
{
    assert(regrown.skip(0) =~= regrown);
}

/// What was printed after looks at a log that held each of `contents` in turn.
pub open spec fn all_printed(contents: Seq<Seq<u8>>) -> Seq<u8>
    decreases contents.len(),
{
    if contents.len() == 0 {
        Seq::empty()
    } else {
        let earlier = contents.drop_last();
        let cursor = if earlier.len() == 0 {
            LogCursorView::at_start()
        } else {
            LogCursorView::at_end(earlier.last())
        };
        all_printed(earlier) + cursor.printed(contents.last())
    }
}

/// However often a growing log is looked at, what is printed in all is the log: nothing is lost and
/// nothing is printed twice.
pub proof fn law_following_prints_the_log(contents: Seq<Seq<u8>>)
    requires
        contents.len() > 0,
        forall|i: int|
            0 <= i < contents.len() - 1 ==> (#[trigger] contents[i]).is_prefix_of(contents[i + 1]),
    ensures
        all_printed(contents) == contents.last(),
    decreases contents.len(),
{
    let earlier = contents.drop_last();
    let last = contents.last();
    if earlier.len() == 0 {
        law_first_look_prints_everything(last);
        reveal_with_fuel(all_printed, 2);
        assert(Seq::<u8>::empty() + last =~= last);
    } else {
        assert forall|i: int| 0 <= i < earlier.len() - 1 implies (
        #[trigger] earlier[i]).is_prefix_of(earlier[i + 1]) by {
            assert(contents[i].is_prefix_of(contents[i + 1]));
        }
        law_following_prints_the_log(earlier);
        let before = earlier.last();
        assert(contents[contents.len() - 2].is_prefix_of(contents[contents.len() - 1]));
        let more = last.skip(before.len() as int);
        assert(last =~= before + more);
        law_only_new_content_is_printed(before, more);
    }
}

/// Of a log that was read up to a place the 64 bytes before that place are remembered, or as many as
/// there are.
pub proof fn law_remembered_bytes(position: nat)
    ensures
        position >= 64 ==> boundary_length(position) == 64,
        position < 64 ==> boundary_length(position) == position,
{
}

/// From where a log is read on: from its start where it has become shorter than it was read, or where
/// other bytes than the remembered ones stand before the place up to which it was read; else from
/// that place.
pub proof fn law_reading_goes_on_where_it_stopped(cursor: LogCursorView, content: Seq<u8>)
    requires
        cursor.sound(),
        content.len() <= u64::MAX,
    ensures
        ({
            let before = cursor.position - cursor.boundary.len();
            let (printed, _) = look(cursor, content);
            &&& content.len() < cursor.position ==> printed == content
            &&& content.len() >= cursor.position && content.subrange(
                before,
                cursor.position as int,
            ) != cursor.boundary ==> printed == content
            &&& content.len() >= cursor.position && content.subrange(
                before,
                cursor.position as int,
            ) == cursor.boundary ==> printed == content.skip(cursor.position as int)
        }),
{
    law_a_look_ends_at_the_end(cursor, content);
    assert(content.skip(0) =~= content);
    if cursor.boundary.len() == 0 && content.len() >= cursor.position {
        assert(content.subrange(
            cursor.position as int,
            cursor.position as int,
        ) =~= cursor.boundary);
    }
}

/// The logs of an app are those of its standard output and of its standard error, in this order.
/// Following them opens both, prints each under its header, and then looks at each again every 100
/// milliseconds. Clearing them opens both before either is cleared, and says that they are cleared.
pub proof fn law_logs_are_those_of_the_app(paths: AynurPathsView, name: Text)
    requires
        app::valid_name(name),
    ensures
        ({
            let out = logs_of(paths, name)[0];
            let err = logs_of(paths, name)[1];
            let follow = followed(paths, name, true)->Ok_0;
            let flush = flushed(paths, name, true)->Ok_0;
            &&& logs_of(paths, name).len() == 2
            &&& out.path == paths.stdout_log(name) && out.stream == "stdout"@ && out.name == name
            &&& err.path == paths.stderr_log(name) && err.stream == "stderr"@ && err.name == name
            &&& follow.beginning == seq![
                FollowStepView::Open(out),
                FollowStepView::Open(err),
                FollowStepView::Header(out),
                FollowStepView::Look(out),
                FollowStepView::Header(err),
                FollowStepView::Look(err),
            ]
            &&& follow.round == seq![
                FollowStepView::Look(out),
                FollowStepView::Look(err),
                FollowStepView::Rest(100),
            ]
            &&& flush.steps == seq![
                FlushStepView::Open(out),
                FlushStepView::Open(err),
                FlushStepView::Truncate(out),
                FlushStepView::Truncate(err),
            ]
            &&& flush.message == "flushed logs for "@ + name
        }),
{
    let logs = logs_of(paths, name);
    assert(flushed(paths, name, true)->Ok_0.steps =~= seq![
        FlushStepView::Open(logs[0]),
        FlushStepView::Open(logs[1]),
        FlushStepView::Truncate(logs[0]),
        FlushStepView::Truncate(logs[1]),
    ]);
}

/// An app is refused by what is wrong with its name, and else where its configuration is no file,
/// which is told with where it is looked for.
pub proof fn law_unconfigured_app_is_told(paths: AynurPathsView, name: Text, is_file: bool)
    ensures
        !app::valid_name(name) ==> configured(paths, name, is_file) == app::name_verdict(name),
        app::valid_name(name) && !is_file ==> configured(paths, name, is_file) == Err::<
            (),
            Seq<Text>,
        >(
            seq![
                "app '"@ + name + "' is not configured at "@ + file_path::lossy_text(
                    paths.app_config(name),
                ),
            ],
        ),
        configured(paths, name, is_file) is Ok <==> app::valid_name(name) && is_file,
        configured(paths, name, is_file) is Err ==> flushed(paths, name, is_file) == Err::<
            FlushPlanView,
            Seq<Text>,
        >(configured(paths, name, is_file)->Err_0) && followed(paths, name, is_file) == Err::<
            FollowPlanView,
            Seq<Text>,
        >(configured(paths, name, is_file)->Err_0),
{
}

/// A log is cleared only where it was opened and is a regular file, and the clearing itself succeeds.
pub proof fn law_only_regular_logs_are_cleared(
    log: AppLogView,
    opened: TruncateReply,
    truncated: Result<(), Text>,
)
    ensures
        log.clearable(opened) is Ok <==> opened is Opened && opened->is_file,
        log.cleared(truncated) is Ok <==> truncated is Ok,
{
}

} // verus!
