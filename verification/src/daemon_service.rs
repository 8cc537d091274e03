//! The course of the daemon: how it comes up, and how it then turns to its calls and to the ends of
//! its apps.
//!
//! The daemon goes from step to step. Each step names something to be done, and the function that
//! goes with it takes what came of it and gives the next step.
use crate::daemon_log::{self, append_daemon_error, LogReply};
use crate::failure::{self, Failure};
use crate::file_path;
use crate::paths::{AynurPaths, AynurPathsView};
use crate::process::{ExitEvent, ExitEventView};
use crate::text::Text;
use vstd::prelude::*;

verus! {

/// Where listening and answering can fail.
#[derive(Clone, Copy, Debug, PartialEq, Eq, Structural)]
pub enum ServiceStage {
    /// Removing the socket that an earlier daemon left behind.
    RemoveStaleSocket,
    /// Opening the socket.
    Bind,
    /// Making the socket return at once where nobody calls.
    SetNonBlocking,
    /// Taking a call.
    Accept,
    /// Making a call wait for its data.
    SetBlocking,
    /// Bounding how long a call waits for the request.
    SetReadTimeout,
    /// Bounding how long a call waits to be answered.
    SetWriteTimeout,
    /// Reading the request.
    ReadRequest,
    /// Working off the request, and writing the response out as text.
    SerializeResponse,
    /// Sending the response.
    WriteResponse,
    /// Sending the end of the response.
    WriteNewline,
}

/// How many seconds a call waits for its request, and to be answered.
pub const CONNECTION_TIMEOUT_SECONDS: u64 = 5;

/// How many milliseconds the daemon rests between two looks at its calls and its apps.
pub const DAEMON_REST_MILLIS: u64 = 50;

/// What is said where a stage fails.
pub open spec fn stage_complaint(paths: AynurPathsView, stage: ServiceStage) -> Text {
    match stage {
        ServiceStage::RemoveStaleSocket => "failed to remove stale daemon socket at "@
            + file_path::lossy_text(paths.socket_path),
        ServiceStage::Bind => "failed to bind daemon socket at "@ + file_path::lossy_text(
            paths.socket_path,
        ),
        ServiceStage::SetNonBlocking => "failed to set daemon socket to non-blocking"@,
        ServiceStage::Accept => "failed to accept daemon connection"@,
        ServiceStage::SetBlocking => "failed to set daemon connection to blocking"@,
        ServiceStage::SetReadTimeout => "failed to set daemon connection read timeout"@,
        ServiceStage::SetWriteTimeout => "failed to set daemon connection write timeout"@,
        ServiceStage::ReadRequest => "failed to read daemon request"@,
        ServiceStage::SerializeResponse => "failed to serialize daemon response"@,
        ServiceStage::WriteResponse => "failed to write daemon response"@,
        ServiceStage::WriteNewline => "failed to write daemon response newline"@,
    }
}

/// The failure of a stage.
pub fn service_failure(paths: &AynurPaths, stage: ServiceStage, cause: String) -> (r: Failure)
    ensures
        r@ == seq![stage_complaint(paths@, stage), cause@],
{
    let complaint = match stage {
        ServiceStage::RemoveStaleSocket => "failed to remove stale daemon socket at ".to_owned().concat(
            paths.socket_path.display().as_str(),
        ),
        ServiceStage::Bind => "failed to bind daemon socket at ".to_owned().concat(
            paths.socket_path.display().as_str(),
        ),
        ServiceStage::SetNonBlocking => "failed to set daemon socket to non-blocking".to_owned(),
        ServiceStage::Accept => "failed to accept daemon connection".to_owned(),
        ServiceStage::SetBlocking => "failed to set daemon connection to blocking".to_owned(),
        ServiceStage::SetReadTimeout => "failed to set daemon connection read timeout".to_owned(),
        ServiceStage::SetWriteTimeout => "failed to set daemon connection write timeout".to_owned(),
        ServiceStage::ReadRequest => "failed to read daemon request".to_owned(),
        ServiceStage::SerializeResponse => "failed to serialize daemon response".to_owned(),
        ServiceStage::WriteResponse => "failed to write daemon response".to_owned(),
        ServiceStage::WriteNewline => "failed to write daemon response newline".to_owned(),
    };
    Failure::because(complaint, cause)
}

/// The line that reports a call which could not be answered.
pub open spec fn unanswered_line(failure: Seq<Text>) -> Text {
    "failed to handle daemon request: "@ + failure::one_line(failure)
}

/// The line that reports a call which could not be answered. The daemon goes on after it.
pub fn connection_error_line(failure: &Failure) -> (r: String)
    ensures
        r@ == unanswered_line(failure@),
{
    "failed to handle daemon request: ".to_owned().concat(failure.text().as_str())
}

/// A part of coming up that has steps of its own.
#[derive(Clone, Copy, Debug, PartialEq, Eq, Structural)]
pub enum ServiceJob {
    /// Creating the directories.
    EnsureDirectories,
    /// Taking the lock that one daemon holds.
    LockPid,
    /// Starting the apps that were saved.
    RestoreApps,
}

/// What the daemon does next.
#[derive(Clone, Debug, PartialEq, Eq)]
pub enum ServiceStep {
    /// Do a part of coming up.
    Work {
        /// The part.
        job: ServiceJob,
    },
    /// Do one thing with the socket or with the call that was taken.
    Perform {
        /// What.
        stage: ServiceStage,
    },
    /// Take a call, where somebody calls.
    Accept,
    /// Add a line to the log of the daemon's errors.
    Report {
        /// The line.
        line: String,
    },
    /// Take the report of an app that has ended, where there is one.
    TakeExit,
    /// Work off the end of an app.
    HandleExit {
        /// The report.
        event: ExitEvent,
    },
    /// Wait.
    Rest {
        /// How long to wait.
        pause_millis: u64,
    },
    /// End with a failure.
    Fail {
        /// The failure.
        failure: Failure,
    },
}

/// What the daemon does next.
#[verifier::ext_equal]
pub enum ServiceStepView {
    /// Do a part of coming up.
    Work(ServiceJob),
    /// Do one thing with the socket or with the call that was taken.
    Perform(ServiceStage),
    /// Take a call, where somebody calls.
    Accept,
    /// Add a line to the log of the daemon's errors.
    Report(Text),
    /// Take the report of an app that has ended, where there is one.
    TakeExit,
    /// Work off the end of an app.
    HandleExit(ExitEventView),
    /// Wait so many milliseconds.
    Rest(u64),
    /// End with a failure.
    Fail(Seq<Text>),
}

impl View for ServiceStep {
    type V = ServiceStepView;

    open spec fn view(&self) -> ServiceStepView {
        match self {
            ServiceStep::Work { job } => ServiceStepView::Work(*job),
            ServiceStep::Perform { stage } => ServiceStepView::Perform(*stage),
            ServiceStep::Accept => ServiceStepView::Accept,
            ServiceStep::Report { line } => ServiceStepView::Report(line@),
            ServiceStep::TakeExit => ServiceStepView::TakeExit,
            ServiceStep::HandleExit { event } => ServiceStepView::HandleExit(event@),
            ServiceStep::Rest { pause_millis } => ServiceStepView::Rest(*pause_millis),
            ServiceStep::Fail { failure } => ServiceStepView::Fail(failure@),
        }
    }
}

/// The step with which the daemon begins.
pub fn begin() -> (r: ServiceStep)
    ensures
        r@ == ServiceStepView::Work(ServiceJob::EnsureDirectories),
{
    ServiceStep::Work { job: ServiceJob::EnsureDirectories }
}

/// A part of coming up was done, or failed.
pub open spec fn worked_step(job: ServiceJob, done: Result<(), Seq<Text>>) -> ServiceStepView {
    match done {
        Err(lines) => ServiceStepView::Fail(lines),
        Ok(_) => match job {
            ServiceJob::EnsureDirectories => ServiceStepView::Work(ServiceJob::LockPid),
            ServiceJob::LockPid => ServiceStepView::Perform(ServiceStage::RemoveStaleSocket),
            ServiceJob::RestoreApps => ServiceStepView::Accept,
        },
    }
}

/// Goes on once a part of coming up was done, or failed.
pub fn worked(job: ServiceJob, done: Result<(), Failure>) -> (r: ServiceStep)
    ensures
        r@ == worked_step(job, failure::outcome(done)),
{
    match done {
        Err(failure) => ServiceStep::Fail { failure },
        Ok(_) => match job {
            ServiceJob::EnsureDirectories => ServiceStep::Work { job: ServiceJob::LockPid },
            ServiceJob::LockPid => ServiceStep::Perform { stage: ServiceStage::RemoveStaleSocket },
            ServiceJob::RestoreApps => ServiceStep::Accept,
        },
    }
}

/// Whether the stage is a part of reading a request and answering it.
pub open spec fn in_conversation(stage: ServiceStage) -> bool {
    stage is ReadRequest || stage is SerializeResponse || stage is WriteResponse
        || stage is WriteNewline
}

/// What follows where the stage succeeds.
pub open spec fn following(stage: ServiceStage) -> ServiceStepView {
    match stage {
        ServiceStage::RemoveStaleSocket => ServiceStepView::Perform(ServiceStage::Bind),
        ServiceStage::Bind => ServiceStepView::Perform(ServiceStage::SetNonBlocking),
        ServiceStage::SetNonBlocking => ServiceStepView::Work(ServiceJob::RestoreApps),
        ServiceStage::Accept => ServiceStepView::Perform(ServiceStage::SetBlocking),
        ServiceStage::SetBlocking => ServiceStepView::Perform(ServiceStage::SetReadTimeout),
        ServiceStage::SetReadTimeout => ServiceStepView::Perform(ServiceStage::SetWriteTimeout),
        ServiceStage::SetWriteTimeout => ServiceStepView::Perform(ServiceStage::ReadRequest),
        ServiceStage::ReadRequest => ServiceStepView::Perform(ServiceStage::SerializeResponse),
        ServiceStage::SerializeResponse => ServiceStepView::Perform(ServiceStage::WriteResponse),
        ServiceStage::WriteResponse => ServiceStepView::Perform(ServiceStage::WriteNewline),
        ServiceStage::WriteNewline => ServiceStepView::Accept,
    }
}

/// A stage was done, or failed. A failed conversation is reported, and any other failure ends the
/// daemon.
pub open spec fn performed_step(
    paths: AynurPathsView,
    stage: ServiceStage,
    done: Result<(), Text>,
) -> ServiceStepView {
    match done {
        Ok(_) => following(stage),
        Err(cause) => {
            let lines = seq![stage_complaint(paths, stage), cause];
            if in_conversation(stage) {
                ServiceStepView::Report(unanswered_line(lines))
            } else {
                ServiceStepView::Fail(lines)
            }
        },
    }
}

/// Goes on once a stage was done, or failed. `done` is what it gave.
pub fn performed(paths: &AynurPaths, stage: ServiceStage, done: Result<(), String>) -> (r:
    ServiceStep)
    ensures
        r@ == performed_step(paths@, stage, failure::reply(done)),
{
    if let Err(cause) = done {
        let failure = service_failure(paths, stage, cause);
        let answers = match stage {
            ServiceStage::ReadRequest
            | ServiceStage::SerializeResponse
            | ServiceStage::WriteResponse
            | ServiceStage::WriteNewline => true,
            _ => false,
        };
        return if answers {
            ServiceStep::Report { line: connection_error_line(&failure) }
        } else {
            ServiceStep::Fail { failure }
        };
    }
    let next = match stage {
        ServiceStage::RemoveStaleSocket => ServiceStage::Bind,
        ServiceStage::Bind => ServiceStage::SetNonBlocking,
        ServiceStage::SetNonBlocking => {
            return ServiceStep::Work { job: ServiceJob::RestoreApps };
        },
        ServiceStage::Accept => ServiceStage::SetBlocking,
        ServiceStage::SetBlocking => ServiceStage::SetReadTimeout,
        ServiceStage::SetReadTimeout => ServiceStage::SetWriteTimeout,
        ServiceStage::SetWriteTimeout => ServiceStage::ReadRequest,
        ServiceStage::ReadRequest => ServiceStage::SerializeResponse,
        ServiceStage::SerializeResponse => ServiceStage::WriteResponse,
        ServiceStage::WriteResponse => ServiceStage::WriteNewline,
        ServiceStage::WriteNewline => {
            return ServiceStep::Accept;
        },
    };
    ServiceStep::Perform { stage: next }
}

/// What came of taking a call.
#[derive(Clone, Debug, PartialEq, Eq)]
pub enum AcceptReply {
    /// There is one.
    Called,
    /// Nobody calls.
    NobodyCalls,
    /// It could not be taken.
    Failed {
        /// Why.
        cause: String,
    },
}

/// A call was taken, or not.
pub open spec fn accepted_step(paths: AynurPathsView, reply: AcceptReply) -> ServiceStepView {
    match reply {
        AcceptReply::Called => performed_step(paths, ServiceStage::Accept, Ok(())),
        AcceptReply::NobodyCalls => ServiceStepView::TakeExit,
        AcceptReply::Failed { cause } => performed_step(paths, ServiceStage::Accept, Err(cause@)),
    }
}

/// Goes on once a call was taken, or not.
pub fn accepted(paths: &AynurPaths, reply: AcceptReply) -> (r: ServiceStep)
    ensures
        r@ == accepted_step(paths@, reply),
{
    match reply {
        AcceptReply::Called => performed(paths, ServiceStage::Accept, Ok(())),
        AcceptReply::NobodyCalls => ServiceStep::TakeExit,
        AcceptReply::Failed { cause } => performed(paths, ServiceStage::Accept, Err(cause)),
    }
}

/// A call that could not be answered was reported, or not.
pub open spec fn reported_step(paths: AynurPathsView, reply: LogReply) -> ServiceStepView {
    match daemon_log::logged(paths, reply) {
        Ok(_) => ServiceStepView::Accept,
        Err(lines) => ServiceStepView::Fail(lines),
    }
}

/// Goes on once a call that could not be answered was reported, or not.
pub fn reported(paths: &AynurPaths, reply: LogReply) -> (r: ServiceStep)
    ensures
        r@ == reported_step(paths@, reply),
{
    match append_daemon_error(paths, reply) {
        Ok(_) => ServiceStep::Accept,
        Err(failure) => ServiceStep::Fail { failure },
    }
}

/// What came of taking the report of an app that has ended.
#[derive(Clone, Debug, PartialEq, Eq)]
pub enum ExitReply {
    /// There is one.
    Ended {
        /// The report.
        event: ExitEvent,
    },
    /// There is none.
    NoneEnded,
    /// There never will be one again.
    Closed,
}

/// What came of taking the report of an app that has ended.
pub enum ExitReplyView {
    /// There is one.
    Ended(ExitEventView),
    /// There is none.
    NoneEnded,
    /// There never will be one again.
    Closed,
}

impl View for ExitReply {
    type V = ExitReplyView;

    open spec fn view(&self) -> ExitReplyView {
        match self {
            ExitReply::Ended { event } => ExitReplyView::Ended(event@),
            ExitReply::NoneEnded => ExitReplyView::NoneEnded,
            ExitReply::Closed => ExitReplyView::Closed,
        }
    }
}

/// The report of an app that has ended was taken, or not.
pub open spec fn exit_taken_step(reply: ExitReplyView) -> ServiceStepView {
    match reply {
        ExitReplyView::Ended(event) => ServiceStepView::HandleExit(event),
        ExitReplyView::NoneEnded => ServiceStepView::Rest(DAEMON_REST_MILLIS),
        ExitReplyView::Closed => ServiceStepView::Fail(seq!["exit event channel closed"@]),
    }
}

/// Goes on once the report of an app that has ended was taken, or not.
pub fn exit_taken(reply: ExitReply) -> (r: ServiceStep)
    ensures
        r@ == exit_taken_step(reply@),
{
    match reply {
        ExitReply::Ended { event } => ServiceStep::HandleExit { event },
        ExitReply::NoneEnded => ServiceStep::Rest { pause_millis: DAEMON_REST_MILLIS },
        ExitReply::Closed => ServiceStep::Fail {
            failure: Failure::new("exit event channel closed".to_owned()),
        },
    }
}

/// The end of an app was worked off, or that failed.
pub open spec fn exit_handled_step(done: Result<(), Seq<Text>>) -> ServiceStepView {
    match done {
        Ok(_) => ServiceStepView::TakeExit,
        Err(lines) => ServiceStepView::Fail(lines),
    }
}

/// Goes on once the end of an app was worked off, or that failed.
pub fn exit_handled(done: Result<(), Failure>) -> (r: ServiceStep)
    ensures
        r@ == exit_handled_step(failure::outcome(done)),
{
    match done {
        Ok(_) => ServiceStep::TakeExit,
        Err(failure) => ServiceStep::Fail { failure },
    }
}

/// Goes on once the daemon has rested: it turns to its calls again.
pub fn rested() -> (r: ServiceStep)
    ensures
        r@ == ServiceStepView::Accept,
{
    ServiceStep::Accept
}

/// A conversation that fails does not end the daemon: it is reported in one line of the log, and
/// the next call is taken. The daemon ends only where that line cannot be written.
pub proof fn law_failed_conversation_is_survived(
    paths: AynurPathsView,
    stage: ServiceStage,
    cause: Text,
    reply: LogReply,
)
    requires
        in_conversation(stage),
    ensures
        performed_step(paths, stage, Err(cause)) == ServiceStepView::Report(
            unanswered_line(seq![stage_complaint(paths, stage), cause]),
        ),
        reply is Appended ==> reported_step(paths, reply) == ServiceStepView::Accept,
        reported_step(paths, reply) is Fail <==> !(reply is Appended),
{
}

/// Whether a step changes the socket.
pub open spec fn changes_socket(step: ServiceStepView) -> bool {
    step == ServiceStepView::Perform(ServiceStage::RemoveStaleSocket) || step
        == ServiceStepView::Perform(ServiceStage::Bind)
}

/// Nothing leads to the socket but the lock: the socket that an earlier daemon left behind is removed
/// right after the lock was taken and nowhere else, the new one is bound right after that and
/// nowhere else, and a lock that cannot be had ends the daemon with the failure to take it.
pub proof fn law_socket_is_changed_under_the_lock(
    paths: AynurPathsView,
    job: ServiceJob,
    worked: Result<(), Seq<Text>>,
    stage: ServiceStage,
    performed: Result<(), Text>,
    called: AcceptReply,
    logged: LogReply,
    taken: ExitReplyView,
    handled: Result<(), Seq<Text>>,
)
    ensures
        changes_socket(worked_step(job, worked)) <==> job is LockPid && worked is Ok,
        changes_socket(performed_step(paths, stage, performed)) <==> stage is RemoveStaleSocket
            && performed is Ok,
        !changes_socket(accepted_step(paths, called)),
        !changes_socket(reported_step(paths, logged)),
        !changes_socket(exit_taken_step(taken)),
        !changes_socket(exit_handled_step(handled)),
        worked is Err ==> worked_step(job, worked) == ServiceStepView::Fail(worked->Err_0),
{
}

/// The steps of a daemon that comes up without a failure, after `n` steps.
pub open spec fn coming_up(n: nat) -> ServiceStepView
    decreases n,
{
    if n == 0 {
        ServiceStepView::Work(ServiceJob::EnsureDirectories)
    } else {
        match coming_up((n - 1) as nat) {
            ServiceStepView::Work(job) => worked_step(job, Ok(())),
            ServiceStepView::Perform(stage) => following(stage),
            step => step,
        }
    }
}

/// The daemon comes up in this order: the directories, the lock, the socket, the apps; only then
/// does it take calls.
pub proof fn law_daemon_comes_up_in_order()
    ensures
        coming_up(1) == ServiceStepView::Work(ServiceJob::LockPid),
        coming_up(2) == ServiceStepView::Perform(ServiceStage::RemoveStaleSocket),
        coming_up(3) == ServiceStepView::Perform(ServiceStage::Bind),
        coming_up(4) == ServiceStepView::Perform(ServiceStage::SetNonBlocking),
        coming_up(5) == ServiceStepView::Work(ServiceJob::RestoreApps),
        coming_up(6) == ServiceStepView::Accept,
{
    reveal_with_fuel(coming_up, 7);
}

/// The steps of a call that is taken and goes well, after `n` steps.
pub open spec fn conversation(n: nat) -> ServiceStepView
    decreases n,
{
    if n == 0 {
        ServiceStepView::Perform(ServiceStage::SetBlocking)
    } else {
        match conversation((n - 1) as nat) {
            ServiceStepView::Perform(stage) => following(stage),
            step => step,
        }
    }
}

/// A call is first made to wait for no longer than it may; then its request is read, worked off and
/// answered; then the next call is taken. Where nobody calls, the ends of apps are worked off one by
/// one, and once there are none the daemon rests for 50 milliseconds. A call waits for 5 seconds.
pub proof fn law_calls_are_answered_in_order(
    paths: AynurPathsView,
    event: ExitEventView,
)
    ensures
        accepted_step(paths, AcceptReply::Called) == conversation(0),
        conversation(1) == ServiceStepView::Perform(ServiceStage::SetReadTimeout),
        conversation(2) == ServiceStepView::Perform(ServiceStage::SetWriteTimeout),
        conversation(3) == ServiceStepView::Perform(ServiceStage::ReadRequest),
        conversation(4) == ServiceStepView::Perform(ServiceStage::SerializeResponse),
        conversation(5) == ServiceStepView::Perform(ServiceStage::WriteResponse),
        conversation(6) == ServiceStepView::Perform(ServiceStage::WriteNewline),
        conversation(7) == ServiceStepView::Accept,
        accepted_step(paths, AcceptReply::NobodyCalls) == ServiceStepView::TakeExit,
        exit_taken_step(ExitReplyView::Ended(event)) == ServiceStepView::HandleExit(event),
        exit_handled_step(Ok(())) == ServiceStepView::TakeExit,
        exit_taken_step(ExitReplyView::NoneEnded) == ServiceStepView::Rest(50),
        CONNECTION_TIMEOUT_SECONDS == 5,
{
    reveal_with_fuel(conversation, 8);
}

/// What ends the daemon: a failure to come up, to take a call or to prepare it, to report a failed
/// call, or to work off the end of an app; and it ends with that failure.
pub proof fn law_what_ends_the_daemon(
    paths: AynurPathsView,
    stage: ServiceStage,
    cause: Text,
    lines: Seq<Text>,
)
    ensures
        performed_step(paths, stage, Err(cause)) is Fail <==> !(stage is ReadRequest || stage
            is SerializeResponse || stage is WriteResponse || stage is WriteNewline),
        performed_step(paths, stage, Err(cause)) is Fail ==> performed_step(
            paths,
            stage,
            Err(cause),
        )->Fail_0.len() == 2 && performed_step(paths, stage, Err(cause))->Fail_0[1] == cause,
        exit_handled_step(Err(lines)) == ServiceStepView::Fail(lines),
{
}

} // verus!
