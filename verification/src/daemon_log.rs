//! The log of the daemon's errors.
use crate::failure::{self, Failure};
use crate::file_path::{self, FilePath};
use crate::paths::{AynurPaths, AynurPathsView};
use crate::text::Text;
use vstd::prelude::*;

verus! {

/// What came of adding a line to the log of the daemon's errors.
#[derive(Clone, Debug, PartialEq, Eq)]
pub enum LogReply {
    /// The log could not be opened.
    NotOpened {
        /// Why.
        cause: String,
    },
    /// The line could not be added.
    NotAppended {
        /// Why.
        cause: String,
    },
    /// The line was added.
    Appended,
}

/// How adding a line to the log of the daemon's errors comes out.
pub open spec fn logged(paths: AynurPathsView, reply: LogReply) -> Result<(), Seq<Text>> {
    let shown = file_path::lossy_text(paths.daemon_error_log());
    match reply {
        LogReply::NotOpened { cause } => Err(
            seq!["failed to open daemon error log at "@ + shown, cause@],
        ),
        LogReply::NotAppended { cause } => Err(
            seq!["failed to append daemon error log at "@ + shown, cause@],
        ),
        LogReply::Appended => Ok(()),
    }
}

/// How adding a line to the log of the daemon's errors comes out. `reply` is what adding it gave.
pub fn append_daemon_error(paths: &AynurPaths, reply: LogReply) -> (r: Result<(), Failure>)
    ensures
        failure::outcome(r) == logged(paths@, reply),
{
    let shown = paths.daemon_error_log_path().display();
    match reply {
        LogReply::NotOpened { cause } => Err(
            Failure::because(
                "failed to open daemon error log at ".to_owned().concat(shown.as_str()),
                cause,
            ),
        ),
        LogReply::NotAppended { cause } => Err(
            Failure::because(
                "failed to append daemon error log at ".to_owned().concat(shown.as_str()),
                cause,
            ),
        ),
        LogReply::Appended => Ok(()),
    }
}

fn at_path(before: &str, path: &FilePath, cause: String) -> (r: Failure)
    ensures
        r@ == seq![before@ + file_path::lossy_text(path@), cause@],
{
    Failure::because(before.to_owned().concat(path.display().as_str()), cause)
}

/// What the log of the daemon's errors holds once the daemon has ended with a failure.
pub fn final_error_log(failure: &Failure) -> (r: String)
    ensures
        r@ == failure::one_line(failure@) + "\n"@,
{
    failure.text().concat("\n")
}

/// The outcome of writing what the daemon ended with: the failure of the daemon, unless it could
/// not be written.
pub open spec fn ended(paths: AynurPathsView, failure: Seq<Text>, written: Result<(), Text>) -> Seq<
    Text,
> {
    match written {
        Ok(_) => failure,
        Err(cause) => seq![
            "failed to write daemon error log at "@ + file_path::lossy_text(
                paths.daemon_error_log(),
            ),
            cause,
        ],
    }
}

/// What a daemon that ended with `failure` reports. `written` is what writing its error log gave.
pub fn daemon_ended(paths: &AynurPaths, failure: Failure, written: Result<(), String>) -> (r: Failure)
    ensures
        r@ == ended(paths@, failure@, failure::reply(written)),
{
    match written {
        Ok(_) => failure,
        Err(cause) => at_path(
            "failed to write daemon error log at ",
            &paths.daemon_error_log_path(),
            cause,
        ),
    }
}

/// A line counts as reported exactly where it was added to the log.
pub proof fn law_report_is_in_the_log(paths: AynurPathsView, reply: LogReply)
    ensures
        logged(paths, reply) is Ok <==> reply is Appended,
{
}

/// A daemon that fails ends with its own failure, unless not even that could be written down.
pub proof fn law_daemon_ends_with_its_failure(
    paths: AynurPathsView,
    failure: Seq<Text>,
    written: Result<(), Text>,
)
    ensures
        written is Ok ==> ended(paths, failure, written) == failure,
        written is Err ==> ended(paths, failure, written) == seq![
            "failed to write daemon error log at "@ + file_path::lossy_text(
                paths.daemon_error_log(),
            ),
            written->Err_0,
        ],
{
}

} // verus!
