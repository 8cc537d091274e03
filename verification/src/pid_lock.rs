//! The lock that keeps a second daemon from running: it is held on the file with the number of the
//! daemon's process.
use crate::failure::{self, Failure};
use crate::file_path::{self, FilePath};
use crate::paths::{AynurPaths, AynurPathsView};
use crate::text::{self, decimal, Text};
use vstd::prelude::*;

verus! {

/// One step of taking the lock. Where a step fails, those behind it are not taken.
#[derive(Clone, Debug, PartialEq, Eq)]
pub enum PidLockStep {
    /// Open the file to read and write it, or create it. What it holds stays.
    Open {
        /// The file.
        path: FilePath,
    },
    /// Take the lock on the open file for this process alone, without waiting for it.
    Lock,
    /// Empty the file.
    Truncate,
    /// Write to the file.
    Write {
        /// What is written.
        content: String,
    },
    /// Make sure that what was written is stored.
    Flush,
}

/// One step of taking the lock.
#[verifier::ext_equal]
pub enum PidLockStepView {
    /// Open the file to read and write it, or create it. What it holds stays.
    Open(Seq<u8>),
    /// Take the lock on the open file for this process alone, without waiting for it.
    Lock,
    /// Empty the file.
    Truncate,
    /// Write to the file.
    Write(Text),
    /// Make sure that what was written is stored.
    Flush,
}

impl View for PidLockStep {
    type V = PidLockStepView;

    open spec fn view(&self) -> PidLockStepView {
        match self {
            PidLockStep::Open { path } => PidLockStepView::Open(path@),
            PidLockStep::Lock => PidLockStepView::Lock,
            PidLockStep::Truncate => PidLockStepView::Truncate,
            PidLockStep::Write { content } => PidLockStepView::Write(content@),
            PidLockStep::Flush => PidLockStepView::Flush,
        }
    }
}

/// Why a step failed.
#[derive(Clone, Debug, PartialEq, Eq)]
pub struct PidLockError {
    /// The step would have to wait for another process.
    pub would_block: bool,
    /// The reason, in words.
    pub cause: String,
}

/// Why a step failed.
pub struct PidLockErrorView {
    /// The step would have to wait for another process.
    pub would_block: bool,
    /// The reason, in words.
    pub cause: Text,
}

impl View for PidLockError {
    type V = PidLockErrorView;

    open spec fn view(&self) -> PidLockErrorView {
        PidLockErrorView { would_block: self.would_block, cause: self.cause@ }
    }
}

/// What came of a step.
pub open spec fn step_reply(done: Result<(), PidLockError>) -> Result<(), PidLockErrorView> {
    match done {
        Ok(_) => Ok(()),
        Err(error) => Err(error@),
    }
}

/// The steps by which the process `pid` takes the lock.
pub open spec fn lock_steps(paths: AynurPathsView, pid: u32) -> Seq<PidLockStepView> {
    seq![
        PidLockStepView::Open(paths.pid_path),
        PidLockStepView::Lock,
        PidLockStepView::Truncate,
        PidLockStepView::Write(text::decimal_text(pid as nat)),
        PidLockStepView::Flush,
    ]
}

/// The views of some steps.
pub open spec fn step_views(steps: Seq<PidLockStep>) -> Seq<PidLockStepView> {
    steps.map_values(|step: PidLockStep| step@)
}

/// The steps by which the process `pid` takes the lock that one daemon holds.
pub fn acquire_pid_lock(paths: &AynurPaths, pid: u32) -> (r: Vec<PidLockStep>)
    ensures
        step_views(r@) == lock_steps(paths@, pid),
{
    let mut steps: Vec<PidLockStep> = Vec::new();
    steps.push(PidLockStep::Open { path: paths.pid_path.clone() });
    steps.push(PidLockStep::Lock);
    steps.push(PidLockStep::Truncate);
    steps.push(PidLockStep::Write { content: decimal(pid as u64) });
    steps.push(PidLockStep::Flush);
    assert(step_views(steps@) =~= lock_steps(paths@, pid));
    steps
}

/// What is said where a step fails.
pub open spec fn step_complaint(paths: AynurPathsView, step: PidLockStepView) -> Text {
    let shown = file_path::lossy_text(paths.pid_path);
    match step {
        PidLockStepView::Open(_) => "failed to open daemon pid at "@ + shown,
        PidLockStepView::Lock => "failed to lock daemon pid at "@ + shown,
        PidLockStepView::Truncate => "failed to truncate daemon pid at "@ + shown,
        PidLockStepView::Write(_) => "failed to write daemon pid at "@ + shown,
        PidLockStepView::Flush => "failed to flush daemon pid at "@ + shown,
    }
}

/// What is said where another daemon holds the lock.
pub open spec fn already_running(paths: AynurPathsView) -> Text {
    "aynur daemon is already running for "@ + file_path::lossy_text(paths.root_dir)
}

/// Whether the work goes on after a step.
pub open spec fn lock_verdict(
    paths: AynurPathsView,
    step: PidLockStepView,
    done: Result<(), PidLockErrorView>,
) -> Result<(), Seq<Text>> {
    match done {
        Ok(_) => Ok(()),
        Err(error) => if step is Lock && error.would_block {
            Err(seq![already_running(paths)])
        } else {
            Err(seq![step_complaint(paths, step), error.cause])
        },
    }
}

/// Whether the work goes on after a step. `done` is what the step gave.
pub fn judge_pid_lock(
    paths: &AynurPaths,
    step: &PidLockStep,
    done: Result<(), PidLockError>,
) -> (r: Result<(), Failure>)
    ensures
        failure::outcome(r) == lock_verdict(paths@, step@, step_reply(done)),
{
    let error = match done {
        Ok(_) => {
            return Ok(());
        },
        Err(error) => error,
    };
    let before = match step {
        PidLockStep::Open { path: _ } => "failed to open daemon pid at ",
        PidLockStep::Lock => {
            if error.would_block {
                return Err(
                    Failure::new(
                        "aynur daemon is already running for ".to_owned().concat(
                            paths.root_dir.display().as_str(),
                        ),
                    ),
                );
            }
            "failed to lock daemon pid at "
        },
        PidLockStep::Truncate => "failed to truncate daemon pid at ",
        PidLockStep::Write { content: _ } => "failed to write daemon pid at ",
        PidLockStep::Flush => "failed to flush daemon pid at ",
    };
    Err(Failure::because(before.to_owned().concat(paths.pid_path.display().as_str()), error.cause))
}

/// The file with the number of the process.
#[verifier::ext_equal]
pub struct PidFile {
    /// What it holds; nothing, where it is not there.
    pub content: Text,
    /// Whether a process holds the lock on it.
    pub held: bool,
}

/// What the file is after a step that succeeds.
pub open spec fn after_lock_step(file: PidFile, step: PidLockStepView) -> PidFile {
    match step {
        PidLockStepView::Open(_) => file,
        PidLockStepView::Lock => PidFile { held: true, ..file },
        PidLockStepView::Truncate => PidFile { content: Seq::empty(), ..file },
        PidLockStepView::Write(content) => PidFile { content: file.content + content, ..file },
        PidLockStepView::Flush => file,
    }
}

/// The steps are taken in turn where no step fails but for a lock that is held: what the file is
/// then, and how it comes out. `cause` is the reason that the system gives for the held lock.
pub open spec fn steps_taken(
    paths: AynurPathsView,
    file: PidFile,
    steps: Seq<PidLockStepView>,
    cause: Text,
) -> (PidFile, Result<(), Seq<Text>>)
    decreases steps.len(),
{
    if steps.len() == 0 {
        (file, Ok(()))
    } else {
        let step = steps[0];
        let done = if step is Lock && file.held {
            Err(PidLockErrorView { would_block: true, cause })
        } else {
            Ok(())
        };
        match lock_verdict(paths, step, done) {
            Err(lines) => (file, Err(lines)),
            Ok(_) => steps_taken(paths, after_lock_step(file, step), steps.skip(1), cause),
        }
    }
}

/// A process that finds the lock free gets it, and the file then holds the number of the process and
/// nothing else. One that finds it held is told that a daemon is running, and leaves the file as it
/// was.
pub proof fn law_lock_is_taken_where_it_is_free(
    paths: AynurPathsView,
    file: PidFile,
    pid: u32,
    cause: Text,
)
    ensures
        steps_taken(paths, file, lock_steps(paths, pid), cause) == if file.held {
            (file, Err::<(), Seq<Text>>(seq![already_running(paths)]))
        } else {
            (
                PidFile { content: text::decimal_text(pid as nat), held: true },
                Ok::<(), Seq<Text>>(()),
            )
        },
{
    let steps = lock_steps(paths, pid);
    assert(steps.skip(1)[0] is Lock);
    reveal_with_fuel(steps_taken, 6);
    assert(steps.skip(1).skip(1) =~= steps.skip(2));
    assert(steps.skip(2).skip(1) =~= steps.skip(3));
    assert(steps.skip(3).skip(1) =~= steps.skip(4));
    assert(steps.skip(4).skip(1) =~= steps.skip(5));
    assert(Seq::<char>::empty() + text::decimal_text(pid as nat) =~= text::decimal_text(
        pid as nat,
    ));
}

/// Of two daemons that are started one after the other, the second is refused while the first holds
/// the lock, and the file goes on holding the number of the first.
pub proof fn law_one_daemon_at_a_time(
    paths: AynurPathsView,
    content: Text,
    first: u32,
    second: u32,
    cause: Text,
)
    ensures
        ({
            let free = PidFile { content, held: false };
            let (file, got) = steps_taken(paths, free, lock_steps(paths, first), cause);
            let (later, refused) = steps_taken(paths, file, lock_steps(paths, second), cause);
            &&& got is Ok
            &&& refused == Err::<(), Seq<Text>>(seq![already_running(paths)])
            &&& later.content == text::decimal_text(first as nat)
            &&& later.held
        }),
{
    let free = PidFile { content, held: false };
    law_lock_is_taken_where_it_is_free(paths, free, first, cause);
    let file = steps_taken(paths, free, lock_steps(paths, first), cause).0;
    law_lock_is_taken_where_it_is_free(paths, file, second, cause);
}

/// Taking the lock goes on exactly where a step succeeds. A lock that is held says that a daemon runs
/// already; any other failure is told with its reason.
pub proof fn law_lock_failures_are_told(
    paths: AynurPathsView,
    step: PidLockStepView,
    done: Result<(), PidLockErrorView>,
)
    ensures
        lock_verdict(paths, step, done) is Ok <==> done is Ok,
        done is Err && step is Lock && done->Err_0.would_block ==> lock_verdict(paths, step, done)
            == Err::<(), Seq<Text>>(
            seq!["aynur daemon is already running for "@ + file_path::lossy_text(paths.root_dir)],
        ),
        done is Err && !(step is Lock && done->Err_0.would_block) ==> lock_verdict(
            paths,
            step,
            done,
        )->Err_0.len() == 2 && lock_verdict(paths, step, done)->Err_0[1] == done->Err_0.cause,
{
}

} // verus!
