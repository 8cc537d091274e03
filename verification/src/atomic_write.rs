//! Replacing a file in one step: the new content goes to a temporary file beside it, which then
//! takes its place.
use crate::failure::{self, Failure};
use crate::file_path::{self, FilePath};
use crate::text::Text;
use vstd::prelude::*;

verus! {

/// One step of replacing a file.
#[derive(Clone, Copy, Debug, PartialEq, Eq, Structural)]
pub enum WriteStep {
    /// Removes a temporary file that was left behind.
    RemoveStale,
    /// Creates the temporary file, which must not be there.
    Create,
    /// Writes the content to the temporary file.
    Write,
    /// Makes sure that the content is stored.
    Flush,
    /// Puts the temporary file in the place of the target.
    Replace,
}

/// Why a step failed.
#[derive(Clone, Debug, PartialEq, Eq)]
pub struct StepError {
    /// The file to work on is not there.
    pub not_found: bool,
    /// The reason, in words.
    pub cause: String,
}

/// A file that is to be replaced.
#[derive(Clone, Debug, PartialEq, Eq)]
pub struct AtomicWrite {
    /// The file that is replaced.
    pub target: FilePath,
    /// The file that takes its place.
    pub temporary: FilePath,
    /// What the file is called in messages.
    pub label: String,
    /// Whether a temporary file that was left behind is removed first.
    pub removes_stale: bool,
}

/// A file that is to be replaced.
pub struct AtomicWriteView {
    /// The file that is replaced.
    pub target: Seq<u8>,
    /// The file that takes its place.
    pub temporary: Seq<u8>,
    /// What the file is called in messages.
    pub label: Text,
    /// Whether a temporary file that was left behind is removed first.
    pub removes_stale: bool,
}

impl View for AtomicWrite {
    type V = AtomicWriteView;

    open spec fn view(&self) -> AtomicWriteView {
        AtomicWriteView {
            target: self.target@,
            temporary: self.temporary@,
            label: self.label@,
            removes_stale: self.removes_stale,
        }
    }
}

impl AtomicWriteView {
    /// The steps, in their order.
    pub open spec fn steps(self) -> Seq<WriteStep> {
        if self.removes_stale {
            seq![
                WriteStep::RemoveStale,
                WriteStep::Create,
                WriteStep::Write,
                WriteStep::Flush,
                WriteStep::Replace,
            ]
        } else {
            seq![WriteStep::Create, WriteStep::Write, WriteStep::Flush, WriteStep::Replace]
        }
    }

    /// What is said where a step fails.
    pub open spec fn complaint(self, step: WriteStep) -> Text {
        let temporary = file_path::lossy_text(self.temporary);
        match step {
            WriteStep::RemoveStale => "failed to remove stale temporary "@ + self.label + " at "@
                + temporary,
            WriteStep::Create => "failed to create temporary "@ + self.label + " at "@ + temporary,
            WriteStep::Write => "failed to write temporary "@ + self.label + " at "@ + temporary,
            WriteStep::Flush => "failed to flush temporary "@ + self.label + " at "@ + temporary,
            WriteStep::Replace => "failed to replace "@ + self.label + " at "@
                + file_path::lossy_text(self.target) + " with "@ + temporary,
        }
    }

    /// Whether the work goes on after a step. That there is nothing stale to remove is no failure.
    pub open spec fn verdict(self, step: WriteStep, done: Result<(), StepError>) -> Result<
        (),
        Seq<Text>,
    > {
        match done {
            Ok(_) => Ok(()),
            Err(error) => if step is RemoveStale && error.not_found {
                Ok(())
            } else {
                Err(seq![self.complaint(step), error.cause@])
            },
        }
    }
}

impl AtomicWrite {
    /// The steps, in their order.
    pub fn steps(&self) -> (r: Vec<WriteStep>)
        ensures
            r@ == self@.steps(),
    {
        let mut steps: Vec<WriteStep> = Vec::new();
        if self.removes_stale {
            steps.push(WriteStep::RemoveStale);
        }
        steps.push(WriteStep::Create);
        steps.push(WriteStep::Write);
        steps.push(WriteStep::Flush);
        steps.push(WriteStep::Replace);
        steps
    }

    fn complain(&self, before: &str) -> (r: String)
        ensures
            r@ == before@ + self@.label + " at "@ + file_path::lossy_text(self@.temporary),
    {
        before.to_owned().concat(self.label.as_str()).concat(" at ").concat(
            self.temporary.display().as_str(),
        )
    }

    /// Whether the work goes on after a step. `done` is what the step gave.
    pub fn judge(&self, step: WriteStep, done: Result<(), StepError>) -> (r: Result<(), Failure>)
        ensures
            failure::outcome(r) == self@.verdict(step, done),
    {
        let error = match done {
            Ok(_) => {
                return Ok(());
            },
            Err(error) => error,
        };
        let complaint = match step {
            WriteStep::RemoveStale => {
                if error.not_found {
                    return Ok(());
                }
                self.complain("failed to remove stale temporary ")
            },
            WriteStep::Create => self.complain("failed to create temporary "),
            WriteStep::Write => self.complain("failed to write temporary "),
            WriteStep::Flush => self.complain("failed to flush temporary "),
            WriteStep::Replace => "failed to replace ".to_owned().concat(
                self.label.as_str(),
            ).concat(" at ").concat(self.target.display().as_str()).concat(" with ").concat(
                self.temporary.display().as_str(),
            ),
        };
        Err(Failure::because(complaint, error.cause))
    }
}

/// What the two files hold, where they are there.
pub struct TwoFiles {
    /// The file that is replaced.
    pub target: Option<Text>,
    /// The file that takes its place.
    pub temporary: Option<Text>,
}

/// What the two files hold after one step.
pub open spec fn after_step(files: TwoFiles, step: WriteStep, content: Text) -> TwoFiles {
    match step {
        WriteStep::RemoveStale => TwoFiles { target: files.target, temporary: None },
        WriteStep::Create => TwoFiles { target: files.target, temporary: Some(Seq::empty()) },
        WriteStep::Write => TwoFiles { target: files.target, temporary: Some(content) },
        WriteStep::Flush => files,
        WriteStep::Replace => TwoFiles { target: files.temporary, temporary: None },
    }
}

/// What the two files hold after some steps.
pub open spec fn after_steps(files: TwoFiles, steps: Seq<WriteStep>, content: Text) -> TwoFiles
    decreases steps.len(),
{
    if steps.len() == 0 {
        files
    } else {
        after_step(after_steps(files, steps.drop_last(), content), steps.last(), content)
    }
}

/// However many steps are done, the target holds what it held before until the last one is done;
/// it then holds the new content, and the temporary file is gone. Nothing in between is ever to be
/// seen in the target, and a temporary file that was left behind does no harm.
pub proof fn law_target_changes_in_one_step(
    write: AtomicWriteView,
    files: TwoFiles,
    content: Text,
    n: int,
)
    requires
        0 <= n <= write.steps().len(),
    ensures
        n < write.steps().len() ==> after_steps(files, write.steps().take(n), content).target
            == files.target,
        n == write.steps().len() ==> after_steps(files, write.steps().take(n), content)
            == (TwoFiles { target: Some(content), temporary: None }),
{
    lemma_files_so_far(write, files, content, n);
}

proof fn lemma_files_so_far(
    write: AtomicWriteView,
    files: TwoFiles,
    content: Text,
    n: int,
)
    requires
        0 <= n <= write.steps().len(),
    ensures
        n < write.steps().len() ==> after_steps(files, write.steps().take(n), content).target
            == files.target,
        n >= write.steps().len() - 2 ==> after_steps(
            files,
            write.steps().take(write.steps().len() - 2),
            content,
        ).temporary == Some(content),
        n == write.steps().len() ==> after_steps(files, write.steps().take(n), content)
            == (TwoFiles { target: Some(content), temporary: None }),
    decreases n,
{
    let steps = write.steps();
    if n > 0 {
        lemma_files_so_far(write, files, content, n - 1);
        assert(steps.take(n).drop_last() == steps.take(n - 1));
        assert(steps.take(n).last() == steps[n - 1]);
        if n == steps.len() {
            assert(steps.take(n - 1).drop_last() == steps.take(n - 2));
            assert(steps.take(n - 1).last() == steps[n - 2]);
        }
    }
}

/// The temporary file is created only when nothing is in its place, where what was left behind is
/// removed first.
pub proof fn law_nothing_is_in_the_way(write: AtomicWriteView, files: TwoFiles, content: Text)
    requires
        write.removes_stale,
    ensures
        write.steps()[1] is Create,
        after_steps(files, write.steps().take(1), content).temporary is None,
{
    let first = write.steps().take(1);
    assert(first.drop_last() == Seq::<WriteStep>::empty());
    assert(first.last() is RemoveStale);
    reveal_with_fuel(after_steps, 2);
}

/// Replacing a file goes on after a step exactly where the step succeeded, or where there was nothing
/// stale to remove; any other failure is told with the step, the file and the reason.
pub proof fn law_only_nothing_stale_is_forgiven(
    write: AtomicWriteView,
    step: WriteStep,
    done: Result<(), StepError>,
)
    ensures
        write.verdict(step, done) is Ok <==> done is Ok || (step is RemoveStale
            && done->Err_0.not_found),
        write.verdict(step, done) is Err ==> write.verdict(step, done)->Err_0.len() == 2
            && write.verdict(step, done)->Err_0[1] == done->Err_0.cause@,
{
}

/// The content is written to the temporary file and stored before it takes the place of the target;
/// a stale temporary file is removed first where that is asked for.
pub proof fn law_steps_come_in_order(write: AtomicWriteView)
    ensures
        write.removes_stale ==> write.steps() == seq![
            WriteStep::RemoveStale,
            WriteStep::Create,
            WriteStep::Write,
            WriteStep::Flush,
            WriteStep::Replace,
        ],
        !write.removes_stale ==> write.steps() == seq![
            WriteStep::Create,
            WriteStep::Write,
            WriteStep::Flush,
            WriteStep::Replace,
        ],
{
}

} // verus!
