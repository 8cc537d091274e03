//! What went wrong, told in lines: the summary first, then the causes below it.
use crate::text::{self, join_texts, Text};
use vstd::prelude::*;

verus! {

/// A failed operation.
#[derive(Clone, Debug, PartialEq, Eq)]
pub struct Failure {
    /// What failed.
    pub summary: String,
    /// Why, from the nearest cause to the deepest.
    pub causes: Vec<String>,
}

impl View for Failure {
    type V = Seq<Text>;

    open spec fn view(&self) -> Seq<Text> {
        seq![self.summary@] + text::texts(self.causes@)
    }
}

/// The lines of a failure in one line.
pub open spec fn one_line(lines: Seq<Text>) -> Text {
    text::separated(lines, ": "@)
}

/// The outcome of an operation, with its failure as lines.
pub open spec fn outcome<T>(result: Result<T, Failure>) -> Result<T, Seq<Text>> {
    match result {
        Ok(value) => Ok(value),
        Err(failure) => Err(failure@),
    }
}

/// The outcome of an outside call, with the reason for its failure as a text.
pub open spec fn reply<T>(result: Result<T, String>) -> Result<T, Text> {
    match result {
        Ok(value) => Ok(value),
        Err(cause) => Err(cause@),
    }
}

/// The text in the outcome of an outside call.
pub open spec fn text_reply(result: Result<String, String>) -> Result<Text, Text> {
    match result {
        Ok(text) => Ok(text@),
        Err(cause) => Err(cause@),
    }
}

impl Failure {
    /// A failure without a cause.
    pub fn new(summary: String) -> (r: Failure)
        ensures
            r@ == seq![summary@],
    {
        let r = Failure { summary, causes: Vec::new() };
        assert(r@ == seq![summary@]);
        r
    }

    /// A failure with one cause.
    pub fn because(summary: String, cause: String) -> (r: Failure)
        ensures
            r@ == seq![summary@, cause@],
    {
        let mut causes: Vec<String> = Vec::new();
        causes.push(cause);
        let r = Failure { summary, causes };
        assert(r@ == seq![summary@, cause@]);
        r
    }

    /// This failure as the cause of another.
    pub fn within(self, summary: String) -> (r: Failure)
        ensures
            r@ == seq![summary@] + self@,
    {
        let ghost inner = self@;
        let Failure { summary: nearest, mut causes } = self;
        causes.insert(0, nearest);
        let r = Failure { summary, causes };
        assert(text::texts(r.causes@) =~= inner);
        r
    }

    /// The failure in one line.
    pub fn text(&self) -> (r: String)
        ensures
            r@ == one_line(self@),
    {
        let mut lines: Vec<String> = Vec::new();
        lines.push(self.summary.clone());
        let mut i: usize = 0;
        while i < self.causes.len()
            invariant
                i <= self.causes@.len(),
                text::texts(lines@) == self@.take(i + 1),
            decreases self.causes@.len() - i,
        {
            proof {
                text::lemma_texts_push(lines@, self.causes@[i as int]);
                assert(self@.take(i + 2) == self@.take(i + 1).push(self.causes@[i as int]@));
            }
            lines.push(self.causes[i].clone());
            i = i + 1;
        }
        assert(self@.take(self@.len() as int) == self@);
        join_texts(&lines, ": ")
    }
}

/// A failure is told in one line: what failed, and then each cause behind a colon.
pub proof fn law_causes_follow_in_one_line(lines: Seq<Text>, cause: Text)
    requires
        lines.len() > 0,
    ensures
        one_line(seq![cause]) == cause,
        one_line(lines.push(cause)) == one_line(lines) + ": "@ + cause,
{
    text::law_separated_adds_a_part(lines, ": "@, cause);
}

} // verus!
