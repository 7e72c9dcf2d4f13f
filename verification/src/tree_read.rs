//! Reading the element tree with one second try.

use vstd::prelude::*;

use crate::reply::opt_text;
use crate::text::{join2, join3};

verus! {

/// A read of the element tree, with the error of a first try that failed.
#[derive(Debug)]
pub struct TreeRead {
    pub first: Option<String>,
}

/// How a try went.
#[derive(Debug)]
pub enum TreeAttempt {
    Read,
    Failed(String),
    TimedOut,
}

/// What to do after a try.
#[derive(Debug)]
pub enum TreeReadStep {
    Done,
    /// Forget the session and try again, within the same deadline.
    Again(TreeRead),
    Failed { first: String, second: String },
    TimedOut,
}

/// The content of a [`TreeReadStep`].
pub enum TreeReadView {
    Done,
    Again { first: Option<Seq<char>> },
    Failed { first: Seq<char>, second: Seq<char> },
    TimedOut,
}

impl View for TreeReadStep {
    type V = TreeReadView;

    open spec fn view(&self) -> TreeReadView {
        match *self {
            TreeReadStep::Done => TreeReadView::Done,
            TreeReadStep::Again(read) => TreeReadView::Again { first: opt_text(read.first) },
            TreeReadStep::Failed { first, second } => TreeReadView::Failed {
                first: first@,
                second: second@,
            },
            TreeReadStep::TimedOut => TreeReadView::TimedOut,
        }
    }
}

/// A first failure is tried again; a second one, or a deadline, ends the read.
pub open spec fn tree_read_next(read: TreeRead, attempt: TreeAttempt) -> TreeReadView {
    match attempt {
        TreeAttempt::Read => TreeReadView::Done,
        TreeAttempt::TimedOut => TreeReadView::TimedOut,
        TreeAttempt::Failed(error) => match read.first {
            None => TreeReadView::Again { first: Some(error@) },
            Some(first) => TreeReadView::Failed { first: first@, second: error@ },
        },
    }
}

impl TreeRead {
    pub fn new() -> (read: TreeRead)
        ensures
            read.first is None,
    {
        TreeRead { first: None }
    }

    /// What to do after a try.
    pub fn advance(self, attempt: TreeAttempt) -> (step: TreeReadStep)
        ensures
            step@ == tree_read_next(self, attempt),
    {
        match attempt {
            TreeAttempt::Read => TreeReadStep::Done,
            TreeAttempt::TimedOut => TreeReadStep::TimedOut,
            TreeAttempt::Failed(error) => match self.first {
                None => TreeReadStep::Again(TreeRead { first: Some(error) }),
                Some(first) => TreeReadStep::Failed { first, second: error },
            },
        }
    }
}

/// The error of a read, in the words of a wait for an element.
pub fn agent_wait_elements_error(first: &str, second: &str) -> (error: String)
    ensures
        error@ == "source retry failed: "@ + second@ + ("; first attempt: "@ + first@),
{
    let tail = join2("; first attempt: ", first);
    join3("source retry failed: ", second, tail.as_str())
}

/// The error of a read, in the words of a look after an action.
pub fn read_elements_once_error(first: &str, second: &str) -> (error: String)
    ensures
        error@ == "first error: "@ + first@ + (": "@ + second@),
{
    let tail = join2(": ", second);
    join3("first error: ", first, tail.as_str())
}

/// A read that fails is tried once more; what failed is then told of both tries,
/// each under its own name, and a read that ran out of time is not tried again.
pub proof fn law_a_read_is_tried_twice(read: TreeRead, error: String)
    ensures
        tree_read_next(read, TreeAttempt::Read) is Done,
        tree_read_next(read, TreeAttempt::TimedOut) is TimedOut,
        read.first is None ==> tree_read_next(read, TreeAttempt::Failed(error)) == (
        TreeReadView::Again { first: Some(error@) }),
        read.first matches Some(first) ==> tree_read_next(read, TreeAttempt::Failed(error)) == (
        TreeReadView::Failed { first: first@, second: error@ }),
{
}

/// What is told of two failed tries names both in their places.
pub proof fn law_two_failures_are_told_in_their_places(first: &str, second: &str, error: String)
    ensures
        call_ensures(agent_wait_elements_error, (first, second), error) ==> error@
            == "source retry failed: "@ + second@ + ("; first attempt: "@ + first@),
        call_ensures(read_elements_once_error, (first, second), error) ==> error@
            == "first error: "@ + first@ + (": "@ + second@),
{
}

} // verus!
