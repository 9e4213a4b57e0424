//! What pipelines and their driver say to each other.
//!
//! A pipeline never acts.  It asks for one operation at a time with an
//! [`Action`], the driver carries the operation out and answers with an
//! [`Event`], and the pipeline decides from its state and that answer what to
//! ask for next.

use crate::error::{Error, Failure};
use crate::process::{CommandLine, Invocation, Outcome, ProcessOutcome};
use vstd::prelude::*;

verus! {

/// The driver's answer to the last action.
#[derive(Clone, Debug, PartialEq, Eq)]
pub enum Event {
    /// Nothing has been asked for yet.
    Begin,
    /// The answer to [`Action::Probe`]: whether the path exists.
    Exists { present: bool },
    /// The operation on the file system was carried out.
    Done,
    /// The operation on the file system failed.
    Failed { reason: String },
    /// The answer to [`Action::ReadFile`]: what the file holds.
    Contents { bytes: Vec<u8> },
    /// The answer to [`Action::Run`].
    Ran { outcome: ProcessOutcome },
}

/// The mathematical content of an [`Event`].
pub ghost enum EventView {
    Begin,
    Exists { present: bool },
    Done,
    Failed { reason: Seq<char> },
    Contents { bytes: Seq<u8> },
    Ran { outcome: Outcome },
}

impl View for Event {
    type V = EventView;

    open spec fn view(&self) -> EventView {
        match *self {
            Event::Begin => EventView::Begin,
            Event::Exists { present } => EventView::Exists { present },
            Event::Done => EventView::Done,
            Event::Failed { reason } => EventView::Failed { reason: reason@ },
            Event::Contents { bytes } => EventView::Contents { bytes: bytes@ },
            Event::Ran { outcome } => EventView::Ran { outcome: outcome@ },
        }
    }
}

/// The one operation a pipeline asks its driver for.
#[derive(Clone, Debug, PartialEq, Eq)]
pub enum Action {
    /// Report whether the path exists.
    Probe { path: String },
    /// Remove the directory and everything below it.
    RemoveTree { path: String },
    /// Create the directory and every missing directory above it.
    MakeDirs { path: String },
    /// Remove the file.
    RemoveFile { path: String },
    /// Read the whole file.
    ReadFile { path: String },
    /// Create the file, or empty it, and write the bytes to it.
    WriteFile { path: String, bytes: Vec<u8> },
    /// Run the program to its end and capture both of its output streams.
    Run { command: Invocation },
    /// Nothing is left to do.  The pipeline has failed if it ends with an
    /// error and has succeeded if it ends without one.
    Finish { error: Option<Error> },
}

/// The mathematical content of an [`Action`].
pub ghost enum ActionView {
    Probe { path: Seq<char> },
    RemoveTree { path: Seq<char> },
    MakeDirs { path: Seq<char> },
    RemoveFile { path: Seq<char> },
    ReadFile { path: Seq<char> },
    WriteFile { path: Seq<char>, bytes: Seq<u8> },
    Run { command: CommandLine },
    Finish { error: Option<Failure> },
}

impl View for Action {
    type V = ActionView;

    open spec fn view(&self) -> ActionView {
        match *self {
            Action::Probe { path } => ActionView::Probe { path: path@ },
            Action::RemoveTree { path } => ActionView::RemoveTree { path: path@ },
            Action::MakeDirs { path } => ActionView::MakeDirs { path: path@ },
            Action::RemoveFile { path } => ActionView::RemoveFile { path: path@ },
            Action::ReadFile { path } => ActionView::ReadFile { path: path@ },
            Action::WriteFile { path, bytes } => ActionView::WriteFile { path: path@, bytes: bytes@ },
            Action::Run { command } => ActionView::Run { command: command@ },
            Action::Finish { error } => ActionView::Finish {
                error: match error {
                    Some(e) => Some(e@),
                    None => None,
                },
            },
        }
    }
}

/// One move of a pipeline: the state it is in now, what the driver owes the
/// user on the two output streams, and the operation to carry out next.
#[derive(Clone, Debug, PartialEq, Eq)]
pub struct Step<S> {
    /// The state to hand back with the answer to `action`.
    pub state: S,
    /// Text to write to the standard output as it stands.
    pub stdout: String,
    /// Text to write to the standard error as it stands.
    pub stderr: String,
    /// The operation to carry out.
    pub action: Action,
}

/// The mathematical content of a [`Step`].
pub ghost struct Move<S> {
    pub state: S,
    pub stdout: Seq<char>,
    pub stderr: Seq<char>,
    pub action: ActionView,
}

impl<S> View for Step<S> {
    type V = Move<S>;

    open spec fn view(&self) -> Move<S> {
        Move {
            state: self.state,
            stdout: self.stdout@,
            stderr: self.stderr@,
            action: self.action@,
        }
    }
}

/// How far one stage of a pipeline has come.
#[derive(Clone, Copy, Debug, PartialEq, Eq, Structural)]
pub enum StageStatus {
    /// The stage has not come to an end yet.
    Pending,
    /// The stage did what it is there for.
    Succeeded,
    /// The stage was tried and failed.
    Failed,
}

/// What is said before the text of a failure that does not fail the
/// pipeline.
pub const WARNING_PREFIX: &'static str = "Warning: ";

/// The warning that reports `failure` on the standard error.
pub open spec fn warning(failure: Failure) -> Seq<char> {
    WARNING_PREFIX@ + failure.text() + "\n"@
}

/// The move that goes on with `action`, saying `stdout` first.
pub open spec fn go_on<S>(state: S, stdout: Seq<char>, action: ActionView) -> Move<S> {
    Move { state, stdout, stderr: Seq::<char>::empty(), action }
}

/// The move that ends a pipeline in failure.
pub open spec fn fail<S>(state: S, failure: Failure) -> Move<S> {
    Move {
        state,
        stdout: Seq::<char>::empty(),
        stderr: Seq::<char>::empty(),
        action: ActionView::Finish { error: Some(failure) },
    }
}

/// The move that ends a pipeline in success although its last stage failed:
/// the failure is reported as a warning.
pub open spec fn give_up<S>(state: S, failure: Failure) -> Move<S> {
    Move {
        state,
        stdout: Seq::<char>::empty(),
        stderr: warning(failure),
        action: ActionView::Finish { error: None },
    }
}

/// The move that ends a pipeline in success, saying `stdout` last.
pub open spec fn complete<S>(state: S, stdout: Seq<char>) -> Move<S> {
    Move {
        state,
        stdout,
        stderr: Seq::<char>::empty(),
        action: ActionView::Finish { error: None },
    }
}

impl<S> Step<S> {
    /// Goes on with `action`, saying `stdout` first.
    pub fn go_on(state: S, stdout: String, action: Action) -> (r: Step<S>)
        ensures
            r@ == go_on(state, stdout@, action@),
    {
        Step { state, stdout, stderr: String::new(), action }
    }

    /// Ends the pipeline in failure.
    pub fn fail(state: S, error: Error) -> (r: Step<S>)
        ensures
            r@ == fail(state, error@),
    {
        Step {
            state,
            stdout: String::new(),
            stderr: String::new(),
            action: Action::Finish { error: Some(error) },
        }
    }

    /// Ends the pipeline in success although its last stage failed, and
    /// reports the failure as a warning.
    pub fn give_up(state: S, error: Error) -> (r: Step<S>)
        ensures
            r@ == give_up(state, error@),
    {
        let text = error.message();
        let stderr = crate::text::concat3(WARNING_PREFIX, text.as_str(), "\n");
        Step { state, stdout: String::new(), stderr, action: Action::Finish { error: None } }
    }

    /// Ends the pipeline in success, saying `stdout` last.
    pub fn complete(state: S, stdout: String) -> (r: Step<S>)
        ensures
            r@ == complete(state, stdout@),
    {
        Step { state, stdout, stderr: String::new(), action: Action::Finish { error: None } }
    }
}

} // verus!
