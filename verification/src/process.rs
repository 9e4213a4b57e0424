//! Running an external program, seen from the side that decides: what to
//! run, and what came back.

use crate::error::{Error, Failure, Tool};
use crate::text::texts;
use vstd::prelude::*;

verus! {

/// A program and the arguments to start it with.
#[derive(Clone, Debug, PartialEq, Eq)]
pub struct Invocation {
    /// The executable.
    pub program: String,
    /// Its arguments, in order.
    pub args: Vec<String>,
}

impl Invocation {
    /// The arguments as text.
    pub open spec fn arguments(self) -> Seq<Seq<char>> {
        self@.args
    }
}

/// The mathematical content of an [`Invocation`].
pub ghost struct CommandLine {
    pub program: Seq<char>,
    pub args: Seq<Seq<char>>,
}

impl View for Invocation {
    type V = CommandLine;

    open spec fn view(&self) -> CommandLine {
        CommandLine { program: self.program@, args: texts(self.args@) }
    }
}

/// What came back from one attempt to run a program.
#[derive(Clone, Debug, PartialEq, Eq)]
pub enum ProcessOutcome {
    /// The program could not be started.
    NotStarted { reason: String },
    /// The program ran to its end; both output streams were captured.
    Exited { success: bool, stdout: String, stderr: String },
}

/// The mathematical content of a [`ProcessOutcome`].
pub ghost enum Outcome {
    NotStarted { reason: Seq<char> },
    Exited { success: bool, stdout: Seq<char>, stderr: Seq<char> },
}

impl View for ProcessOutcome {
    type V = Outcome;

    open spec fn view(&self) -> Outcome {
        match *self {
            ProcessOutcome::NotStarted { reason } => Outcome::NotStarted { reason: reason@ },
            ProcessOutcome::Exited { success, stdout, stderr } => Outcome::Exited {
                success,
                stdout: stdout@,
                stderr: stderr@,
            },
        }
    }
}

/// How a finished run of `tool`, started as `program`, is judged: by what it
/// wrote to its standard output if it exited with status zero, else by the
/// failure it stands for.
pub open spec fn verdict(tool: Tool, program: Seq<char>, outcome: Outcome) -> Result<
    Seq<char>,
    Failure,
> {
    match outcome {
        Outcome::NotStarted { reason } => Err(Failure::SpawnFailed { program, reason }),
        Outcome::Exited { success, stdout, stderr } => if success {
            Ok(stdout)
        } else {
            Err(Failure::ToolFailed { tool, stderr })
        },
    }
}

/// Judges a finished run of `tool`, started as `program`.
///
/// A run that exited with status zero succeeds and yields what it wrote to
/// its standard output, which the caller owes the user.  A run that exited
/// with any other status fails with what it wrote to its standard error.  A
/// program that never started fails in a way of its own, which names the
/// executable.
pub fn conclude(tool: Tool, program: &str, outcome: ProcessOutcome) -> (r: Result<String, Error>)
    ensures
        match verdict(tool, program@, outcome@) {
            Ok(echo) => r matches Ok(said) && said@ == echo,
            Err(failure) => r matches Err(e) && e@ == failure,
        },
{
    match outcome {
        ProcessOutcome::NotStarted { reason } => Err(
            Error::SpawnFailed { program: program.to_owned(), reason },
        ),
        ProcessOutcome::Exited { success, stdout, stderr } => {
            if success {
                Ok(stdout)
            } else {
                Err(Error::ToolFailed { tool, stderr })
            }
        },
    }
}

/// Appends to `out` the items of `items` from position `from` on; nothing
/// if `items` ends before that position.
pub fn extend_from(out: &mut Vec<String>, items: &Vec<String>, from: usize)
    ensures
        texts(final(out)@) == texts(old(out)@) + if from <= items.len() {
            texts(items@).skip(from as int)
        } else {
            Seq::<Seq<char>>::empty()
        },
{
    let ghost before = texts(out@);
    assert(before + Seq::<Seq<char>>::empty() =~= before);
    if from > items.len() {
        return ;
    }
    let mut i: usize = from;
    assert(texts(items@).subrange(from as int, i as int) =~= Seq::<Seq<char>>::empty());
    while i < items.len()
        invariant
            from <= i <= items.len(),
            texts(out@) == before + texts(items@).subrange(from as int, i as int),
        decreases items.len() - i,
    {
        let ghost sofar = texts(out@);
        out.push(items[i].clone());
        assert(texts(out@) =~= sofar.push(items@[i as int]@));
        assert(texts(items@).subrange(from as int, i + 1) =~= texts(items@).subrange(
            from as int,
            i as int,
        ).push(items@[i as int]@));
        i += 1;
    }
    assert(texts(items@).subrange(from as int, items@.len() as int) =~= texts(items@).skip(
        from as int,
    ));
}

} // verus!
