//! External commands as plain data: what to run, and what a run reported.
//!
//! The library never starts a process. It builds a `Command`, the driver runs
//! it and reports a `ProcessOutcome`, and `classify` reads that outcome.

use vstd::prelude::*;

verus! {

/// One external program invocation: the program's name and its arguments in
/// order.
#[derive(Debug, PartialEq, Eq)]
pub struct Command {
    pub program: String,
    pub args: Vec<String>,
}

/// The mathematical content of a `Command`.
pub struct CommandView {
    pub program: Seq<char>,
    pub args: Seq<Seq<char>>,
}

impl View for Command {
    type V = CommandView;

    open spec fn view(&self) -> CommandView {
        CommandView { program: self.program@, args: self.args.deep_view() }
    }
}

/// What the driver observed when it ran a command.
#[derive(Debug, PartialEq, Eq)]
pub enum ProcessOutcome {
    /// The program could not be launched; `reason` is the system's message.
    NotStarted { reason: String },
    /// The program ran to its end. `success` holds for exit status zero.
    Exited { success: bool, stdout: String, stderr: String },
}

/// The mathematical content of a `ProcessOutcome`.
pub enum ProcessOutcomeView {
    NotStarted { reason: Seq<char> },
    Exited { success: bool, stdout: Seq<char>, stderr: Seq<char> },
}

impl View for ProcessOutcome {
    type V = ProcessOutcomeView;

    open spec fn view(&self) -> ProcessOutcomeView {
        match *self {
            ProcessOutcome::NotStarted { reason } => ProcessOutcomeView::NotStarted {
                reason: reason@,
            },
            ProcessOutcome::Exited { success, stdout, stderr } => ProcessOutcomeView::Exited {
                success,
                stdout: stdout@,
                stderr: stderr@,
            },
        }
    }
}

/// How a finished attempt is read.
#[derive(Debug, PartialEq, Eq)]
pub enum Verdict {
    /// The program is not installed or could not be launched.
    ProgramNotFound(String),
    /// The program ran and ended with a non-zero status; holds its error
    /// output verbatim.
    ProgramFailed(String),
    /// The program ran and ended with status zero.
    Success,
}

/// The mathematical content of a `Verdict`.
pub enum VerdictView {
    ProgramNotFound(Seq<char>),
    ProgramFailed(Seq<char>),
    Success,
}

impl View for Verdict {
    type V = VerdictView;

    open spec fn view(&self) -> VerdictView {
        match *self {
            Verdict::ProgramNotFound(reason) => VerdictView::ProgramNotFound(reason@),
            Verdict::ProgramFailed(stderr) => VerdictView::ProgramFailed(stderr@),
            Verdict::Success => VerdictView::Success,
        }
    }
}

/// The verdict on an outcome: a launch failure means the program is missing,
/// a non-zero status means it failed, and status zero alone means success.
pub open spec fn spec_classify(outcome: ProcessOutcomeView) -> VerdictView {
    match outcome {
        ProcessOutcomeView::NotStarted { reason } => VerdictView::ProgramNotFound(reason),
        ProcessOutcomeView::Exited { success, stdout, stderr } => if success {
            VerdictView::Success
        } else {
            VerdictView::ProgramFailed(stderr)
        },
    }
}

/// Classifies what a process reported.
pub fn classify(outcome: &ProcessOutcome) -> (verdict: Verdict)
    ensures
        verdict@ == spec_classify(outcome@),
{
    match outcome {
        ProcessOutcome::NotStarted { reason } => Verdict::ProgramNotFound(reason.clone()),
        ProcessOutcome::Exited { success, stdout: _, stderr } => {
            if *success {
                Verdict::Success
            } else {
                Verdict::ProgramFailed(stderr.clone())
            }
        },
    }
}

} // verus!
