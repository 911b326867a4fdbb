//! What an instruction can hand back instead of letting execution go on.

use crate::variable::{Name, NameView};
use vstd::prelude::*;

verus! {

/// A control signal. It is meant for the loop that executes instructions,
/// which has to unwind to wherever the signal is handled.
#[derive(Clone, Copy, Debug, PartialEq, Eq, Structural)]
pub enum Signal {
    /// Stop the program with this exit code.
    Quit(i32),
    /// Leave the current section.
    Return,
}

/// Why an instruction could not be carried out.
#[derive(Clone, Debug, PartialEq, Eq)]
pub enum Failure {
    /// An expression could not be evaluated; the text is the evaluator's.
    Evaluation(String),
    /// Two values could not be compared; the text is the comparer's.
    Comparison(String),
    /// No variable of that name exists.
    Unresolved(Name),
    /// The exit code of a quit instruction is not a number.
    InvalidExitCode,
    /// No line could be read from the input.
    InputUnavailable,
}

/// What a [`Failure`] stands for.
pub enum FailureView {
    Evaluation(Seq<char>),
    Comparison(Seq<char>),
    Unresolved(NameView),
    InvalidExitCode,
    InputUnavailable,
}

impl View for Failure {
    type V = FailureView;

    open spec fn view(&self) -> FailureView {
        match self {
            Failure::Evaluation(text) => FailureView::Evaluation(text@),
            Failure::Comparison(text) => FailureView::Comparison(text@),
            Failure::Unresolved(name) => FailureView::Unresolved(name@),
            Failure::InvalidExitCode => FailureView::InvalidExitCode,
            Failure::InputUnavailable => FailureView::InputUnavailable,
        }
    }
}

impl FailureView {
    /// A fatal failure leaves nothing to recover: the program has to stop.
    /// The others belong to the instruction alone, and the caller may go on.
    pub open spec fn fatal(self) -> bool {
        self is InvalidExitCode || self is InputUnavailable
    }
}

impl Failure {
    /// Whether the program has to stop on this failure.
    pub fn is_fatal(&self) -> (fatal: bool)
        ensures
            fatal == self@.fatal(),
    {
        match self {
            Failure::InvalidExitCode => true,
            Failure::InputUnavailable => true,
            _ => false,
        }
    }
}

} // verus!
