//! What executing an instruction yields, and what is kept while the core
//! waits for outside work to be done.

use crate::signal::{Failure, FailureView, Signal};
use crate::value::{Value, ValueView};
use vstd::prelude::*;

verus! {

/// The texts that a list of strings holds.
pub open spec fn texts(strings: Seq<String>) -> Seq<Seq<char>> {
    strings.map_values(|s: String| s@)
}

/// What is left of a print instruction: the expressions not yet evaluated,
/// in order, and whether a line end follows the last of them.
#[derive(Debug, PartialEq, Eq)]
pub struct Printing {
    pub rest: Vec<String>,
    pub newline: bool,
}

/// What a [`Printing`] stands for.
pub struct PrintingView {
    pub rest: Seq<Seq<char>>,
    pub newline: bool,
}

impl View for Printing {
    type V = PrintingView;

    open spec fn view(&self) -> PrintingView {
        PrintingView { rest: texts(self.rest@), newline: self.newline }
    }
}

/// What the core does with a value once the evaluator has produced it.
#[derive(Debug, PartialEq, Eq)]
pub enum Pending {
    /// Store it in the named variable of the current section.
    Move(String),
    /// Declare the named variable in the current section, holding it.
    Declare(String),
    /// It is the left operand of a comparison; the right one is still text.
    CompareLeft(String),
    /// It is the right operand of a comparison; the left one is known.
    CompareRight(Value),
    /// Write it, then go on printing.
    Print(Printing),
    /// It is the exit code of the program.
    Quit,
}

/// What a [`Pending`] stands for.
pub enum PendingView {
    Move(Seq<char>),
    Declare(Seq<char>),
    CompareLeft(Seq<char>),
    CompareRight(ValueView),
    Print(PrintingView),
    Quit,
}

impl View for Pending {
    type V = PendingView;

    open spec fn view(&self) -> PendingView {
        match self {
            Pending::Move(name) => PendingView::Move(name@),
            Pending::Declare(name) => PendingView::Declare(name@),
            Pending::CompareLeft(right) => PendingView::CompareLeft(right@),
            Pending::CompareRight(left) => PendingView::CompareRight(left@),
            Pending::Print(job) => PendingView::Print(job@),
            Pending::Quit => PendingView::Quit,
        }
    }
}

/// Something to write to the output.
#[derive(Debug, PartialEq, Eq)]
pub enum Output {
    /// The textual form of a value.
    Value(Value),
    /// The line terminator.
    LineEnd,
}

/// What an [`Output`] stands for.
pub enum OutputView {
    Value(ValueView),
    LineEnd,
}

impl View for Output {
    type V = OutputView;

    open spec fn view(&self) -> OutputView {
        match self {
            Output::Value(value) => OutputView::Value(value@),
            Output::LineEnd => OutputView::LineEnd,
        }
    }
}

/// An input instruction that waits for its line: the variable to store the
/// line in, and whether the line is stored in upper case.
#[derive(Debug, PartialEq, Eq)]
pub struct Reading {
    pub variable: String,
    pub upper: bool,
}

/// What a [`Reading`] stands for.
pub struct ReadingView {
    pub variable: Seq<char>,
    pub upper: bool,
}

impl View for Reading {
    type V = ReadingView;

    open spec fn view(&self) -> ReadingView {
        ReadingView { variable: self.variable@, upper: self.upper }
    }
}

/// Where an instruction stands after the core has worked on it.
///
/// `Done` and `Failed` end the instruction. Each of the others names one
/// piece of outside work; the instruction goes on when the answer is handed
/// to the function of [`crate::reply`] that belongs to it.
#[derive(Debug, PartialEq, Eq)]
pub enum Step {
    /// The instruction is finished. `None` lets execution go on with the
    /// next instruction; a signal has to be obeyed first.
    Done(Option<Signal>),
    /// The instruction could not be carried out.
    Failed(Failure),
    /// Evaluate the expression against the machine as it is now.
    Evaluate(String, Pending),
    /// Compare the left value with the right one.
    Compare(Value, Value),
    /// Write to the output, nothing before it and nothing after.
    Write(Output, Printing),
    /// Read one line from the input.
    ReadLine(Reading),
}

/// What a [`Step`] stands for.
pub enum StepView {
    Done(Option<Signal>),
    Failed(FailureView),
    Evaluate(Seq<char>, PendingView),
    Compare(ValueView, ValueView),
    Write(OutputView, PrintingView),
    ReadLine(ReadingView),
}

impl View for Step {
    type V = StepView;

    open spec fn view(&self) -> StepView {
        match self {
            Step::Done(signal) => StepView::Done(*signal),
            Step::Failed(failure) => StepView::Failed(failure@),
            Step::Evaluate(expression, pending) => StepView::Evaluate(expression@, pending@),
            Step::Compare(left, right) => StepView::Compare(left@, right@),
            Step::Write(output, job) => StepView::Write(output@, job@),
            Step::ReadLine(reading) => StepView::ReadLine(reading@),
        }
    }
}

impl PrintingView {
    /// How a print instruction goes on when nothing is in flight: with the
    /// first expression that is left; after the last one with the line end,
    /// if one is due; and then it is done.
    pub open spec fn next(self) -> StepView {
        if self.rest.len() > 0 {
            StepView::Evaluate(
                self.rest[0],
                PendingView::Print(PrintingView { rest: self.rest.drop_first(), ..self }),
            )
        } else if self.newline {
            StepView::Write(
                OutputView::LineEnd,
                PrintingView { rest: Seq::empty(), newline: false },
            )
        } else {
            StepView::Done(None)
        }
    }
}

impl Printing {
    /// Goes on with the print instruction.
    pub fn proceed(self) -> (step: Step)
        ensures
            step@ == self@.next(),
    {
        let mut job = self;
        if job.rest.len() > 0 {
            let first = job.rest.remove(0);
            assert(texts(job.rest@) == self@.rest.drop_first());
            Step::Evaluate(first, Pending::Print(job))
        } else if job.newline {
            job.newline = false;
            assert(texts(job.rest@) == Seq::<Seq<char>>::empty());
            Step::Write(Output::LineEnd, job)
        } else {
            Step::Done(None)
        }
    }
}

} // verus!
