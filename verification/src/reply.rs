//! How an instruction goes on once outside work has been done.
//!
//! Each function takes what a step of [`crate::step::Step`] left pending and
//! the answer it was waiting for. (After a write there is no answer to hand
//! in: the print job itself goes on, see
//! [`crate::step::Printing::proceed`].)

use crate::command::{assign, assign_step, declare};
use crate::comparison::Comparison;
use crate::machine::{Machine, MachineView};
use crate::signal::{Failure, FailureView, Signal};
use crate::step::{Output, OutputView, Pending, PendingView, Reading, ReadingView, Step, StepView};
use crate::text::{to_uppercase, trim, trimmed, uppercased};
use crate::value::{Value, ValueView};
use vstd::prelude::*;

verus! {

/// How a quit instruction ends on the value of its expression: a number
/// gives the exit code, rounded towards zero; anything else is a failure that
/// the program cannot go on from.
pub open spec fn exit_step(value: ValueView) -> StepView {
    match value {
        ValueView::Number(number) => StepView::Done(Some(Signal::Quit(number.exit_code()))),
        ValueView::Text(_) => StepView::Failed(FailureView::InvalidExitCode),
    }
}

impl PendingView {
    /// Where the instruction stands once the value it waited for is `value`.
    pub open spec fn step(self, value: ValueView, vm: MachineView) -> StepView {
        match self {
            PendingView::Move(name) => assign_step(vm, name),
            PendingView::Declare(_) => StepView::Done(None),
            PendingView::CompareLeft(right) => StepView::Evaluate(
                right,
                PendingView::CompareRight(value),
            ),
            PendingView::CompareRight(left) => StepView::Compare(left, value),
            PendingView::Print(job) => StepView::Write(OutputView::Value(value), job),
            PendingView::Quit => exit_step(value),
        }
    }

    /// The machine once the value that the instruction waited for is `value`.
    pub open spec fn state(self, value: ValueView, vm: MachineView) -> MachineView {
        match self {
            PendingView::Move(name) => vm.stored(name, value),
            PendingView::Declare(name) => vm.introduced(name, value),
            _ => vm,
        }
    }
}

impl ReadingView {
    /// What is stored for the line `line`: the line without the white space
    /// at its ends, in upper case if that was asked for.
    pub open spec fn text(self, line: Seq<char>) -> Seq<char> {
        if self.upper {
            uppercased(trimmed(line))
        } else {
            trimmed(line)
        }
    }
}

/// Ends a quit instruction on the value of its expression.
pub fn quit_with(value: Value) -> (step: Step)
    ensures
        step@ == exit_step(value@),
{
    match value.as_number() {
        Some(c) => Step::Done(Some(Signal::Quit(c.truncate()))),
        None => Step::Failed(Failure::InvalidExitCode),
    }
}

/// Goes on after an evaluation. `result` is the value of the expression, or
/// what the evaluator had to say when it failed; a failure ends the
/// instruction and leaves the machine as it was.
pub fn evaluated(pending: Pending, result: Result<Value, String>, vm: &mut Machine) -> (step: Step)
    ensures
        match result {
            Ok(value) => step@ == pending@.step(value@, old(vm)@) && final(vm)@
                == pending@.state(value@, old(vm)@),
            Err(message) => step@ == StepView::Failed(FailureView::Evaluation(message@))
                && final(vm)@ == old(vm)@,
        },
{
    match result {
        Err(message) => Step::Failed(Failure::Evaluation(message)),
        Ok(value) => match pending {
            Pending::Move(name) => assign(name, value, vm),
            Pending::Declare(name) => declare(name, value, vm),
            Pending::CompareLeft(right) => Step::Evaluate(right, Pending::CompareRight(value)),
            Pending::CompareRight(left) => Step::Compare(left, value),
            Pending::Print(job) => Step::Write(Output::Value(value), job),
            Pending::Quit => quit_with(value),
        },
    }
}

/// Goes on after a comparison. `result` is the outcome, which becomes the
/// flag, or what the comparer had to say when the values cannot be
/// compared; then the flag stays and the instruction has failed.
pub fn compared(result: Result<Comparison, String>, vm: &mut Machine) -> (step: Step)
    ensures
        match result {
            Ok(outcome) => step@ == StepView::Done(None) && final(vm)@ == old(vm)@.compared(
                outcome,
            ),
            Err(message) => step@ == StepView::Failed(FailureView::Comparison(message@))
                && final(vm)@ == old(vm)@,
        },
{
    match result {
        Ok(outcome) => {
            vm.set_comparison(outcome);
            Step::Done(None)
        },
        Err(message) => Step::Failed(Failure::Comparison(message)),
    }
}

/// Goes on after a read. `line` is the line that was read, or `None` if
/// there was none to read, which the program cannot go on from.
pub fn line_read(reading: Reading, line: Option<String>, vm: &mut Machine) -> (step: Step)
    ensures
        match line {
            Some(text) => step@ == assign_step(old(vm)@, reading@.variable) && final(vm)@ == old(
                vm,
            )@.stored(reading@.variable, ValueView::Text(reading@.text(text@))),
            None => step@ == StepView::Failed(FailureView::InputUnavailable) && final(vm)@ == old(
                vm,
            )@,
        },
{
    match line {
        None => Step::Failed(Failure::InputUnavailable),
        Some(text) => {
            let inp = trim(text.as_str());
            let stored = if reading.upper {
                to_uppercase(inp)
            } else {
                inp.to_owned()
            };
            assign(reading.variable, Value::text(stored), vm)
        },
    }
}

} // verus!
