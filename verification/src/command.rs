//! Instructions and how each of them is executed.
//!
//! [`run`] takes an instruction as far as the core can take it alone. An
//! instruction that needs no outside work is carried out on the spot. Any
//! other comes back as the first piece of outside work it needs; the
//! functions of [`crate::reply`] take it on from there.

use crate::comparison::{Comparison, Guard};
use crate::machine::{Machine, MachineView};
use crate::signal::{FailureView, Signal};
use crate::step::{texts, Pending, PendingView, Printing, PrintingView, Reading, ReadingView, Step, StepView};
use crate::value::{Value, ValueView};
use crate::variable::{Permission, Variable};
use vstd::prelude::*;

verus! {

/// One parsed instruction. Names are identifiers, expressions are the text
/// that the evaluator will be given, and a conditional owns the instruction
/// it wraps.
#[derive(Debug, PartialEq, Eq)]
pub enum Command {
    /// Store the value of the expression in the variable.
    Move(String, String),
    /// Store zero in the variable.
    Clear(String),
    /// Declare the variable, holding zero.
    Decl(String),
    /// Declare the variable, holding the value of the expression.
    DeclWV(String, String),
    /// Go to a section.
    Jump(String),
    /// Compare the values of two expressions and set the flag.
    Cmp(String, String),
    /// Execute the wrapped instruction if the flag says equal.
    CmpEq(Box<Command>),
    /// ... if the flag says not equal.
    CmpNEq(Box<Command>),
    /// ... if the flag says less.
    CmpLess(Box<Command>),
    /// ... if the flag says less or equal.
    CmpLessEq(Box<Command>),
    /// ... if the flag says greater.
    CmpMore(Box<Command>),
    /// ... if the flag says greater or equal.
    CmpMoreEq(Box<Command>),
    /// Write the values of the expressions, one after the other.
    Print(Vec<String>),
    /// The same, and end the line.
    Println(Vec<String>),
    /// Stop the program; the expression gives the exit code, zero if empty.
    Quit(String),
    /// Leave the current section.
    Return(Option<String>),
    /// Read a line into the variable.
    Input(String),
    /// Read a line into the variable, in upper case.
    InputUpper(String),
}

/// The step that ends an assignment to `local`: done, if the current section
/// has such a variable, and else the failure that names it.
pub open spec fn assign_step(vm: MachineView, local: Seq<char>) -> StepView {
    if vm.holds(vm.qualified(local)) {
        StepView::Done(None)
    } else {
        StepView::Failed(FailureView::Unresolved(vm.qualified(local)))
    }
}

impl Command {
    /// For a conditional, its guard and the instruction it wraps.
    pub open spec fn guarded(self) -> Option<(Guard, Command)> {
        match self {
            Command::CmpEq(inner) => Some((Guard::Eq, *inner)),
            Command::CmpNEq(inner) => Some((Guard::NEq, *inner)),
            Command::CmpLess(inner) => Some((Guard::Less, *inner)),
            Command::CmpLessEq(inner) => Some((Guard::LessEq, *inner)),
            Command::CmpMore(inner) => Some((Guard::More, *inner)),
            Command::CmpMoreEq(inner) => Some((Guard::MoreEq, *inner)),
            _ => None,
        }
    }

    /// The unconditional instruction that executing `self` comes down to
    /// while the flag is `flag`: the one inside all the guards, if every one
    /// of them lets execution through, and none otherwise.
    pub open spec fn selected(self, flag: Comparison) -> Option<Command>
        decreases self,
    {
        match self {
            Command::CmpEq(inner) => if Guard::Eq.admits(flag) {
                inner.selected(flag)
            } else {
                None
            },
            Command::CmpNEq(inner) => if Guard::NEq.admits(flag) {
                inner.selected(flag)
            } else {
                None
            },
            Command::CmpLess(inner) => if Guard::Less.admits(flag) {
                inner.selected(flag)
            } else {
                None
            },
            Command::CmpLessEq(inner) => if Guard::LessEq.admits(flag) {
                inner.selected(flag)
            } else {
                None
            },
            Command::CmpMore(inner) => if Guard::More.admits(flag) {
                inner.selected(flag)
            } else {
                None
            },
            Command::CmpMoreEq(inner) => if Guard::MoreEq.admits(flag) {
                inner.selected(flag)
            } else {
                None
            },
            _ => Some(self),
        }
    }

    /// Where an unconditional instruction stands after the core has
    /// started it on the machine `vm`.
    pub open spec fn started(self, vm: MachineView) -> StepView {
        match self {
            Command::Move(name, expression) => StepView::Evaluate(
                expression@,
                PendingView::Move(name@),
            ),
            Command::Clear(name) => assign_step(vm, name@),
            Command::DeclWV(name, expression) => StepView::Evaluate(
                expression@,
                PendingView::Declare(name@),
            ),
            Command::Cmp(left, right) => StepView::Evaluate(
                left@,
                PendingView::CompareLeft(right@),
            ),
            Command::Print(args) => (PrintingView { rest: texts(args@), newline: false }).next(),
            Command::Println(args) => (PrintingView { rest: texts(args@), newline: true }).next(),
            Command::Quit(code) => if code@.len() == 0 {
                StepView::Done(Some(Signal::Quit(0)))
            } else {
                StepView::Evaluate(code@, PendingView::Quit)
            },
            Command::Return(_) => StepView::Done(Some(Signal::Return)),
            Command::Input(name) => StepView::ReadLine(
                ReadingView { variable: name@, upper: false },
            ),
            Command::InputUpper(name) => StepView::ReadLine(
                ReadingView { variable: name@, upper: true },
            ),
            _ => StepView::Done(None),
        }
    }

    /// What starting an unconditional instruction does to the machine `vm`.
    /// Only the two that need no outside work change it, and of it only the
    /// variables.
    pub open spec fn effect(self, vm: MachineView) -> MachineView {
        match self {
            Command::Clear(name) => vm.stored(name@, ValueView::zero()),
            Command::Decl(name) => vm.introduced(name@, ValueView::zero()),
            _ => vm,
        }
    }

    /// Where the instruction stands after [`run`] on the machine `vm`.
    pub open spec fn step(self, vm: MachineView) -> StepView {
        match self.selected(vm.flag) {
            Some(instruction) => instruction.started(vm),
            None => StepView::Done(None),
        }
    }

    /// The machine after [`run`] on the machine `vm`.
    pub open spec fn state(self, vm: MachineView) -> MachineView {
        match self.selected(vm.flag) {
            Some(instruction) => instruction.effect(vm),
            None => vm,
        }
    }
}

/// Where a conditional with the guard `guard` stands after it has been
/// executed: where the wrapped instruction stands, if the guard lets
/// execution through, and else done, with no signal.
pub open spec fn guarded_step(guard: Guard, command: Command, vm: MachineView) -> StepView {
    if guard.admits(vm.flag) {
        command.step(vm)
    } else {
        StepView::Done(None)
    }
}

/// The machine after a conditional with the guard `guard` has been executed.
pub open spec fn guarded_state(guard: Guard, command: Command, vm: MachineView) -> MachineView {
    if guard.admits(vm.flag) {
        command.state(vm)
    } else {
        vm
    }
}

/// Stores `value` in the variable that `var` names in the current section.
/// Fails, and changes nothing, if there is no such variable.
pub fn assign(var: String, value: Value, vm: &mut Machine) -> (step: Step)
    ensures
        step@ == assign_step(old(vm)@, var@),
        final(vm)@ == old(vm)@.stored(var@, value@),
{
    let name = Variable::make_name(var.as_str(), vm.current_section());
    match vm.modify_variable(name, value) {
        Ok(()) => Step::Done(None),
        Err(failure) => Step::Failed(failure),
    }
}

/// Declares the variable `var` in the current section, holding `value`, for
/// the current section to read and write.
pub fn declare(var: String, value: Value, vm: &mut Machine) -> (step: Step)
    ensures
        step@ == StepView::Done(None),
        final(vm)@ == old(vm)@.introduced(var@, value@),
{
    let current_sect = vm.current_section().to_owned();
    let result = Variable::new(
        var.as_str(),
        current_sect.as_str(),
        value,
        Permission::ReadWrite(current_sect.clone()),
    );
    vm.declare_variable(result);
    Step::Done(None)
}

/// `Move`: asks for the value of the expression, to be stored in `name`.
pub fn cmd_move(name: String, value: String, vm: &mut Machine) -> (step: Step)
    ensures
        step@ == StepView::Evaluate(value@, PendingView::Move(name@)),
        *final(vm) == *old(vm),
{
    Step::Evaluate(value, Pending::Move(name))
}

/// `Clear`: stores zero in `var`.
pub fn clear(var: String, vm: &mut Machine) -> (step: Step)
    ensures
        step@ == assign_step(old(vm)@, var@),
        final(vm)@ == old(vm)@.stored(var@, ValueView::zero()),
{
    let val = Value::zero();
    assign(var, val, vm)
}

/// `Decl`: declares `var` in the current section, holding zero.
pub fn decl(var: String, vm: &mut Machine) -> (step: Step)
    ensures
        step@ == StepView::Done(None),
        final(vm)@ == old(vm)@.introduced(var@, ValueView::zero()),
{
    declare(var, Value::zero(), vm)
}

/// `DeclWV`: asks for the value of the expression, to declare `var` with.
/// The expression is evaluated before the variable exists.
pub fn declwv(var: String, val: String, vm: &mut Machine) -> (step: Step)
    ensures
        step@ == StepView::Evaluate(val@, PendingView::Declare(var@)),
        *final(vm) == *old(vm),
{
    Step::Evaluate(val, Pending::Declare(var))
}

/// `Jump`: nothing to do here; moving between sections is up to whoever
/// fetches the instructions.
pub fn jump(sect: String, vm: &mut Machine) -> (step: Step)
    ensures
        step@ == StepView::Done(None),
        *final(vm) == *old(vm),
{
    Step::Done(None)
}

/// `Cmp`: asks for the value of the left expression; the right one follows,
/// and then the comparison.
pub fn cmp(left: String, right: String, vm: &mut Machine) -> (step: Step)
    ensures
        step@ == StepView::Evaluate(left@, PendingView::CompareLeft(right@)),
        *final(vm) == *old(vm),
{
    Step::Evaluate(left, Pending::CompareLeft(right))
}

/// `CmpEq`: executes `command` if the flag says equal.
pub fn cmp_eq(command: Command, vm: &mut Machine) -> (step: Step)
    ensures
        step@ == guarded_step(Guard::Eq, command, old(vm)@),
        final(vm)@ == guarded_state(Guard::Eq, command, old(vm)@),
    decreases command, 1nat,
{
    if vm.comparison_is(Comparison::Equal) {
        run(command, vm)
    } else {
        Step::Done(None)
    }
}

/// `CmpNEq`: executes `command` if the flag says not equal.
pub fn cmp_neq(command: Command, vm: &mut Machine) -> (step: Step)
    ensures
        step@ == guarded_step(Guard::NEq, command, old(vm)@),
        final(vm)@ == guarded_state(Guard::NEq, command, old(vm)@),
    decreases command, 1nat,
{
    if vm.comparison_is(Comparison::NotEqual) {
        run(command, vm)
    } else {
        Step::Done(None)
    }
}

/// `CmpLess`: executes `command` if the flag says less.
pub fn cmp_less(command: Command, vm: &mut Machine) -> (step: Step)
    ensures
        step@ == guarded_step(Guard::Less, command, old(vm)@),
        final(vm)@ == guarded_state(Guard::Less, command, old(vm)@),
    decreases command, 1nat,
{
    if vm.comparison_is(Comparison::Less) {
        run(command, vm)
    } else {
        Step::Done(None)
    }
}

/// `CmpLessEq`: executes `command` if the flag says less or equal.
pub fn cmp_lesseq(command: Command, vm: &mut Machine) -> (step: Step)
    ensures
        step@ == guarded_step(Guard::LessEq, command, old(vm)@),
        final(vm)@ == guarded_state(Guard::LessEq, command, old(vm)@),
    decreases command, 1nat,
{
    if vm.comparison_is(Comparison::Less) || vm.comparison_is(Comparison::Equal) {
        run(command, vm)
    } else {
        Step::Done(None)
    }
}

/// `CmpMore`: executes `command` if the flag says greater.
pub fn cmp_more(command: Command, vm: &mut Machine) -> (step: Step)
    ensures
        step@ == guarded_step(Guard::More, command, old(vm)@),
        final(vm)@ == guarded_state(Guard::More, command, old(vm)@),
    decreases command, 1nat,
{
    if vm.comparison_is(Comparison::Greater) {
        run(command, vm)
    } else {
        Step::Done(None)
    }
}

/// `CmpMoreEq`: executes `command` if the flag says greater or equal.
pub fn cmp_moreeq(command: Command, vm: &mut Machine) -> (step: Step)
    ensures
        step@ == guarded_step(Guard::MoreEq, command, old(vm)@),
        final(vm)@ == guarded_state(Guard::MoreEq, command, old(vm)@),
    decreases command, 1nat,
{
    if vm.comparison_is(Comparison::Greater) || vm.comparison_is(Comparison::Equal) {
        run(command, vm)
    } else {
        Step::Done(None)
    }
}

/// `Print`: starts writing the values of `args`, first to last.
pub fn print(args: Vec<String>, vm: &mut Machine) -> (step: Step)
    ensures
        step@ == (PrintingView { rest: texts(args@), newline: false }).next(),
        *final(vm) == *old(vm),
{
    (Printing { rest: args, newline: false }).proceed()
}

/// `Println`: starts writing the values of `args`, first to last, with a
/// line end after the last.
pub fn println(args: Vec<String>, vm: &mut Machine) -> (step: Step)
    ensures
        step@ == (PrintingView { rest: texts(args@), newline: true }).next(),
        *final(vm) == *old(vm),
{
    (Printing { rest: args, newline: true }).proceed()
}

/// `Quit`: with no expression the program stops with exit code zero; with
/// one, its value is asked for.
pub fn quit(code: String, vm: &mut Machine) -> (step: Step)
    ensures
        step@ == if code@.len() == 0 {
            StepView::Done(Some(Signal::Quit(0)))
        } else {
            StepView::Evaluate(code@, PendingView::Quit)
        },
        *final(vm) == *old(vm),
{
    if code.as_str().is_empty() {
        Step::Done(Some(Signal::Quit(0)))
    } else {
        Step::Evaluate(code, Pending::Quit)
    }
}

/// `Return`: leaves the section. The operand is not looked at.
pub fn cmd_return(val: Option<String>, vm: &mut Machine) -> (step: Step)
    ensures
        step@ == StepView::Done(Some(Signal::Return)),
        *final(vm) == *old(vm),
{
    Step::Done(Some(Signal::Return))
}

/// `Input`: asks for a line, to be stored in `var`.
pub fn input(var: String, vm: &mut Machine) -> (step: Step)
    ensures
        step@ == StepView::ReadLine(ReadingView { variable: var@, upper: false }),
        *final(vm) == *old(vm),
{
    Step::ReadLine(Reading { variable: var, upper: false })
}

/// `InputUpper`: asks for a line, to be stored in `var` in upper case.
pub fn input_upper(var: String, vm: &mut Machine) -> (step: Step)
    ensures
        step@ == StepView::ReadLine(ReadingView { variable: var@, upper: true }),
        *final(vm) == *old(vm),
{
    Step::ReadLine(Reading { variable: var, upper: true })
}

/// Executes one instruction as far as it goes without outside work.
///
/// A conditional whose guard does not hold is done at once, with no signal
/// and the machine untouched. One whose guard holds is the instruction it
/// wraps: step, signal and all.
pub fn run(cmd: Command, vm: &mut Machine) -> (step: Step)
    ensures
        step@ == cmd.step(old(vm)@),
        final(vm)@ == cmd.state(old(vm)@),
    decreases cmd, 0nat,
{
    match cmd {
        Command::Move(a, b) => cmd_move(a, b, vm),
        Command::Clear(a) => clear(a, vm),
        Command::Decl(a) => decl(a, vm),
        Command::DeclWV(a, b) => declwv(a, b, vm),
        Command::Jump(a) => jump(a, vm),
        Command::Cmp(a, b) => cmp(a, b, vm),
        Command::CmpEq(a) => cmp_eq(*a, vm),
        Command::CmpNEq(a) => cmp_neq(*a, vm),
        Command::CmpLess(a) => cmp_less(*a, vm),
        Command::CmpLessEq(a) => cmp_lesseq(*a, vm),
        Command::CmpMore(a) => cmp_more(*a, vm),
        Command::CmpMoreEq(a) => cmp_moreeq(*a, vm),
        Command::Print(a) => print(a, vm),
        Command::Println(a) => println(a, vm),
        Command::Quit(a) => quit(a, vm),
        Command::Return(a) => cmd_return(a, vm),
        Command::Input(a) => input(a, vm),
        Command::InputUpper(a) => input_upper(a, vm),
    }
}

} // verus!
