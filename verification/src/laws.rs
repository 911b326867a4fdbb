//! Laws of the instruction set, stated over the models that the contracts of
//! the executable functions use.

use crate::command::{assign_step, Command};
use crate::comparison::{Comparison, Guard};
use crate::machine::MachineView;
use crate::number::Number;
use crate::reply::exit_step;
use crate::signal::{FailureView, Signal};
use crate::step::{OutputView, PendingView, PrintingView, StepView};
use crate::value::ValueView;
use crate::variable::{NameView, PermissionView};
use vstd::prelude::*;

verus! {

/// Each guard lets execution through on exactly the outcomes of its row:
/// `Eq` on equal, `NEq` on not equal, `Less` on less, `LessEq` on less and on
/// equal, `More` on greater, `MoreEq` on greater and on equal.
pub proof fn guard_table(guard: Guard, outcome: Comparison)
    ensures
        Guard::Eq.admits(outcome) <==> outcome is Equal,
        Guard::NEq.admits(outcome) <==> outcome is NotEqual,
        Guard::Less.admits(outcome) <==> outcome is Less,
        Guard::LessEq.admits(outcome) <==> outcome is Less || outcome is Equal,
        Guard::More.admits(outcome) <==> outcome is Greater,
        Guard::MoreEq.admits(outcome) <==> outcome is Greater || outcome is Equal,
        guard.admits(Comparison::Equal) <==> guard is Eq || guard is LessEq || guard is MoreEq,
        guard.admits(Comparison::NotEqual) <==> guard is NEq,
        guard.admits(Comparison::Less) <==> guard is Less || guard is LessEq,
        guard.admits(Comparison::Greater) <==> guard is More || guard is MoreEq,
{
}

/// A conditional fires if and only if its guard admits the current flag.
/// When it fires, executing it is executing the instruction it wraps: the
/// same step, so the same signal, and the same machine afterwards. When it
/// does not, it is done without a signal and the machine is untouched.
pub proof fn conditional_fires_iff_admitted(
    conditional: Command,
    guard: Guard,
    inner: Command,
    vm: MachineView,
)
    requires
        conditional.guarded() == Some((guard, inner)),
    ensures
        guard.admits(vm.flag) ==> conditional.step(vm) == inner.step(vm) && conditional.state(vm)
            == inner.state(vm),
        !guard.admits(vm.flag) ==> conditional.step(vm) == StepView::Done(None)
            && conditional.state(vm) == vm,
{
}

/// A conditional inside a conditional fires if and only if both guards
/// admit the current flag.
pub proof fn nested_conditionals_fire_together(
    outer: Command,
    first: Guard,
    middle: Command,
    second: Guard,
    inner: Command,
    vm: MachineView,
)
    requires
        outer.guarded() == Some((first, middle)),
        middle.guarded() == Some((second, inner)),
    ensures
        first.admits(vm.flag) && second.admits(vm.flag) ==> outer.step(vm) == inner.step(vm)
            && outer.state(vm) == inner.state(vm),
        !(first.admits(vm.flag) && second.admits(vm.flag)) ==> outer.step(vm) == StepView::Done(
            None,
        ) && outer.state(vm) == vm,
{
    conditional_fires_iff_admitted(outer, first, middle, vm);
    conditional_fires_iff_admitted(middle, second, inner, vm);
}

/// Starting an instruction never touches the flag or the current section,
/// however many guards it is wrapped in. (The flag changes only when the
/// outcome of a comparison is handed in.)
pub proof fn run_keeps_flag_and_section(command: Command, vm: MachineView)
    ensures
        command.state(vm).flag == vm.flag,
        command.state(vm).section == vm.section,
{
}

/// The instruction that is selected is never a conditional.
pub proof fn selected_is_unconditional(command: Command, flag: Comparison)
    ensures
        command.selected(flag) matches Some(instruction) ==> instruction.guarded() is None,
    decreases command,
{
    match command {
        Command::CmpEq(inner) => selected_is_unconditional(*inner, flag),
        Command::CmpNEq(inner) => selected_is_unconditional(*inner, flag),
        Command::CmpLess(inner) => selected_is_unconditional(*inner, flag),
        Command::CmpLessEq(inner) => selected_is_unconditional(*inner, flag),
        Command::CmpMore(inner) => selected_is_unconditional(*inner, flag),
        Command::CmpMoreEq(inner) => selected_is_unconditional(*inner, flag),
        _ => {},
    }
}

/// A variable that has just been declared without a value holds the number
/// zero, in the section that was current, and that section may read and
/// write it.
pub proof fn declared_variable_holds_zero(name: String, vm: MachineView)
    ensures
        Command::Decl(name).step(vm) == StepView::Done(None),
        Command::Decl(name).state(vm).holds(vm.qualified(name@)),
        Command::Decl(name).state(vm).variables[vm.qualified(name@)].value == ValueView::Number(
            Number { bits: 0 },
        ),
        Command::Decl(name).state(vm).variables[vm.qualified(name@)].permission
            == PermissionView::ReadWrite(vm.section),
{
}

/// A variable that has just been declared with a value holds that value.
pub proof fn declared_variable_holds_value(name: Seq<char>, value: ValueView, vm: MachineView)
    ensures
        PendingView::Declare(name).step(value, vm) == StepView::Done(None),
        PendingView::Declare(name).state(value, vm).holds(vm.qualified(name)),
        PendingView::Declare(name).state(value, vm).variables[vm.qualified(name)].value == value,
{
}

/// Declaring or storing changes the one variable it names and no other: in
/// particular not the variable of the same local name in another section.
pub proof fn other_variables_stay(
    local: Seq<char>,
    value: ValueView,
    vm: MachineView,
    other: NameView,
)
    requires
        other != vm.qualified(local),
    ensures
        vm.introduced(local, value).holds(other) == vm.holds(other),
        vm.introduced(local, value).variables[other] == vm.variables[other],
        vm.stored(local, value).holds(other) == vm.holds(other),
        vm.stored(local, value).variables[other] == vm.variables[other],
{
}

/// Storing into a variable that exists makes it hold the value stored, and
/// leaves its permission and the set of variables as they were. Storing into
/// one that does not exist fails and changes nothing.
pub proof fn stored_value_is_held(local: Seq<char>, value: ValueView, vm: MachineView)
    ensures
        vm.holds(vm.qualified(local)) ==> {
            &&& assign_step(vm, local) == StepView::Done(None)
            &&& vm.stored(local, value).variables[vm.qualified(local)].value == value
            &&& vm.stored(local, value).variables[vm.qualified(local)].permission
                == vm.variables[vm.qualified(local)].permission
            &&& vm.stored(local, value).variables.dom() == vm.variables.dom()
        },
        !vm.holds(vm.qualified(local)) ==> {
            &&& assign_step(vm, local) is Failed
            &&& vm.stored(local, value) == vm
        },
{
    if vm.holds(vm.qualified(local)) {
        assert(vm.stored(local, value).variables.dom() =~= vm.variables.dom());
    }
}

/// Of two stores into the same variable the later one counts.
pub proof fn last_store_counts(
    local: Seq<char>,
    earlier: ValueView,
    later: ValueView,
    vm: MachineView,
)
    ensures
        vm.stored(local, earlier).stored(local, later) == vm.stored(local, later),
{
    if vm.holds(vm.qualified(local)) {
        assert(vm.stored(local, earlier).stored(local, later).variables =~= vm.stored(
            local,
            later,
        ).variables);
    }
}

/// Clearing a variable is moving the number zero into it.
pub proof fn clear_is_move_of_zero(name: String, vm: MachineView)
    ensures
        Command::Clear(name).step(vm) == PendingView::Move(name@).step(ValueView::zero(), vm),
        Command::Clear(name).state(vm) == PendingView::Move(name@).state(ValueView::zero(), vm),
{
}

/// Quitting without an exit code is quitting with the number zero.
pub proof fn quit_without_code_is_quit_zero(code: String, vm: MachineView)
    requires
        code@.len() == 0,
    ensures
        Command::Quit(code).step(vm) == StepView::Done(Some(Signal::Quit(0))),
        Command::Quit(code).step(vm) == exit_step(ValueView::zero()),
{
    (Number { bits: 0 }).zero_truncates_to_zero();
}

/// A move asks for the value of its expression and nothing else; with the
/// value in, the variable holds it, if the current section has the variable.
pub proof fn move_stores_the_value(
    name: String,
    expression: String,
    value: ValueView,
    vm: MachineView,
)
    ensures
        Command::Move(name, expression).step(vm) == StepView::Evaluate(
            expression@,
            PendingView::Move(name@),
        ),
        Command::Move(name, expression).state(vm) == vm,
        PendingView::Move(name@).step(value, vm) == assign_step(vm, name@),
        vm.holds(vm.qualified(name@)) ==> PendingView::Move(name@).state(
            value,
            vm,
        ).variables[vm.qualified(name@)].value == value,
{
}

/// A comparison asks for the value of its left expression, then for the
/// value of its right expression, then for the two values to be compared,
/// left against right. The machine stays as it is all the while; only the
/// outcome, once handed in, becomes the flag.
pub proof fn comparison_goes_left_then_right(
    left: String,
    right: String,
    first: ValueView,
    second: ValueView,
    vm: MachineView,
)
    ensures
        Command::Cmp(left, right).step(vm) == StepView::Evaluate(
            left@,
            PendingView::CompareLeft(right@),
        ),
        Command::Cmp(left, right).state(vm) == vm,
        PendingView::CompareLeft(right@).step(first, vm) == StepView::Evaluate(
            right@,
            PendingView::CompareRight(first),
        ),
        PendingView::CompareLeft(right@).state(first, vm) == vm,
        PendingView::CompareRight(first).step(second, vm) == StepView::Compare(first, second),
        PendingView::CompareRight(first).state(second, vm) == vm,
{
}

/// A quit with an expression asks for its value. A number ends the program
/// with that number as exit code, rounded towards zero and pinned to the
/// bounds of the code; a text is a failure that the program cannot go on
/// from. The machine stays as it is.
pub proof fn quit_takes_its_code_from_a_number(code: String, value: ValueView, vm: MachineView)
    requires
        code@.len() > 0,
    ensures
        Command::Quit(code).step(vm) == StepView::Evaluate(code@, PendingView::Quit),
        Command::Quit(code).state(vm) == vm,
        PendingView::Quit.state(value, vm) == vm,
        value matches ValueView::Number(number) ==> (PendingView::Quit.step(value, vm)
            == StepView::Done(Some(Signal::Quit(number.exit_code()))) && number.exit_code()
            == number.truncated()),
        value is Text ==> PendingView::Quit.step(value, vm) == StepView::Failed(
            FailureView::InvalidExitCode,
        ) && FailureView::InvalidExitCode.fatal(),
{
    if let ValueView::Number(number) = value {
        number.truncated_fits();
    }
}

/// A piece of the outside work that printing asks for.
pub enum Work {
    /// The evaluation of an expression.
    Evaluate(Seq<char>),
    /// A write to the output.
    Write(OutputView),
}

/// All the outside work that a print job asks for until it is done, in the
/// order in which it asks, when every evaluation succeeds and the
/// expressions that are left have the values `values`, in order.
pub open spec fn course(job: PrintingView, values: Seq<ValueView>, vm: MachineView) -> Seq<Work>
    decreases job.rest.len(), (if job.newline { 1nat } else { 0nat }),
{
    match job.next() {
        StepView::Evaluate(expression, pending) => match pending.step(values[0], vm) {
            StepView::Write(output, rest) => seq![Work::Evaluate(expression), Work::Write(output)]
                + course(rest, values.drop_first(), vm),
            _ => Seq::empty(),
        },
        StepView::Write(output, rest) => seq![Work::Write(output)] + course(rest, values, vm),
        _ => Seq::empty(),
    }
}

/// The work of a job with an expression left: its evaluation, the write of
/// its value, and the work of the job without it.
proof fn course_of_more(job: PrintingView, values: Seq<ValueView>, vm: MachineView)
    requires
        job.rest.len() > 0,
    ensures
        course(job, values, vm) == seq![
            Work::Evaluate(job.rest[0]),
            Work::Write(OutputView::Value(values[0])),
        ] + course(
            PrintingView { rest: job.rest.drop_first(), ..job },
            values.drop_first(),
            vm,
        ),
{
}

/// The work of a job with no expression left: the line end, if one is due.
proof fn course_of_none(job: PrintingView, values: Seq<ValueView>, vm: MachineView)
    requires
        job.rest.len() == 0,
    ensures
        course(job, values, vm) == if job.newline {
            seq![Work::Write(OutputView::LineEnd)]
        } else {
            Seq::empty()
        },
{
    if job.newline {
        let done = PrintingView { rest: Seq::empty(), newline: false };
        assert(course(done, values, vm) == Seq::<Work>::empty());
        assert(course(job, values, vm) == seq![Work::Write(OutputView::LineEnd)]
            + Seq::<Work>::empty());
    }
}

/// Printing goes from left to right and writes each value before it asks for
/// the next: the work is the evaluation of the first expression, the write
/// of its value, the evaluation of the second, the write of its value, and
/// so on, and after the last value the line end, if one is due. Nothing else
/// is asked for, and nothing is written between the values.
pub proof fn print_is_left_to_right(job: PrintingView, values: Seq<ValueView>, vm: MachineView)
    requires
        values.len() == job.rest.len(),
    ensures
        course(job, values, vm).len() == 2 * job.rest.len() + (if job.newline {
            1nat
        } else {
            0nat
        }),
        forall|k: int|
            #![trigger job.rest[k]]
            0 <= k < job.rest.len() ==> course(job, values, vm)[2 * k] == Work::Evaluate(
                job.rest[k],
            ) && course(job, values, vm)[2 * k + 1] == Work::Write(OutputView::Value(values[k])),
        job.newline ==> course(job, values, vm)[2 * job.rest.len() as int] == Work::Write(
            OutputView::LineEnd,
        ),
    decreases job.rest.len(),
{
    let whole = course(job, values, vm);
    if job.rest.len() == 0 {
        course_of_none(job, values, vm);
    } else {
        let rest = PrintingView { rest: job.rest.drop_first(), ..job };
        let tail = course(rest, values.drop_first(), vm);
        course_of_more(job, values, vm);
        print_is_left_to_right(rest, values.drop_first(), vm);
        assert forall|k: int|
            #![trigger job.rest[k]]
            0 <= k < job.rest.len() implies whole[2 * k] == Work::Evaluate(job.rest[k])
            && whole[2 * k + 1] == Work::Write(OutputView::Value(values[k])) by {
            if k > 0 {
                assert(rest.rest[k - 1] == job.rest[k]);
                assert(values.drop_first()[k - 1] == values[k]);
                assert(whole[2 * k] == tail[2 * (k - 1)]);
                assert(whole[2 * k + 1] == tail[2 * (k - 1) + 1]);
            }
        }
        if job.newline {
            assert(whole[2 * job.rest.len() as int] == tail[2 * rest.rest.len() as int]);
        }
    }
}

} // verus!
