//! The interpreter state that instructions read and change: the current
//! section, the comparison flag and the variables.

use crate::comparison::Comparison;
use crate::signal::{Failure, FailureView};
use crate::value::{Value, ValueView};
use crate::variable::{Name, NameView, PermissionView, Slot, Variable};
use vstd::prelude::*;

verus! {

/// What a [`Machine`] stands for.
pub struct MachineView {
    /// The section whose instructions are being executed.
    pub section: Seq<char>,
    /// The outcome of the most recent comparison.
    pub flag: Comparison,
    /// Every declared variable, by qualified name.
    pub variables: Map<NameView, Slot>,
}

impl MachineView {
    /// The qualified name that `local` has in the current section.
    pub open spec fn qualified(self, local: Seq<char>) -> NameView {
        NameView { section: self.section, local }
    }

    /// Whether a variable of that name has been declared.
    pub open spec fn holds(self, name: NameView) -> bool {
        self.variables.dom().contains(name)
    }

    /// The state after declaring `name`. A variable that was already there
    /// is replaced, value and permission.
    pub open spec fn declared(self, name: NameView, slot: Slot) -> MachineView {
        MachineView { variables: self.variables.insert(name, slot), ..self }
    }

    /// The state after storing `value` in `name`. The permission stays.
    pub open spec fn assigned(self, name: NameView, value: ValueView) -> MachineView {
        MachineView {
            variables: self.variables.insert(
                name,
                Slot { value, permission: self.variables[name].permission },
            ),
            ..self
        }
    }

    /// The state after storing `value` in the variable that `local` names in
    /// the current section. Where there is no such variable, nothing changes.
    pub open spec fn stored(self, local: Seq<char>, value: ValueView) -> MachineView {
        if self.holds(self.qualified(local)) {
            self.assigned(self.qualified(local), value)
        } else {
            self
        }
    }

    /// The state after declaring `local` in the current section, holding
    /// `value`, for the current section to read and write.
    pub open spec fn introduced(self, local: Seq<char>, value: ValueView) -> MachineView {
        self.declared(
            self.qualified(local),
            Slot { value, permission: PermissionView::ReadWrite(self.section) },
        )
    }

    /// The state after a comparison with the given outcome.
    pub open spec fn compared(self, outcome: Comparison) -> MachineView {
        MachineView { flag: outcome, ..self }
    }

    /// The state after execution has moved to `section`.
    pub open spec fn entered(self, section: Seq<char>) -> MachineView {
        MachineView { section, ..self }
    }
}

/// The interpreter state. One is made when a program starts, and every
/// instruction of the program works on it.
#[derive(Debug)]
pub struct Machine {
    section: String,
    flag: Comparison,
    variables: Vec<Variable>,
}

/// The variables in a list in which a later entry stands in front of an
/// earlier one of the same name.
spec fn table(variables: Seq<Variable>) -> Map<NameView, Slot>
    decreases variables.len(),
{
    if variables.len() == 0 {
        Map::empty()
    } else {
        table(variables.drop_last()).insert(variables.last().name@, variables.last().slot())
    }
}

/// No entry from `from` on has the name `name`.
spec fn absent_from(variables: Seq<Variable>, name: NameView, from: int) -> bool {
    forall|j: int| from <= j < variables.len() ==> (#[trigger] variables[j]).name@ != name
}

/// A name that no entry has is not in the table.
proof fn lemma_table_absent(variables: Seq<Variable>, name: NameView)
    requires
        absent_from(variables, name, 0),
    ensures
        !table(variables).dom().contains(name),
    decreases variables.len(),
{
    if variables.len() > 0 {
        assert(variables.last() == variables[variables.len() - 1]);
        lemma_table_absent(variables.drop_last(), name);
    }
}

/// A name is in the table with what its last entry holds.
proof fn lemma_table_present(variables: Seq<Variable>, name: NameView, at: int)
    requires
        0 <= at < variables.len(),
        variables[at].name@ == name,
        absent_from(variables, name, at + 1),
    ensures
        table(variables).dom().contains(name),
        table(variables)[name] == variables[at].slot(),
    decreases variables.len(),
{
    if at < variables.len() - 1 {
        assert(variables.last() == variables[variables.len() - 1]);
        lemma_table_present(variables.drop_last(), name, at);
    }
}

/// Replacing the last entry of a name by another entry of that name puts
/// the new entry in the table and changes nothing else.
proof fn lemma_table_replace(variables: Seq<Variable>, at: int, variable: Variable)
    requires
        0 <= at < variables.len(),
        variables[at].name@ == variable.name@,
        absent_from(variables, variable.name@, at + 1),
    ensures
        table(variables.update(at, variable)) == table(variables).insert(
            variable.name@,
            variable.slot(),
        ),
    decreases variables.len(),
{
    let changed = variables.update(at, variable);
    if at == variables.len() - 1 {
        assert(changed.drop_last() == variables.drop_last());
        assert(table(changed) == table(variables).insert(variable.name@, variable.slot()));
    } else {
        assert(variables.last() == variables[variables.len() - 1]);
        assert(changed.drop_last() == variables.drop_last().update(at, variable));
        lemma_table_replace(variables.drop_last(), at, variable);
        assert(table(changed) == table(variables).insert(variable.name@, variable.slot()));
    }
}

impl View for Machine {
    type V = MachineView;

    closed spec fn view(&self) -> MachineView {
        MachineView {
            section: self.section@,
            flag: self.flag,
            variables: table(self.variables@),
        }
    }
}

impl Machine {
    /// A machine about to execute `section`, with no variables. Nothing has
    /// been compared yet, and the flag says `Equal`.
    pub fn new(section: String) -> (machine: Machine)
        ensures
            machine@ == (MachineView {
                section: section@,
                flag: Comparison::Equal,
                variables: Map::empty(),
            }),
    {
        Machine { section, flag: Comparison::Equal, variables: Vec::new() }
    }

    /// The section whose instructions are being executed.
    pub fn current_section(&self) -> (section: &str)
        ensures
            section@ == self@.section,
    {
        self.section.as_str()
    }

    /// Moves execution to another section. Variables and flag stay.
    pub fn enter_section(&mut self, section: String)
        ensures
            final(self)@ == old(self)@.entered(section@),
    {
        self.section = section;
    }

    /// Records the outcome of a comparison.
    pub fn set_comparison(&mut self, outcome: Comparison)
        ensures
            final(self)@ == old(self)@.compared(outcome),
    {
        self.flag = outcome;
    }

    /// Whether the most recent comparison had the given outcome.
    pub fn comparison_is(&self, outcome: Comparison) -> (is: bool)
        ensures
            is == (self@.flag == outcome),
    {
        self.flag == outcome
    }

    /// Where the variable `name` is kept, if it exists.
    fn position(&self, name: &Name) -> (at: Option<usize>)
        ensures
            match at {
                Some(i) => i < self.variables@.len() && self.variables@[i as int].name@ == name@
                    && absent_from(self.variables@, name@, i + 1),
                None => absent_from(self.variables@, name@, 0),
            },
    {
        let mut i: usize = self.variables.len();
        while i > 0
            invariant
                i <= self.variables@.len(),
                absent_from(self.variables@, name@, i as int),
            decreases i,
        {
            i -= 1;
            if self.variables[i].name.same(name) {
                return Some(i);
            }
        }
        None
    }

    /// Registers a variable. One of the same qualified name is replaced.
    pub fn declare_variable(&mut self, variable: Variable)
        ensures
            final(self)@ == old(self)@.declared(variable.name@, variable.slot()),
    {
        match self.position(&variable.name) {
            Some(i) => {
                proof {
                    lemma_table_replace(self.variables@, i as int, variable);
                }
                self.variables[i] = variable;
            },
            None => {
                self.variables.push(variable);
                assert(self.variables@.drop_last() == old(self).variables@);
            },
        }
    }

    /// Stores `value` in the variable `name`, which must exist: if it does
    /// not, nothing changes and the failure names it.
    pub fn modify_variable(&mut self, name: Name, value: Value) -> (result: Result<(), Failure>)
        ensures
            match result {
                Ok(()) => old(self)@.holds(name@) && final(self)@ == old(self)@.assigned(
                    name@,
                    value@,
                ),
                Err(failure) => !old(self)@.holds(name@) && final(self)@ == old(self)@
                    && failure@ == FailureView::Unresolved(name@),
            },
    {
        match self.position(&name) {
            Some(i) => {
                let ghost before = self.variables@;
                proof {
                    lemma_table_present(before, name@, i as int);
                }
                self.variables[i].value = value;
                proof {
                    assert(self.variables@ == before.update(i as int, self.variables@[i as int]));
                    lemma_table_replace(before, i as int, self.variables@[i as int]);
                }
                Ok(())
            },
            None => {
                proof {
                    lemma_table_absent(self.variables@, name@);
                }
                Err(Failure::Unresolved(name))
            },
        }
    }

    /// The value of the variable `name`, if it exists.
    pub fn value_of(&self, name: &Name) -> (value: Option<&Value>)
        ensures
            match value {
                Some(v) => self@.holds(name@) && v@ == self@.variables[name@].value,
                None => !self@.holds(name@),
            },
    {
        match self.position(name) {
            Some(i) => {
                proof {
                    lemma_table_present(self.variables@, name@, i as int);
                }
                Some(&self.variables[i].value)
            },
            None => {
                proof {
                    lemma_table_absent(self.variables@, name@);
                }
                None
            },
        }
    }
}

} // verus!
