//! Variables: named cells that belong to a section.

use crate::value::{Value, ValueView};
use vstd::prelude::*;

verus! {

/// The qualified name of a variable: the section it was declared in and its
/// name within that section. Two names are the same variable only if both
/// parts agree.
#[derive(Clone, Debug, PartialEq, Eq)]
pub struct Name {
    pub section: String,
    pub local: String,
}

/// What a [`Name`] stands for.
pub struct NameView {
    pub section: Seq<char>,
    pub local: Seq<char>,
}

impl View for Name {
    type V = NameView;

    open spec fn view(&self) -> NameView {
        NameView { section: self.section@, local: self.local@ }
    }
}

/// Who may write a variable. It is fixed when the variable is declared.
#[derive(Clone, Debug, PartialEq, Eq)]
pub enum Permission {
    /// Code of the named section may read and write.
    ReadWrite(String),
}

/// What a [`Permission`] stands for.
pub enum PermissionView {
    ReadWrite(Seq<char>),
}

impl View for Permission {
    type V = PermissionView;

    open spec fn view(&self) -> PermissionView {
        match self {
            Permission::ReadWrite(section) => PermissionView::ReadWrite(section@),
        }
    }
}

/// What is kept under a name: the current value and the permission.
pub struct Slot {
    pub value: ValueView,
    pub permission: PermissionView,
}

/// A variable: its qualified name, the value it holds and its permission.
#[derive(Clone, Debug, PartialEq, Eq)]
pub struct Variable {
    pub name: Name,
    pub value: Value,
    pub permission: Permission,
}

impl Variable {
    /// What is kept under the variable's name.
    pub open spec fn slot(self) -> Slot {
        Slot { value: self.value@, permission: self.permission@ }
    }

    /// The qualified name of `local` in `section`.
    pub fn make_name(local: &str, section: &str) -> (name: Name)
        ensures
            name@ == (NameView { section: section@, local: local@ }),
    {
        Name { section: section.to_owned(), local: local.to_owned() }
    }

    /// A variable `local` of `section` with the given value and permission.
    pub fn new(local: &str, section: &str, value: Value, permission: Permission) -> (variable:
        Variable)
        ensures
            variable.name@ == (NameView { section: section@, local: local@ }),
            variable.value == value,
            variable.permission == permission,
    {
        Variable { name: Variable::make_name(local, section), value, permission }
    }
}

impl Name {
    /// Whether two names are the same qualified name.
    pub fn same(&self, other: &Name) -> (same: bool)
        ensures
            same == (self@ == other@),
    {
        self.section == other.section && self.local == other.local
    }
}

} // verus!
