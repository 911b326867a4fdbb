//! The comparison flag and the predicates that conditional instructions test.

use vstd::prelude::*;

verus! {

/// Outcome of comparing two values; the machine keeps the most recent one.
#[derive(Clone, Copy, Debug, PartialEq, Eq, Structural)]
pub enum Comparison {
    Equal,
    NotEqual,
    Less,
    Greater,
}

/// The condition under which a conditional instruction runs the instruction it wraps.
#[derive(Clone, Copy, Debug, PartialEq, Eq, Structural)]
pub enum Guard {
    Eq,
    NEq,
    Less,
    LessEq,
    More,
    MoreEq,
}

impl Guard {
    /// Whether the guard lets execution through when `outcome` is the current flag.
    pub open spec fn admits(self, outcome: Comparison) -> bool {
        match self {
            Guard::Eq => outcome == Comparison::Equal,
            Guard::NEq => outcome == Comparison::NotEqual,
            Guard::Less => outcome == Comparison::Less,
            Guard::LessEq => outcome == Comparison::Less || outcome == Comparison::Equal,
            Guard::More => outcome == Comparison::Greater,
            Guard::MoreEq => outcome == Comparison::Greater || outcome == Comparison::Equal,
        }
    }
}

} // verus!
