//! Command-execution core of a small imperative scripting language.
//!
//! The core decides; it performs no outside work itself. Executing an
//! instruction yields a step: either the instruction is finished (with or
//! without a control signal), or the core names the outside work it needs
//! next (evaluate an expression, compare two values, write, read a line)
//! together with what remains to be done once the answer is in. Whoever
//! drives the core does that work and hands the answer back.
//!
//! - [`command`]: the instructions, and [`command::run`], which starts one.
//! - [`reply`]: how an instruction goes on when an answer comes in.
//! - [`step`]: what is handed back and forth between the two.
//! - [`machine`]: the interpreter state.
//! - [`value`], [`number`], [`variable`], [`comparison`], [`signal`]: the data.
//! - [`text`]: the two text operations taken from the standard library.
//! - [`laws`]: what holds of the instruction set as a whole.

pub mod command;
pub mod comparison;
pub mod laws;
pub mod machine;
pub mod number;
pub mod reply;
pub mod signal;
pub mod step;
pub mod text;
pub mod value;
pub mod variable;
