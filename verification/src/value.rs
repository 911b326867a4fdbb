//! The runtime datum of the language.

use crate::number::Number;
use vstd::prelude::*;

verus! {

/// A value: a number or a piece of text. Values are never changed in place.
#[derive(Clone, Debug, PartialEq, Eq)]
pub enum Value {
    Number(Number),
    Text(String),
}

/// What a [`Value`] stands for.
pub enum ValueView {
    Number(Number),
    Text(Seq<char>),
}

impl View for Value {
    type V = ValueView;

    open spec fn view(&self) -> ValueView {
        match self {
            Value::Number(number) => ValueView::Number(*number),
            Value::Text(text) => ValueView::Text(text@),
        }
    }
}

impl ValueView {
    /// The value that a variable holds until something else is stored in it.
    pub open spec fn zero() -> ValueView {
        ValueView::Number(Number { bits: 0 })
    }
}

impl Value {
    /// The number zero.
    pub fn zero() -> (value: Value)
        ensures
            value@ == ValueView::zero(),
    {
        Value::Number(Number::zero())
    }

    /// A text value holding `text`.
    pub fn text(text: String) -> (value: Value)
        ensures
            value@ == ValueView::Text(text@),
    {
        Value::Text(text)
    }

    /// The number in the value, if it is one.
    pub fn as_number(&self) -> (number: Option<Number>)
        ensures
            number == match self@ {
                ValueView::Number(n) => Some(n),
                ValueView::Text(_) => None,
            },
    {
        match self {
            Value::Number(n) => Some(*n),
            Value::Text(_) => None,
        }
    }
}

} // verus!
