//! The values that cross the bridge and the tags that describe them.

use vstd::prelude::*;

verus! {

/// The native representation of one value slot, an argument or a return.
#[derive(Clone, Copy, Debug, PartialEq, Eq, Structural)]
pub enum Type {
    Unit,
    Bool,
    Int,
    Str,
}

/// A value together with the tag of its native representation.
#[derive(Clone, Debug, PartialEq, Eq)]
pub enum Value {
    Unit,
    Bool(bool),
    Int(i64),
    Str(String),
}

/// What a [`Value`] stands for: the same cases, with a string as the sequence
/// of its characters.
pub enum ValueView {
    Unit,
    Bool(bool),
    Int(int),
    Str(Seq<char>),
}

impl ValueView {
    /// The tag of the representation this value has.
    pub open spec fn tag(self) -> Type {
        match self {
            ValueView::Unit => Type::Unit,
            ValueView::Bool(_) => Type::Bool,
            ValueView::Int(_) => Type::Int,
            ValueView::Str(_) => Type::Str,
        }
    }
}

impl View for Value {
    type V = ValueView;

    open spec fn view(&self) -> ValueView {
        match *self {
            Value::Unit => ValueView::Unit,
            Value::Bool(b) => ValueView::Bool(b),
            Value::Int(i) => ValueView::Int(i as int),
            Value::Str(s) => ValueView::Str(s@),
        }
    }
}

impl Value {
    /// The runtime tag of this value.
    pub fn type_of(&self) -> (tag: Type)
        ensures
            tag == self@.tag(),
    {
        match self {
            Value::Unit => Type::Unit,
            Value::Bool(_) => Type::Bool,
            Value::Int(_) => Type::Int,
            Value::Str(_) => Type::Str,
        }
    }
}

} // verus!
