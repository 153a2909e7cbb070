//! The native call shapes and how one is selected.
//!
//! A call shape is a native function signature: the representation of each
//! argument and of the return. The bridge knows the shapes of up to
//! `MAX_ARITY` arguments over the four representations, and no others.
//! Selection is a lookup, first by the number of arguments and then by their
//! tags; it never searches and never coerces.

use crate::value::{Type, Value};
use vstd::pervasive::unreached;
use vstd::prelude::*;

verus! {

/// The largest number of arguments a native function can take here.
pub const MAX_ARITY: usize = 2;

/// A native function signature the bridge can invoke.
#[derive(Clone, Copy, Debug, PartialEq, Eq, Structural)]
pub enum CallShape {
    Nullary { ret: Type },
    Unary { arg: Type, ret: Type },
    Binary { first: Type, second: Type, ret: Type },
}

impl CallShape {
    /// The representations of the arguments, in order.
    pub open spec fn params(self) -> Seq<Type> {
        match self {
            CallShape::Nullary { .. } => seq![],
            CallShape::Unary { arg, .. } => seq![arg],
            CallShape::Binary { first, second, .. } => seq![first, second],
        }
    }

    /// The representation of the return.
    pub open spec fn ret(self) -> Type {
        match self {
            CallShape::Nullary { ret } => ret,
            CallShape::Unary { ret, .. } => ret,
            CallShape::Binary { ret, .. } => ret,
        }
    }

    /// The number of arguments.
    pub fn arity(&self) -> (n: usize)
        ensures
            n == self.params().len(),
            n <= MAX_ARITY,
    {
        match self {
            CallShape::Nullary { .. } => 0,
            CallShape::Unary { .. } => 1,
            CallShape::Binary { .. } => 2,
        }
    }

    /// The representation of the return.
    pub fn return_type(&self) -> (ret: Type)
        ensures
            ret == self.ret(),
    {
        match self {
            CallShape::Nullary { ret } => *ret,
            CallShape::Unary { ret, .. } => *ret,
            CallShape::Binary { ret, .. } => *ret,
        }
    }
}

/// The shape with the arguments `tags` and the return `ret`, for up to
/// `MAX_ARITY` arguments.
pub open spec fn shape_of(tags: Seq<Type>, ret: Type) -> CallShape
    recommends
        tags.len() <= MAX_ARITY,
{
    if tags.len() == 0 {
        CallShape::Nullary { ret }
    } else if tags.len() == 1 {
        CallShape::Unary { arg: tags[0], ret }
    } else {
        CallShape::Binary { first: tags[0], second: tags[1], ret }
    }
}

/// The tags the values of `args` carry, in order.
pub open spec fn tags_of(args: Seq<(Value, Type)>) -> Seq<Type> {
    Seq::new(args.len(), |i: int| args[i].0@.tag())
}

/// The types `args` declares, in order.
pub open spec fn declared_of(args: Seq<(Value, Type)>) -> Seq<Type> {
    Seq::new(args.len(), |i: int| args[i].1)
}

/// Every value of `args` carries the tag of the type declared for it.
pub open spec fn consistent(args: Seq<(Value, Type)>) -> bool {
    forall|i: int| 0 <= i < args.len() ==> (#[trigger] args[i]).0@.tag() == args[i].1
}

/// Whether there are call shapes of `arity` arguments.
pub fn supports(arity: usize) -> (yes: bool)
    ensures
        yes == (arity <= MAX_ARITY),
{
    arity <= MAX_ARITY
}

/// Selects the call shape for the arguments `args` and the return `ret`.
///
/// The number of arguments picks the kind of shape, and the tag each value
/// carries picks the representation of that argument; the type declared
/// beside a value is not consulted. A call of more than `MAX_ARITY`
/// arguments has no shape, and to ask for one is an error of the caller.
pub fn select(args: &Vec<(Value, Type)>, ret: Type) -> (shape: CallShape)
    requires
        args.len() <= MAX_ARITY,
    ensures
        shape == shape_of(tags_of(args@), ret),
{
    if args.len() == 0 {
        CallShape::Nullary { ret }
    } else if args.len() == 1 {
        CallShape::Unary { arg: args[0].0.type_of(), ret }
    } else if args.len() == 2 {
        CallShape::Binary { first: args[0].0.type_of(), second: args[1].0.type_of(), ret }
    } else {
        unreached()
    }
}

/// A shape takes exactly the arguments and the return it was selected for:
/// selection is total on up to `MAX_ARITY` arguments and loses nothing.
pub proof fn lemma_shape_keeps_signature(tags: Seq<Type>, ret: Type)
    requires
        tags.len() <= MAX_ARITY,
    ensures
        shape_of(tags, ret).params() == tags,
        shape_of(tags, ret).ret() == ret,
{
    assert(shape_of(tags, ret).params() =~= tags);
}

/// Every shape is the one selected for its own arguments and return: there
/// are no shapes but those that selection reaches.
pub proof fn lemma_every_shape_is_selected(shape: CallShape)
    ensures
        shape.params().len() <= MAX_ARITY,
        shape_of(shape.params(), shape.ret()) == shape,
{
}

/// For consistently tagged arguments the selected shape takes the declared
/// types.
pub proof fn lemma_consistent_arguments_keep_declared_types(args: Seq<(Value, Type)>, ret: Type)
    requires
        args.len() <= MAX_ARITY,
        consistent(args),
    ensures
        shape_of(tags_of(args), ret).params() == declared_of(args),
        shape_of(tags_of(args), ret).ret() == ret,
{
    lemma_shape_keeps_signature(tags_of(args), ret);
    assert(tags_of(args) =~= declared_of(args));
}

} // verus!
