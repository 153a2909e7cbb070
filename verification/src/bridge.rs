//! The bridge: one loaded module, the calls into it, and its teardown.
//!
//! A bridge exists only for a build that wrote, compiled and loaded: there
//! is no way to a bridge but through the three steps, so no call can come
//! before the build and no bridge is ever half made. It owns the handle of
//! the loaded module and answers for the two files of the build until it is
//! closed; closing takes the bridge, so no call can follow it.

use crate::builder::{after_compile, after_write, report, BuildView, Compiled};
use crate::error::{Error, ErrorView, Fault, FaultView};
use crate::shape::{
    lemma_shape_keeps_signature, select, shape_of, tags_of, CallShape, MAX_ARITY,
};
use crate::value::{Type, Value, ValueView};
use vstd::prelude::*;

verus! {

/// A call that is ready to be made: the symbol to resolve and the shape to
/// invoke it with.
pub struct Invocation {
    symbol: String,
    shape: CallShape,
}

/// What an [`Invocation`] stands for.
pub struct InvocationView {
    pub symbol: Seq<char>,
    pub shape: CallShape,
}

impl View for Invocation {
    type V = InvocationView;

    closed spec fn view(&self) -> InvocationView {
        InvocationView { symbol: self.symbol@, shape: self.shape }
    }
}

impl Invocation {
    /// The exact name to look up in the module.
    pub fn symbol(&self) -> (symbol: &str)
        ensures
            symbol@ == self@.symbol,
    {
        self.symbol.as_str()
    }

    /// The native signature to invoke the resolved function with.
    pub fn shape(&self) -> (shape: CallShape)
        ensures
            shape == self@.shape,
    {
        self.shape
    }
}

/// What became of one file at teardown.
#[derive(Clone, Debug, PartialEq, Eq)]
pub enum Removal {
    /// The file was not there.
    Absent,
    /// The file was there and has been removed.
    Removed,
    /// The file is there and could not be removed.
    Failed(String),
}

/// A file that teardown left behind.
#[derive(Clone, Debug, PartialEq, Eq)]
pub struct Leak {
    pub path: String,
    pub cause: String,
}

/// What a [`Leak`] stands for.
pub struct LeakView {
    pub path: Seq<char>,
    pub cause: Seq<char>,
}

impl DeepView for Leak {
    type V = LeakView;

    open spec fn deep_view(&self) -> LeakView {
        LeakView { path: self.path@, cause: self.cause@ }
    }
}

/// The leak that `removal` of the file at `path` amounts to, if any.
pub open spec fn leak_of(path: Seq<char>, removal: Removal) -> Seq<LeakView> {
    match removal {
        Removal::Failed(cause) => seq![LeakView { path, cause: cause@ }],
        _ => seq![],
    }
}

/// The files that teardown left behind: the source file first, then the
/// module file, each if its removal failed.
pub open spec fn leaks_of(build: BuildView, source: Removal, module: Removal) -> Seq<LeakView> {
    leak_of(build.source_file(), source) + leak_of(build.module_file(), module)
}

/// The bridge after the attempt to load the module: it stands if the module
/// was loaded, and the build ends with `LoadFailed` and the cause if it was
/// not.
pub open spec fn after_load<M>(build: BuildView, outcome: Result<M, Seq<char>>) -> Result<
    BuildView,
    ErrorView,
> {
    match outcome {
        Ok(_) => Ok(build),
        Err(cause) => Err(ErrorView::LoadFailed { fragment: build.fragment, cause }),
    }
}

/// What the native side of a call reported, as plain values.
pub open spec fn returned(outcome: Result<Value, String>) -> Result<ValueView, Seq<char>> {
    match outcome {
        Ok(value) => Ok(value@),
        Err(cause) => Err(cause@),
    }
}

/// What an answer stands for.
pub open spec fn answered(answer: Result<Value, Error>) -> Result<ValueView, ErrorView> {
    match answer {
        Ok(value) => Ok(value@),
        Err(error) => Err(error@),
    }
}

/// The answer to a call of `call` in the fragment `fragment`, given what the
/// native side reported.
///
/// A returned value is the answer if it carries the tag of the declared
/// return type. Anything else is `CallFailed`, with the fragment and the
/// symbol: a value of another representation, and a failure of the native
/// side with its cause.
pub open spec fn answer_of(
    fragment: Seq<char>,
    call: InvocationView,
    outcome: Result<ValueView, Seq<char>>,
) -> Result<ValueView, ErrorView> {
    match outcome {
        Ok(value) => if value.tag() == call.shape.ret() {
            Ok(value)
        } else {
            Err(
                ErrorView::CallFailed {
                    fragment,
                    symbol: call.symbol,
                    fault: FaultView::WrongReturn {
                        declared: call.shape.ret(),
                        returned: value.tag(),
                    },
                },
            )
        },
        Err(cause) => Err(
            ErrorView::CallFailed { fragment, symbol: call.symbol, fault: FaultView::Native(cause) },
        ),
    }
}

/// One loaded module and the two files it was built from. `M` is the
/// loader's handle of the module.
pub struct FFI<M> {
    build: Compiled,
    library: M,
}

impl<M> View for FFI<M> {
    type V = BuildView;

    closed spec fn view(&self) -> BuildView {
        self.build@
    }
}

impl<M> FFI<M> {
    /// The handle of the loaded module.
    pub closed spec fn loaded(&self) -> M {
        self.library
    }

    /// Takes the report on loading `module_file()` of the compiled build:
    /// the handle of the loaded module, or why it could not be loaded.
    ///
    /// This is the only way to a bridge. On a failure nothing is kept.
    pub fn new(build: Compiled, loaded: Result<M, String>) -> (bridge: Result<FFI<M>, Error>)
        ensures
            match bridge {
                Ok(ffi) => after_load(build@, report(loaded)) == Ok::<BuildView, ErrorView>(ffi@)
                    && loaded == Ok::<M, String>(ffi.loaded()),
                Err(error) => after_load(build@, report(loaded)) == Err::<BuildView, ErrorView>(
                    error@,
                ),
            },
    {
        match loaded {
            Ok(library) => Ok(FFI { build, library }),
            Err(cause) => {
                let fragment = String::from_str(build.fragment());
                Err(Error::LoadFailed { fragment, cause })
            },
        }
    }

    /// The handle of the loaded module, to resolve symbols in.
    pub fn library(&self) -> (library: &M)
        ensures
            *library == self.loaded(),
    {
        &self.library
    }

    /// The identity of the fragment this bridge was built from.
    pub fn fragment(&self) -> (fragment: &str)
        ensures
            fragment@ == self@.fragment,
    {
        self.build.fragment()
    }

    /// The file that holds the generated source text.
    pub fn source_file(&self) -> (path: String)
        ensures
            path@ == self@.source_file(),
    {
        self.build.source_file()
    }

    /// The file that holds the compiled module.
    pub fn module_file(&self) -> (path: String)
        ensures
            path@ == self@.module_file(),
    {
        self.build.module_file()
    }

    /// Prepares the call of `function` with `args` and the return type `ty`:
    /// the symbol to resolve is `function`, letter for letter, and the shape
    /// is the one selected for the tags the values carry.
    pub fn prepare(&self, function: &str, args: &Vec<(Value, Type)>, ty: Type) -> (call: Invocation)
        requires
            args.len() <= MAX_ARITY,
        ensures
            call@ == (InvocationView { symbol: function@, shape: shape_of(tags_of(args@), ty) }),
            call@.shape.params() == tags_of(args@),
            call@.shape.ret() == ty,
    {
        proof {
            lemma_shape_keeps_signature(tags_of(args@), ty);
        }
        Invocation { symbol: String::from_str(function), shape: select(args, ty) }
    }

    /// Answers the call `call` with what the native side reported: the value
    /// the native function returned, or why it could not be called.
    ///
    /// An answer that is a value carries the tag of the declared return
    /// type, always.
    pub fn call(&self, call: &Invocation, outcome: Result<Value, String>) -> (answer: Result<
        Value,
        Error,
    >)
        ensures
            answered(answer) == answer_of(self@.fragment, call@, returned(outcome)),
            answer matches Ok(value) ==> outcome == Ok::<Value, String>(value) && value@.tag()
                == call@.shape.ret(),
    {
        match outcome {
            Ok(value) => {
                let declared = call.shape.return_type();
                let found = value.type_of();
                if found == declared {
                    Ok(value)
                } else {
                    Err(
                        Error::CallFailed {
                            fragment: String::from_str(self.build.fragment()),
                            symbol: call.symbol.clone(),
                            fault: Fault::WrongReturn { declared, returned: found },
                        },
                    )
                }
            },
            Err(cause) => Err(
                Error::CallFailed {
                    fragment: String::from_str(self.build.fragment()),
                    symbol: call.symbol.clone(),
                    fault: Fault::Native(cause),
                },
            ),
        }
    }

    /// Closes the bridge, given what became of its two files. The handle of
    /// the module is let go with the bridge.
    ///
    /// A removal that failed is never passed over: the bridge closes without
    /// an error only if neither file is left, and otherwise reports every
    /// file that is, the source file first.
    pub fn close(self, source: Removal, module: Removal) -> (closed: Result<(), Vec<Leak>>)
        ensures
            match closed {
                Ok(_) => leaks_of(self@, source, module).len() == 0,
                Err(leaks) => leaks.len() > 0 && leaks.deep_view() == leaks_of(
                    self@,
                    source,
                    module,
                ),
            },
    {
        let mut leaks: Vec<Leak> = Vec::new();
        if let Removal::Failed(cause) = source {
            leaks.push(Leak { path: self.build.source_file(), cause });
        }
        assert(leaks.deep_view() =~= leak_of(self@.source_file(), source));
        if let Removal::Failed(cause) = module {
            leaks.push(Leak { path: self.build.module_file(), cause });
        }
        assert(leaks.deep_view() =~= leaks_of(self@, source, module));
        if leaks.len() == 0 {
            Ok(())
        } else {
            Err(leaks)
        }
    }
}

/// An answer that is a value carries the tag of the return type the call
/// declared, for every supported number of arguments and every return type.
pub proof fn lemma_answer_has_declared_type(
    fragment: Seq<char>,
    symbol: Seq<char>,
    args: Seq<(Value, Type)>,
    ty: Type,
    outcome: Result<ValueView, Seq<char>>,
)
    requires
        args.len() <= MAX_ARITY,
    ensures
        answer_of(
            fragment,
            InvocationView { symbol, shape: shape_of(tags_of(args), ty) },
            outcome,
        ) matches Ok(value) ==> outcome == Ok::<ValueView, Seq<char>>(value) && value.tag() == ty,
{
    lemma_shape_keeps_signature(tags_of(args), ty);
}

/// A call that the native side could not make, as when the module has no
/// such symbol, is answered with `CallFailed` and the cause; and every
/// answer that is an error is `CallFailed` for the fragment and symbol of
/// the call.
pub proof fn lemma_failed_call_is_call_failed(
    fragment: Seq<char>,
    call: InvocationView,
    outcome: Result<ValueView, Seq<char>>,
)
    ensures
        outcome matches Err(cause) ==> answer_of(fragment, call, outcome) == Err::<
            ValueView,
            ErrorView,
        >(ErrorView::CallFailed { fragment, symbol: call.symbol, fault: FaultView::Native(cause) }),
        answer_of(fragment, call, outcome) matches Err(error) ==> error is CallFailed
            && error.fragment() == fragment && error.symbol() == Some(call.symbol),
{
}

/// A build whose three steps succeed yields a bridge for the same files and
/// fragment, and that bridge answers a call whose native function returned
/// a value of the declared representation with that value.
pub proof fn lemma_successful_build_serves_calls<M>(
    build: BuildView,
    library: M,
    call: InvocationView,
    value: ValueView,
)
    requires
        value.tag() == call.shape.ret(),
    ensures
        after_write(build, Ok(())) == Ok::<BuildView, ErrorView>(build),
        after_compile(build, Ok(true)) == Ok::<BuildView, ErrorView>(build),
        after_load(build, Ok::<M, Seq<char>>(library)) == Ok::<BuildView, ErrorView>(build),
        answer_of(build.fragment, call, Ok(value)) == Ok::<ValueView, ErrorView>(value),
{
}

} // verus!
