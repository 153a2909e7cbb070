//! What can go wrong at the bridge.
//!
//! Every error names the program fragment it arose in, and an error of a call
//! names the symbol as well: the loader's own words are of little use without
//! them.

use crate::value::Type;
use vstd::prelude::*;

verus! {

/// Why a call did not yield a value.
#[derive(Clone, Debug, PartialEq, Eq)]
pub enum Fault {
    /// The module did not resolve the symbol, or the native boundary failed
    /// in another way. The text is the loader's.
    Native(String),
    /// The native function returned a value of another representation than
    /// the call declared.
    WrongReturn { declared: Type, returned: Type },
}

/// What a [`Fault`] stands for.
pub enum FaultView {
    Native(Seq<char>),
    WrongReturn { declared: Type, returned: Type },
}

impl View for Fault {
    type V = FaultView;

    open spec fn view(&self) -> FaultView {
        match *self {
            Fault::Native(text) => FaultView::Native(text@),
            Fault::WrongReturn { declared, returned } => FaultView::WrongReturn {
                declared,
                returned,
            },
        }
    }
}

/// An error of the bridge. None of them is retried by the library.
#[derive(Clone, Debug, PartialEq, Eq)]
pub enum Error {
    /// The source text could not be written.
    WriteFailed { fragment: String, cause: String },
    /// The compiler did not produce a module: it ran and rejected the source
    /// text (`launch` is `None`), or it could not be run at all (`launch`
    /// says why).
    CompileFailed { fragment: String, launch: Option<String> },
    /// The compiler produced a module that could not be loaded.
    LoadFailed { fragment: String, cause: String },
    /// A call into the loaded module failed.
    CallFailed { fragment: String, symbol: String, fault: Fault },
}

/// What an [`Error`] stands for.
pub enum ErrorView {
    WriteFailed { fragment: Seq<char>, cause: Seq<char> },
    CompileFailed { fragment: Seq<char>, launch: Option<Seq<char>> },
    LoadFailed { fragment: Seq<char>, cause: Seq<char> },
    CallFailed { fragment: Seq<char>, symbol: Seq<char>, fault: FaultView },
}

impl ErrorView {
    /// The program fragment the error arose in.
    pub open spec fn fragment(self) -> Seq<char> {
        match self {
            ErrorView::WriteFailed { fragment, .. } => fragment,
            ErrorView::CompileFailed { fragment, .. } => fragment,
            ErrorView::LoadFailed { fragment, .. } => fragment,
            ErrorView::CallFailed { fragment, .. } => fragment,
        }
    }

    /// The symbol whose call failed, if the error is one of a call.
    pub open spec fn symbol(self) -> Option<Seq<char>> {
        match self {
            ErrorView::CallFailed { symbol, .. } => Some(symbol),
            _ => None,
        }
    }
}

impl View for Error {
    type V = ErrorView;

    open spec fn view(&self) -> ErrorView {
        match *self {
            Error::WriteFailed { fragment, cause } => ErrorView::WriteFailed {
                fragment: fragment@,
                cause: cause@,
            },
            Error::CompileFailed { fragment, launch } => ErrorView::CompileFailed {
                fragment: fragment@,
                launch: match launch {
                    Some(text) => Some(text@),
                    None => None,
                },
            },
            Error::LoadFailed { fragment, cause } => ErrorView::LoadFailed {
                fragment: fragment@,
                cause: cause@,
            },
            Error::CallFailed { fragment, symbol, fault } => ErrorView::CallFailed {
                fragment: fragment@,
                symbol: symbol@,
                fault: fault@,
            },
        }
    }
}

impl Error {
    /// The program fragment the error arose in.
    pub fn fragment(&self) -> (fragment: &str)
        ensures
            fragment@ == self@.fragment(),
    {
        match self {
            Error::WriteFailed { fragment, .. } => fragment.as_str(),
            Error::CompileFailed { fragment, .. } => fragment.as_str(),
            Error::LoadFailed { fragment, .. } => fragment.as_str(),
            Error::CallFailed { fragment, .. } => fragment.as_str(),
        }
    }

    /// The symbol whose call failed, if the error is one of a call.
    pub fn symbol(&self) -> (symbol: Option<&str>)
        ensures
            match symbol {
                Some(name) => self@.symbol() == Some(name@),
                None => self@.symbol().is_none(),
            },
    {
        match self {
            Error::CallFailed { symbol, .. } => Some(symbol.as_str()),
            _ => None,
        }
    }
}

} // verus!
