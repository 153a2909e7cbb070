//! A compile-link-call bridge, written so that every decision it takes is
//! verified and every effect is left to the caller.
//!
//! A program fragment is turned into native source text elsewhere. This
//! library names the two files the build leaves on disk, says how the
//! compiler is to be invoked, decides after each step of the build whether it
//! goes on, selects the native call shape for a call from the runtime tags of
//! its arguments, and wraps what the native function returned. Writing files,
//! running the compiler, loading the module and jumping into native code are
//! the caller's part: the caller reports what happened, the library answers
//! with what that means.
//!
//! A build goes [`Plan`] → [`Written`] → [`Compiled`] → [`FFI`], one report
//! at a time. A call goes [`FFI::prepare`] → the native call →
//! [`FFI::call`]. Teardown is [`FFI::close`].

pub mod artifacts;
pub mod bridge;
pub mod builder;
pub mod error;
pub mod ident;
pub mod shape;
pub mod value;

pub use bridge::{Invocation, InvocationView, Leak, LeakView, Removal, FFI};
pub use builder::{BuildView, Compiled, Plan, Written};
pub use error::{Error, ErrorView, Fault, FaultView};
pub use shape::{CallShape, MAX_ARITY};
pub use value::{Type, Value, ValueView};
