//! Context-carrying errors: a source error plus the chain of human-readable
//! messages attached to it while it travels up the call stack.
//!
//! Two error values are offered. [`ErrCtx`] keeps its context in a growable
//! byte vector. [`report::ResErr`] keeps it in a fixed buffer inside the
//! value, cut off at the last whole character that fits, and is shown under
//! a configurable [`options::Format`].

pub mod args;
pub mod buf;
pub mod ctx;
pub mod expand;
pub mod options;
pub mod outcome;
pub mod report;
pub mod res_ext;
pub mod res_ext_methods;
pub mod std_specs;
pub mod text;
pub mod throw_err;

pub use ctx::CtxResult;
pub use ctx::ErrCtx;
pub use res_ext::ResExt;
