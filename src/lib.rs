//! Deterministic fault injection for byte streams.
//!
//! A wrapper holds a stream and a sequence of [`PartialOp`]s. Each intercepted
//! call consumes one op, which decides whether the call goes through whole, is
//! cut down to a number of bytes, or fails with a chosen error kind.

mod async_write;
mod op;
mod policy;

pub use async_write::{CallKind, Fault, FlushAction, PartialAsyncWrite, WriteAction};
pub use op::{OpSequence, PartialOp};
pub use policy::{decide, Effect, Request};
