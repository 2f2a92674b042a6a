//! A randomized workload generator for a resource-management engine.
//!
//! The engine keeps materials, products and product variants. This library
//! decides which mutating call to issue next, synthesizes bounded arguments
//! for it from a random stream and from the collection sizes observed on the
//! engine, and projects the engine's answer into one uniform record. The
//! engine itself is driven by the caller: the library hands out requests and
//! takes answers back, so it never holds the engine.
//!
//! One run goes through three hands. `run` takes the observed counts and a
//! selection code and returns a request, or the reason why none is made.
//! The caller performs the request. The request's `project` takes the
//! engine's answer and returns the record, or the engine's refusal.

pub mod bootstrap;
pub mod catalog;
pub mod dispatch;
pub mod laws;
pub mod outcome;
pub mod project;
pub mod stream;
pub mod synth;

pub use crate::bootstrap::init;
pub use crate::dispatch::run;
pub use crate::project::RunResult;
