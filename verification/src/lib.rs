//! A synchronous reactive runtime: processes composed from combinators run in
//! discrete, globally synchronized instants, coordinated by broadcast signals.
//!
//! Process graphs, continuations and scheduler tasks are plain recursive
//! datatypes; the scheduler is verified against a small-step specification
//! machine, so every law stated about an execution is a theorem about the
//! very code that runs.

pub mod value;
pub mod continuation;
pub mod signal;
pub mod process;
pub mod task;
pub mod semantics;
pub mod sequential_runtime;
pub mod parallel_runtime;
pub mod laws;
