//! Scheduling core for driving guest coroutines alongside native tasks.
//!
//! The library keeps the decisions of the scheduler: the run status, the
//! spawn / defer / futures queues of work tickets, the one-shot result slots
//! and the per-tick drain order. The surrounding program owns the interpreter,
//! the executors and the wake-up signals, and hands the library plain tickets.
mod handle;
mod queue;
mod runtime;
mod status;

pub use handle::{Handle, HandleState};
pub use queue::ThreadQueue;
pub use runtime::{Runtime, TickPlan};
pub use status::Status;
