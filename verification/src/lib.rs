//! A background-task queue: producers hand inputs to a single, lazily started
//! worker that applies a transformation to each of them, and consumers collect
//! the results later.
//!
//! The queue is kept as a deterministic core. Its worker is a run loop that the
//! owner drives, one iteration at a time or to completion, so every operation
//! has an exact contract over the abstract state in [`model`].
pub mod laws;
pub mod model;
pub mod worker;

pub use model::QueueState;
pub use worker::BackgroundWorker;
