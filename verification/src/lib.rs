//! Cooperative, interrupt-aware task scheduling for a freestanding kernel.
//!
//! The crate provides the pieces that let hardware-event-driven work and
//! long-running background computations share one execution context without
//! threads: a generator of unique task identities, suspendable computations
//! advanced step by step, an event bridge between an interrupt-context
//! producer and one asynchronous consumer, wake handles that re-enqueue a
//! task, and the scheduler core that drives everything and halts the
//! processor when idle.

mod cpu;
mod queue;

pub mod bridge;
pub mod executor;
pub mod simple_executor;
pub mod task;
pub mod task_id;
pub mod waker;
