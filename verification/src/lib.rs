//! A fixed-topology multi-stage pipeline built on bounded
//! single-producer/single-consumer channels.
//!
//! The core is a fixed-capacity FIFO ring buffer with non-blocking
//! `try_push` / `try_pop`, round-robin fan-out and fan-in cursors,
//! per-stage idle/blocked time accounting, and a sequential engine that
//! wires a generator, per-family digest workers and a merger together.

pub mod channel;
pub mod config;
pub mod counters;
pub mod digest;
pub mod item;
pub mod pipeline;
pub mod schedule;
