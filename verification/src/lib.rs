//! Real-time channel router between one wide interleaved audio stream and a
//! set of narrow two-channel endpoint streams.
//!
//! Samples travel through bounded, evicting queues: one queue per logical
//! channel and direction. A demultiplexer splits a wide interleaved frame
//! into per-channel slices and pushes them into the queues; a multiplexer
//! drains the queues back into an interleaved buffer at each channel's fixed
//! offset. A router owns the queues of both directions and drives the
//! session through its setup, running and teardown states.
//!
//! Sample values are carried as raw 32-bit words; the router only moves them
//! and never interprets them, so the caller may store any fixed-width sample
//! encoding in them.

pub mod channels;
pub mod queue;
pub mod router;
pub mod stream;
