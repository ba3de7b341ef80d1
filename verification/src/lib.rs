//! Supervision core for a motion-sensing camera device.
//!
//! Three subsystems are modelled and verified here:
//! - [`controller`]: the motion/camera controller, a state machine that is
//!   driven by sensor samples and decides when the external capture process
//!   is launched and stopped;
//! - [`task_pool`]: a pool model that drains a queue of discovered video
//!   files and publishes completed stream descriptors to a result set with
//!   at-most-one-consumer semantics;
//! - [`range`] and [`file_stream`]: the range-aware file streamer, which
//!   validates byte ranges and computes the response metadata for whole-file
//!   and partial-content downloads.
//!
//! The surrounding process boundary (GPIO pin reads, spawning and signalling
//! the capture process, file and network I/O, routing) lives outside this
//! library; it feeds plain values in and carries the decisions out.

pub mod controller;
pub mod decimal;
pub mod file_stream;
pub mod range;
pub mod task_pool;
