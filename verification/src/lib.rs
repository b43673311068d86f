//! Bounded job dispatch for a HEIC-to-JPEG conversion service.
//!
//! The heart of the crate is the admission-control and dispatch subsystem:
//! a fixed-capacity FIFO job queue, a concurrency limit of `W` simultaneous
//! conversions, and a single-use result channel per job. `dispatch` holds
//! the verified state machine that models and proves every admission,
//! dispatch and completion decision; `worker` is the submission side over
//! the runtime primitives that carry jobs between tasks. `converter`
//! validates and
//! orchestrates one conversion, delegating pixel work to an injected codec
//! capability, and `config` derives the process configuration.

pub mod config;
pub mod converter;
pub mod dispatch;
pub mod error;
pub mod worker;
