//! A query facade over the NVIDIA management library: per-device telemetry
//! behind a small, uniform call surface with a three-way error taxonomy.
//!
//! * [`error`] holds the error type and the text of its messages.
//! * [`reading`] holds the rules that turn raw counters into readings.
//! * [`backend`] holds the calls into the management library.
//! * [`session`] resolves sessions and devices and reads one field at a time.
//! * [`facade`] holds the self-contained operations, one session per call.

pub mod error;
pub mod reading;
pub mod backend;
pub mod session;
pub mod facade;
