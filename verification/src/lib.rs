//! A request pipeline of three layers (timeout, rate limit, load shedding)
//! around a transport that the caller drives.
//!
//! The pipeline holds the rules and the caller does what they ask for: it
//! polls the transport, reads the clock, sends the request and reports what
//! came back. No function here waits or performs I/O.

pub mod call;
pub mod guarantees;
pub mod load_shed;
pub mod pipeline;
pub mod rate_limit;
pub mod service;
pub mod timeout;

pub use crate::call::{CallState, Event, PendingCall};
pub use crate::load_shed::LoadShed;
pub use crate::pipeline::{Attempt, Config, Dispatch, Svc};
pub use crate::rate_limit::RateLimit;
pub use crate::service::{InvokeError, Readiness};
pub use crate::timeout::Timeout;
