//! The start and stop handshake of a REST API server that runs on an execution
//! unit of its own.
//!
//! The unit binds an address, hands its caller a stop switch through a
//! one-shot channel, and serves until the switch is thrown. This crate holds
//! the rules of that handshake: the order in which the unit acts
//! ([`runner`]), what the caller makes of the handoff ([`startup`]), and what
//! a throw of the switch reports ([`shutdown`]). Binding, serving and the
//! channel itself are the work of the code around it.

pub mod error;
pub mod runner;
pub mod shutdown;
pub mod startup;
pub mod trace;

pub use error::{BindFailure, RuntimeError, ShutdownError, StartupError};
pub use runner::{loop_report, Action, Event, Phase, Runner, RunnerState};
pub use shutdown::{shutdown_outcome, Delivery, RestApiShutdownHandle, StopSwitch};
pub use startup::{conclude_startup, StartupResult};
