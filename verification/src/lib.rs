//! Failover orchestration for a host that watches its own battery and, when
//! mains power is lost, has a remote peer put to sleep, hibernated or shut
//! down, and woken again once power is back.
//!
//! The crate performs no I/O. The orchestrator is a state machine that is told
//! what a probe or a notification brought back and answers with what to do
//! next; a driver performs the action and reports the result.
//!
//! - [`config`]: the settings and what makes them valid.
//! - [`probe`]: what the battery and reachability probes report.
//! - [`notifier`]: the line sent to the peer, and how its reply is read.
//! - [`wake`]: hardware addresses and the wake packet.
//! - [`orchestrator`]: the state machine.
//! - [`laws`]: what is proved of every run of the state machine.
//! - [`setup`]: reading what the operator types.
//! - [`text`]: white space, words and decimal numbers.

pub mod config;
pub mod laws;
pub mod notifier;
pub mod orchestrator;
pub mod probe;
pub mod setup;
pub mod text;
pub mod wake;

pub use config::{Behaviour, ClientConfig, ConfigError};
pub use notifier::{get_default, NotifyRequest, PeerDecision};
pub use orchestrator::{Action, Event, Orchestrator, OrchestratorState, Recovery};
pub use probe::{status, BatteryState, ReachabilityState};
