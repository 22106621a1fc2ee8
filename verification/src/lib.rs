//! Verified core of a printer-fleet reporting agent.
//!
//! The library holds the logic of the agent: configuration validation,
//! the mapping of a raw firmware status document into a normalized
//! telemetry snapshot, the adaptive polling-interval protocol, the
//! shutdown token, and the construction of the relay payloads. The
//! surrounding process (HTTP transport, async timers, OS signals,
//! logging) lives outside and hands the library plain values.

pub mod config;
pub mod doc;
pub mod health;
pub mod relay;
pub mod scheduler;
pub mod shutdown;
pub mod snapshot;
pub mod text;

use vstd::prelude::*;

verus! {

} // verus!
