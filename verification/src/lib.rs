//! Bridges a desktop location service to a sandboxed guest environment.
//!
//! The bridge registers a client session with the location service over the
//! inter-process bus, watches the client's current-location reference, and on
//! each change fetches the location's properties and publishes them as one
//! JSON document at a well-known filesystem path that the guest polls.
//!
//! This crate holds the decision logic of that pipeline: property coercion,
//! snapshot assembly, JSON rendering, session configuration, and the
//! change-detection state machine. The transport itself (bus connection,
//! remote calls, file writes) is driven by the surrounding binary, which
//! feeds plain values into these functions and carries their results out.

pub mod coerce;
pub mod detector;
pub mod publish;
pub mod session;
pub mod snapshot;

pub use session::BridgeError;
pub use session::SessionConfig;
