//! Management of live serial-device sessions: connection-liveness tracking
//! with explicit error classification, framing of a raw byte stream into
//! discrete messages under a selectable buffering policy, and a multi-port
//! registry with an ordered event queue drained by polling.
//!
//! All device I/O is performed by the host around this crate; the crate holds
//! the decision logic. Each operation that touches a transport is split into a
//! verified transition that takes the transport's outcome as an argument and
//! says exactly how the state and the result follow from it.

pub mod config;
pub mod errors;
pub mod events;
pub mod framing;
pub mod manager;
pub mod ports;
pub mod reader;
pub mod session;
