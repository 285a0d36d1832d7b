//! Core logic of a small network-throughput monitor: the shared state bus,
//! the connection supervisor's state machine and the datagram telemetry
//! protocol (start-up, heartbeat and fixed-layout decoding).
//!
//! Everything here is plain computation on plain values. Tasks, timers,
//! sockets and locks live with the caller, which performs the actions these
//! functions decide on.

pub mod bus;
pub mod endpoint;
pub mod supervisor;
pub mod telemetry;
pub mod wire;
