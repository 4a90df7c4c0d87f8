//! A sans-I/O client for the RCON remote-console protocol: packet framing,
//! configuration, the connection's life cycle and the sequence of one call, each
//! with a machine-checked contract.

pub mod api;
pub mod rcon;
