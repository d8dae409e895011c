//! Bootstrap and connection-broker core of a sub-process plugin that exposes
//! its functionality to a parent host process over gRPC.
//!
//! The library holds the verified logic of the handshake: magic-cookie
//! validation, port allocation under contention, the single-producer
//! broadcast of the connection outcome, the handshake line that is written
//! to the host, and the bootstrap state machine that orders these steps.
//! Reading the environment, binding sockets, writing to the output stream
//! and running the gRPC server itself are left to the embedding process,
//! which drives the state machine with the outcomes it observes.

pub mod bootstrap;
pub mod channel;
pub mod cookie;
pub mod decimal;
pub mod error;
pub mod handshake;
pub mod port;
