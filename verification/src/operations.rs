//! The operation mode of a machine: its modes, the state machine that moves
//! between them, and the requests and updates exchanged over the bus.
pub mod common;
pub mod machine;
pub mod service;
