//! Relay core of a two-chain header bridge: light-client message framing,
//! the submission loop's state machine and the simulation harness.
pub mod msg;
pub mod proto;
pub mod rlp;
pub mod wire;
pub mod harness;
pub mod sink;
pub mod fixture;
pub mod config;
