//! Verified core of a networked remote-control vehicle node: the binary
//! command codec, the differential-drive motion controller, the
//! single-connection command-server state machine, the wireless-link state
//! machine, and the diagnostic animation logic.
//!
//! All socket, timer and peripheral I/O lives outside this crate; the
//! functions here are pure state transitions and byte-level computations
//! with proved contracts.

pub mod codec;
pub mod command;
pub mod diag;
pub mod link;
pub mod motion;
pub mod server;

pub use command::CarCommand;
