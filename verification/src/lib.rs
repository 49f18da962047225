//! Memory-dump protocol engine for the HP 3457A multimeter.
//!
//! The crate selects the address window to read, builds the bus commands,
//! decodes the instrument's textual answers into 16-bit words and drives the
//! exchange as a state machine. Bus and file access are left to the caller.

pub mod error;
pub mod range;
pub mod command;
pub mod response;
pub mod session;
pub mod trace;
pub mod cli;
