//! The failures that end a dump.

use vstd::prelude::*;

verus! {

/// Why a dump did not start or did not finish.
#[derive(Clone, Copy, Debug, PartialEq, Eq)]
pub enum DumpError {
    /// The requested window is empty or leaves the address space.
    InvalidRange { start: u16, end: u16 },
    /// The bus session could not be opened.
    BusOpenFailed,
    /// A command could not be sent. `query` is the address that was being
    /// asked for, or `None` for the setup command.
    BusWriteFailed { query: Option<u16> },
    /// No answer could be read for `address`.
    BusReadFailed { address: u16 },
    /// The answer for `address` is not text, or not a number.
    ResponseParseFailed { address: u16 },
    /// The word read at `address` could not be stored.
    OutputWriteFailed { address: u16 },
    /// The stored words could not be committed.
    OutputFlushFailed,
}

} // verus!
