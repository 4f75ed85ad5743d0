//! Error types surfaced by the writer and the sink selector.

use vstd::prelude::*;

verus! {

/// Declares `std::io::Error` so that it can travel through the library's
/// results; the library never inspects it, it only hands it back.
#[verifier::external_type_specification]
#[verifier::external_body]
pub struct ExIoError(std::io::Error);

/// Why a write to the terminal-safe writer failed.
#[derive(Debug)]
pub enum WriteError {
    /// The payload was not well-formed UTF-8 and the destination is an
    /// interactive terminal: binary data is never dumped to a terminal.
    UnprintableContent,
    /// The underlying standard-output stream reported an I/O error.
    Io(std::io::Error),
}

/// Why the sink selector refused to hand out a standard-output sink.
#[derive(Debug)]
pub enum SinkError {
    /// Standard output is an interactive terminal and the caller forbade
    /// writing to one.
    InteractiveRefused,
}

} // verus!
