//! The error taxonomy of the windowing core.
//!
//! Connection- and protocol-level errors are fatal and terminate the dispatch
//! loop; resource errors are fatal only for the offending window; decode
//! errors are recoverable and never propagate as process-fatal.

use vstd::prelude::*;

verus! {

/// Failure of the cursor-theme decoder.
#[derive(Clone, Copy, Debug, PartialEq, Eq, Structural)]
pub enum DecodeError {
    /// The file is not a well-formed cursor-theme file.
    InvalidData,
    /// The file holds no image chunk of the requested nominal size,
    /// or the requested cursor shape was never loaded.
    NotFound,
}

/// Failure of the windowing core.
#[derive(Clone, Copy, Debug, PartialEq, Eq, Structural)]
pub enum Error {
    /// The transport handshake failed; fatal, no recovery.
    Connection,
    /// A malformed reply or unexpected sequence arrived from the native
    /// system; fatal, aborts the dispatch loop.
    Protocol,
    /// A shared-memory segment or device bitmap could not be allocated;
    /// fatal for the offending window only.
    Resource,
    /// The cursor decoder failed; recoverable, the caller falls back to a
    /// default shape.
    Decode(DecodeError),
}

} // verus!
