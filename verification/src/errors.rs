//! The error taxonomy shared by every stream operation.

use vstd::prelude::*;

verus! {

/// Everything that can go wrong when constructing or using a stream.
///
/// Every operational error is returned to the immediate caller; nothing is
/// swallowed.  A failure reported by a backend while a stream is being
/// closed is not an operational error: it is handed back as a diagnostic
/// message (see `RWops::close`), never escalated.
#[derive(Debug, PartialEq, Eq)]
pub enum StreamError {
    /// The backend refused to open or construct the stream
    /// (bad path, permissions, invalid mode string, empty memory region).
    /// Carries the backend-supplied diagnostic message.
    OpenError(String),
    /// A read found no bytes before the end of the stream, or a write could
    /// not be completed in full.  The two conditions are deliberately
    /// collapsed into one signal, as the callers of this interface expect.
    EndOfStream,
    /// A seek (or a position query, which is a no-op seek) failed at the
    /// backend.  Carries a diagnostic message.
    IoError(String),
    /// The operation was attempted after the stream had been closed.
    AlreadyClosed,
}

} // verus!
