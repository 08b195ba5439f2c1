//! Error taxonomy of the library.
//!
//! Structural stream errors (`StreamVersionMismatch`, `StreamCorruption`) are
//! fatal to the current channel and are produced by the verified record
//! walker itself.  The remaining variants carry the `errno` value of a failed
//! external call so that callers can distinguish ordinary I/O failures from
//! structural ones.

use vstd::prelude::*;

verus! {

/// Everything that can go wrong while operating a notification channel.
#[derive(Clone, Copy, Debug, PartialEq, Eq, Structural)]
pub enum FanotifyError {
    /// Creating the notification channel failed; carries the `errno`.
    ChannelCreationFailure(i32),
    /// Registering, removing or flushing a mark failed; carries the `errno`.
    MarkRegistrationFailure(i32),
    /// A header's structure-version byte differs from the expected constant.
    ///
    /// The kernel's reporting format no longer matches this decoder; the
    /// whole channel must be abandoned, and no further records are taken
    /// from the buffer.
    StreamVersionMismatch,
    /// A record or additional record carries a malformed length field.
    ///
    /// The offending buffer is rejected as a whole; nothing is read out of
    /// bounds.
    StreamCorruption,
    /// The path of an event's descriptor could not be resolved.
    ///
    /// Non-fatal: decoding continues and the event carries an empty path.
    PathResolutionFailure,
    /// Duplicating an event's descriptor was refused; carries the `errno`.
    DescriptorDuplicationFailure(i32),
    /// Writing a permission response failed; carries the `errno`.
    ResponseWriteFailure(i32),
}

} // verus!
