use vstd::prelude::*;

verus! {

/// Failures of the synchronization protocol engine.
#[derive(Debug, Clone, Copy, PartialEq, Eq, Structural)]
pub enum Error {
    /// An I/O failure on the underlying byte stream.
    Transport,
    /// Bytes that should hold UTF-8 text do not.
    Decode,
    /// A byte sequence or an event that the protocol does not allow at this point.
    ProtocolViolation,
    /// An identity or correlation token that is not exactly 36 bytes long.
    InvalidToken,
    /// A payload whose length does not fit the 4-byte length prefix.
    PayloadTooLarge,
    /// A bridge call was issued while an earlier one on the same slot is still open.
    CallAlreadyInFlight,
    /// A bridge call received no reply within its timeout.
    CallTimeout,
    /// A bridge call was issued on a slot that has no handler.
    CallNotRegistered,
    /// The server's identity is not on the client's allow-list.
    SyncNotEnabled,
    /// The server answered the handshake with something other than `SYNC_ALLOWED`.
    SyncNotAllowed,
    /// A request was issued for a correlation key that already has a request waiting.
    DuplicateRequest,
    /// A request was issued while no session is active.
    NotConnected,
    /// A session was ended while none is active.
    NotStarted,
    /// The server was started while it is already running.
    ServerAlreadyStarted,
}

} // verus!
