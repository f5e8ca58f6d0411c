use vstd::prelude::*;

verus! {

/// Why a handle could not be made.
#[derive(Debug, Clone, Copy, PartialEq, Eq, Structural)]
pub enum ConnectionError {
    /// The transport could not even begin: the address was refused, or the
    /// platform would not create the socket object.
    CreationFailed,
}

/// Why a message could not be handed to the transport.
#[derive(Debug, Clone, Copy, PartialEq, Eq, Structural)]
pub enum SendError {
    /// The transport is closing or closed.
    Closed,
}

/// Why a drain of the inbound buffer failed.
#[derive(Debug, Clone, Copy, PartialEq, Eq, Structural)]
pub enum RecvError {
    /// The connection was closed or failed; the handle must not be used again.
    Terminal,
    /// The transport delivered a frame that is neither data nor a ping or close.
    Unsupported,
}

} // verus!
