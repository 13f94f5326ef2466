use vstd::prelude::*;

verus! {

/// The failure kinds the protocol layer surfaces to a caller.
///
/// The establishment kinds (`Address`, `Connection`, `Bind`, `Accept`)
/// arise while a transport is being set up; `Io`, `Protocol` and `Timeout`
/// arise on an established stream; `Closed` is returned for any operation
/// attempted after an explicit close, before any stream work is done.
#[derive(Clone, Copy, Debug, PartialEq, Eq, Structural)]
pub enum GutterError {
    /// The target address string is malformed.
    Address,
    /// No listener was reachable at the target.
    Connection,
    /// The address or path is already in use by another listener.
    Bind,
    /// The stream failed while waiting for a peer to connect.
    Accept,
    /// A read or write on the established stream failed: the peer
    /// disconnected, reset the connection, or broke the pipe.
    Io,
    /// The received bytes do not form a valid acknowledgement marker.
    Protocol,
    /// A configured deadline elapsed before the stream work completed.
    Timeout,
    /// The endpoint was explicitly closed before the operation started.
    Closed,
}

impl GutterError {
    /// A short description of the failure.
    pub fn message(&self) -> &'static str {
        match self {
            GutterError::Address => "malformed target address",
            GutterError::Connection => "no listener reachable at the target",
            GutterError::Bind => "address or path already in use",
            GutterError::Accept => "stream failure while waiting for a peer",
            GutterError::Io => "read or write failed on the stream",
            GutterError::Protocol => "received bytes are not a valid acknowledgement",
            GutterError::Timeout => "deadline elapsed before the stream work completed",
            GutterError::Closed => "endpoint already closed",
        }
    }
}

} // verus!
