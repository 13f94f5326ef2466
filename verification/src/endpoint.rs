use crate::errors::GutterError;
use crate::protocol::begin_model;
use crate::protocol::Action;
use crate::protocol::Op;
use crate::protocol::Session;
use vstd::prelude::*;

verus! {

/// Whether an endpoint can still carry operations.
#[derive(Clone, Copy, Debug, PartialEq, Eq, Structural)]
pub enum Status {
    Connected,
    Closed,
}

/// The protocol-side state of one endpoint. It is constructed once the
/// endpoint's transport is connected, closed exactly once, and never
/// reopened; the stream handle itself stays with the driver. Its one
/// decision is whether an operation may touch the stream at all: after a
/// close, every operation is refused before any stream work.
#[derive(Clone, Copy, Debug, PartialEq, Eq, Structural)]
pub struct EndpointCore {
    status: Status,
}

impl EndpointCore {
    /// Whether the endpoint has not been closed.
    pub closed spec fn is_connected(self) -> bool {
        self.status == Status::Connected
    }

    /// A fresh endpoint over a just-connected transport.
    pub fn new() -> (r: Self)
        ensures
            r.is_connected(),
    {
        EndpointCore { status: Status::Connected }
    }

    /// Close the endpoint. The driver releases the stream alongside; every
    /// later operation is refused.
    pub fn close(&mut self)
        ensures
            !final(self).is_connected(),
    {
        self.status = Status::Closed;
    }

    /// Start one operation: on a connected endpoint, exactly the engine's
    /// opening move; on a closed one, a refusal that produces no stream
    /// work at all.
    pub fn begin(&self, op: Op) -> (r: Result<(Action, Session), GutterError>)
        ensures
            self.is_connected() ==> (r matches Ok(p) && p.0@ == begin_model(op).0 && p.1
                == begin_model(op).1),
            !self.is_connected() ==> r == Err::<(Action, Session), GutterError>(
                GutterError::Closed,
            ),
    {
        match self.status {
            Status::Connected => Ok(Session::begin(op)),
            Status::Closed => Err(GutterError::Closed),
        }
    }
}

} // verus!
