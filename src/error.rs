use vstd::prelude::*;

verus! {

/// What went wrong on the outbound side.
#[derive(Clone, Copy, Debug, PartialEq, Eq, Structural)]
pub enum WsErrKind {
    /// A message was submitted while the connection was still being set up.
    ConnectionNotReady,
    /// The connection is closing or closed.
    ConnectionClosed,
    /// The socket's own send primitive reported a failure.
    RawTransport,
}

/// The error type of the sink.
#[derive(Clone, Copy, Debug, PartialEq, Eq, Structural)]
pub struct WsErr {
    pub kind: WsErrKind,
}

impl WsErr {
    pub fn new(kind: WsErrKind) -> (r: WsErr)
        ensures
            r.kind == kind,
    {
        WsErr { kind }
    }

    pub fn kind(&self) -> (r: WsErrKind)
        ensures
            r == self.kind,
    {
        self.kind
    }
}

} // verus!
