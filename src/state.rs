use vstd::prelude::*;

verus! {

/// Lifecycle of a websocket connection, as the socket reports it.
#[derive(Clone, Copy, Debug, PartialEq, Eq, Structural)]
pub enum WsState {
    Connecting,
    Open,
    Closing,
    Closed,
}

impl WsState {
    /// Position in the lifecycle; a socket never moves to a lower rank.
    pub open spec fn rank(self) -> nat {
        match self {
            WsState::Connecting => 0,
            WsState::Open => 1,
            WsState::Closing => 2,
            WsState::Closed => 3,
        }
    }

    /// No message will arrive any more once the socket is in this state.
    pub open spec fn is_terminal(self) -> bool {
        self is Closing || self is Closed
    }

    /// The state that the websocket `readyState` code stands for.
    pub open spec fn from_code(code: u16) -> WsState {
        if code == 0 {
            WsState::Connecting
        } else if code == 1 {
            WsState::Open
        } else if code == 2 {
            WsState::Closing
        } else {
            WsState::Closed
        }
    }

    pub fn is_closing_or_closed(&self) -> (r: bool)
        ensures
            r == self.is_terminal(),
    {
        match self {
            WsState::Closing | WsState::Closed => true,
            _ => false,
        }
    }
}

} // verus!
