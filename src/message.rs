use vstd::prelude::*;

verus! {

/// A message carried by the websocket, in either direction.
#[derive(Clone, Debug, PartialEq, Eq)]
pub enum WsMessage {
    Text(String),
    Binary(Vec<u8>),
}

} // verus!
