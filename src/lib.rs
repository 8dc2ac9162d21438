//! Bridges a callback-driven websocket into a pull-based inbound stream and a
//! push-based outbound sink.
//!
//! The socket itself lives outside this library. Every operation here takes
//! the connection state that the socket reports at the moment of the call and
//! returns what the caller must do next, so that each decision is a function
//! of plain values.
pub mod error;
pub mod laws;
pub mod message;
pub mod poll;
pub mod state;
pub mod ws_io;

pub use error::{WsErr, WsErrKind};
pub use message::WsMessage;
pub use poll::Poll;
pub use state::WsState;
pub use ws_io::{ClosePlan, WsIo};
