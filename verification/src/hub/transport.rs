//! What the hub makes of the messages of an upgraded connection: one
//! binary message carries one RPC frame, and the end of the inbound side
//! is the end of the stream, not a failure.

use crate::hub::session::Ending;
use vstd::prelude::*;

verus! {

/// What the inbound side of a connection yielded.
#[derive(Debug)]
pub enum Incoming {
    /// A binary message, with its payload.
    Binary(Vec<u8>),
    /// A text message.
    Text,
    /// A ping or a pong, which the connection answers by itself.
    Heartbeat,
    /// The peer said that it closes the connection.
    Close,
    /// Nothing more will come.
    Finished,
    /// The connection failed.
    Failed,
}

/// What the session is handed for it.
#[derive(Debug)]
pub enum Received {
    /// One RPC frame, still encoded.
    Frame(Vec<u8>),
    /// Nothing: go on reading.
    Nothing,
    /// The stream is over, and why. No frame follows.
    End(Ending),
    /// A message that carries no frame: a failure of the peer.
    NotAFrame,
}

/// The rule by which messages are handed to the session.
pub open spec fn received(incoming: Incoming) -> Received {
    match incoming {
        Incoming::Binary(payload) => Received::Frame(payload),
        Incoming::Text => Received::NotAFrame,
        Incoming::Heartbeat => Received::Nothing,
        Incoming::Close => Received::End(Ending::PeerClosed),
        Incoming::Finished => Received::End(Ending::PeerClosed),
        Incoming::Failed => Received::End(Ending::TransportFailed),
    }
}

/// Hands a message of the connection to the session. That the peer
/// closed is the end of the stream, like its running dry; only a failure
/// of the connection ends it as a failure.
pub fn receive(incoming: Incoming) -> (handed: Received)
    ensures
        handed == received(incoming),
{
    match incoming {
        Incoming::Binary(payload) => Received::Frame(payload),
        Incoming::Text => Received::NotAFrame,
        Incoming::Heartbeat => Received::Nothing,
        Incoming::Close => Received::End(Ending::PeerClosed),
        Incoming::Finished => Received::End(Ending::PeerClosed),
        Incoming::Failed => Received::End(Ending::TransportFailed),
    }
}

} // verus!
