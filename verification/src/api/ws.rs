//! The WebSocket stream: each connected client gets every state change as JSON text.
//! Clients are read-only on this channel; mutations go through the REST endpoints.
//!
//! The service runs two loops per client, one forwarding broadcast changes and one
//! draining the client's frames; this module decides what each event leads to.

use vstd::prelude::*;

verus! {

/// What happened on one client's connection.
#[derive(Debug, Clone, PartialEq, Eq)]
pub enum SocketEvent {
    /// A change arrived on the broadcast channel: its JSON text, or `None` when it
    /// could not be serialised.
    Change(Option<String>),
    /// The client fell behind and this many changes were dropped for it.
    Lagged(u64),
    /// The broadcast channel is closed.
    ChannelClosed,
    /// A message was delivered to the client.
    Sent,
    /// Delivering a message failed: the client disconnected.
    SendFailed,
    /// The client sent a frame (it is ignored).
    ClientFrame,
    /// The client's stream ended or failed.
    ClientGone,
    /// The connection's other loop ended (its forwarding or its draining loop).
    OtherLoopEnded,
}

/// What to do next on the connection.
#[derive(Debug, Clone, PartialEq, Eq)]
pub enum SocketAction {
    /// Send this text message to the client.
    SendText(String),
    /// Keep waiting.
    Continue,
    /// Close the connection (both loops end).
    Disconnect,
}

/// The decision for one event: a change is forwarded as text; a change that cannot be
/// serialised, a lag, a delivered message or a client frame keeps the connection open;
/// the connection ends only when the channel closes, a send fails or the client goes,
/// and once one of the connection's two loops has ended, the other ends too.
pub fn handle_socket_event(event: SocketEvent) -> (a: SocketAction)
    ensures
        match event {
            SocketEvent::Change(Some(json)) => a == SocketAction::SendText(json),
            SocketEvent::Change(None) => a == SocketAction::Continue,
            SocketEvent::Lagged(_) => a == SocketAction::Continue,
            SocketEvent::ChannelClosed => a == SocketAction::Disconnect,
            SocketEvent::Sent => a == SocketAction::Continue,
            SocketEvent::SendFailed => a == SocketAction::Disconnect,
            SocketEvent::ClientFrame => a == SocketAction::Continue,
            SocketEvent::ClientGone => a == SocketAction::Disconnect,
            SocketEvent::OtherLoopEnded => a == SocketAction::Disconnect,
        },
{
    match event {
        SocketEvent::Change(Some(json)) => SocketAction::SendText(json),
        SocketEvent::Change(None) => SocketAction::Continue,
        SocketEvent::Lagged(_) => SocketAction::Continue,
        SocketEvent::ChannelClosed => SocketAction::Disconnect,
        SocketEvent::Sent => SocketAction::Continue,
        SocketEvent::SendFailed => SocketAction::Disconnect,
        SocketEvent::ClientFrame => SocketAction::Continue,
        SocketEvent::ClientGone => SocketAction::Disconnect,
        SocketEvent::OtherLoopEnded => SocketAction::Disconnect,
    }
}

} // verus!
