//! Wire-message data of the hosted single-server mode, which splits client
//! input over two channels: one for steering bits, one for discrete commands.
//! As in the cooperative mode, the transport around these types is an outside
//! collaborator.

use vstd::prelude::*;

verus! {

/// A connected player, by client id.
#[derive(Clone, Copy, Debug, PartialEq, Eq, Structural)]
pub struct Player {
    pub id: u64,
}

/// One client's directional input bits for a tick.
#[derive(Clone, Copy, Debug, Default, PartialEq, Eq, Structural)]
pub struct PlayerInput {
    pub up: bool,
    pub down: bool,
    pub left: bool,
    pub right: bool,
}

/// Client-to-server message channels.
#[derive(Clone, Copy, Debug, PartialEq, Eq, Structural)]
pub enum ClientChannel {
    Input,
    Command,
}

/// Server-to-client message channels.
#[derive(Clone, Copy, Debug, PartialEq, Eq, Structural)]
pub enum ServerChannel {
    ServerMessages,
    NetworkedEntities,
}

impl ClientChannel {
    /// Wire identifier of the channel.
    pub fn channel_id(&self) -> (id: u8)
        ensures
            *self is Command ==> id == 0,
            *self is Input ==> id == 1,
    {
        match self {
            ClientChannel::Command => 0,
            ClientChannel::Input => 1,
        }
    }
}

impl ServerChannel {
    /// Wire identifier of the channel.
    pub fn channel_id(&self) -> (id: u8)
        ensures
            *self is NetworkedEntities ==> id == 0,
            *self is ServerMessages ==> id == 1,
    {
        match self {
            ServerChannel::NetworkedEntities => 0,
            ServerChannel::ServerMessages => 1,
        }
    }
}

} // verus!
