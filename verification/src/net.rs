//! Wire-message data shared by the client and server binaries of the
//! cooperative multiplayer mode: the player handle, the per-tick input bits,
//! and the channel identifiers of the two transport directions. The UDP
//! transport and the entity-replication layer around these types are outside
//! collaborators and stay outside this crate.

use vstd::prelude::*;
use crate::action::Controls;

verus! {

/// A connected player, by client id.
#[derive(Clone, Copy, Debug, PartialEq, Eq, Structural)]
pub struct Player {
    pub id: u64,
}

/// One client's input bits for a tick.
#[derive(Clone, Copy, Debug, Default, PartialEq, Eq, Structural)]
pub struct PlayerInput {
    pub forward: bool,
    pub left: bool,
    pub right: bool,
    pub brake: bool,
}

/// Client-to-server message channels.
#[derive(Clone, Copy, Debug, PartialEq, Eq, Structural)]
pub enum ClientChannel {
    Input,
}

/// Server-to-client message channels.
#[derive(Clone, Copy, Debug, PartialEq, Eq, Structural)]
pub enum ServerChannel {
    ServerMessages,
    NetworkedEntities,
}

impl ClientChannel {
    /// Wire identifier of the channel.
    pub fn channel_id(&self) -> (id: u8)
        ensures
            id == 1,
    {
        match self {
            ClientChannel::Input => 1,
        }
    }
}

impl ServerChannel {
    /// Wire identifier of the channel.
    pub fn channel_id(&self) -> (id: u8)
        ensures
            *self is NetworkedEntities ==> id == 0,
            *self is ServerMessages ==> id == 1,
    {
        match self {
            ServerChannel::NetworkedEntities => 0,
            ServerChannel::ServerMessages => 1,
        }
    }
}

/// Steering level for a pair of left/right input bits: right wins when both
/// are held; neither held centers the wheel.
pub open spec fn spec_steer_for(left: bool, right: bool) -> i8 {
    if right {
        1i8
    } else if left {
        -1i8
    } else {
        0i8
    }
}

/// Actuator levels a player's input bits drive: forward is full throttle,
/// brake is full brake, and the left/right bits steer.
pub fn controls_for_input(input: &PlayerInput) -> (c: Controls)
    ensures
        c.gas == (if input.forward { 1u8 } else { 0u8 }),
        c.brake == (if input.brake { 1u8 } else { 0u8 }),
        c.steering == spec_steer_for(input.left, input.right),
{
    let gas: u8 = if input.forward { 1 } else { 0 };
    let brake: u8 = if input.brake { 1 } else { 0 };
    let mut steering: i8 = 0;
    if input.left {
        steering = -1;
    }
    if input.right {
        steering = 1;
    }
    if !input.left && !input.right {
        steering = 0;
    }
    Controls { gas, brake, steering }
}

} // verus!
