//! The discrete action space: each action index maps to one fixed triple of
//! actuator levels (throttle, brake, steering).

use vstd::prelude::*;

verus! {

/// Number of discrete actions the policy chooses from.
pub const ACTION_COUNT: usize = 8;

/// Actuator levels for one chosen action: throttle and brake are on (1) or
/// off (0), steering is left (-1), centered (0) or right (+1).
#[derive(Clone, Copy, Debug, PartialEq, Eq, Structural)]
pub struct Controls {
    pub gas: u8,
    pub brake: u8,
    pub steering: i8,
}

/// Throttle level of an action: on for 0 (straight), 4 (left) and 5 (right).
pub open spec fn spec_gas(a: int) -> u8 {
    if a == 0 || a == 4 || a == 5 {
        1
    } else {
        0
    }
}

/// Brake level of an action: on for 1 (straight), 6 (left) and 7 (right).
pub open spec fn spec_brake(a: int) -> u8 {
    if a == 1 || a == 6 || a == 7 {
        1
    } else {
        0
    }
}

/// Steering level of an action: left for 2, 4, 6; right for 3, 5, 7;
/// centered otherwise.
pub open spec fn spec_steering(a: int) -> i8 {
    if a == 2 || a == 4 || a == 6 {
        -1i8
    } else if a == 3 || a == 5 || a == 7 {
        1i8
    } else {
        0i8
    }
}

/// Decode an action index into its actuator triple. Exactly one throttle
/// state, one brake state and one steering state are active per action;
/// index 0 is "throttle on, brake off, steering centered".
pub fn decode_action(action: usize) -> (c: Controls)
    requires
        action < ACTION_COUNT,
    ensures
        c.gas == spec_gas(action as int),
        c.brake == spec_brake(action as int),
        c.steering == spec_steering(action as int),
{
    let gas: u8 = if action == 0 || action == 4 || action == 5 {
        1
    } else {
        0
    };
    let brake: u8 = if action == 1 || action == 6 || action == 7 {
        1
    } else {
        0
    };
    let left: i8 = if action == 2 || action == 4 || action == 6 {
        1
    } else {
        0
    };
    let right: i8 = if action == 3 || action == 5 || action == 7 {
        1
    } else {
        0
    };
    Controls { gas, brake, steering: -left + right }
}

} // verus!
