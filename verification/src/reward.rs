//! The reward shaper: converts raw simulation signals — progress delta,
//! heading deviation, collision flag — into one scalar training reward.

use vstd::prelude::*;

verus! {

/// Reward on any collision with something other than the drivable surface.
pub const CRASH_REWARD_MILLI: i64 = -10_000;

/// Half pi in milli-radians, truncated: the heading deviation beyond which
/// the vehicle counts as facing substantially backward along the track.
pub const HALF_PI_MILLI: i64 = 1570;

/// Positive per-second progress rates below this (milli-units) are treated as
/// near-stationary drift and earn no reward.
pub const RATE_DEADBAND_MILLI: i64 = 200;

/// Positive per-second progress rates above the deadband are scaled down by
/// this divisor.
pub const POSITIVE_RATE_DIVISOR: i64 = 15;

/// Largest progress or reward magnitude, in milli-units, the shaper accepts;
/// keeps the fixed-point arithmetic far from the integer limits.
pub const SIGNAL_LIMIT_MILLI: i64 = 1_000_000_000_000;

/// The heading deviation says the vehicle faces substantially backward
/// relative to the track direction.
pub open spec fn spec_direction_flip(angle_milli: int) -> bool {
    angle_milli > HALF_PI_MILLI as int
}

/// Progress delta over one step, normalized to a per-second rate: the step
/// lasts half a second, so the rate is twice the delta.
pub open spec fn spec_progress_rate(delta_milli: int) -> int {
    2 * delta_milli
}

/// Shape a per-second progress rate: zero inside the small positive deadband
/// (suppressing reward noise from near-stationary drift), scaled down above
/// it, and passed through unchanged when zero or negative.
pub open spec fn spec_shaped_rate(rate_milli: int) -> int {
    if 0 < rate_milli && rate_milli < RATE_DEADBAND_MILLI as int {
        0
    } else if 0 < rate_milli {
        rate_milli / (POSITIVE_RATE_DIVISOR as int)
    } else {
        rate_milli
    }
}

/// The whole shaping policy. A collision earns the fixed crash reward, with
/// no further shaping. Otherwise the progress delta is sign-flipped when it
/// is positive while the vehicle faces backward — the progress metric keeps
/// its sign while the vehicle's position vector has turned around — then
/// normalized to a rate and shaped.
pub open spec fn spec_shape_reward(
    prev_progress_milli: int,
    progress_milli: int,
    angle_milli: int,
    crashed: bool,
) -> int {
    if crashed {
        CRASH_REWARD_MILLI as int
    } else {
        let delta = progress_milli - prev_progress_milli;
        let corrected = if delta > 0 && spec_direction_flip(angle_milli) {
            -delta
        } else {
            delta
        };
        spec_shaped_rate(spec_progress_rate(corrected))
    }
}

/// Whether the heading deviation indicates a backward-facing vehicle. The
/// caller uses this, together with an epsilon already at its floor, to decide
/// an exploration reset.
pub fn direction_flip(angle_milli: i64) -> (b: bool)
    ensures
        b == spec_direction_flip(angle_milli as int),
{
    angle_milli > HALF_PI_MILLI
}

/// Compute the reward for the previous tick's action, now that its
/// consequence is observable. A collision always earns exactly the crash
/// reward, regardless of the progress values.
pub fn shape_reward(
    prev_progress_milli: i64,
    progress_milli: i64,
    angle_milli: i64,
    crashed: bool,
) -> (r: i64)
    requires
        -SIGNAL_LIMIT_MILLI <= prev_progress_milli <= SIGNAL_LIMIT_MILLI,
        -SIGNAL_LIMIT_MILLI <= progress_milli <= SIGNAL_LIMIT_MILLI,
    ensures
        r == spec_shape_reward(
            prev_progress_milli as int,
            progress_milli as int,
            angle_milli as int,
            crashed,
        ),
        crashed ==> r == CRASH_REWARD_MILLI,
{
    if crashed {
        return CRASH_REWARD_MILLI;
    }
    let delta = progress_milli - prev_progress_milli;
    let corrected = if delta > 0 && angle_milli > HALF_PI_MILLI {
        -delta
    } else {
        delta
    };
    let rate = 2 * corrected;
    if 0 < rate && rate < RATE_DEADBAND_MILLI {
        0
    } else if 0 < rate {
        let scaled = (rate as u64) / (POSITIVE_RATE_DIVISOR as u64);
        proof {
            assert(rate as u64 as int == rate as int);
            assert(scaled as int == rate as int / (POSITIVE_RATE_DIVISOR as int));
        }
        scaled as i64
    } else {
        rate
    }
}

} // verus!
