//! The observation builder: assembles the fixed-length feature vector the
//! policy and the value network see each decision tick.

use vstd::prelude::*;
use crate::errors::ConfigError;

verus! {

/// Number of distance-sensor rays on the vehicle.
pub const SENSOR_COUNT: usize = 31;

/// Leading elements of every observation with fixed meaning: distance along
/// the track, heading-angle deviation, scalar speed.
pub const STATE_SIZE_BASE: usize = 3;

/// Total observation length, constant for the system's lifetime.
pub const STATE_SIZE: usize = STATE_SIZE_BASE + SENSOR_COUNT;

/// Assemble one observation from the current vehicle and track signals, all
/// in milli-units: distance along the track (milli-meters of progress),
/// heading deviation (milli-radians), speed (milli-meters per second) and the
/// distance-sensor readings. A sensor array of the wrong length is a
/// configuration invariant violation, reported rather than clamped.
pub fn build_observation(
    progress_milli: i64,
    angle_milli: i64,
    speed_milli: i64,
    sensors: &Vec<i64>,
) -> (r: Result<Vec<i64>, ConfigError>)
    ensures
        match r {
            Ok(o) => {
                &&& sensors@.len() == SENSOR_COUNT
                &&& o@.len() == STATE_SIZE
                &&& o@[0] == progress_milli
                &&& o@[1] == angle_milli
                &&& o@[2] == speed_milli
                &&& forall|j: int|
                    0 <= j < SENSOR_COUNT ==> o@[STATE_SIZE_BASE + j] == sensors@[j]
            },
            Err(e) => {
                &&& sensors@.len() != SENSOR_COUNT
                &&& e == ConfigError::SensorCountMismatch
            },
        },
{
    if sensors.len() != SENSOR_COUNT {
        return Err(ConfigError::SensorCountMismatch);
    }
    let mut o: Vec<i64> = Vec::new();
    o.push(progress_milli);
    o.push(angle_milli);
    o.push(speed_milli);
    let mut j: usize = 0;
    while j < SENSOR_COUNT
        invariant
            sensors@.len() == SENSOR_COUNT,
            j <= SENSOR_COUNT,
            o@.len() == STATE_SIZE_BASE + j,
            o@[0] == progress_milli,
            o@[1] == angle_milli,
            o@[2] == speed_milli,
            forall|k: int| 0 <= k < j ==> o@[STATE_SIZE_BASE + k] == sensors@[k],
        decreases SENSOR_COUNT - j,
    {
        o.push(sensors[j]);
        j = j + 1;
    }
    Ok(o)
}

} // verus!
