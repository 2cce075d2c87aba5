//! Decision core of an online reinforcement-learning driving controller:
//! a ring-buffered experience store, an epsilon-greedy policy over a value
//! network's outputs, reward shaping from track progress and collision state,
//! training-step bookkeeping with a periodically synchronized target network,
//! and a fixed-interval tick scheduler.
//!
//! Continuous simulation signals (meters, radians, speeds, rewards,
//! probabilities) are carried as fixed-point integers with three decimal
//! places (milli-units). The floating-point tensor arithmetic of the value
//! network itself is not this crate's concern: callers evaluate their network
//! and hand the resulting per-action values in, already scaled to milli-units.

pub mod action;
pub mod errors;
pub mod host_net;
pub mod net;
pub mod obs;
pub mod policy;
pub mod replay;
pub mod reward;
pub mod trainer;
mod rng;
