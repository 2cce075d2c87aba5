//! The epsilon-greedy policy: with probability epsilon a uniformly random
//! action, otherwise the first action attaining the maximum of the value
//! network's output. Epsilon decays by a fixed decrement per completed
//! training step, floored at its minimum.

use vstd::prelude::*;
use crate::errors::InternalError;
use crate::rng::{fresh_rng, rng_below};

verus! {

/// One whole unit (probability 1.0) in milli-units.
pub const UNIT_MILLI: i64 = 1000;

/// Exploration probability at startup and after an anomaly reset.
pub const MAX_EPS_MILLI: i64 = 1000;

/// Floor of the exploration probability.
pub const MIN_EPS_MILLI: i64 = 10;

/// How much epsilon shrinks per completed training step.
pub const EPS_DECAY_MILLI: i64 = 1;

/// `a` is the first index attaining the maximum of `q`: every value is at
/// most `q[a]`, and every earlier value is strictly below it.
pub open spec fn is_first_max(q: Seq<i64>, a: int) -> bool {
    &&& 0 <= a < q.len()
    &&& forall|m: int| 0 <= m < q.len() ==> q[m] <= q[a]
    &&& forall|m: int| 0 <= m < a ==> q[m] < q[a]
}

/// Exploitation: the first action index attaining the maximum network output.
/// Ties break to the lowest index, deterministically for reproducibility. An
/// output vector with no values has no maximizing action; that inconsistency
/// is surfaced, not masked.
pub fn greedy_action(q: &Vec<i64>) -> (r: Result<usize, InternalError>)
    ensures
        match r {
            Ok(a) => q@.len() > 0 && is_first_max(q@, a as int),
            Err(e) => q@.len() == 0 && e == InternalError::NoMaxAction,
        },
{
    if q.len() == 0 {
        return Err(InternalError::NoMaxAction);
    }
    let mut best: usize = 0;
    let mut j: usize = 1;
    while j < q.len()
        invariant
            0 < q@.len(),
            best < j <= q@.len(),
            forall|m: int| 0 <= m < j ==> q@[m] <= q@[best as int],
            forall|m: int| 0 <= m < best ==> q@[m] < q@[best as int],
        decreases q@.len() - j,
    {
        if q[j] > q[best] {
            best = j;
        }
        j = j + 1;
    }
    Ok(best)
}

/// The policy decision as a pure function of the random draws: explore with
/// the given action when the unit draw falls below epsilon, otherwise exploit
/// the value estimates.
pub fn select_action(
    draw_milli: i64,
    eps_milli: i64,
    explore_action: usize,
    q: &Vec<i64>,
) -> (r: Result<usize, InternalError>)
    requires
        explore_action < q@.len(),
    ensures
        match r {
            Ok(a) => {
                &&& a < q@.len()
                &&& (draw_milli < eps_milli ==> a == explore_action)
                &&& (draw_milli >= eps_milli ==> is_first_max(q@, a as int))
            },
            Err(_) => false,
        },
{
    if draw_milli < eps_milli {
        Ok(explore_action)
    } else {
        greedy_action(q)
    }
}

/// Choose an action for the given value estimates: draw a uniform value in
/// [0, 1) and explore uniformly when it falls below epsilon, exploit
/// otherwise. Whatever the draws, the action is a valid index; with epsilon
/// at or below zero the choice is deterministically the first maximum.
pub fn choose_action(eps_milli: i64, q: &Vec<i64>) -> (r: Result<usize, InternalError>)
    requires
        q@.len() >= 1,
    ensures
        match r {
            Ok(a) => {
                &&& a < q@.len()
                &&& (eps_milli <= 0 ==> is_first_max(q@, a as int))
            },
            Err(_) => false,
        },
{
    let mut rng = fresh_rng();
    let draw = rng_below(&mut rng, UNIT_MILLI as usize);
    if (draw as i64) < eps_milli {
        let explore_action = rng_below(&mut rng, q.len());
        Ok(explore_action)
    } else {
        greedy_action(q)
    }
}

/// Epsilon after one completed training step: reduced by the fixed decrement,
/// floored at the minimum.
pub open spec fn spec_decay_epsilon(eps: int, min_eps: int, decay: int) -> int {
    if eps - decay <= min_eps {
        min_eps
    } else {
        eps - decay
    }
}

/// Decay epsilon by one training step's decrement, never below the floor.
pub fn decay_epsilon(eps: i64, min_eps: i64, decay: i64) -> (r: i64)
    requires
        0 <= decay,
        eps - decay >= i64::MIN,
    ensures
        r == spec_decay_epsilon(eps as int, min_eps as int, decay as int),
{
    if eps - decay <= min_eps {
        min_eps
    } else {
        eps - decay
    }
}

/// Law: one completed training step never increases epsilon and never takes
/// it below its floor. An explicit exploration reset is the only way epsilon
/// rises.
pub proof fn lemma_epsilon_non_increasing(eps: int, min_eps: int, decay: int)
    requires
        min_eps <= eps,
        0 <= decay,
    ensures
        min_eps <= spec_decay_epsilon(eps, min_eps, decay) <= eps,
{
}

/// Epsilon after `n` consecutive completed training steps without a reset.
pub open spec fn spec_eps_after_steps(eps: int, min_eps: int, decay: int, n: nat) -> int
    decreases n,
{
    if n == 0 {
        eps
    } else {
        spec_decay_epsilon(spec_eps_after_steps(eps, min_eps, decay, (n - 1) as nat), min_eps, decay)
    }
}

/// Law: across any run of consecutive completed training steps epsilon is
/// non-increasing and never below its floor; in particular, once it reaches
/// the floor it stays there.
pub proof fn lemma_epsilon_non_increasing_over_steps(eps: int, min_eps: int, decay: int, n: nat)
    requires
        min_eps <= eps,
        0 <= decay,
    ensures
        min_eps <= spec_eps_after_steps(eps, min_eps, decay, n) <= eps,
        spec_eps_after_steps(eps, min_eps, decay, n + 1) <= spec_eps_after_steps(
            eps,
            min_eps,
            decay,
            n,
        ),
    decreases n,
{
    if n > 0 {
        lemma_epsilon_non_increasing_over_steps(eps, min_eps, decay, (n - 1) as nat);
    }
}

} // verus!
