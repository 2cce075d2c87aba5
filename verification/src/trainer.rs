//! Training-state bookkeeping: the tick scheduler's watermark, the training
//! step counter, the replay buffer, the exploration probability, and the
//! bootstrapped-target arithmetic of one training pass. The gradient epochs
//! themselves run on the caller's floating-point network; this module decides
//! when they run, what targets they chase, and when the target network is
//! synchronized.

use vstd::prelude::*;
use crate::action::ACTION_COUNT;
use crate::errors::ConfigError;
use crate::obs::STATE_SIZE;
use crate::policy::{spec_decay_epsilon, decay_epsilon, EPS_DECAY_MILLI, MAX_EPS_MILLI, MIN_EPS_MILLI};
use crate::replay::{clone_values, ReplayBuffer, BUFFER_SIZE};
use crate::reward::SIGNAL_LIMIT_MILLI;

verus! {

/// Transitions per training minibatch.
pub const BATCH_SIZE: usize = 64;

/// Completed training steps between two target-network synchronizations.
pub const SYNC_INTERVAL_STEPS: u64 = 100;

/// Wall-clock interval between two eligible ticks, in milliseconds.
pub const STEP_DURATION_MS: u64 = 500;

/// Numerator of the discount factor (0.99) applied to next-state values.
pub const DISCOUNT_NUM: i64 = 99;

/// Denominator of the discount factor.
pub const DISCOUNT_DEN: i64 = 100;

/// Gradient-descent epochs run over one minibatch per training pass.
pub const EPOCHS_PER_PASS: usize = 20;

/// The training subsystem's own state: everything the pipeline owns besides
/// the two floating-point networks, which the caller holds.
pub struct DqnResource {
    /// The tick scheduler's watermark: the pipeline next runs once the
    /// simulation clock passes this, in milliseconds.
    pub next_run_ms: u64,
    /// Completed training steps.
    pub step: u64,
    /// The experience store.
    pub rb: ReplayBuffer,
    /// Current exploration probability, in milli-units.
    pub eps: i64,
    /// Exploration probability after a reset.
    pub max_eps: i64,
    /// Floor of the exploration probability.
    pub min_eps: i64,
    /// Transitions per training minibatch.
    pub batch_size: usize,
}

impl DqnResource {
    /// Well-formed: the buffer is well-formed, epsilon sits between its floor
    /// and its ceiling, and minibatches are non-empty.
    pub open spec fn wf(self) -> bool {
        &&& self.rb.wf()
        &&& 0 <= self.min_eps <= self.eps <= self.max_eps
        &&& 1 <= self.batch_size
    }

    /// Fresh training state: full exploration, nothing stored, nothing
    /// trained, eligible to run at the first tick.
    pub fn new() -> (d: DqnResource)
        ensures
            d.wf(),
            d.next_run_ms == 0,
            d.step == 0,
            d.rb.stores() == 0,
            d.rb.capacity == BUFFER_SIZE,
            d.eps == MAX_EPS_MILLI,
            d.max_eps == MAX_EPS_MILLI,
            d.min_eps == MIN_EPS_MILLI,
            d.batch_size == BATCH_SIZE,
    {
        DqnResource {
            next_run_ms: 0,
            step: 0,
            rb: ReplayBuffer::new(),
            eps: MAX_EPS_MILLI,
            max_eps: MAX_EPS_MILLI,
            min_eps: MIN_EPS_MILLI,
            batch_size: BATCH_SIZE,
        }
    }

    /// Fresh training state with a chosen buffer capacity and batch size.
    /// A zero capacity or a zero batch size cannot work and is a
    /// configuration error: the subsystem must not start.
    pub fn with_config(capacity: usize, batch_size: usize) -> (r: Result<DqnResource, ConfigError>)
        ensures
            match r {
                Ok(d) => {
                    &&& capacity >= 1
                    &&& batch_size >= 1
                    &&& d.wf()
                    &&& d.next_run_ms == 0
                    &&& d.step == 0
                    &&& d.rb.stores() == 0
                    &&& d.rb.capacity == capacity
                    &&& d.eps == MAX_EPS_MILLI
                    &&& d.max_eps == MAX_EPS_MILLI
                    &&& d.min_eps == MIN_EPS_MILLI
                    &&& d.batch_size == batch_size
                },
                Err(e) => {
                    &&& (capacity == 0 || batch_size == 0)
                    &&& e == (if capacity == 0 {
                        ConfigError::ZeroBufferCapacity
                    } else {
                        ConfigError::ZeroBatchSize
                    })
                },
            },
    {
        let rb = match ReplayBuffer::with_capacity(capacity) {
            Ok(rb) => rb,
            Err(e) => {
                return Err(e);
            },
        };
        if batch_size == 0 {
            return Err(ConfigError::ZeroBatchSize);
        }
        Ok(
            DqnResource {
                next_run_ms: 0,
                step: 0,
                rb,
                eps: MAX_EPS_MILLI,
                max_eps: MAX_EPS_MILLI,
                min_eps: MIN_EPS_MILLI,
                batch_size,
            },
        )
    }

    /// The tick scheduler. Once the simulation clock passes the watermark,
    /// the watermark advances by the fixed step duration, the step counter
    /// advances when the buffer is full enough to train, and the whole
    /// pipeline runs once; otherwise nothing at all happens this tick.
    pub fn begin_tick(&mut self, now_ms: u64) -> (run: bool)
        requires
            old(self).wf(),
            now_ms <= u64::MAX - STEP_DURATION_MS,
            old(self).step < u64::MAX,
        ensures
            final(self).wf(),
            run == (now_ms > old(self).next_run_ms),
            !run ==> *final(self) == *old(self),
            run ==> final(self).next_run_ms == now_ms + STEP_DURATION_MS,
            run ==> final(self).step == (if old(self).rb.contents().len() > old(self).batch_size {
                old(self).step + 1
            } else {
                old(self).step as int
            }),
            final(self).rb == old(self).rb,
            final(self).eps == old(self).eps,
            final(self).max_eps == old(self).max_eps,
            final(self).min_eps == old(self).min_eps,
            final(self).batch_size == old(self).batch_size,
    {
        if now_ms > self.next_run_ms {
            self.next_run_ms = now_ms + STEP_DURATION_MS;
            if self.rb.len() > self.batch_size {
                self.step = self.step + 1;
            }
            true
        } else {
            false
        }
    }

    /// A training pass runs only when the buffer holds strictly more than one
    /// batch plus one transition; until then the tick skips training and the
    /// pipeline simply continues next tick.
    pub fn train_ready(&self) -> (b: bool)
        requires
            self.wf(),
        ensures
            b == (self.rb.contents().len() > self.batch_size + 1),
    {
        let n = self.rb.len();
        n > self.batch_size && n - self.batch_size > 1
    }

    /// Anomaly recovery: when the vehicle makes forward progress while facing
    /// backward and epsilon has already decayed to its floor, epsilon resets
    /// to its ceiling to re-inject exploration. In every other case epsilon is
    /// untouched.
    pub fn maybe_reset_exploration(&mut self, direction_flip: bool)
        requires
            old(self).wf(),
        ensures
            final(self).wf(),
            final(self).eps == (if direction_flip && old(self).eps <= old(self).min_eps {
                old(self).max_eps
            } else {
                old(self).eps
            }),
            final(self).next_run_ms == old(self).next_run_ms,
            final(self).step == old(self).step,
            final(self).rb == old(self).rb,
            final(self).max_eps == old(self).max_eps,
            final(self).min_eps == old(self).min_eps,
            final(self).batch_size == old(self).batch_size,
    {
        if direction_flip && self.eps <= self.min_eps {
            self.eps = self.max_eps;
        }
    }

    /// Close one training pass: decay epsilon one decrement toward its floor
    /// and report whether this step is on the synchronization interval, in
    /// which case the caller copies the trainable network's parameters
    /// verbatim into the target network.
    pub fn finish_training_step(&mut self) -> (sync: bool)
        requires
            old(self).wf(),
        ensures
            final(self).wf(),
            sync == (old(self).step % SYNC_INTERVAL_STEPS == 0),
            final(self).eps == spec_decay_epsilon(
                old(self).eps as int,
                old(self).min_eps as int,
                EPS_DECAY_MILLI as int,
            ),
            final(self).next_run_ms == old(self).next_run_ms,
            final(self).step == old(self).step,
            final(self).rb == old(self).rb,
            final(self).max_eps == old(self).max_eps,
            final(self).min_eps == old(self).min_eps,
            final(self).batch_size == old(self).batch_size,
    {
        let sync = self.step % SYNC_INTERVAL_STEPS == 0;
        self.eps = decay_epsilon(self.eps, self.min_eps, EPS_DECAY_MILLI);
        sync
    }

    /// Read-only diagnostics snapshot for a dashboard: current buffer length,
    /// completed synchronization intervals, current epsilon in milli-units.
    pub fn snapshot(&self) -> (r: (usize, u64, i64))
        requires
            self.wf(),
        ensures
            r.0 == self.rb.contents().len(),
            r.1 == self.step / SYNC_INTERVAL_STEPS,
            r.2 == self.eps,
    {
        (self.rb.len(), self.step / SYNC_INTERVAL_STEPS, self.eps)
    }

    /// Store the completed transition — the previous observation and action,
    /// the reward just computed for them, and the observation that followed —
    /// then roll the agent's scratch memory forward to the current tick.
    pub fn record_transition(
        &mut self,
        agent: &mut CarDqn,
        obs: &Vec<i64>,
        action: usize,
        reward: i64,
        progress_milli: i64,
    )
        requires
            old(self).wf(),
            old(agent).wf(),
            obs@.len() == STATE_SIZE,
            action < ACTION_COUNT,
            old(self).rb.i < usize::MAX,
            -SIGNAL_LIMIT_MILLI <= progress_milli <= SIGNAL_LIMIT_MILLI,
        ensures
            final(self).wf(),
            final(agent).wf(),
            final(self).rb.history@ == old(self).rb.history@.push(
                (
                    old(agent).prev_obs@,
                    old(agent).prev_action as int,
                    reward as int,
                    obs@,
                ),
            ),
            final(self).rb.capacity == old(self).rb.capacity,
            final(agent).prev_obs@ == obs@,
            final(agent).prev_action == action,
            final(agent).prev_reward == reward,
            final(agent).prev_progress == progress_milli,
            final(self).next_run_ms == old(self).next_run_ms,
            final(self).step == old(self).step,
            final(self).eps == old(self).eps,
            final(self).max_eps == old(self).max_eps,
            final(self).min_eps == old(self).min_eps,
            final(self).batch_size == old(self).batch_size,
    {
        let prev_obs = clone_values(&agent.prev_obs);
        let next_obs = clone_values(obs);
        self.rb.store(prev_obs, agent.prev_action, reward, next_obs);
        agent.prev_obs = clone_values(obs);
        agent.prev_action = action;
        agent.prev_reward = reward;
        agent.prev_progress = progress_milli;
    }
}

/// Per-vehicle scratch memory: the most recent observation, action, reward
/// and track progress, so that an action's reward can be computed one tick
/// later, once its consequence is observable. Created per controlled vehicle
/// and destroyed with it.
pub struct CarDqn {
    pub prev_obs: Vec<i64>,
    pub prev_action: usize,
    pub prev_reward: i64,
    pub prev_progress: i64,
}

impl CarDqn {
    /// Well-formed: the remembered observation has the fixed length, the
    /// remembered action is a valid index, and the remembered progress is
    /// within the shaper's signal range.
    pub open spec fn wf(self) -> bool {
        &&& self.prev_obs@.len() == STATE_SIZE
        &&& self.prev_action < ACTION_COUNT
        &&& -SIGNAL_LIMIT_MILLI <= self.prev_progress <= SIGNAL_LIMIT_MILLI
    }

    /// Fresh agent memory: a zero observation and zeroed scalars.
    pub fn new() -> (c: CarDqn)
        ensures
            c.wf(),
            c.prev_obs@.len() == STATE_SIZE,
            forall|j: int| 0 <= j < STATE_SIZE ==> c.prev_obs@[j] == 0,
            c.prev_action == 0,
            c.prev_reward == 0,
            c.prev_progress == 0,
    {
        let mut obs: Vec<i64> = Vec::new();
        let mut j: usize = 0;
        while j < STATE_SIZE
            invariant
                j <= STATE_SIZE,
                obs@.len() == j,
                forall|m: int| 0 <= m < j ==> obs@[m] == 0,
            decreases STATE_SIZE - j,
        {
            obs.push(0);
            j = j + 1;
        }
        CarDqn { prev_obs: obs, prev_action: 0, prev_reward: 0, prev_progress: 0 }
    }
}

/// Rounded-toward-zero discount of a next-state value: the value times 99,
/// divided by 100.
pub open spec fn spec_discounted(v: int) -> int {
    if v >= 0 {
        (v * DISCOUNT_NUM as int) / (DISCOUNT_DEN as int)
    } else {
        -((-v * DISCOUNT_NUM as int) / (DISCOUNT_DEN as int))
    }
}

/// Bootstrapped target for one sampled transition: the discounted best
/// next-state value of the target network, times (1 - done) with done
/// identically zero — episodes never terminate in continuous driving — plus
/// the observed reward.
pub open spec fn spec_bootstrap_target(max_next_q: int, reward: int) -> int {
    spec_discounted(max_next_q) + reward
}

/// Compute one bootstrapped target value.
pub fn bootstrap_target(max_next_q: i64, reward: i64) -> (t: i64)
    requires
        -SIGNAL_LIMIT_MILLI <= max_next_q <= SIGNAL_LIMIT_MILLI,
        -SIGNAL_LIMIT_MILLI <= reward <= SIGNAL_LIMIT_MILLI,
    ensures
        t == spec_bootstrap_target(max_next_q as int, reward as int),
{
    let discounted: i64 = if max_next_q >= 0 {
        let scaled = (max_next_q as u64 * 99) / 100;
        proof {
            assert(scaled as int == (max_next_q as int * 99) / 100);
        }
        scaled as i64
    } else {
        let neg = -max_next_q;
        let scaled = (neg as u64 * 99) / 100;
        proof {
            assert(scaled as int == (neg as int * 99) / 100);
        }
        -(scaled as i64)
    };
    discounted + reward
}

/// Compute the bootstrapped target for every transition of a minibatch, from
/// the target network's best next-state values and the stored rewards, in
/// minibatch order.
pub fn compute_targets(max_next_q: &Vec<i64>, rewards: &Vec<i64>) -> (targets: Vec<i64>)
    requires
        max_next_q@.len() == rewards@.len(),
        forall|j: int|
            0 <= j < max_next_q@.len() ==> -SIGNAL_LIMIT_MILLI <= #[trigger] max_next_q@[j]
                <= SIGNAL_LIMIT_MILLI,
        forall|j: int|
            0 <= j < rewards@.len() ==> -SIGNAL_LIMIT_MILLI <= #[trigger] rewards@[j]
                <= SIGNAL_LIMIT_MILLI,
    ensures
        targets@.len() == max_next_q@.len(),
        forall|j: int|
            0 <= j < targets@.len() ==> #[trigger] targets@[j] == spec_bootstrap_target(
                max_next_q@[j] as int,
                rewards@[j] as int,
            ),
{
    let mut targets: Vec<i64> = Vec::new();
    let mut j: usize = 0;
    while j < max_next_q.len()
        invariant
            max_next_q@.len() == rewards@.len(),
            j <= max_next_q@.len(),
            targets@.len() == j,
            forall|m: int|
                0 <= m < max_next_q@.len() ==> -SIGNAL_LIMIT_MILLI <= #[trigger] max_next_q@[m]
                    <= SIGNAL_LIMIT_MILLI,
            forall|m: int|
                0 <= m < rewards@.len() ==> -SIGNAL_LIMIT_MILLI <= #[trigger] rewards@[m]
                    <= SIGNAL_LIMIT_MILLI,
            forall|m: int|
                0 <= m < j ==> #[trigger] targets@[m] == spec_bootstrap_target(
                    max_next_q@[m] as int,
                    rewards@[m] as int,
                ),
        decreases max_next_q@.len() - j,
    {
        let t = bootstrap_target(max_next_q[j], rewards[j]);
        targets.push(t);
        j = j + 1;
    }
    targets
}

} // verus!
