use garage_brain::errors::ConfigError;
use garage_brain::obs::{build_observation, SENSOR_COUNT, STATE_SIZE};
use garage_brain::policy::{MAX_EPS_MILLI, MIN_EPS_MILLI};
use garage_brain::trainer::{
    bootstrap_target, compute_targets, CarDqn, DqnResource, BATCH_SIZE, STEP_DURATION_MS,
    SYNC_INTERVAL_STEPS,
};

#[test]
fn observation_layout_is_fixed() {
    let sensors: Vec<i64> = (0..SENSOR_COUNT as i64).map(|k| 10_000 + k).collect();
    let o = build_observation(7_000, -250, 13_500, &sensors).unwrap();
    assert_eq!(o.len(), STATE_SIZE);
    assert_eq!(o[0], 7_000);
    assert_eq!(o[1], -250);
    assert_eq!(o[2], 13_500);
    for k in 0..SENSOR_COUNT {
        assert_eq!(o[3 + k], 10_000 + k as i64);
    }
}

#[test]
fn wrong_sensor_count_is_a_config_error() {
    let short: Vec<i64> = vec![0; SENSOR_COUNT - 1];
    assert_eq!(
        build_observation(0, 0, 0, &short),
        Err(ConfigError::SensorCountMismatch)
    );
    let long: Vec<i64> = vec![0; SENSOR_COUNT + 1];
    assert_eq!(
        build_observation(0, 0, 0, &long),
        Err(ConfigError::SensorCountMismatch)
    );
}

#[test]
fn fresh_state_explores_fully() {
    let d = DqnResource::new();
    assert_eq!(d.eps, MAX_EPS_MILLI);
    assert_eq!(d.min_eps, MIN_EPS_MILLI);
    assert_eq!(d.step, 0);
    assert_eq!(d.batch_size, BATCH_SIZE);
    assert_eq!(d.rb.len(), 0);
}

#[test]
fn zero_sized_config_is_fatal() {
    assert_eq!(
        DqnResource::with_config(0, 8).err(),
        Some(ConfigError::ZeroBufferCapacity)
    );
    assert_eq!(
        DqnResource::with_config(16, 0).err(),
        Some(ConfigError::ZeroBatchSize)
    );
    assert!(DqnResource::with_config(16, 8).is_ok());
}

#[test]
fn scheduler_throttles_to_the_step_interval() {
    let mut d = DqnResource::with_config(16, 2).unwrap();
    assert!(d.begin_tick(1));
    assert_eq!(d.next_run_ms, 1 + STEP_DURATION_MS);
    assert!(!d.begin_tick(300));
    assert!(!d.begin_tick(501));
    assert!(d.begin_tick(502));
    assert_eq!(d.next_run_ms, 502 + STEP_DURATION_MS);
}

#[test]
fn step_counter_waits_for_a_full_batch() {
    let mut d = DqnResource::with_config(16, 2).unwrap();
    let mut now = 1;
    for _ in 0..3 {
        assert!(d.begin_tick(now));
        now += STEP_DURATION_MS + 1;
    }
    assert_eq!(d.step, 0);
    for k in 0..3i64 {
        d.rb.store(vec![k], 0, k, vec![k]);
    }
    assert!(d.begin_tick(now));
    assert_eq!(d.step, 1);
}

#[test]
fn training_gate_needs_batch_plus_two() {
    let mut d = DqnResource::with_config(16, 2).unwrap();
    for k in 0..3i64 {
        d.rb.store(vec![k], 0, k, vec![k]);
        assert!(!d.train_ready());
    }
    d.rb.store(vec![9], 0, 9, vec![9]);
    assert!(d.train_ready());
}

#[test]
fn exploration_reset_needs_flip_and_floor() {
    let mut d = DqnResource::with_config(16, 2).unwrap();
    d.eps = MIN_EPS_MILLI;
    d.maybe_reset_exploration(false);
    assert_eq!(d.eps, MIN_EPS_MILLI);
    d.maybe_reset_exploration(true);
    assert_eq!(d.eps, MAX_EPS_MILLI);
    d.maybe_reset_exploration(true);
    assert_eq!(d.eps, MAX_EPS_MILLI, "above the floor the flip leaves epsilon alone");
}

#[test]
fn finishing_a_step_decays_epsilon_and_reports_sync() {
    let mut d = DqnResource::with_config(16, 2).unwrap();
    assert!(d.finish_training_step(), "step 0 is on the sync interval");
    assert_eq!(d.eps, MAX_EPS_MILLI - 1);
    d.step = 1;
    assert!(!d.finish_training_step());
    d.step = SYNC_INTERVAL_STEPS;
    assert!(d.finish_training_step());
}

#[test]
fn snapshot_reports_len_syncs_and_epsilon() {
    let mut d = DqnResource::with_config(16, 2).unwrap();
    d.rb.store(vec![1], 0, 1, vec![1]);
    d.step = 2 * SYNC_INTERVAL_STEPS + 17;
    d.eps = 123;
    assert_eq!(d.snapshot(), (1, 2, 123));
}

#[test]
fn record_transition_stores_previous_pair_and_rolls_memory() {
    let mut d = DqnResource::with_config(16, 2).unwrap();
    let mut agent = CarDqn::new();
    assert_eq!(agent.prev_obs, vec![0i64; STATE_SIZE]);
    let obs: Vec<i64> = (0..STATE_SIZE as i64).collect();
    d.record_transition(&mut agent, &obs, 3, -42, 5_500);
    assert_eq!(d.rb.len(), 1);
    let stored = d.rb.get_batch(&vec![0]);
    assert_eq!(stored[0].state, vec![0i64; STATE_SIZE]);
    assert_eq!(stored[0].action, 0);
    assert_eq!(stored[0].reward, -42);
    assert_eq!(stored[0].next_state, obs);
    assert_eq!(agent.prev_obs, obs);
    assert_eq!(agent.prev_action, 3);
    assert_eq!(agent.prev_reward, -42);
    assert_eq!(agent.prev_progress, 5_500);
}

#[test]
fn bootstrap_target_discounts_and_adds_reward() {
    assert_eq!(bootstrap_target(1_000, 500), 1_490);
    assert_eq!(bootstrap_target(0, -300), -300);
    assert_eq!(bootstrap_target(-1_000, 0), -990);
    assert_eq!(bootstrap_target(101, 0), 99);
}

#[test]
fn targets_are_computed_per_transition() {
    let q: Vec<i64> = vec![1_000, 0, -1_000];
    let r: Vec<i64> = vec![500, -300, 0];
    assert_eq!(compute_targets(&q, &r), vec![1_490, -300, -990]);
}
