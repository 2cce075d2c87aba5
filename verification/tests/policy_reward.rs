use garage_brain::action::{decode_action, ACTION_COUNT};
use garage_brain::errors::InternalError;
use garage_brain::policy::{
    choose_action, decay_epsilon, greedy_action, select_action, EPS_DECAY_MILLI, MAX_EPS_MILLI,
    MIN_EPS_MILLI,
};
use garage_brain::reward::{direction_flip, shape_reward, CRASH_REWARD_MILLI, HALF_PI_MILLI,
    SIGNAL_LIMIT_MILLI};

#[test]
fn action_truth_table() {
    // (throttle, brake, steering) for each of the 8 actions; index 0 is
    // throttle on, brake off, steering centered.
    let expected: [(u8, u8, i8); 8] = [
        (1, 0, 0),
        (0, 1, 0),
        (0, 0, -1),
        (0, 0, 1),
        (1, 0, -1),
        (1, 0, 1),
        (0, 1, -1),
        (0, 1, 1),
    ];
    assert_eq!(ACTION_COUNT, 8);
    for (a, want) in expected.iter().enumerate() {
        let c = decode_action(a);
        assert_eq!((c.gas, c.brake, c.steering), *want, "action {}", a);
    }
}

#[test]
fn greedy_takes_first_index_with_max() {
    let q: Vec<i64> = vec![100, 900, 300, 900];
    assert_eq!(greedy_action(&q), Ok(1));
    let q2: Vec<i64> = vec![-5, -5, -9];
    assert_eq!(greedy_action(&q2), Ok(0));
}

#[test]
fn greedy_on_empty_output_is_internal_error() {
    let q: Vec<i64> = Vec::new();
    assert_eq!(greedy_action(&q), Err(InternalError::NoMaxAction));
}

#[test]
fn select_action_explores_below_epsilon_and_exploits_above() {
    let q: Vec<i64> = vec![100, 900, 300];
    assert_eq!(select_action(499, 500, 2, &q), Ok(2));
    assert_eq!(select_action(500, 500, 2, &q), Ok(1));
}

#[test]
fn zero_epsilon_policy_is_deterministic() {
    // values 0.1, 0.9, 0.3, ... in milli-units: with epsilon forced to zero
    // the policy must pick index 1 every time.
    let q: Vec<i64> = vec![100, 900, 300, 250, 10, 0, 5, 80];
    for _ in 0..100 {
        assert_eq!(choose_action(0, &q), Ok(1));
    }
}

#[test]
fn chosen_action_is_always_a_valid_index() {
    let q: Vec<i64> = vec![7, 7, 7, 7, 7, 7, 7, 7];
    for _ in 0..200 {
        let a = choose_action(MAX_EPS_MILLI, &q).unwrap();
        assert!(a < q.len());
    }
}

#[test]
fn epsilon_decays_to_floor_and_stays() {
    let mut eps = MAX_EPS_MILLI;
    let mut previous = eps;
    for _ in 0..2000 {
        eps = decay_epsilon(eps, MIN_EPS_MILLI, EPS_DECAY_MILLI);
        assert!(eps <= previous);
        assert!(eps >= MIN_EPS_MILLI);
        previous = eps;
    }
    assert_eq!(eps, MIN_EPS_MILLI);
    assert_eq!(decay_epsilon(eps, MIN_EPS_MILLI, EPS_DECAY_MILLI), MIN_EPS_MILLI);
}

#[test]
fn collision_always_earns_the_crash_reward() {
    assert_eq!(shape_reward(0, 0, 0, true), CRASH_REWARD_MILLI);
    assert_eq!(shape_reward(-50_000, 90_000, 3_000, true), CRASH_REWARD_MILLI);
    assert_eq!(shape_reward(1_000_000, -1_000_000, 0, true), CRASH_REWARD_MILLI);
}

#[test]
fn forward_progress_above_deadband_is_scaled_down() {
    // +5 meters over the 0.5 s step with heading deviation 0: the +10/s rate
    // is above the deadband, so the reward is the rate divided by 15.
    assert_eq!(shape_reward(0, 5_000, 0, false), 666);
}

#[test]
fn backward_facing_progress_flips_sign() {
    // the same +5 meters with a heading deviation of 170 degrees (2967
    // milli-radians): the delta is sign-flipped and the raw negative rate
    // comes through.
    assert!(direction_flip(2_967));
    assert_eq!(shape_reward(0, 5_000, 2_967, false), -10_000);
}

#[test]
fn small_positive_rates_are_deadbanded_to_zero() {
    // +0.04 meters over the step: a +0.08/s rate, inside the deadband.
    assert_eq!(shape_reward(0, 40, 0, false), 0);
    // the deadband is open at the top: a rate of exactly 0.2/s is scaled.
    assert_eq!(shape_reward(0, 100, 0, false), 200 / 15);
}

#[test]
fn negative_rates_come_through_raw() {
    assert_eq!(shape_reward(5_000, 0, 0, false), -10_000);
    assert_eq!(shape_reward(100, 0, 0, false), -200);
}

#[test]
fn reward_accepts_signals_at_the_range_limit() {
    assert_eq!(shape_reward(SIGNAL_LIMIT_MILLI, SIGNAL_LIMIT_MILLI, 0, false), 0);
    assert_eq!(
        shape_reward(SIGNAL_LIMIT_MILLI, -SIGNAL_LIMIT_MILLI, 0, false),
        -4 * SIGNAL_LIMIT_MILLI
    );
}

#[test]
fn heading_at_or_below_half_pi_does_not_flip() {
    assert!(!direction_flip(HALF_PI_MILLI));
    assert!(!direction_flip(0));
    assert!(!direction_flip(-3_000));
    assert!(direction_flip(HALF_PI_MILLI + 1));
}
