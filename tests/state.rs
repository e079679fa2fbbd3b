use oxide_control::digitize::order_key;
use oxide_control::state::{AcrobotBalanceTask, AcrobotState};

fn key(x: f64) -> i64 {
    order_key(x.to_bits())
}

/// Interior edges of `d` evenly spaced buckets over `[lo, hi]`.
fn edges(lo: f64, hi: f64, d: usize) -> Vec<i64> {
    let step = (hi - lo) / d as f64;
    (1..d).map(|i| key(lo + i as f64 * step)).collect()
}

fn task(da: usize, dp: usize) -> AcrobotBalanceTask {
    AcrobotBalanceTask::new(
        da,
        dp,
        5,
        edges(-2.0, 2.0, da),
        edges(-8.0, 8.0, da),
        edges(-1.0, 1.0, dp),
        edges(-8.0, 8.0, dp),
    )
    .unwrap()
}

#[test]
fn encoding_formula_exact() {
    let t = task(2, 3);
    assert_eq!(t.state_size(), 36);
    let s = t.decode_state(34);
    assert_eq!((s.n_pendulum_rad, s.n_pendulum_vel, s.n_arm_rad, s.n_arm_vel), (1, 2, 1, 1));
    assert_eq!(s.digitized_state, 34);
}

#[test]
fn state_index_is_a_bijection() {
    let t = task(3, 4);
    let size = t.state_size();
    assert_eq!(size, 4 * 4 * 3 * 3);
    let mut seen = vec![false; size];
    for i in 0..size {
        let s = t.decode_state(i);
        assert!(s.n_pendulum_rad < 4 && s.n_pendulum_vel < 4 && s.n_arm_rad < 3 && s.n_arm_vel < 3);
        let back = s.n_pendulum_rad + 4 * s.n_pendulum_vel + 16 * s.n_arm_rad + 48 * s.n_arm_vel;
        assert_eq!(back, i);
        assert!(!seen[back]);
        seen[back] = true;
    }
}

#[test]
fn state_of_observation() {
    let t = task(4, 4);
    // arm angle 0.5 lies in bucket 2 of [-2, 2] split in four; arm velocity -8 (clamped) in 0;
    // pendulum angle exactly at its middle edge 0.0 goes above, to 2; pendulum velocity 100 in 3
    let s = t.state(key(0.5), key(-8.0), key(0.0), key(100.0));
    assert_eq!((s.n_arm_rad, s.n_arm_vel, s.n_pendulum_rad, s.n_pendulum_vel), (2, 0, 2, 3));
    assert_eq!(s.digitized_state, 2 + 3 * 4 + 2 * 16 + 0 * 64);
    assert_eq!(t.decode_state(s.digitized_state), s);
}

#[test]
fn clamping_velocity_changes_no_bucket() {
    let t = task(6, 6);
    let a = t.state(key(0.0), key(50.0), key(0.0), key(-50.0));
    let b = t.state(key(0.0), key(8.0), key(0.0), key(-8.0));
    assert_eq!(a, b);
}

#[test]
fn episode_ends_at_outer_angle_buckets() {
    let t = task(5, 5);
    let mid = AcrobotState { n_arm_rad: 2, n_pendulum_rad: 2, n_arm_vel: 0, n_pendulum_vel: 4, digitized_state: 0 };
    assert!(!t.should_finish_episode(&mid));
    assert!(t.should_finish_episode(&AcrobotState { n_arm_rad: 0, ..mid }));
    assert!(t.should_finish_episode(&AcrobotState { n_arm_rad: 4, ..mid }));
    assert!(t.should_finish_episode(&AcrobotState { n_pendulum_rad: 0, ..mid }));
    assert!(t.should_finish_episode(&AcrobotState { n_pendulum_rad: 4, ..mid }));
    assert!(!t.should_finish_episode(&AcrobotState { n_pendulum_rad: 3, n_arm_rad: 1, ..mid }));
}

#[test]
fn task_rejects_bad_edges() {
    // too few edges
    assert!(AcrobotBalanceTask::new(3, 3, 2, vec![1], vec![1, 2], vec![1, 2], vec![1, 2]).is_none());
    // edges out of order
    assert!(AcrobotBalanceTask::new(3, 3, 2, vec![2, 1], vec![1, 2], vec![1, 2], vec![1, 2]).is_none());
    // no buckets
    assert!(AcrobotBalanceTask::new(0, 3, 2, vec![], vec![], vec![1, 2], vec![1, 2]).is_none());
    // too many states for a usize
    let big = 1usize << 20;
    let e: Vec<i64> = (0..(big as i64 - 1)).collect();
    assert!(AcrobotBalanceTask::new(big, big, 2, e.clone(), e.clone(), e.clone(), e).is_none());
    let t = AcrobotBalanceTask::new(3, 2, 7, vec![1, 2], vec![1, 1], vec![0], vec![0]).unwrap();
    assert_eq!((t.n_arm_digitization(), t.n_pendulum_digitization(), t.action_size()), (3, 2, 7));
}
