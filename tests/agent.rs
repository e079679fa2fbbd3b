use oxide_control::agent::{make_digitized_actions, AcrobotAction, QTableAgent};
use oxide_control::digitize::order_key;
use oxide_control::obj::{Actuator, ObjectId};
use oxide_control::state::AcrobotBalanceTask;
use oxide_control::strategy::Strategy;

fn task() -> AcrobotBalanceTask {
    AcrobotBalanceTask::new(3, 2, 3, vec![-10, 10], vec![-10, 10], vec![0], vec![0]).unwrap()
}

fn keys(row: &[f64]) -> Vec<i64> {
    row.iter().map(|x| order_key(x.to_bits())).collect()
}

#[test]
fn ladder_keeps_order_and_indices() {
    let id = ObjectId::<Actuator>::new(4);
    let ladder = make_digitized_actions(id, &[-1.0, 0.0, 1.0]);
    assert_eq!(ladder.len(), 3);
    for (i, a) in ladder.iter().enumerate() {
        assert_eq!(a.digitization_index, i);
        assert_eq!(a.actuator_id.index(), 4);
        assert_eq!(a.torque, -1.0 + i as f64);
    }
}

#[test]
fn new_agent_has_zero_table_of_task_size() {
    let a = QTableAgent::new(&task(), ObjectId::new(0), &[-1.0, 0.0, 1.0], 0.0).unwrap();
    assert_eq!(a.qtable().state_size(), 2 * 2 * 3 * 3);
    assert_eq!(a.action_size(), 3);
    assert!(a.qtable().cells_data().iter().all(|&x| x == 0.0));
    assert!(QTableAgent::new(&task(), ObjectId::new(0), &[] as &[f64], 0.0).is_none());
}

#[test]
fn greedy_action_follows_learned_value() {
    let t = task();
    let mut a = QTableAgent::new(&t, ObjectId::new(0), &[-1.0, 0.0, 1.0], 0.0).unwrap();
    let s = t.state(0, 0, 0, 0);
    let best = a.digitized_actions()[2];
    a.set_value(&s, &best, 3.5);
    assert_eq!(a.value(&s, &best), 3.5);
    let row = a.row(&s);
    assert_eq!(row, vec![0.0, 0.0, 3.5]);
    for _ in 0..3 {
        let chosen = a.get_action(Strategy::MostQValue, &s, &keys(&row), true, 0);
        assert_eq!(chosen.digitization_index, 2);
        assert_eq!(chosen.torque, 1.0);
    }
    let explored = a.get_action(Strategy::EpsilonGreedy, &s, &keys(&row), true, 1);
    assert_eq!(explored.digitization_index, 1);
}

#[test]
fn reassembled_agent_is_identical() {
    let t = task();
    let mut a = QTableAgent::new(&t, ObjectId::new(2), &[-0.5, 0.25, 0.75], 0.0).unwrap();
    let s = t.state(20, -20, 5, -5);
    let act = a.digitized_actions()[1];
    a.set_value(&s, &act, -1.0 / 3.0);
    let ladder: Vec<AcrobotAction<f64>> = a.digitized_actions().clone();
    let b = QTableAgent::from_parts(
        ladder.clone(),
        a.qtable().state_size(),
        a.qtable().cells_data().clone(),
        a.n_arm_digitization(),
        a.n_pendulum_digitization(),
    )
    .unwrap();
    assert_eq!(b.qtable().cells_data(), a.qtable().cells_data());
    assert_eq!(b.n_arm_digitization(), 3);
    assert_eq!(b.n_pendulum_digitization(), 2);
    for (x, y) in b.digitized_actions().iter().zip(ladder.iter()) {
        assert_eq!((x.digitization_index, x.torque, x.actuator_id.index()), (y.digitization_index, y.torque, y.actuator_id.index()));
    }
    let row = b.row(&s);
    assert_eq!(b.get_action(Strategy::MostQValue, &s, &keys(&row), false, 0).digitization_index, 0);
}

#[test]
fn reassembly_rejects_inconsistent_parts() {
    let id = ObjectId::<Actuator>::new(0);
    let ladder = make_digitized_actions(id, &[0.0, 1.0]);
    // 3 x 3 x 2 x 2 states, two actions each
    assert!(QTableAgent::from_parts(ladder.clone(), 36, vec![0.0; 72], 3, 2).is_some());
    assert!(QTableAgent::from_parts(ladder.clone(), 36, vec![0.0; 71], 3, 2).is_none());
    assert!(QTableAgent::from_parts(ladder.clone(), 35, vec![0.0; 70], 3, 2).is_none());
    let mut swapped = ladder.clone();
    swapped.swap(0, 1);
    assert!(QTableAgent::from_parts(swapped, 36, vec![0.0; 72], 3, 2).is_none());
    assert!(QTableAgent::from_parts(Vec::<AcrobotAction<f64>>::new(), 36, vec![], 3, 2).is_none());
}
