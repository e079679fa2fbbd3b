use oxide_control::strategy::{best_action, select_action, Strategy};

#[test]
fn ties_go_to_first_occurrence() {
    assert_eq!(best_action(&[1, 5, 5, 2]), 1);
    assert_eq!(best_action(&[7, 7, 7]), 0);
    assert_eq!(best_action(&[-3]), 0);
    assert_eq!(best_action(&[-3, -1, -2]), 1);
}

#[test]
fn most_q_value_picks_unique_maximum_every_time() {
    let row = [3, -1, 12, 11, 0];
    for draw in 0..5 {
        for explore in [false, true] {
            assert_eq!(select_action(Strategy::MostQValue, &row, explore, draw), 2);
        }
    }
}

#[test]
fn random_strategy_takes_the_draw() {
    let row = [3, -1, 12, 11, 0];
    for draw in 0..5 {
        assert_eq!(select_action(Strategy::Random, &row, false, draw), draw);
    }
}

#[test]
fn epsilon_greedy_explores_only_when_drawn() {
    let row = [3, -1, 12, 11, 0];
    assert_eq!(select_action(Strategy::EpsilonGreedy, &row, true, 4), 4);
    assert_eq!(select_action(Strategy::EpsilonGreedy, &row, false, 4), 2);
}
