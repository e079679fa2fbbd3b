use oxide_control::qtable::{Action, QTable, State};

#[test]
fn new_table_is_filled_and_sized() {
    let t = QTable::new(3, 4, 0.5f64).unwrap();
    assert_eq!((t.state_size(), t.action_size()), (3, 4));
    assert_eq!(t.cells_data(), &vec![0.5; 12]);
    assert!(QTable::new(usize::MAX, 2, 0.0f64).is_none());
}

#[test]
fn set_then_get_and_rows() {
    let mut t = QTable::new(3, 2, 0.0f64).unwrap();
    let s = State::new_on(&t, 1).unwrap();
    let a = Action::new_on(&t, 1).unwrap();
    t.set(s, a, 7.25);
    assert_eq!(t.get(s, a), 7.25);
    assert_eq!(t.row(s), vec![0.0, 7.25]);
    assert_eq!(t.cells_data(), &vec![0.0, 0.0, 0.0, 7.25, 0.0, 0.0]);
    assert_eq!((s.index(), a.index()), (1, 1));
}

#[test]
fn indices_are_checked_against_the_table() {
    let t = QTable::new(3, 2, 0u8).unwrap();
    assert!(State::new_on(&t, 3).is_none());
    assert!(Action::new_on(&t, 2).is_none());
    assert!(State::new_on(&t, 2).is_some());
}

#[test]
fn from_cells_checks_count() {
    assert!(QTable::from_cells(2, 2, vec![1.0f64, 2.0, 3.0]).is_none());
    let t = QTable::from_cells(2, 2, vec![1.0f64, 2.0, 3.0, 4.0]).unwrap();
    assert_eq!(t.row(State::new_on(&t, 1).unwrap()), vec![3.0, 4.0]);
}
