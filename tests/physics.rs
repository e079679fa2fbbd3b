use oxide_control::error::Error;
use oxide_control::joint::{Ball, Free, Hinge, JointKind, Slide};
use oxide_control::obj::{Actuator, Dof, Joint, ObjectId};
use oxide_control::physics::Physics;

/// A free joint, a hinge, a slide and a hinge without degrees of freedom of its own.
fn sample() -> Physics<f64> {
    Physics::new(
        vec![JointKind::Free, JointKind::Hinge, JointKind::Slide, JointKind::Hinge],
        vec![0, 7, 8, 9],
        vec![Some(0), Some(6), Some(7), None],
        (0..10).map(|i| -(i as f64)).collect(),
        vec![0.5; 10],
        (0..10).map(|i| i as f64).collect(),
        (0..8).map(|i| 100.0 + i as f64).collect(),
        vec![0.0, 0.0],
        0.0,
    )
    .unwrap()
}

#[test]
fn hinge_set_then_get_returns_written_value() {
    let mut p = sample();
    let id = ObjectId::<Joint>::new(1);
    p.set_qpos::<Hinge>(id, &[0.123456789]).unwrap();
    assert_eq!(p.qpos::<Hinge>(id).unwrap(), vec![0.123456789]);
    // the other coordinates are untouched
    assert_eq!(p.qpos::<Slide>(ObjectId::new(2)).unwrap(), vec![8.0]);
    assert_eq!(p.qpos::<Free>(ObjectId::new(0)).unwrap(), vec![0.0, 1.0, 2.0, 3.0, 4.0, 5.0, 6.0]);
}

#[test]
fn hinge_read_on_slide_fails_and_changes_nothing() {
    let mut p = sample();
    let id = ObjectId::<Joint>::new(2);
    let before = p.qpos_data().clone();
    match p.qpos::<Hinge>(id) {
        Err(Error::JointTypeNotMatch { expected, found }) => {
            assert_eq!(expected, JointKind::Hinge);
            assert_eq!(found, JointKind::Slide);
        }
        other => panic!("expected a kind mismatch, got {:?}", other),
    }
    assert!(matches!(p.set_qpos::<Hinge>(id, &[5.0]), Err(Error::JointTypeNotMatch { .. })));
    assert_eq!(p.qpos_data(), &before);
}

#[test]
fn velocity_reads_and_writes_at_dof_address() {
    let mut p = sample();
    assert_eq!(p.qvel::<Free>(ObjectId::new(0)).unwrap(), vec![100.0, 101.0, 102.0, 103.0, 104.0, 105.0]);
    assert_eq!(p.qvel::<Hinge>(ObjectId::new(1)).unwrap(), vec![106.0]);
    p.set_qvel::<Slide>(ObjectId::new(2), &[-3.5]).unwrap();
    assert_eq!(p.qvel::<Slide>(ObjectId::new(2)).unwrap(), vec![-3.5]);
    assert_eq!(p.qvel_data()[6], 106.0);
    assert!(matches!(p.qvel::<Ball>(ObjectId::new(0)), Err(Error::JointTypeNotMatch { .. })));
}

#[test]
fn joint_without_dofs_has_no_velocity() {
    let mut p = sample();
    let id = ObjectId::<Joint>::new(3);
    assert_eq!(p.qvel::<Hinge>(id).unwrap(), Vec::<f64>::new());
    let before = p.qvel_data().clone();
    p.set_qvel::<Hinge>(id, &[1.0]).unwrap();
    assert_eq!(p.qvel_data(), &before);
    assert_eq!(p.qpos::<Hinge>(id).unwrap(), vec![9.0]);
}

#[test]
fn layout_outside_buffers_is_refused() {
    // a free joint needs seven position coordinates
    assert!(Physics::new(vec![JointKind::Free], vec![0], vec![Some(0)], vec![0.0; 6], vec![0.0; 6], vec![0.0; 6], vec![0.0; 6], vec![], 0.0)
        .is_none());
    // a velocity address past the buffer
    assert!(Physics::new(vec![JointKind::Hinge], vec![0], vec![Some(1)], vec![0.0], vec![0.0], vec![0.0], vec![0.0], vec![], 0.0)
        .is_none());
    // a reference pose of another length than the positions
    assert!(Physics::new(vec![JointKind::Hinge], vec![0], vec![Some(0)], vec![0.0; 2], vec![0.0], vec![0.0], vec![0.0], vec![], 0.0)
        .is_none());
    // tables of different lengths
    assert!(Physics::new(vec![JointKind::Hinge], vec![0, 0], vec![Some(0)], vec![0.0], vec![0.0], vec![0.0], vec![0.0], vec![], 0.0)
        .is_none());
    assert!(Physics::<f64>::new(vec![], vec![], vec![], vec![], vec![], vec![], vec![], vec![], 0.0).is_some());
}

#[test]
fn joint_kind_sizes() {
    assert_eq!(JointKind::Free.qpos_size(), 7);
    assert_eq!(JointKind::Free.qvel_size(), 6);
    assert_eq!(JointKind::Ball.qpos_size(), 4);
    assert_eq!(JointKind::Ball.qvel_size(), 3);
    assert_eq!(JointKind::Hinge.qpos_size(), 1);
    assert_eq!(JointKind::Slide.qvel_size(), 1);
    let p = sample();
    assert_eq!(p.njnt(), 4);
    assert_eq!(p.joint_kind(ObjectId::new(2)), JointKind::Slide);
}

#[test]
fn control_is_written_as_given() {
    let mut p = sample();
    let id = ObjectId::<Actuator>::new(1);
    p.set_ctrl(id, 42.5);
    assert_eq!(p.ctrl(id), 42.5);
    assert_eq!(p.ctrl(ObjectId::new(0)), 0.0);
    assert_eq!(p.nu(), 2);
    p.set_time(0.25);
    assert_eq!(p.time(), 0.25);
}

#[test]
fn load_data_replaces_buffers() {
    let mut p = sample();
    p.load_data(vec![1.0; 10], vec![2.0; 8], vec![3.0, 4.0], 9.0);
    assert_eq!(p.qpos::<Hinge>(ObjectId::new(1)).unwrap(), vec![1.0]);
    assert_eq!(p.qvel::<Hinge>(ObjectId::new(1)).unwrap(), vec![2.0]);
    assert_eq!(p.ctrl_data(), &vec![3.0, 4.0]);
    assert_eq!(p.time(), 9.0);
}

#[test]
fn object_counts_per_category() {
    let p = sample();
    assert_eq!(p.object_count_of::<Joint>(), 4);
    assert_eq!(p.object_count_of::<Dof>(), 8);
    assert_eq!(p.object_count_of::<Actuator>(), 2);
}

#[test]
fn reference_poses_are_kind_checked() {
    let p = sample();
    assert_eq!(p.qpos0::<Free>(ObjectId::new(0)).unwrap(), vec![0.0, -1.0, -2.0, -3.0, -4.0, -5.0, -6.0]);
    assert_eq!(p.qpos0::<Slide>(ObjectId::new(2)).unwrap(), vec![-8.0]);
    assert_eq!(p.qpos_spring::<Hinge>(ObjectId::new(1)).unwrap(), vec![0.5]);
    assert!(matches!(
        p.qpos0::<Hinge>(ObjectId::new(0)),
        Err(Error::JointTypeNotMatch { expected: JointKind::Hinge, found: JointKind::Free })
    ));
    assert!(matches!(p.qpos_spring::<Ball>(ObjectId::new(2)), Err(Error::JointTypeNotMatch { .. })));
}
