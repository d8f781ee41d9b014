use robots_sim::elbow::{elbow_rotate, ElbowRotate};
use robots_sim::keys::KeysHeld;
use robots_sim::lower_arm::{lower_arm_rotate, LowerArmRotate};
use robots_sim::orientation::{Axis, Orientation, ONE_DEGREE};
use robots_sim::shoulder::{shoulder_rotate, ShoulderRotate};
use robots_sim::upper_arm::{upper_arm_rotate, UpperArmRotate};
use robots_sim::wrist::{wrist_rotate, WristRotate};

const SPEED: i64 = ONE_DEGREE;

fn identity() -> Orientation {
    Orientation { x: 0, y: 0, z: 0 }
}

fn keys_left() -> KeysHeld {
    let mut keys = KeysHeld::none();
    keys.left = true;
    keys
}

fn keys_right() -> KeysHeld {
    let mut keys = KeysHeld::none();
    keys.right = true;
    keys
}

#[test]
fn inactive_joint_is_a_no_op() {
    let start = Orientation { x: 11, y: 22, z: 33 };
    let mut keys = keys_left();
    keys.right = true;
    keys.up = true;
    keys.down = true;

    let mut pose = start;
    shoulder_rotate(
        &ShoulderRotate { rotation_speed: SPEED, can_move: false },
        &keys,
        &mut pose,
    );
    assert_eq!(pose, start);

    let mut pose = start;
    elbow_rotate(&ElbowRotate { rotation_speed: SPEED, can_move: false }, &keys, &mut pose);
    assert_eq!(pose, start);

    let mut pose = start;
    wrist_rotate(&WristRotate { rotation_speed: SPEED, can_move: false }, &keys, &mut pose);
    assert_eq!(pose, start);
}

#[test]
fn shoulder_left_yaws_positive_and_right_negative() {
    let object = ShoulderRotate { rotation_speed: SPEED, can_move: true };
    let mut pose = identity();
    shoulder_rotate(&object, &keys_left(), &mut pose);
    assert_eq!(pose, Orientation { x: 0, y: SPEED, z: 0 });
    let mut pose = identity();
    shoulder_rotate(&object, &keys_right(), &mut pose);
    assert_eq!(pose, Orientation { x: 0, y: -SPEED, z: 0 });
}

#[test]
fn shoulder_opposite_keys_compose_to_identity() {
    let object = ShoulderRotate { rotation_speed: SPEED, can_move: true };
    let mut keys = keys_left();
    keys.right = true;
    let start = Orientation { x: 0, y: 3_000_000, z: 0 };
    let mut pose = start;
    shoulder_rotate(&object, &keys, &mut pose);
    assert_eq!(pose, start);
}

#[test]
fn shoulder_yaw_wraps_at_half_turn() {
    let object = ShoulderRotate { rotation_speed: SPEED, can_move: true };
    let mut pose = Orientation { x: 0, y: 3_141_540, z: 0 };
    shoulder_rotate(&object, &keys_left(), &mut pose);
    // 3_141_540 + 17_453 crosses pi and wraps by one full turn.
    assert_eq!(pose.y, -3_124_193);
}

#[test]
fn lower_arm_signs_and_gates() {
    let object = LowerArmRotate { rotation_speed: SPEED, can_move: true };

    let mut pose = identity();
    lower_arm_rotate(&object, &keys_left(), &mut pose);
    assert_eq!(pose.x, SPEED);

    let mut pose = identity();
    lower_arm_rotate(&object, &keys_right(), &mut pose);
    assert_eq!(pose.x, -SPEED);

    // At the ceiling the positive increment is refused.
    let mut pose = Orientation { x: 700_000, y: 0, z: 0 };
    lower_arm_rotate(&object, &keys_left(), &mut pose);
    assert_eq!(pose.x, 700_000);

    // At the floor the negative increment is refused.
    let mut pose = Orientation { x: -300_000, y: 0, z: 0 };
    lower_arm_rotate(&object, &keys_right(), &mut pose);
    assert_eq!(pose.x, -300_000);

    // Just under the ceiling: applied once, overshooting by under one step.
    let mut pose = Orientation { x: 699_999, y: 0, z: 0 };
    lower_arm_rotate(&object, &keys_left(), &mut pose);
    assert_eq!(pose.x, 699_999 + SPEED);
}

#[test]
fn elbow_gate_reads_the_pre_tick_value_for_both_keys() {
    let object = ElbowRotate { rotation_speed: SPEED, can_move: true };
    let mut keys = keys_left();
    keys.right = true;

    // Both gates pass on the pre-tick value; the two increments cancel.
    let mut pose = Orientation { x: 99_999, y: 0, z: 0 };
    elbow_rotate(&object, &keys, &mut pose);
    assert_eq!(pose.x, 99_999);

    // At the ceiling only the negative increment is admitted.
    let mut pose = Orientation { x: 100_000, y: 0, z: 0 };
    elbow_rotate(&object, &keys, &mut pose);
    assert_eq!(pose.x, 100_000 - SPEED);
}

#[test]
fn upper_arm_has_the_opposite_sign_convention() {
    let object = UpperArmRotate { rotation_speed: SPEED, can_move: true };

    let mut pose = identity();
    upper_arm_rotate(&object, &keys_left(), &mut pose);
    assert_eq!(pose.x, -SPEED);

    let mut pose = identity();
    upper_arm_rotate(&object, &keys_right(), &mut pose);
    assert_eq!(pose.x, SPEED);

    // Left is gated by the floor, right by the ceiling.
    let mut pose = Orientation { x: -200_000, y: 0, z: 0 };
    upper_arm_rotate(&object, &keys_left(), &mut pose);
    assert_eq!(pose.x, -200_000);

    let mut pose = Orientation { x: 100_000, y: 0, z: 0 };
    upper_arm_rotate(&object, &keys_right(), &mut pose);
    assert_eq!(pose.x, 100_000);
}

#[test]
fn wrist_drives_both_axes() {
    let object = WristRotate { rotation_speed: SPEED, can_move: true };

    let mut pose = identity();
    wrist_rotate(&object, &keys_left(), &mut pose);
    assert_eq!(pose, Orientation { x: 0, y: SPEED, z: 0 });

    let mut keys = KeysHeld::none();
    keys.up = true;
    let mut pose = identity();
    wrist_rotate(&object, &keys, &mut pose);
    assert_eq!(pose, Orientation { x: -SPEED, y: 0, z: 0 });

    let mut keys = KeysHeld::none();
    keys.down = true;
    let mut pose = identity();
    wrist_rotate(&object, &keys, &mut pose);
    assert_eq!(pose, Orientation { x: SPEED, y: 0, z: 0 });

    // Primary and secondary axes in the same tick.
    let mut keys = keys_right();
    keys.down = true;
    let mut pose = identity();
    wrist_rotate(&object, &keys, &mut pose);
    assert_eq!(pose, Orientation { x: SPEED, y: -SPEED, z: 0 });

    // Opposite secondary keys cancel.
    let mut keys = KeysHeld::none();
    keys.up = true;
    keys.down = true;
    let start = Orientation { x: 123, y: 456, z: 0 };
    let mut pose = start;
    wrist_rotate(&object, &keys, &mut pose);
    assert_eq!(pose, start);
}

#[test]
fn compose_then_inverse_restores_the_orientation() {
    let start = Orientation { x: 1_000, y: -2_000, z: 3_000 };
    let mut pose = start;
    pose.compose(Axis::Y, SPEED);
    assert_ne!(pose, start);
    pose.compose(Axis::Y, -SPEED);
    assert_eq!(pose, start);

    // The same holds across the wrap boundary.
    let start = Orientation { x: 0, y: 3_141_540, z: 0 };
    let mut pose = start;
    pose.compose(Axis::Y, SPEED);
    assert_eq!(pose.y, -3_124_193);
    pose.compose(Axis::Y, -SPEED);
    assert_eq!(pose, start);
}
