use robots_sim::arm::Arm;
use robots_sim::joint::{
    ConfigError, Joint, JointId, Limit, SecondaryAxis, ELBOW_HI, ELBOW_LO, LOWER_ARM_HI,
    LOWER_ARM_LO, UPPER_ARM_HI, UPPER_ARM_LO,
};
use robots_sim::keys::KeysHeld;
use robots_sim::orientation::{Axis, Orientation, MAX_SPEED, ONE_DEGREE};

const SPEED: i64 = ONE_DEGREE;

const ALL_IDS: [JointId; 5] = [
    JointId::Shoulder,
    JointId::LowerArm,
    JointId::Elbow,
    JointId::UpperArm,
    JointId::Wrist,
];

fn new_arm() -> Arm {
    Arm::new(SPEED).unwrap()
}

fn keys_select(n: u8) -> KeysHeld {
    let mut keys = KeysHeld::none();
    match n {
        1 => keys.key1 = true,
        2 => keys.key2 = true,
        3 => keys.key3 = true,
        4 => keys.key4 = true,
        5 => keys.key5 = true,
        _ => {}
    }
    keys
}

#[test]
fn arm_construction_validates_speed() {
    assert_eq!(Arm::new(0).unwrap_err(), ConfigError::SpeedOutOfRange);
    assert_eq!(Arm::new(-1).unwrap_err(), ConfigError::SpeedOutOfRange);
    assert_eq!(Arm::new(MAX_SPEED + 1).unwrap_err(), ConfigError::SpeedOutOfRange);
    assert!(Arm::new(MAX_SPEED).is_ok());

    let arm = new_arm();
    for id in ALL_IDS {
        assert_eq!(arm.pose(id), Orientation { x: 0, y: 0, z: 0 });
        assert!(!arm.is_active(id));
    }
}

#[test]
fn joint_construction_rejects_misconfiguration() {
    // A reversed limit is refused before the controller ever runs.
    assert_eq!(
        Joint::new(Axis::X, SPEED, true, Some(Limit { lo: 100_000, hi: -100_000 }), None)
            .unwrap_err(),
        ConfigError::ReversedBounds
    );
    assert_eq!(
        Joint::new(Axis::X, 0, true, None, None).unwrap_err(),
        ConfigError::SpeedOutOfRange
    );
    assert_eq!(
        Joint::new(Axis::X, MAX_SPEED + 1, true, None, None).unwrap_err(),
        ConfigError::SpeedOutOfRange
    );
    assert_eq!(
        Joint::new(Axis::X, 100_000, true, Some(Limit { lo: -3_100_000, hi: 0 }), None)
            .unwrap_err(),
        ConfigError::BoundsOutOfRange
    );
    assert_eq!(
        Joint::new(
            Axis::Y,
            SPEED,
            true,
            None,
            Some(SecondaryAxis { axis: Axis::Y, down_positive: true })
        )
        .unwrap_err(),
        ConfigError::SecondaryOnSameAxis
    );

    let joint = Joint::new(
        Axis::X,
        SPEED,
        false,
        Some(Limit { lo: UPPER_ARM_LO, hi: UPPER_ARM_HI }),
        None,
    )
    .unwrap();
    assert_eq!(joint.axis, Axis::X);
    assert_eq!(joint.speed, SPEED);
    assert!(!joint.left_positive);
    assert_eq!(joint.limit, Some(Limit { lo: UPPER_ARM_LO, hi: UPPER_ARM_HI }));
    assert_eq!(joint.secondary, None);
}

#[test]
fn tick_activates_exactly_the_selected_joint() {
    let mut arm = new_arm();
    arm.tick(&keys_select(3));
    assert!(arm.is_active(JointId::Elbow));
    for id in ALL_IDS {
        if id != JointId::Elbow {
            assert!(!arm.is_active(id));
        }
    }
}

#[test]
fn releasing_the_numeric_key_deselects_immediately() {
    let mut arm = new_arm();
    arm.tick(&keys_select(2));
    assert!(arm.is_active(JointId::LowerArm));
    arm.tick(&KeysHeld::none());
    for id in ALL_IDS {
        assert!(!arm.is_active(id));
    }
}

#[test]
fn inactive_joints_keep_their_orientation_bit_for_bit() {
    let mut arm = new_arm();
    // Put some joints in distinctive states first.
    let mut keys = keys_select(1);
    keys.left = true;
    arm.tick(&keys);
    let shoulder_before = arm.pose(JointId::Shoulder);
    assert_ne!(shoulder_before, Orientation { x: 0, y: 0, z: 0 });

    // Now drive the elbow; every other joint must be untouched.
    let mut keys = keys_select(3);
    keys.left = true;
    keys.right = true;
    keys.up = true;
    keys.down = true;
    let before: Vec<Orientation> = ALL_IDS.iter().map(|id| arm.pose(*id)).collect();
    arm.tick(&keys);
    for (i, id) in ALL_IDS.iter().enumerate() {
        if *id != JointId::Elbow {
            assert_eq!(arm.pose(*id), before[i]);
        }
    }
}

#[test]
fn directional_keys_without_a_selection_move_nothing() {
    let mut arm = new_arm();
    let mut keys = KeysHeld::none();
    keys.left = true;
    keys.up = true;
    arm.tick(&keys);
    for id in ALL_IDS {
        assert_eq!(arm.pose(id), Orientation { x: 0, y: 0, z: 0 });
    }
}

#[test]
fn scenario_unbounded_yaw_accumulates_and_wraps() {
    // Hold "1" and Left for 200 ticks at one degree per tick: the shoulder
    // yaw is 200 sequential compositions, wrapped into one turn.
    let mut arm = new_arm();
    let mut keys = keys_select(1);
    keys.left = true;
    for _ in 0..200 {
        arm.tick(&keys);
    }
    // 200 * 17_453 = 3_490_600, one full turn (6_283_186) beyond -pi.
    assert_eq!(arm.pose(JointId::Shoulder).y, 3_490_600 - 6_283_186);
    assert_eq!(arm.pose(JointId::Shoulder).y, -2_792_586);
}

#[test]
fn scenario_bounded_elbow_stops_after_one_overshoot() {
    // Start the elbow just under its ceiling and hold "3" and Left: the
    // increment is applied once more (one tick of overshoot) and then
    // refused.
    let mut arm = new_arm();
    assert!(arm.set_pose(JointId::Elbow, Orientation { x: 90_000, y: 0, z: 0 }));
    let mut keys = keys_select(3);
    keys.left = true;
    for _ in 0..5 {
        arm.tick(&keys);
    }
    assert_eq!(arm.pose(JointId::Elbow).x, 90_000 + SPEED);
    assert!(arm.pose(JointId::Elbow).x <= ELBOW_HI + SPEED);
}

#[test]
fn scenario_simultaneous_opposite_keys_cancel() {
    let mut arm = new_arm();
    let mut keys = keys_select(1);
    keys.left = true;
    keys.right = true;
    arm.tick(&keys);
    assert_eq!(arm.pose(JointId::Shoulder), Orientation { x: 0, y: 0, z: 0 });
    assert!(arm.is_active(JointId::Shoulder));
}

#[test]
fn long_runs_keep_every_limited_joint_inside_its_soft_range() {
    let mut arm = new_arm();
    // Hammer each limited joint against both bounds in turn.
    for (n, id, lo, hi) in [
        (2u8, JointId::LowerArm, LOWER_ARM_LO, LOWER_ARM_HI),
        (3u8, JointId::Elbow, ELBOW_LO, ELBOW_HI),
        (4u8, JointId::UpperArm, UPPER_ARM_LO, UPPER_ARM_HI),
    ] {
        let mut keys = keys_select(n);
        keys.left = true;
        for _ in 0..200 {
            arm.tick(&keys);
            let c = arm.pose(id).x;
            assert!(lo - SPEED <= c && c <= hi + SPEED);
        }
        let mut keys = keys_select(n);
        keys.right = true;
        for _ in 0..200 {
            arm.tick(&keys);
            let c = arm.pose(id).x;
            assert!(lo - SPEED <= c && c <= hi + SPEED);
        }
    }
}

#[test]
fn set_pose_applies_the_limit_checks_uniformly() {
    let mut arm = new_arm();

    // Within the soft range: applied.
    assert!(arm.set_pose(JointId::Elbow, Orientation { x: ELBOW_HI + SPEED, y: 0, z: 0 }));
    assert_eq!(arm.pose(JointId::Elbow).x, ELBOW_HI + SPEED);

    // One unit beyond the soft range: refused, arm untouched.
    let before = arm.pose(JointId::Elbow);
    assert!(!arm.set_pose(JointId::Elbow, Orientation { x: ELBOW_HI + SPEED + 1, y: 0, z: 0 }));
    assert_eq!(arm.pose(JointId::Elbow), before);

    // An unlimited joint accepts any well-formed orientation...
    assert!(arm.set_pose(JointId::Shoulder, Orientation { x: 0, y: 3_000_000, z: 0 }));
    // ...but not one outside a half turn of zero.
    assert!(!arm.set_pose(JointId::Shoulder, Orientation { x: 0, y: 4_000_000, z: 0 }));
}
