//! The arm registry: the five joints of the fixed serial chain, their
//! orientations, and the per-tick update.
//!
//! The registry holds one orientation per joint and a single selection
//! value, assigned once per tick by the selector; a joint's `can_move` flag
//! is derived from equality against that value. Each tick runs the selector
//! first and then the five rotation controllers, each of which touches only
//! its own joint's orientation. The chain order (shoulder, lower arm, elbow,
//! upper arm, wrist) matters for display only; no orientation change is
//! propagated between joints.

use vstd::prelude::*;
use crate::controller::{lemma_rotated_wf, lemma_soft_bound_preserved, rotated};
use crate::elbow::{elbow_rotate, ElbowRotate};
use crate::joint::{
    canonical_joint,
    lemma_canonical_wf,
    ConfigError,
    JointId,
    Limit,
    ELBOW_HI,
    ELBOW_LO,
    LOWER_ARM_HI,
    LOWER_ARM_LO,
    UPPER_ARM_HI,
    UPPER_ARM_LO,
};
use crate::keys::KeysHeld;
use crate::lower_arm::{lower_arm_rotate, LowerArmRotate};
use crate::orientation::{Orientation, MAX_SPEED};
use crate::selector::{select_active, selected};
use crate::shoulder::{shoulder_rotate, ShoulderRotate};
use crate::upper_arm::{upper_arm_rotate, UpperArmRotate};
use crate::wrist::{wrist_rotate, WristRotate};

verus! {

/// The five joints of the arm: one shared per-tick increment, the tick's
/// selection, and one orientation per joint.
#[derive(Clone, Copy, Debug, PartialEq, Eq, Structural)]
pub struct Arm {
    /// Angular increment each joint applies per held directional key, in
    /// scaled units.
    pub speed: i64,
    /// The joint selected by the current tick's held numeric key, if any.
    pub active: Option<JointId>,
    pub shoulder_pose: Orientation,
    pub lower_arm_pose: Orientation,
    pub elbow_pose: Orientation,
    pub upper_arm_pose: Orientation,
    pub wrist_pose: Orientation,
}

impl Arm {
    /// The orientation of joint `id`.
    pub open spec fn pose_of(self, id: JointId) -> Orientation {
        match id {
            JointId::Shoulder => self.shoulder_pose,
            JointId::LowerArm => self.lower_arm_pose,
            JointId::Elbow => self.elbow_pose,
            JointId::UpperArm => self.upper_arm_pose,
            JointId::Wrist => self.wrist_pose,
        }
    }

    /// A joint is active exactly when it equals the tick's selection.
    pub open spec fn joint_active(self, id: JointId) -> bool {
        self.active == Some(id)
    }

    /// Soft-bound containment: each limited joint's tracked scalar lies
    /// within one increment of its travel bounds.
    pub open spec fn soft_contained(self) -> bool {
        &&& LOWER_ARM_LO - self.speed <= self.lower_arm_pose.x <= LOWER_ARM_HI + self.speed
        &&& ELBOW_LO - self.speed <= self.elbow_pose.x <= ELBOW_HI + self.speed
        &&& UPPER_ARM_LO - self.speed <= self.upper_arm_pose.x <= UPPER_ARM_HI + self.speed
    }

    /// The arm's invariant: a usable speed, well-formed orientations, and
    /// soft-bound containment of every limited joint.
    pub open spec fn wf(self) -> bool {
        &&& 0 < self.speed <= MAX_SPEED
        &&& self.shoulder_pose.wf()
        &&& self.lower_arm_pose.wf()
        &&& self.elbow_pose.wf()
        &&& self.upper_arm_pose.wf()
        &&& self.wrist_pose.wf()
        &&& self.soft_contained()
    }

    /// The startup state for a given speed: every joint at the identity
    /// orientation, none selected.
    pub open spec fn initial(speed: i64) -> Arm {
        Arm {
            speed,
            active: None,
            shoulder_pose: Orientation { x: 0, y: 0, z: 0 },
            lower_arm_pose: Orientation { x: 0, y: 0, z: 0 },
            elbow_pose: Orientation { x: 0, y: 0, z: 0 },
            upper_arm_pose: Orientation { x: 0, y: 0, z: 0 },
            wrist_pose: Orientation { x: 0, y: 0, z: 0 },
        }
    }

    /// Builds the arm in its startup state, rejecting an unusable speed
    /// before the controller ever runs.
    pub fn new(speed: i64) -> (r: Result<Arm, ConfigError>)
        ensures
            r is Ok <==> 0 < speed <= MAX_SPEED,
            r matches Ok(a) ==> a == Arm::initial(speed) && a.wf(),
            r matches Err(e) ==> e == ConfigError::SpeedOutOfRange,
    {
        if 0 < speed && speed <= MAX_SPEED {
            Ok(
                Arm {
                    speed,
                    active: None,
                    shoulder_pose: Orientation::identity(),
                    lower_arm_pose: Orientation::identity(),
                    elbow_pose: Orientation::identity(),
                    upper_arm_pose: Orientation::identity(),
                    wrist_pose: Orientation::identity(),
                },
            )
        } else {
            Err(ConfigError::SpeedOutOfRange)
        }
    }

    /// Runs one fixed tick: the selector assigns the selection from the held
    /// numeric keys, then every joint's rotation controller runs against
    /// that selection.
    pub fn tick(&mut self, keys: &KeysHeld)
        requires
            old(self).wf(),
        ensures
            *final(self) == ticked(*old(self), *keys),
            final(self).wf(),
    {
        let sel = select_active(keys);
        self.active = sel;
        let shoulder = ShoulderRotate {
            rotation_speed: self.speed,
            can_move: selection_is(&sel, JointId::Shoulder),
        };
        shoulder_rotate(&shoulder, keys, &mut self.shoulder_pose);
        let lower_arm = LowerArmRotate {
            rotation_speed: self.speed,
            can_move: selection_is(&sel, JointId::LowerArm),
        };
        lower_arm_rotate(&lower_arm, keys, &mut self.lower_arm_pose);
        let elbow = ElbowRotate {
            rotation_speed: self.speed,
            can_move: selection_is(&sel, JointId::Elbow),
        };
        elbow_rotate(&elbow, keys, &mut self.elbow_pose);
        let upper_arm = UpperArmRotate {
            rotation_speed: self.speed,
            can_move: selection_is(&sel, JointId::UpperArm),
        };
        upper_arm_rotate(&upper_arm, keys, &mut self.upper_arm_pose);
        let wrist = WristRotate {
            rotation_speed: self.speed,
            can_move: selection_is(&sel, JointId::Wrist),
        };
        wrist_rotate(&wrist, keys, &mut self.wrist_pose);
        proof {
            lemma_ticked_soft_contained(*old(self), *keys);
        }
    }

    /// Whether an absolute orientation write to joint `id` is admissible:
    /// the orientation is well-formed and a limited joint's tracked scalar
    /// lies within the soft range of its travel bounds.
    pub open spec fn pose_admissible(self, id: JointId, pose: Orientation) -> bool {
        &&& pose.wf()
        &&& match id {
            JointId::LowerArm => LOWER_ARM_LO - self.speed <= pose.x <= LOWER_ARM_HI + self.speed,
            JointId::Elbow => ELBOW_LO - self.speed <= pose.x <= ELBOW_HI + self.speed,
            JointId::UpperArm => UPPER_ARM_LO - self.speed <= pose.x <= UPPER_ARM_HI + self.speed,
            _ => true,
        }
    }

    /// The arm with joint `id`'s orientation replaced and all else kept.
    pub open spec fn with_pose(self, id: JointId, pose: Orientation) -> Arm {
        match id {
            JointId::Shoulder => Arm { shoulder_pose: pose, ..self },
            JointId::LowerArm => Arm { lower_arm_pose: pose, ..self },
            JointId::Elbow => Arm { elbow_pose: pose, ..self },
            JointId::UpperArm => Arm { upper_arm_pose: pose, ..self },
            JointId::Wrist => Arm { wrist_pose: pose, ..self },
        }
    }

    /// Requests an absolute orientation write to joint `id`, as an outside
    /// input path (a slider panel, say) would. The write is applied exactly
    /// when it is admissible, so travel-limit containment holds uniformly
    /// whichever caller requests a pose; an inadmissible write leaves the
    /// arm untouched.
    pub fn set_pose(&mut self, id: JointId, pose: Orientation) -> (applied: bool)
        requires
            old(self).wf(),
        ensures
            applied == old(self).pose_admissible(id, pose),
            applied ==> *final(self) == old(self).with_pose(id, pose),
            !applied ==> *final(self) == *old(self),
            final(self).wf(),
    {
        let admissible = pose.check_wf() && match id {
            JointId::LowerArm => LOWER_ARM_LO - self.speed <= pose.x && pose.x <= LOWER_ARM_HI
                + self.speed,
            JointId::Elbow => ELBOW_LO - self.speed <= pose.x && pose.x <= ELBOW_HI + self.speed,
            JointId::UpperArm => UPPER_ARM_LO - self.speed <= pose.x && pose.x <= UPPER_ARM_HI
                + self.speed,
            _ => true,
        };
        if admissible {
            match id {
                JointId::Shoulder => {
                    self.shoulder_pose = pose;
                },
                JointId::LowerArm => {
                    self.lower_arm_pose = pose;
                },
                JointId::Elbow => {
                    self.elbow_pose = pose;
                },
                JointId::UpperArm => {
                    self.upper_arm_pose = pose;
                },
                JointId::Wrist => {
                    self.wrist_pose = pose;
                },
            }
            true
        } else {
            false
        }
    }

    /// Reads joint `id`'s orientation, as the telemetry display does.
    pub fn pose(&self, id: JointId) -> (r: Orientation)
        ensures
            r == self.pose_of(id),
    {
        match id {
            JointId::Shoulder => self.shoulder_pose,
            JointId::LowerArm => self.lower_arm_pose,
            JointId::Elbow => self.elbow_pose,
            JointId::UpperArm => self.upper_arm_pose,
            JointId::Wrist => self.wrist_pose,
        }
    }

    /// Whether joint `id` is the currently selected target of input.
    pub fn is_active(&self, id: JointId) -> (b: bool)
        ensures
            b == self.joint_active(id),
    {
        selection_is(&self.active, id)
    }
}

/// Whether the selection names joint `id`.
fn selection_is(sel: &Option<JointId>, id: JointId) -> (b: bool)
    ensures
        b == (*sel == Some(id)),
{
    match sel {
        Some(s) => *s == id,
        None => false,
    }
}

/// The arm after one fixed tick on the given held keys: the selection is
/// rewritten from the numeric keys, and each joint's orientation advances by
/// its own controller, active exactly when it equals the new selection.
pub open spec fn ticked(arm: Arm, keys: KeysHeld) -> Arm {
    let sel = selected(keys);
    Arm {
        speed: arm.speed,
        active: sel,
        shoulder_pose: rotated(
            canonical_joint(JointId::Shoulder, arm.speed),
            sel == Some(JointId::Shoulder),
            keys,
            arm.shoulder_pose,
        ),
        lower_arm_pose: rotated(
            canonical_joint(JointId::LowerArm, arm.speed),
            sel == Some(JointId::LowerArm),
            keys,
            arm.lower_arm_pose,
        ),
        elbow_pose: rotated(
            canonical_joint(JointId::Elbow, arm.speed),
            sel == Some(JointId::Elbow),
            keys,
            arm.elbow_pose,
        ),
        upper_arm_pose: rotated(
            canonical_joint(JointId::UpperArm, arm.speed),
            sel == Some(JointId::UpperArm),
            keys,
            arm.upper_arm_pose,
        ),
        wrist_pose: rotated(
            canonical_joint(JointId::Wrist, arm.speed),
            sel == Some(JointId::Wrist),
            keys,
            arm.wrist_pose,
        ),
    }
}

/// The arm after a whole sequence of ticks, first input first.
pub open spec fn run(arm: Arm, inputs: Seq<KeysHeld>) -> Arm
    decreases inputs.len(),
{
    if inputs.len() == 0 {
        arm
    } else {
        run(ticked(arm, inputs[0]), inputs.drop_first())
    }
}

/// Soft-bound containment across one tick: each limited joint's tracked
/// scalar stays within one increment of its travel bounds.
proof fn lemma_ticked_soft_contained(arm: Arm, keys: KeysHeld)
    requires
        arm.wf(),
    ensures
        ticked(arm, keys).soft_contained(),
{
    let sel = selected(keys);
    lemma_canonical_wf(JointId::LowerArm, arm.speed);
    lemma_soft_bound_preserved(
        canonical_joint(JointId::LowerArm, arm.speed),
        Limit { lo: LOWER_ARM_LO, hi: LOWER_ARM_HI },
        sel == Some(JointId::LowerArm),
        keys,
        arm.lower_arm_pose,
    );
    lemma_canonical_wf(JointId::Elbow, arm.speed);
    lemma_soft_bound_preserved(
        canonical_joint(JointId::Elbow, arm.speed),
        Limit { lo: ELBOW_LO, hi: ELBOW_HI },
        sel == Some(JointId::Elbow),
        keys,
        arm.elbow_pose,
    );
    lemma_canonical_wf(JointId::UpperArm, arm.speed);
    lemma_soft_bound_preserved(
        canonical_joint(JointId::UpperArm, arm.speed),
        Limit { lo: UPPER_ARM_LO, hi: UPPER_ARM_HI },
        sel == Some(JointId::UpperArm),
        keys,
        arm.upper_arm_pose,
    );
}

/// One tick preserves the arm's invariant, and with it soft-bound
/// containment of every limited joint.
pub proof fn lemma_tick_preserves_wf(arm: Arm, keys: KeysHeld)
    requires
        arm.wf(),
    ensures
        ticked(arm, keys).wf(),
{
    let sel = selected(keys);
    lemma_canonical_wf(JointId::Shoulder, arm.speed);
    lemma_rotated_wf(
        canonical_joint(JointId::Shoulder, arm.speed),
        sel == Some(JointId::Shoulder),
        keys,
        arm.shoulder_pose,
    );
    lemma_canonical_wf(JointId::LowerArm, arm.speed);
    lemma_rotated_wf(
        canonical_joint(JointId::LowerArm, arm.speed),
        sel == Some(JointId::LowerArm),
        keys,
        arm.lower_arm_pose,
    );
    lemma_canonical_wf(JointId::Elbow, arm.speed);
    lemma_rotated_wf(
        canonical_joint(JointId::Elbow, arm.speed),
        sel == Some(JointId::Elbow),
        keys,
        arm.elbow_pose,
    );
    lemma_canonical_wf(JointId::UpperArm, arm.speed);
    lemma_rotated_wf(
        canonical_joint(JointId::UpperArm, arm.speed),
        sel == Some(JointId::UpperArm),
        keys,
        arm.upper_arm_pose,
    );
    lemma_canonical_wf(JointId::Wrist, arm.speed);
    lemma_rotated_wf(
        canonical_joint(JointId::Wrist, arm.speed),
        sel == Some(JointId::Wrist),
        keys,
        arm.wrist_pose,
    );
    lemma_ticked_soft_contained(arm, keys);
}

/// For all input sequences: any number of ticks from a valid state leaves
/// the arm valid; in particular every limited joint's tracked scalar never
/// falls outside the soft range `[lo - speed, hi + speed]`.
pub proof fn lemma_run_preserves_wf(arm: Arm, inputs: Seq<KeysHeld>)
    requires
        arm.wf(),
    ensures
        run(arm, inputs).wf(),
        run(arm, inputs).soft_contained(),
    decreases inputs.len(),
{
    if inputs.len() > 0 {
        lemma_tick_preserves_wf(arm, inputs[0]);
        lemma_run_preserves_wf(ticked(arm, inputs[0]), inputs.drop_first());
    }
}

/// Exclusivity: at most one joint is active in any arm state; two active
/// joints are the same joint.
pub proof fn lemma_active_exclusive(arm: Arm, a: JointId, b: JointId)
    requires
        arm.joint_active(a),
        arm.joint_active(b),
    ensures
        a == b,
{
}

/// Momentary release across the whole arm: after a tick on which no numeric
/// key is held, no joint is active, regardless of prior ticks.
pub proof fn lemma_tick_momentary_release(arm: Arm, keys: KeysHeld, id: JointId)
    requires
        !keys.any_numeric(),
    ensures
        !ticked(arm, keys).joint_active(id),
{
}

/// Inactive no-op across a tick: a joint that the tick leaves inactive keeps
/// its orientation unchanged, exactly.
pub proof fn lemma_tick_inactive_no_op(arm: Arm, keys: KeysHeld, id: JointId)
    requires
        !ticked(arm, keys).joint_active(id),
    ensures
        ticked(arm, keys).pose_of(id) == arm.pose_of(id),
{
}

} // verus!
