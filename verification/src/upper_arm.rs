//! The upper arm joint: pitch about the X axis within its travel bounds,
//! with the opposite key-to-sign convention of the other limited joints:
//! `left` applies `-speed` above the lower bound, `right` applies `+speed`
//! below the upper bound. The asymmetry is deliberate.

use vstd::prelude::*;
use crate::controller::{rotate_joint, rotated};
use crate::joint::{canonical_joint, Joint, JointId};
use crate::keys::KeysHeld;
use crate::orientation::{Orientation, MAX_SPEED};

verus! {

/// The upper arm's controller parameters: the per-tick angular increment and
/// whether the joint is the currently selected target of operator input.
#[derive(Clone, Copy, Debug, PartialEq, Eq, Structural)]
pub struct UpperArmRotate {
    pub rotation_speed: i64,
    pub can_move: bool,
}

impl UpperArmRotate {
    /// A usable increment: positive and no larger than `MAX_SPEED`.
    pub open spec fn wf(self) -> bool {
        0 < self.rotation_speed <= MAX_SPEED
    }
}

/// One controller tick for the upper arm: a no-op unless `can_move`;
/// otherwise each held directional key pitches the joint by one signed
/// increment, gated against the tracked scalar as it was before the tick.
pub fn upper_arm_rotate(object: &UpperArmRotate, keys: &KeysHeld, transform: &mut Orientation)
    requires
        object.wf(),
        old(transform).wf(),
    ensures
        *final(transform) == rotated(
            canonical_joint(JointId::UpperArm, object.rotation_speed),
            object.can_move,
            *keys,
            *old(transform),
        ),
        final(transform).wf(),
{
    let cfg = Joint::canonical(JointId::UpperArm, object.rotation_speed);
    rotate_joint(&cfg, object.can_move, keys, transform);
}

} // verus!
