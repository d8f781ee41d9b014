//! The shoulder joint: unlimited yaw about the Y axis; `left` applies
//! `+speed`, `right` applies `-speed`.

use vstd::prelude::*;
use crate::controller::{rotate_joint, rotated};
use crate::joint::{canonical_joint, Joint, JointId};
use crate::keys::KeysHeld;
use crate::orientation::{Orientation, MAX_SPEED};

verus! {

/// The shoulder's controller parameters: the per-tick angular increment and
/// whether the joint is the currently selected target of operator input.
#[derive(Clone, Copy, Debug, PartialEq, Eq, Structural)]
pub struct ShoulderRotate {
    pub rotation_speed: i64,
    pub can_move: bool,
}

impl ShoulderRotate {
    /// A usable increment: positive and no larger than `MAX_SPEED`.
    pub open spec fn wf(self) -> bool {
        0 < self.rotation_speed <= MAX_SPEED
    }
}

/// One controller tick for the shoulder: a no-op unless `can_move`;
/// otherwise each held directional key yaws the shoulder by one signed
/// increment, ungated.
pub fn shoulder_rotate(object: &ShoulderRotate, keys: &KeysHeld, transform: &mut Orientation)
    requires
        object.wf(),
        old(transform).wf(),
    ensures
        *final(transform) == rotated(
            canonical_joint(JointId::Shoulder, object.rotation_speed),
            object.can_move,
            *keys,
            *old(transform),
        ),
        final(transform).wf(),
{
    let cfg = Joint::canonical(JointId::Shoulder, object.rotation_speed);
    rotate_joint(&cfg, object.can_move, keys, transform);
}

} // verus!
