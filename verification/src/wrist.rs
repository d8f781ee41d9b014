//! The wrist joint: unlimited yaw about its primary Y axis (`left` applies
//! `+speed`, `right` applies `-speed`) and, alone among the joints, a
//! secondary X axis driven by `up` (`-speed`) and `down` (`+speed`).

use vstd::prelude::*;
use crate::controller::{rotate_joint, rotated};
use crate::joint::{canonical_joint, Joint, JointId};
use crate::keys::KeysHeld;
use crate::orientation::{Orientation, MAX_SPEED};

verus! {

/// The wrist's controller parameters: the per-tick angular increment and
/// whether the joint is the currently selected target of operator input.
#[derive(Clone, Copy, Debug, PartialEq, Eq, Structural)]
pub struct WristRotate {
    pub rotation_speed: i64,
    pub can_move: bool,
}

impl WristRotate {
    /// A usable increment: positive and no larger than `MAX_SPEED`.
    pub open spec fn wf(self) -> bool {
        0 < self.rotation_speed <= MAX_SPEED
    }
}

/// One controller tick for the wrist: a no-op unless `can_move`; otherwise
/// `left` and `right` yaw the wrist about its primary axis and `up` and
/// `down` pitch it about its secondary axis, each held key contributing one
/// signed increment, ungated.
pub fn wrist_rotate(object: &WristRotate, keys: &KeysHeld, transform: &mut Orientation)
    requires
        object.wf(),
        old(transform).wf(),
    ensures
        *final(transform) == rotated(
            canonical_joint(JointId::Wrist, object.rotation_speed),
            object.can_move,
            *keys,
            *old(transform),
        ),
        final(transform).wf(),
{
    let cfg = Joint::canonical(JointId::Wrist, object.rotation_speed);
    rotate_joint(&cfg, object.can_move, keys, transform);
}

} // verus!
