//! The rotation controller: one tick of limit-gated incremental rotation for
//! one joint.
//!
//! Every joint runs the same controller, parameterized by its `Joint`
//! configuration. On a tick on which the joint is inactive nothing happens.
//! On a tick on which it is active, each held directional key contributes a
//! signed increment about its axis; an increment on the primary axis is
//! admitted only if the limit check passes against the tracked scalar as it
//! was *before* the tick (the "soft clamp": a single tick may overshoot a
//! bound by at most one increment). Opposite keys held together are not
//! mutually exclusive: both increments are composed in sequence.

use vstd::prelude::*;
use crate::joint::{Joint, Limit};
use crate::keys::KeysHeld;
use crate::orientation::Orientation;

verus! {

/// The limit check for one increment `delta` against the pre-tick tracked
/// scalar `c`: a positive increment is admitted only below the upper bound, a
/// negative one only above the lower bound; an unlimited joint admits every
/// increment.
pub open spec fn gate_allows(limit: Option<Limit>, c: int, delta: int) -> bool {
    match limit {
        None => true,
        Some(l) => if delta > 0 {
            c < l.hi
        } else {
            c > l.lo
        },
    }
}

/// The orientation after one controller tick for a joint configured as
/// `cfg`: unchanged when inactive; otherwise the gated increments of the held
/// directional keys, composed in the fixed order left, right, up, down, with
/// every gate read against the pre-tick tracked scalar.
pub open spec fn rotated(cfg: Joint, active: bool, keys: KeysHeld, pose: Orientation) -> Orientation {
    if !active {
        pose
    } else {
        let c = pose.component(cfg.axis);
        let left_delta: int = if cfg.left_positive {
            cfg.speed as int
        } else {
            -(cfg.speed as int)
        };
        let p1 = if keys.left && gate_allows(cfg.limit, c, left_delta) {
            pose.composed(cfg.axis, left_delta)
        } else {
            pose
        };
        let p2 = if keys.right && gate_allows(cfg.limit, c, -left_delta) {
            p1.composed(cfg.axis, -left_delta)
        } else {
            p1
        };
        match cfg.secondary {
            None => p2,
            Some(s) => {
                let down_delta: int = if s.down_positive {
                    cfg.speed as int
                } else {
                    -(cfg.speed as int)
                };
                let p3 = if keys.up {
                    p2.composed(s.axis, -down_delta)
                } else {
                    p2
                };
                if keys.down {
                    p3.composed(s.axis, down_delta)
                } else {
                    p3
                }
            },
        }
    }
}

/// Runs one controller tick for the joint configured as `cfg` on the pose
/// behind `pose`.
pub fn rotate_joint(cfg: &Joint, active: bool, keys: &KeysHeld, pose: &mut Orientation)
    requires
        cfg.wf(),
        old(pose).wf(),
    ensures
        *final(pose) == rotated(*cfg, active, *keys, *old(pose)),
        final(pose).wf(),
{
    if active {
        let c = pose.comp(cfg.axis);
        let left_delta: i64 = if cfg.left_positive {
            cfg.speed
        } else {
            -cfg.speed
        };
        if keys.left && gate(&cfg.limit, c, left_delta) {
            pose.compose(cfg.axis, left_delta);
        }
        if keys.right && gate(&cfg.limit, c, -left_delta) {
            pose.compose(cfg.axis, -left_delta);
        }
        match cfg.secondary {
            None => {},
            Some(s) => {
                let down_delta: i64 = if s.down_positive {
                    cfg.speed
                } else {
                    -cfg.speed
                };
                if keys.up {
                    pose.compose(s.axis, -down_delta);
                }
                if keys.down {
                    pose.compose(s.axis, down_delta);
                }
            },
        }
    }
}

/// The executable limit check.
fn gate(limit: &Option<Limit>, c: i64, delta: i64) -> (b: bool)
    ensures
        b == gate_allows(*limit, c as int, delta as int),
{
    match limit {
        None => true,
        Some(l) => if delta > 0 {
            c < l.hi
        } else {
            c > l.lo
        },
    }
}

/// A joint that is inactive on a tick is a strict no-op: its orientation is
/// unchanged by that tick, exactly.
pub proof fn lemma_inactive_no_op(cfg: Joint, keys: KeysHeld, pose: Orientation)
    ensures
        rotated(cfg, false, keys, pose) == pose,
{
}

/// Soft-bound containment: for a limited joint whose tracked scalar lies in
/// the soft range `[lo - speed, hi + speed]`, one controller tick keeps it
/// there, whatever keys are held.
pub proof fn lemma_soft_bound_preserved(
    cfg: Joint,
    l: Limit,
    active: bool,
    keys: KeysHeld,
    pose: Orientation,
)
    requires
        cfg.wf(),
        cfg.limit == Some(l),
        pose.wf(),
        l.lo - cfg.speed <= pose.component(cfg.axis) <= l.hi + cfg.speed,
    ensures
        l.lo - cfg.speed <= rotated(cfg, active, keys, pose).component(cfg.axis) <= l.hi
            + cfg.speed,
{
}

/// One controller tick preserves well-formedness of the orientation.
pub proof fn lemma_rotated_wf(cfg: Joint, active: bool, keys: KeysHeld, pose: Orientation)
    requires
        cfg.wf(),
        pose.wf(),
    ensures
        rotated(cfg, active, keys, pose).wf(),
{
    if active {
        let c = pose.component(cfg.axis);
        let left_delta: int = if cfg.left_positive {
            cfg.speed as int
        } else {
            -(cfg.speed as int)
        };
        let p1 = if keys.left && gate_allows(cfg.limit, c, left_delta) {
            pose.composed(cfg.axis, left_delta)
        } else {
            pose
        };
        crate::orientation::lemma_composed_wf(pose, cfg.axis, left_delta);
        let p2 = if keys.right && gate_allows(cfg.limit, c, -left_delta) {
            p1.composed(cfg.axis, -left_delta)
        } else {
            p1
        };
        crate::orientation::lemma_composed_wf(p1, cfg.axis, -left_delta);
        match cfg.secondary {
            None => {},
            Some(s) => {
                let down_delta: int = if s.down_positive {
                    cfg.speed as int
                } else {
                    -(cfg.speed as int)
                };
                let p3 = if keys.up {
                    p2.composed(s.axis, -down_delta)
                } else {
                    p2
                };
                crate::orientation::lemma_composed_wf(p2, s.axis, -down_delta);
                crate::orientation::lemma_composed_wf(p3, s.axis, down_delta);
            },
        }
    }
}

/// Simultaneous opposite keys on an unlimited joint cancel exactly: with both
/// `left` and `right` held (and no secondary-axis key), the two increments
/// are composed in sequence and return the orientation to its original
/// value.
pub proof fn lemma_opposite_keys_cancel(cfg: Joint, keys: KeysHeld, pose: Orientation)
    requires
        cfg.wf(),
        cfg.limit is None,
        keys.left,
        keys.right,
        cfg.secondary is Some ==> !keys.up && !keys.down,
        pose.wf(),
    ensures
        rotated(cfg, true, keys, pose) == pose,
{
    let left_delta: int = if cfg.left_positive {
        cfg.speed as int
    } else {
        -(cfg.speed as int)
    };
    crate::orientation::lemma_compose_cancel(pose, cfg.axis, left_delta);
}

} // verus!
