//! Per-joint configuration: identity, rotation axis, speed, travel limits and
//! the mapping from directional keys to signed increments.

use vstd::prelude::*;
use crate::orientation::{Axis, HALF_TURN, MAX_SPEED};

verus! {

/// One rotational degree of freedom of the arm, in chain order.
#[derive(Clone, Copy, Debug, PartialEq, Eq, Structural)]
pub enum JointId {
    Shoulder,
    LowerArm,
    Elbow,
    UpperArm,
    Wrist,
}

/// Travel bounds for the tracked scalar of a limited joint, in scaled units.
#[derive(Clone, Copy, Debug, PartialEq, Eq, Structural)]
pub struct Limit {
    pub lo: i64,
    pub hi: i64,
}

/// A second driven axis (the wrist's), with the sign the `down` key applies.
#[derive(Clone, Copy, Debug, PartialEq, Eq, Structural)]
pub struct SecondaryAxis {
    pub axis: Axis,
    /// `down` applies `+speed` about `axis` when true, `-speed` otherwise;
    /// `up` always applies the opposite sign.
    pub down_positive: bool,
}

/// Why a joint configuration was rejected at construction.
#[derive(Clone, Copy, Debug, PartialEq, Eq, Structural)]
pub enum ConfigError {
    /// The speed is not positive, or exceeds `MAX_SPEED`.
    SpeedOutOfRange,
    /// The limit's lower bound lies above its upper bound.
    ReversedBounds,
    /// The limit's soft range does not fit within one half turn of zero.
    BoundsOutOfRange,
    /// The secondary axis coincides with the primary axis.
    SecondaryOnSameAxis,
}

/// Canonical travel bounds of the lower arm's tracked scalar.
pub const LOWER_ARM_LO: i64 = -300_000;

/// See `LOWER_ARM_LO`.
pub const LOWER_ARM_HI: i64 = 700_000;

/// Canonical travel bounds of the elbow's tracked scalar.
pub const ELBOW_LO: i64 = -800_000;

/// See `ELBOW_LO`.
pub const ELBOW_HI: i64 = 100_000;

/// Canonical travel bounds of the upper arm's tracked scalar.
pub const UPPER_ARM_LO: i64 = -200_000;

/// See `UPPER_ARM_LO`.
pub const UPPER_ARM_HI: i64 = 100_000;

/// The fixed per-joint parameters of one rotation controller.
#[derive(Clone, Copy, Debug, PartialEq, Eq, Structural)]
pub struct Joint {
    /// Principal rotation axis; also the axis whose tracked scalar is gated.
    pub axis: Axis,
    /// Angular increment applied per tick while a directional key is held,
    /// in scaled units; always positive.
    pub speed: i64,
    /// `left` applies `+speed` about `axis` when true, `-speed` otherwise;
    /// `right` always applies the opposite sign.
    pub left_positive: bool,
    /// Optional travel bounds on the tracked scalar of `axis`.
    pub limit: Option<Limit>,
    /// Optional second driven axis (the wrist's).
    pub secondary: Option<SecondaryAxis>,
}

impl Joint {
    /// A valid configuration: positive bounded speed, an ordered limit whose
    /// soft range stays within one half turn, and a secondary axis distinct
    /// from the primary one.
    pub open spec fn wf(self) -> bool {
        &&& 0 < self.speed <= MAX_SPEED
        &&& match self.limit {
            None => true,
            Some(l) => l.lo <= l.hi && -HALF_TURN <= l.lo - self.speed && l.hi + self.speed
                < HALF_TURN,
        }
        &&& match self.secondary {
            None => true,
            Some(s) => s.axis != self.axis,
        }
    }

    /// The outcome construction owes for the given parameters: the assembled
    /// joint when they are valid, the first applicable rejection otherwise.
    pub open spec fn checked(
        axis: Axis,
        speed: i64,
        left_positive: bool,
        limit: Option<Limit>,
        secondary: Option<SecondaryAxis>,
    ) -> Result<Joint, ConfigError> {
        if !(0 < speed <= MAX_SPEED) {
            Err(ConfigError::SpeedOutOfRange)
        } else if limit matches Some(l) && l.lo > l.hi {
            Err(ConfigError::ReversedBounds)
        } else if limit matches Some(l) && !(-HALF_TURN <= l.lo - speed && l.hi + speed
            < HALF_TURN) {
            Err(ConfigError::BoundsOutOfRange)
        } else if secondary matches Some(s) && s.axis == axis {
            Err(ConfigError::SecondaryOnSameAxis)
        } else {
            Ok(
                Joint {
                    axis,
                    speed,
                    left_positive,
                    limit,
                    secondary,
                },
            )
        }
    }

    /// Builds a joint configuration, rejecting a misconfiguration (a reversed
    /// or oversized limit, a bad speed, a clashing secondary axis) before the
    /// controller ever runs.
    pub fn new(
        axis: Axis,
        speed: i64,
        left_positive: bool,
        limit: Option<Limit>,
        secondary: Option<SecondaryAxis>,
    ) -> (r: Result<Joint, ConfigError>)
        ensures
            r == Joint::checked(axis, speed, left_positive, limit, secondary),
            r matches Ok(j) ==> j.wf(),
    {
        if !(0 < speed && speed <= MAX_SPEED) {
            return Err(ConfigError::SpeedOutOfRange);
        }
        if let Some(l) = limit {
            if l.lo > l.hi {
                return Err(ConfigError::ReversedBounds);
            }
            if !(l.lo >= speed - HALF_TURN && l.hi < HALF_TURN - speed) {
                return Err(ConfigError::BoundsOutOfRange);
            }
        }
        if let Some(s) = secondary {
            if s.axis == axis {
                return Err(ConfigError::SecondaryOnSameAxis);
            }
        }
        Ok(Joint { axis, speed, left_positive, limit, secondary })
    }

    /// Builds the canonical configuration of `id` with the given speed.
    pub fn canonical(id: JointId, speed: i64) -> (r: Joint)
        requires
            0 < speed <= MAX_SPEED,
        ensures
            r == canonical_joint(id, speed),
            r.wf(),
    {
        match id {
            JointId::Shoulder => Joint {
                axis: Axis::Y,
                speed,
                left_positive: true,
                limit: None,
                secondary: None,
            },
            JointId::LowerArm => Joint {
                axis: Axis::X,
                speed,
                left_positive: true,
                limit: Some(Limit { lo: LOWER_ARM_LO, hi: LOWER_ARM_HI }),
                secondary: None,
            },
            JointId::Elbow => Joint {
                axis: Axis::X,
                speed,
                left_positive: true,
                limit: Some(Limit { lo: ELBOW_LO, hi: ELBOW_HI }),
                secondary: None,
            },
            JointId::UpperArm => Joint {
                axis: Axis::X,
                speed,
                left_positive: false,
                limit: Some(Limit { lo: UPPER_ARM_LO, hi: UPPER_ARM_HI }),
                secondary: None,
            },
            JointId::Wrist => Joint {
                axis: Axis::Y,
                speed,
                left_positive: true,
                limit: None,
                secondary: Some(SecondaryAxis { axis: Axis::X, down_positive: true }),
            },
        }
    }
}

/// The canonical per-joint configuration table: the shoulder yaws freely
/// about Y; the three middle joints pitch about X within their travel bounds,
/// the upper arm with the opposite key-to-sign convention; the wrist yaws
/// freely about Y and additionally pitches about X under the up and down
/// keys.
pub open spec fn canonical_joint(id: JointId, speed: i64) -> Joint {
    match id {
        JointId::Shoulder => Joint {
            axis: Axis::Y,
            speed,
            left_positive: true,
            limit: None,
            secondary: None,
        },
        JointId::LowerArm => Joint {
            axis: Axis::X,
            speed,
            left_positive: true,
            limit: Some(Limit { lo: LOWER_ARM_LO, hi: LOWER_ARM_HI }),
            secondary: None,
        },
        JointId::Elbow => Joint {
            axis: Axis::X,
            speed,
            left_positive: true,
            limit: Some(Limit { lo: ELBOW_LO, hi: ELBOW_HI }),
            secondary: None,
        },
        JointId::UpperArm => Joint {
            axis: Axis::X,
            speed,
            left_positive: false,
            limit: Some(Limit { lo: UPPER_ARM_LO, hi: UPPER_ARM_HI }),
            secondary: None,
        },
        JointId::Wrist => Joint {
            axis: Axis::Y,
            speed,
            left_positive: true,
            limit: None,
            secondary: Some(SecondaryAxis { axis: Axis::X, down_positive: true }),
        },
    }
}

/// Every canonical configuration with a usable speed is valid.
pub proof fn lemma_canonical_wf(id: JointId, speed: i64)
    requires
        0 < speed <= MAX_SPEED,
    ensures
        canonical_joint(id, speed).wf(),
{
}

} // verus!
