//! The rotational state of one joint, tracked per cardinal axis.
//!
//! Angles and the tracked rotation scalar are held as fixed-point integers:
//! `UNIT` scaled units stand for 1.0 of the underlying scalar. A composition
//! folds an incremental rotation about one axis into the stored state and
//! wraps the affected component into one full turn.

use vstd::prelude::*;

verus! {

/// Scaled units per 1.0 of the tracked rotation scalar.
pub const UNIT: i64 = 1_000_000;

/// Half a turn (pi) in scaled units, rounded to the nearest unit.
pub const HALF_TURN: i64 = 3_141_593;

/// A full turn (two pi) in scaled units.
pub const FULL_TURN: i64 = 2 * HALF_TURN;

/// Largest angular increment a joint is allowed to apply in one composition.
pub const MAX_SPEED: i64 = 1_000_000;

/// One degree in scaled units.
pub const ONE_DEGREE: i64 = 17_453;

/// The three cardinal rotation axes.
#[derive(Clone, Copy, Debug, PartialEq, Eq, Structural)]
pub enum Axis {
    X,
    Y,
    Z,
}

/// The cumulative rotational state of one joint's visual transform.
///
/// Each field is the tracked scalar for rotations about that axis, in scaled
/// units, kept within one half turn of zero.
#[derive(Clone, Copy, Debug, PartialEq, Eq, Structural)]
pub struct Orientation {
    pub x: i64,
    pub y: i64,
    pub z: i64,
}

/// `c` brought back into the half-open range `[-HALF_TURN, HALF_TURN)`,
/// assuming it strayed by less than one full turn.
pub open spec fn wrapped(c: int) -> int {
    if c >= HALF_TURN {
        c - FULL_TURN
    } else if c < -HALF_TURN {
        c + FULL_TURN
    } else {
        c
    }
}

impl Orientation {
    /// Every component lies within one half turn of zero.
    pub open spec fn wf(self) -> bool {
        &&& -HALF_TURN <= self.x < HALF_TURN
        &&& -HALF_TURN <= self.y < HALF_TURN
        &&& -HALF_TURN <= self.z < HALF_TURN
    }

    /// The tracked scalar for rotations about `axis`.
    pub open spec fn component(self, axis: Axis) -> int {
        match axis {
            Axis::X => self.x as int,
            Axis::Y => self.y as int,
            Axis::Z => self.z as int,
        }
    }

    /// The state after composing an incremental rotation of `delta` about
    /// `axis` onto `self`: the same-axis component advances by `delta` and
    /// wraps into one turn; the other components are untouched.
    pub open spec fn composed(self, axis: Axis, delta: int) -> Orientation {
        match axis {
            Axis::X => Orientation { x: wrapped(self.x + delta) as i64, ..self },
            Axis::Y => Orientation { y: wrapped(self.y + delta) as i64, ..self },
            Axis::Z => Orientation { z: wrapped(self.z + delta) as i64, ..self },
        }
    }

    /// The identity orientation, the state every joint starts in.
    pub fn identity() -> (r: Orientation)
        ensures
            r == (Orientation { x: 0, y: 0, z: 0 }),
    {
        Orientation { x: 0, y: 0, z: 0 }
    }

    /// Reads the tracked scalar for rotations about `axis`.
    pub fn comp(&self, axis: Axis) -> (r: i64)
        ensures
            r as int == self.component(axis),
    {
        match axis {
            Axis::X => self.x,
            Axis::Y => self.y,
            Axis::Z => self.z,
        }
    }

    /// Tests whether every component lies within one half turn of zero.
    pub fn check_wf(&self) -> (b: bool)
        ensures
            b == self.wf(),
    {
        -HALF_TURN <= self.x && self.x < HALF_TURN && -HALF_TURN <= self.y && self.y < HALF_TURN
            && -HALF_TURN <= self.z && self.z < HALF_TURN
    }

    /// Composes an incremental rotation of `delta` about `axis` into the
    /// stored state, wrapping the affected component into one turn.
    pub fn compose(&mut self, axis: Axis, delta: i64)
        requires
            old(self).wf(),
            -HALF_TURN <= delta <= HALF_TURN,
        ensures
            *final(self) == old(self).composed(axis, delta as int),
            final(self).wf(),
    {
        match axis {
            Axis::X => {
                self.x = wrap(self.x + delta);
            },
            Axis::Y => {
                self.y = wrap(self.y + delta);
            },
            Axis::Z => {
                self.z = wrap(self.z + delta);
            },
        }
    }
}

/// Brings a component that strayed by less than one full turn back into
/// `[-HALF_TURN, HALF_TURN)`.
fn wrap(c: i64) -> (r: i64)
    requires
        -FULL_TURN <= c < FULL_TURN,
    ensures
        r as int == wrapped(c as int),
        -HALF_TURN <= r < HALF_TURN,
{
    if c >= HALF_TURN {
        c - FULL_TURN
    } else if c < -HALF_TURN {
        c + FULL_TURN
    } else {
        c
    }
}

/// Composition preserves well-formedness: from a well-formed state, an
/// increment of at most half a turn wraps back into one half turn of zero.
pub proof fn lemma_composed_wf(o: Orientation, axis: Axis, delta: int)
    requires
        o.wf(),
        -HALF_TURN <= delta <= HALF_TURN,
    ensures
        o.composed(axis, delta).wf(),
{
}

/// Composing an increment and then its exact opposite about the same axis
/// returns an orientation to its original value, exactly.
pub proof fn lemma_compose_cancel(o: Orientation, axis: Axis, delta: int)
    requires
        o.wf(),
        -HALF_TURN <= delta <= HALF_TURN,
    ensures
        o.composed(axis, delta).composed(axis, -delta) == o,
{
}

} // verus!
