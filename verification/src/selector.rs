//! The joint selector: maps the held numeric keys to at most one active
//! joint, once per fixed tick and before any rotation controller runs.
//!
//! The numeric keys are evaluated in ascending order and the first held one
//! wins (the tie-break rule for simultaneous presses). Selection is
//! momentary: if no numeric key is held, no joint is active, whatever was
//! selected on earlier ticks.

use vstd::prelude::*;
use crate::joint::JointId;
use crate::keys::KeysHeld;

verus! {

/// The joint a tick's held keys select: the lowest-numbered held numeric
/// key's joint, or none when no numeric key is held.
pub open spec fn selected(keys: KeysHeld) -> Option<JointId> {
    if keys.key1 {
        Some(JointId::Shoulder)
    } else if keys.key2 {
        Some(JointId::LowerArm)
    } else if keys.key3 {
        Some(JointId::Elbow)
    } else if keys.key4 {
        Some(JointId::UpperArm)
    } else if keys.key5 {
        Some(JointId::Wrist)
    } else {
        None
    }
}

/// Whether the numeric key at position `i` of the ascending evaluation order
/// is held (position 0 is key "1").
pub open spec fn numeric_held(keys: KeysHeld, i: int) -> bool {
    if i == 0 {
        keys.key1
    } else if i == 1 {
        keys.key2
    } else if i == 2 {
        keys.key3
    } else if i == 3 {
        keys.key4
    } else if i == 4 {
        keys.key5
    } else {
        false
    }
}

/// The position of a joint's selector key in the ascending evaluation order.
pub open spec fn selector_position(id: JointId) -> int {
    match id {
        JointId::Shoulder => 0,
        JointId::LowerArm => 1,
        JointId::Elbow => 2,
        JointId::UpperArm => 3,
        JointId::Wrist => 4,
    }
}

/// Evaluates the held numeric keys in ascending order and returns the first
/// held one's joint; none when no numeric key is held.
pub fn select_active(keys: &KeysHeld) -> (r: Option<JointId>)
    ensures
        r == selected(*keys),
{
    if keys.key1 {
        Some(JointId::Shoulder)
    } else if keys.key2 {
        Some(JointId::LowerArm)
    } else if keys.key3 {
        Some(JointId::Elbow)
    } else if keys.key4 {
        Some(JointId::UpperArm)
    } else if keys.key5 {
        Some(JointId::Wrist)
    } else {
        None
    }
}

/// Momentary release: on a tick on which no numeric key is held, no joint is
/// selected, regardless of prior ticks.
pub proof fn lemma_momentary_release(keys: KeysHeld)
    requires
        !keys.any_numeric(),
    ensures
        selected(keys) is None,
{
}

/// Tie-break: the selected joint is the one whose selector key is the first
/// held in ascending order, and a joint is selected exactly when some
/// numeric key is held.
pub proof fn lemma_selects_first_held(keys: KeysHeld)
    ensures
        selected(keys) matches Some(id) ==> numeric_held(keys, selector_position(id)) && (forall|
            i: int,
        |
            0 <= i < selector_position(id) ==> !numeric_held(keys, i)),
        selected(keys) is Some <==> keys.any_numeric(),
{
}

/// Exclusivity of selection: a tick's held keys select at most one joint.
pub proof fn lemma_selection_exclusive(keys: KeysHeld, a: JointId, b: JointId)
    requires
        selected(keys) == Some(a),
        selected(keys) == Some(b),
    ensures
        a == b,
{
}

} // verus!
