//! The keyboard boundary, reduced to plain values.
//!
//! An input sampler outside the library reports, once per fixed tick, which
//! logical keys are currently held; the controller reads nothing else.

use vstd::prelude::*;

verus! {

/// The set of logical keys held during one fixed tick.
///
/// The numeric keys select a joint; the arrow keys drive the selected joint's
/// primary axis (left/right) and, where one exists, its secondary axis
/// (up/down).
#[derive(Clone, Copy, Debug, PartialEq, Eq, Structural)]
pub struct KeysHeld {
    pub key1: bool,
    pub key2: bool,
    pub key3: bool,
    pub key4: bool,
    pub key5: bool,
    pub left: bool,
    pub right: bool,
    pub up: bool,
    pub down: bool,
}

impl KeysHeld {
    /// Some numeric selector key is held.
    pub open spec fn any_numeric(self) -> bool {
        self.key1 || self.key2 || self.key3 || self.key4 || self.key5
    }

    /// The state of a tick on which no key at all is held.
    pub fn none() -> (r: KeysHeld)
        ensures
            r == (KeysHeld {
                key1: false,
                key2: false,
                key3: false,
                key4: false,
                key5: false,
                left: false,
                right: false,
                up: false,
                down: false,
            }),
    {
        KeysHeld {
            key1: false,
            key2: false,
            key3: false,
            key4: false,
            key5: false,
            left: false,
            right: false,
            up: false,
            down: false,
        }
    }
}

impl Default for KeysHeld {
    /// By default no key is held.
    fn default() -> (r: KeysHeld)
        ensures
            !r.key1 && !r.key2 && !r.key3 && !r.key4 && !r.key5,
            !r.left && !r.right && !r.up && !r.down,
    {
        KeysHeld::none()
    }
}

} // verus!
