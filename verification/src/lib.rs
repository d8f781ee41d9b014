//! A joint-limited kinematic-chain controller for a five-joint robot arm.
//!
//! The arm is a fixed serial chain (shoulder, lower arm, elbow, upper arm,
//! wrist). Once per fixed simulation tick, the operator's held keys select at
//! most one joint and drive incremental rotations of that joint, subject to
//! per-joint travel limits that are checked against the value the tracked
//! scalar had before the tick ("soft clamp").

pub mod arm;
pub mod controller;
pub mod elbow;
pub mod joint;
pub mod keys;
pub mod lower_arm;
pub mod orientation;
pub mod selector;
pub mod shoulder;
pub mod upper_arm;
pub mod wrist;
