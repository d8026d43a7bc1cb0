use vstd::prelude::*;
use crate::knob::KnobControlMode;

verus! {

/// What an input source wants: a target position and a speed, both in thousandths
/// of a motor step, and the quantity discrete input currently edits.
#[derive(Debug, Clone, Copy, PartialEq, Eq, Structural)]
pub struct MotionIntent {
    pub setpoint: i64,
    pub speed: i64,
    pub control_mode: KnobControlMode,
}

} // verus!
