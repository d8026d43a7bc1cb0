//! Motion control core of a motorized focus rig: input shaping, debounced knob
//! commands, gamepad integration, and the line protocol spoken to the motor.

/// Deadzone, response curve and rate integration.
pub mod shaping;
/// Knob commands, the debouncer, and the knob state machine.
pub mod knob;
/// Gamepad samples integrated into speed and setpoint.
pub mod gamepad;
/// The motor's serial line protocol.
pub mod protocol;
/// What an input source asks of the motor.
pub mod intent;
/// Picking a newly connected device out of two scans.
pub mod discovery;
/// The per-tick control loop.
pub mod focus_controller;
