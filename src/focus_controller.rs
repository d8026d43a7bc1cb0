use vstd::prelude::*;
use crate::knob::KnobControlMode;
use crate::intent::MotionIntent;
use crate::gamepad::{GamepadDriver, GamepadEvent, event_ok, gamepad_speed, gamepad_setpoint, apply_events};
use crate::protocol::{move_line, move_line_spec, query_line, query_line_spec, parse_position, reply_value};

verus! {

/// Positions and speeds are tracked in thousandths of a motor step.
pub const MILLI: i64 = 1000;

/// A quantity in thousandths truncated towards zero to whole units.
pub open spec fn to_units(v: int) -> int {
    if v < 0 {
        -((-v) / (MILLI as int))
    } else {
        v / (MILLI as int)
    }
}

fn units(v: i64) -> (r: i64)
    ensures
        r == to_units(v as int),
{
    if v < 0 {
        let m: i128 = -(v as i128);
        (-(m / MILLI as i128)) as i64
    } else {
        v / MILLI
    }
}

/// The line that moves the motor to `position` at `speed`, both given in thousandths.
pub open spec fn move_command(speed: int, position: int) -> Seq<u8> {
    move_line_spec(to_units(speed), to_units(position))
}

/// The per-tick orchestrator: takes the intent of the active input source (its own
/// gamepad on `tick`, any source through `apply_intent`), keeps the tracked position
/// of the motor, and decides when a move line must go out.
pub struct FocusController {
    speed: i64,
    speed_ui_updated: bool,
    step_position: i64,
    intended_step_position: i64,
    serialports: Vec<String>,
    selected_port_name: String,
    control_mode: KnobControlMode,
    gamepad_driver: GamepadDriver,
}

impl FocusController {
    pub closed spec fn spec_speed(&self) -> int {
        self.speed as int
    }

    pub closed spec fn spec_speed_override(&self) -> bool {
        self.speed_ui_updated
    }

    pub closed spec fn spec_tracked(&self) -> int {
        self.step_position as int
    }

    pub closed spec fn spec_intended(&self) -> int {
        self.intended_step_position as int
    }

    pub closed spec fn spec_ports(&self) -> Seq<String> {
        self.serialports@
    }

    pub closed spec fn spec_selected(&self) -> Seq<char> {
        self.selected_port_name@
    }

    pub closed spec fn spec_mode(&self) -> KnobControlMode {
        self.control_mode
    }

    pub closed spec fn spec_gamepad(&self) -> GamepadDriver {
        self.gamepad_driver
    }

    pub open spec fn wf(&self) -> bool {
        &&& self.spec_speed() >= 0
        &&& self.spec_gamepad().wf()
    }

    /// A controller at rest at position 0, with no ports known, driven by `gamepad_driver`.
    pub fn new(gamepad_driver: GamepadDriver) -> (r: FocusController)
        requires
            gamepad_driver.wf(),
        ensures
            r.wf(),
            r.spec_speed() == 0,
            !r.spec_speed_override(),
            r.spec_tracked() == 0,
            r.spec_intended() == 0,
            r.spec_ports().len() == 0,
            r.spec_selected().len() == 0,
            r.spec_mode() == KnobControlMode::Setpoint,
            r.spec_gamepad() == gamepad_driver,
    {
        FocusController {
            speed: 0,
            speed_ui_updated: false,
            step_position: 0,
            intended_step_position: 0,
            serialports: Vec::new(),
            selected_port_name: String::new(),
            control_mode: KnobControlMode::Setpoint,
            gamepad_driver,
        }
    }

    /// Takes the list of available serial ports and selects the first one, if any.
    pub fn init_usb(&mut self, ports: Vec<String>)
        requires
            old(self).wf(),
        ensures
            final(self).wf(),
            final(self).spec_ports() == ports@,
            ports@.len() > 0 ==> final(self).spec_selected() == ports@[0]@,
            ports@.len() == 0 ==> final(self).spec_selected() == old(self).spec_selected(),
            final(self).spec_tracked() == old(self).spec_tracked(),
            final(self).spec_intended() == old(self).spec_intended(),
            final(self).spec_speed() == old(self).spec_speed(),
            final(self).spec_gamepad() == old(self).spec_gamepad(),
    {
        if ports.len() > 0 {
            self.selected_port_name = ports[0].clone();
        }
        self.serialports = ports;
    }

    /// Selects the serial port to talk to by name.
    pub fn select_port(&mut self, name: String)
        requires
            old(self).wf(),
        ensures
            final(self).wf(),
            final(self).spec_selected() == name@,
            final(self).spec_ports() == old(self).spec_ports(),
            final(self).spec_tracked() == old(self).spec_tracked(),
            final(self).spec_intended() == old(self).spec_intended(),
            final(self).spec_speed() == old(self).spec_speed(),
            final(self).spec_gamepad() == old(self).spec_gamepad(),
    {
        self.selected_port_name = name;
    }

    /// Overrides the speed from the user interface; the gamepad takes it on the next
    /// tick. A negative value stops at zero.
    pub fn set_speed(&mut self, speed: i64)
        requires
            old(self).wf(),
        ensures
            final(self).wf(),
            final(self).spec_speed() == if speed < 0 {
                0
            } else {
                speed as int
            },
            final(self).spec_speed_override(),
            final(self).spec_tracked() == old(self).spec_tracked(),
            final(self).spec_intended() == old(self).spec_intended(),
            final(self).spec_gamepad() == old(self).spec_gamepad(),
    {
        self.speed = if speed < 0 {
            0
        } else {
            speed
        };
        self.speed_ui_updated = true;
    }

    /// Commands a move to the intended position now, and takes it as reached.
    pub fn move_motor(&mut self) -> (r: Vec<u8>)
        requires
            old(self).wf(),
        ensures
            final(self).wf(),
            r@ == move_command(old(self).spec_speed(), old(self).spec_intended()),
            final(self).spec_tracked() == old(self).spec_intended(),
            final(self).spec_intended() == old(self).spec_intended(),
            final(self).spec_speed() == old(self).spec_speed(),
            final(self).spec_speed_override() == old(self).spec_speed_override(),
            final(self).spec_gamepad() == old(self).spec_gamepad(),
            final(self).spec_mode() == old(self).spec_mode(),
            final(self).spec_ports() == old(self).spec_ports(),
            final(self).spec_selected() == old(self).spec_selected(),
    {
        let line = move_line(units(self.speed), units(self.intended_step_position));
        self.step_position = self.intended_step_position;
        line
    }

    /// The line that asks the device for its position.
    pub fn position_query(&self) -> (r: Vec<u8>)
        ensures
            r@ == query_line_spec(),
    {
        query_line()
    }

    /// Takes the device's reply to a position query as the tracked position. A reply
    /// that is no whole number of steps (or too large to track in thousandths)
    /// leaves everything as it was and gives `false`.
    pub fn get_position(&mut self, reply: &Vec<u8>) -> (r: bool)
        requires
            old(self).wf(),
        ensures
            final(self).wf(),
            r <==> (reply_value(reply@) matches Some(v) && i64::MIN <= v * 1000 <= i64::MAX),
            r ==> final(self).spec_tracked() == reply_value(reply@)->0 * 1000,
            !r ==> final(self).spec_tracked() == old(self).spec_tracked(),
            final(self).spec_intended() == old(self).spec_intended(),
            final(self).spec_speed() == old(self).spec_speed(),
            final(self).spec_speed_override() == old(self).spec_speed_override(),
            final(self).spec_gamepad() == old(self).spec_gamepad(),
    {
        match parse_position(reply) {
            Some(v) => {
                let scaled: i128 = v as i128 * MILLI as i128;
                if scaled < i64::MIN as i128 || scaled > i64::MAX as i128 {
                    false
                } else {
                    self.step_position = scaled as i64;
                    true
                }
            },
            None => false,
        }
    }

    /// Takes an input source's intent: its setpoint becomes the intended position
    /// and its speed and mode the current ones. When the intended position differs
    /// from the tracked one, the move line is returned and the target is taken as
    /// reached; otherwise nothing is sent.
    pub fn apply_intent(&mut self, intent: MotionIntent) -> (r: Option<Vec<u8>>)
        requires
            old(self).wf(),
            intent.speed >= 0,
        ensures
            final(self).wf(),
            final(self).spec_intended() == intent.setpoint,
            final(self).spec_speed() == intent.speed,
            final(self).spec_mode() == intent.control_mode,
            final(self).spec_tracked() == intent.setpoint,
            r is None <==> intent.setpoint == old(self).spec_tracked(),
            r matches Some(line) ==> line@ == move_command(intent.speed as int, intent.setpoint as int),
            final(self).spec_speed_override() == old(self).spec_speed_override(),
            final(self).spec_gamepad() == old(self).spec_gamepad(),
            final(self).spec_ports() == old(self).spec_ports(),
            final(self).spec_selected() == old(self).spec_selected(),
    {
        self.intended_step_position = intent.setpoint;
        self.speed = intent.speed;
        self.control_mode = intent.control_mode;
        if self.intended_step_position != self.step_position {
            Some(self.move_motor())
        } else {
            None
        }
    }

    /// Runs one tick at time `now` (milliseconds): a pending speed override goes to
    /// the gamepad, the gamepad advances over `events` (no time passes on its first
    /// tick), its setpoint and speed become
    /// the intent, and when the intended position differs from the tracked one the
    /// move line is returned and the target is taken as reached.
    pub fn tick(&mut self, now: u64, events: &Vec<GamepadEvent>) -> (r: Option<Vec<u8>>)
        requires
            old(self).wf(),
            old(self).spec_gamepad().spec_started() ==> now >= old(self).spec_gamepad().spec_last_time(),
            forall|i: int| 0 <= i < events@.len() ==> event_ok(#[trigger] events@[i]),
        ensures
            final(self).wf(),
            ({
                let g0 = old(self).spec_gamepad();
                let g = final(self).spec_gamepad();
                let start_speed = if old(self).spec_speed_override() {
                    old(self).spec_speed()
                } else {
                    g0.spec_speed()
                };
                let dt = g0.elapsed(now);
                &&& g.spec_started()
                &&& g.spec_last_time() == now
                &&& g.spec_dt() == dt
                &&& g.spec_curve() == g0.spec_curve()
                &&& g.spec_deadzone() == g0.spec_deadzone()
                &&& g.spec_samples() == apply_events(g0.spec_samples(), g0.spec_deadzone(), events@)
                &&& g.spec_speed() == gamepad_speed(
                    g0.spec_curve(),
                    g0.spec_deadzone(),
                    start_speed,
                    g.spec_samples().2,
                    dt,
                )
                &&& g.spec_setpoint() == gamepad_setpoint(
                    g0.spec_setpoint(),
                    g.spec_samples().0,
                    g.spec_samples().1,
                    g.spec_speed(),
                    dt,
                )
            }),
            !final(self).spec_speed_override(),
            final(self).spec_intended() == final(self).spec_gamepad().spec_setpoint(),
            final(self).spec_speed() == final(self).spec_gamepad().spec_speed(),
            final(self).spec_mode() == KnobControlMode::Setpoint,
            final(self).spec_tracked() == final(self).spec_intended(),
            r is None <==> final(self).spec_intended() == old(self).spec_tracked(),
            r matches Some(line) ==> line@ == move_command(
                final(self).spec_speed(),
                final(self).spec_intended(),
            ),
            final(self).spec_ports() == old(self).spec_ports(),
            final(self).spec_selected() == old(self).spec_selected(),
    {
        if self.speed_ui_updated {
            self.gamepad_driver.set_speed(self.speed);
            self.speed_ui_updated = false;
        }
        self.gamepad_driver.tick(now, events);
        let intent = self.gamepad_driver.intent();
        self.apply_intent(intent)
    }

    pub fn get_speed(&self) -> (r: i64)
        ensures
            r == self.spec_speed(),
    {
        self.speed
    }

    /// The tracked position, in thousandths of a step.
    pub fn step_position(&self) -> (r: i64)
        ensures
            r == self.spec_tracked(),
    {
        self.step_position
    }

    /// The tracked position in whole steps, truncated towards zero.
    pub fn position_steps(&self) -> (r: i64)
        ensures
            r == to_units(self.spec_tracked()),
    {
        units(self.step_position)
    }

    /// The intended position, in thousandths of a step.
    pub fn intended_step_position(&self) -> (r: i64)
        ensures
            r == self.spec_intended(),
    {
        self.intended_step_position
    }

    pub fn control_mode(&self) -> (r: KnobControlMode)
        ensures
            r == self.spec_mode(),
    {
        self.control_mode
    }

    /// A short name of the control mode, for display.
    pub fn control_mode_label(&self) -> (r: &'static str)
        ensures
            self.spec_mode() == KnobControlMode::Setpoint ==> r@ == "setpoint"@,
            self.spec_mode() == KnobControlMode::Speed ==> r@ == "speed"@,
    {
        match self.control_mode {
            KnobControlMode::Setpoint => "setpoint",
            KnobControlMode::Speed => "speed",
        }
    }

    pub fn serialports(&self) -> (r: &Vec<String>)
        ensures
            r@ == self.spec_ports(),
    {
        &self.serialports
    }

    pub fn selected_port_name(&self) -> (r: &String)
        ensures
            r@ == self.spec_selected(),
    {
        &self.selected_port_name
    }
}

} // verus!
