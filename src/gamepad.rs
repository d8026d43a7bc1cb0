use vstd::prelude::*;
use crate::intent::MotionIntent;
use crate::knob::KnobControlMode;
use crate::shaping::{
    UNIT,
    ResponseCurve,
    deadzone,
    deadzone_spec,
    sigmoid_shape,
    shape_spec,
    rate_integrate_speed,
    rate_integrate_setpoint,
    speed_step,
    setpoint_step,
    travel,
    clamp_i64,
};

verus! {

/// Latest stick deflections, in thousandths of full throw.
pub struct AxisState {
    pub x: i32,
    pub y: i32,
}

impl AxisState {
    pub fn new() -> (r: AxisState)
        ensures
            r.x == 0 && r.y == 0,
    {
        AxisState { x: 0, y: 0 }
    }
}

/// Latest trigger pressure, in thousandths of full travel.
pub struct TriggerState {
    pub value: i32,
}

impl TriggerState {
    pub fn new() -> (r: TriggerState)
        ensures
            r.value == 0,
    {
        TriggerState { value: 0 }
    }
}

/// One analog change reported by the gamepad, in thousandths.
#[derive(Debug, Clone, Copy, PartialEq, Eq, Structural)]
pub enum GamepadEvent {
    /// Vertical deflection of the left stick, in `-UNIT..=UNIT`.
    LeftStickY(i32),
    /// Pressure on the left (decrease) trigger, in `0..=UNIT`.
    LeftTrigger(i32),
    /// Pressure on the right (increase) trigger, in `0..=UNIT`.
    RightTrigger(i32),
}

pub open spec fn event_ok(e: GamepadEvent) -> bool {
    match e {
        GamepadEvent::LeftStickY(v) => -UNIT <= v <= UNIT,
        GamepadEvent::LeftTrigger(v) => 0 <= v <= UNIT,
        GamepadEvent::RightTrigger(v) => 0 <= v <= UNIT,
    }
}

/// Samples as (left trigger, right trigger, stick y) after one event; stick
/// readings inside the deadzone are taken as rest.
pub open spec fn apply_event(s: (int, int, int), deadzone_width: int, e: GamepadEvent) -> (int, int, int) {
    match e {
        GamepadEvent::LeftStickY(v) => (s.0, s.1, deadzone_spec(v as int, deadzone_width)),
        GamepadEvent::LeftTrigger(v) => (v as int, s.1, s.2),
        GamepadEvent::RightTrigger(v) => (s.0, v as int, s.2),
    }
}

/// Samples after a whole batch of events, taken in order.
pub open spec fn apply_events(s: (int, int, int), deadzone_width: int, evs: Seq<GamepadEvent>) -> (int, int, int)
    decreases evs.len(),
{
    if evs.len() == 0 {
        s
    } else {
        apply_event(apply_events(s, deadzone_width, evs.drop_last()), deadzone_width, evs.last())
    }
}

/// Speed after `dt` ms with the stick at `y`: the stick is shaped by the curve, a
/// shaped rate inside the deadzone counts as rest, and the result is integrated.
pub open spec fn gamepad_speed(curve: ResponseCurve, deadzone_width: int, speed: int, y: int, dt: int) -> int {
    speed_step(speed, deadzone_spec(shape_spec(curve, y), deadzone_width), dt)
}

/// Setpoint after `dt` ms: with the increase trigger pressed it travels forwards by
/// its pressure, otherwise backwards by the decrease trigger's pressure.
pub open spec fn gamepad_setpoint(setpoint: int, lt: int, rt: int, speed: int, dt: int) -> int {
    if rt > 0 {
        setpoint_step(setpoint, true, rt, speed, dt)
    } else {
        setpoint_step(setpoint, false, lt, speed, dt)
    }
}

/// Continuous input source: integrates stick and trigger samples into a speed and a
/// setpoint, both in thousandths.
pub struct GamepadDriver {
    rt_state: TriggerState,
    lt_state: TriggerState,
    left_joystick_state: AxisState,
    speed: i64,
    setpoint: i64,
    started: bool,
    last_time: u64,
    dt: u64,
    joystick_deadzone: i32,
    speed_curve: ResponseCurve,
}

impl GamepadDriver {
    pub closed spec fn spec_samples(&self) -> (int, int, int) {
        (self.lt_state.value as int, self.rt_state.value as int, self.left_joystick_state.y as int)
    }

    pub closed spec fn spec_speed(&self) -> int {
        self.speed as int
    }

    pub closed spec fn spec_setpoint(&self) -> int {
        self.setpoint as int
    }

    /// Whether a tick has happened yet.
    pub closed spec fn spec_started(&self) -> bool {
        self.started
    }

    pub closed spec fn spec_last_time(&self) -> u64 {
        self.last_time
    }

    pub closed spec fn spec_dt(&self) -> u64 {
        self.dt
    }

    pub closed spec fn spec_deadzone(&self) -> int {
        self.joystick_deadzone as int
    }

    pub closed spec fn spec_curve(&self) -> ResponseCurve {
        self.speed_curve
    }

    /// Samples stay in range, the speed is never negative, and the curve is well formed.
    pub open spec fn wf(&self) -> bool {
        let s = self.spec_samples();
        &&& 0 <= s.0 <= UNIT
        &&& 0 <= s.1 <= UNIT
        &&& -UNIT <= s.2 <= UNIT
        &&& self.spec_speed() >= 0
        &&& self.spec_curve().wf()
    }

    /// A driver at rest that has not ticked yet, shaping the stick with `speed_curve`
    /// and with a deadzone of a tenth of full throw.
    pub fn new(speed_curve: ResponseCurve) -> (r: GamepadDriver)
        requires
            speed_curve.wf(),
        ensures
            r.wf(),
            !r.spec_started(),
            r.spec_samples() == (0int, 0int, 0int),
            r.spec_speed() == 0,
            r.spec_setpoint() == 0,
            r.spec_dt() == 0,
            r.spec_deadzone() == 100,
            r.spec_curve() == speed_curve,
    {
        GamepadDriver {
            rt_state: TriggerState::new(),
            lt_state: TriggerState::new(),
            left_joystick_state: AxisState::new(),
            speed: 0,
            setpoint: 0,
            started: false,
            last_time: 0,
            dt: 0,
            joystick_deadzone: 100,
            speed_curve,
        }
    }

    /// Elapsed time of a tick at `now`: the time since the previous tick, or zero on
    /// the first one.
    pub open spec fn elapsed(&self, now: u64) -> int {
        if self.spec_started() {
            now - self.spec_last_time()
        } else {
            0
        }
    }

    /// Advances one tick at time `now` (milliseconds): takes in the pending events,
    /// then integrates the speed and, with the new speed, the setpoint over the time
    /// since the previous tick (none on the first tick).
    pub fn tick(&mut self, now: u64, events: &Vec<GamepadEvent>)
        requires
            old(self).wf(),
            old(self).spec_started() ==> now >= old(self).spec_last_time(),
            forall|i: int| 0 <= i < events@.len() ==> event_ok(#[trigger] events@[i]),
        ensures
            final(self).wf(),
            final(self).spec_started(),
            final(self).spec_last_time() == now,
            final(self).spec_dt() == old(self).elapsed(now),
            final(self).spec_deadzone() == old(self).spec_deadzone(),
            final(self).spec_curve() == old(self).spec_curve(),
            final(self).spec_samples() == apply_events(
                old(self).spec_samples(),
                old(self).spec_deadzone(),
                events@,
            ),
            final(self).spec_speed() == gamepad_speed(
                old(self).spec_curve(),
                old(self).spec_deadzone(),
                old(self).spec_speed(),
                final(self).spec_samples().2,
                final(self).spec_dt() as int,
            ),
            final(self).spec_setpoint() == gamepad_setpoint(
                old(self).spec_setpoint(),
                final(self).spec_samples().0,
                final(self).spec_samples().1,
                final(self).spec_speed(),
                final(self).spec_dt() as int,
            ),
    {
        self.dt = if self.started {
            now - self.last_time
        } else {
            0
        };
        self.started = true;
        self.last_time = now;
        self.handle_events(events);
        let speed = self.calculate_speed();
        self.set_speed(speed);
        let setpoint = self.calculate_setpoint();
        self.set_setpoint(setpoint);
    }

    fn calculate_speed(&self) -> (r: i64)
        requires
            self.wf(),
        ensures
            r == gamepad_speed(
                self.spec_curve(),
                self.spec_deadzone(),
                self.spec_speed(),
                self.spec_samples().2,
                self.spec_dt() as int,
            ),
            r >= 0,
    {
        let shaped = sigmoid_shape(&self.speed_curve, self.left_joystick_state.y);
        let rate = deadzone(shaped, self.joystick_deadzone);
        rate_integrate_speed(self.speed, rate, self.dt)
    }

    fn calculate_setpoint(&self) -> (r: i64)
        requires
            self.wf(),
        ensures
            r == gamepad_setpoint(
                self.spec_setpoint(),
                self.spec_samples().0,
                self.spec_samples().1,
                self.spec_speed(),
                self.spec_dt() as int,
            ),
    {
        if self.rt_state.value > 0 {
            rate_integrate_setpoint(self.setpoint, true, self.rt_state.value, self.speed, self.dt)
        } else {
            rate_integrate_setpoint(self.setpoint, false, self.lt_state.value, self.speed, self.dt)
        }
    }

    fn handle_events(&mut self, events: &Vec<GamepadEvent>)
        requires
            old(self).wf(),
            forall|i: int| 0 <= i < events@.len() ==> event_ok(#[trigger] events@[i]),
        ensures
            final(self).wf(),
            final(self).spec_samples() == apply_events(
                old(self).spec_samples(),
                old(self).spec_deadzone(),
                events@,
            ),
            final(self).spec_speed() == old(self).spec_speed(),
            final(self).spec_setpoint() == old(self).spec_setpoint(),
            final(self).spec_last_time() == old(self).spec_last_time(),
            final(self).spec_started() == old(self).spec_started(),
            final(self).spec_dt() == old(self).spec_dt(),
            final(self).spec_deadzone() == old(self).spec_deadzone(),
            final(self).spec_curve() == old(self).spec_curve(),
    {
        let mut i: usize = 0;
        while i < events.len()
            invariant
                self.wf(),
                i <= events@.len(),
                forall|j: int| 0 <= j < events@.len() ==> event_ok(#[trigger] events@[j]),
                self.spec_samples() == apply_events(
                    old(self).spec_samples(),
                    old(self).spec_deadzone(),
                    events@.subrange(0, i as int),
                ),
                self.spec_speed() == old(self).spec_speed(),
                self.spec_setpoint() == old(self).spec_setpoint(),
                self.spec_last_time() == old(self).spec_last_time(),
                self.spec_started() == old(self).spec_started(),
                self.spec_dt() == old(self).spec_dt(),
                self.spec_deadzone() == old(self).spec_deadzone(),
                self.spec_curve() == old(self).spec_curve(),
            decreases events@.len() - i,
        {
            assert(events@.subrange(0, i + 1).drop_last() == events@.subrange(0, i as int));
            match events[i] {
                GamepadEvent::LeftStickY(v) => self.handle_lj_event(v),
                GamepadEvent::LeftTrigger(v) => self.handle_lt_event(v),
                GamepadEvent::RightTrigger(v) => self.handle_rt_event(v),
            }
            i = i + 1;
        }
        assert(events@.subrange(0, events@.len() as int) == events@);
    }

    fn handle_lt_event(&mut self, value: i32)
        requires
            old(self).wf(),
            0 <= value <= UNIT,
        ensures
            final(self).wf(),
            final(self).spec_samples() == apply_event(
                old(self).spec_samples(),
                old(self).spec_deadzone(),
                GamepadEvent::LeftTrigger(value),
            ),
            final(self).spec_speed() == old(self).spec_speed(),
            final(self).spec_setpoint() == old(self).spec_setpoint(),
            final(self).spec_last_time() == old(self).spec_last_time(),
            final(self).spec_started() == old(self).spec_started(),
            final(self).spec_dt() == old(self).spec_dt(),
            final(self).spec_deadzone() == old(self).spec_deadzone(),
            final(self).spec_curve() == old(self).spec_curve(),
    {
        self.lt_state.value = value;
    }

    fn handle_rt_event(&mut self, value: i32)
        requires
            old(self).wf(),
            0 <= value <= UNIT,
        ensures
            final(self).wf(),
            final(self).spec_samples() == apply_event(
                old(self).spec_samples(),
                old(self).spec_deadzone(),
                GamepadEvent::RightTrigger(value),
            ),
            final(self).spec_speed() == old(self).spec_speed(),
            final(self).spec_setpoint() == old(self).spec_setpoint(),
            final(self).spec_last_time() == old(self).spec_last_time(),
            final(self).spec_started() == old(self).spec_started(),
            final(self).spec_dt() == old(self).spec_dt(),
            final(self).spec_deadzone() == old(self).spec_deadzone(),
            final(self).spec_curve() == old(self).spec_curve(),
    {
        self.rt_state.value = value;
    }

    fn handle_lj_event(&mut self, value: i32)
        requires
            old(self).wf(),
            -UNIT <= value <= UNIT,
        ensures
            final(self).wf(),
            final(self).spec_samples() == apply_event(
                old(self).spec_samples(),
                old(self).spec_deadzone(),
                GamepadEvent::LeftStickY(value),
            ),
            final(self).spec_speed() == old(self).spec_speed(),
            final(self).spec_setpoint() == old(self).spec_setpoint(),
            final(self).spec_last_time() == old(self).spec_last_time(),
            final(self).spec_started() == old(self).spec_started(),
            final(self).spec_dt() == old(self).spec_dt(),
            final(self).spec_deadzone() == old(self).spec_deadzone(),
            final(self).spec_curve() == old(self).spec_curve(),
    {
        self.left_joystick_state.y = deadzone(value, self.joystick_deadzone);
    }

    /// Overrides the speed; a negative value stops at zero.
    pub fn set_speed(&mut self, speed: i64)
        requires
            old(self).wf(),
        ensures
            final(self).wf(),
            final(self).spec_speed() == if speed < 0 {
                0
            } else {
                speed as int
            },
            final(self).spec_samples() == old(self).spec_samples(),
            final(self).spec_setpoint() == old(self).spec_setpoint(),
            final(self).spec_last_time() == old(self).spec_last_time(),
            final(self).spec_started() == old(self).spec_started(),
            final(self).spec_dt() == old(self).spec_dt(),
            final(self).spec_deadzone() == old(self).spec_deadzone(),
            final(self).spec_curve() == old(self).spec_curve(),
    {
        self.speed = if speed < 0 {
            0
        } else {
            speed
        };
    }

    /// Overrides the setpoint.
    pub fn set_setpoint(&mut self, setpoint: i64)
        requires
            old(self).wf(),
        ensures
            final(self).wf(),
            final(self).spec_setpoint() == setpoint,
            final(self).spec_samples() == old(self).spec_samples(),
            final(self).spec_speed() == old(self).spec_speed(),
            final(self).spec_last_time() == old(self).spec_last_time(),
            final(self).spec_started() == old(self).spec_started(),
            final(self).spec_dt() == old(self).spec_dt(),
            final(self).spec_deadzone() == old(self).spec_deadzone(),
            final(self).spec_curve() == old(self).spec_curve(),
    {
        self.setpoint = setpoint;
    }

    pub fn get_speed(&self) -> (r: i64)
        ensures
            r == self.spec_speed(),
    {
        self.speed
    }

    /// The gamepad's intent: its setpoint and speed; it always edits the setpoint.
    pub fn intent(&self) -> (r: MotionIntent)
        requires
            self.wf(),
        ensures
            r.setpoint == self.spec_setpoint(),
            r.speed == self.spec_speed(),
            r.control_mode == KnobControlMode::Setpoint,
            r.speed >= 0,
    {
        MotionIntent { setpoint: self.setpoint, speed: self.speed, control_mode: KnobControlMode::Setpoint }
    }

    pub fn get_setpoint(&self) -> (r: i64)
        ensures
            r == self.spec_setpoint(),
    {
        self.setpoint
    }
}

/// With no time elapsed a tick changes neither the speed nor the setpoint, whatever
/// the stick and the triggers read.
pub proof fn lemma_zero_dt_is_still(
    curve: ResponseCurve,
    deadzone_width: int,
    speed: int,
    setpoint: int,
    lt: int,
    rt: int,
    y: int,
)
    requires
        0 <= speed <= i64::MAX,
        i64::MIN <= setpoint <= i64::MAX,
    ensures
        gamepad_speed(curve, deadzone_width, speed, y, 0) == speed,
        gamepad_setpoint(setpoint, lt, rt, speed, 0) == setpoint,
{
    let r = deadzone_spec(shape_spec(curve, y), deadzone_width);
    assert(crate::shaping::abs(r) * 0 == 0);
    assert(lt * speed * 0 == 0);
    assert(rt * speed * 0 == 0);
}

/// With the increase trigger pressed the setpoint never moves backwards.
pub proof fn lemma_increase_trigger_advances(setpoint: int, lt: int, rt: int, speed: int, dt: int)
    requires
        i64::MIN <= setpoint <= i64::MAX,
        0 < rt <= UNIT,
        0 <= speed,
        0 <= dt,
    ensures
        gamepad_setpoint(setpoint, lt, rt, speed, dt) >= setpoint,
        gamepad_setpoint(setpoint, lt, rt, speed, dt) == clamp_i64(setpoint + travel(rt, speed, dt)),
{
    assert(rt * speed * dt >= 0) by (nonlinear_arith)
        requires
            rt >= 0,
            speed >= 0,
            dt >= 0,
    ;
}

} // verus!
