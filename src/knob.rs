use vstd::prelude::*;
use crate::intent::MotionIntent;

verus! {

/// Which quantity discrete knob input currently edits.
#[derive(Debug, Clone, Copy, PartialEq, Eq, Structural)]
pub enum KnobControlMode {
    Setpoint,
    Speed,
}

/// One decoded knob event.
#[derive(Debug, Clone, Copy, PartialEq, Eq, Structural)]
pub enum KnobCommand {
    NOP,
    MoveForwards,
    MoveBackwards,
    ModeToggle(KnobControlMode),
    DecreaseSpeed,
}

#[derive(Debug, Clone, Copy, PartialEq, Eq, Structural)]
pub enum KnobDirection {
    Forwards,
    Backwards,
}

/// The command a raw knob code stands for; codes without a meaning give `None`.
pub open spec fn command_of(value: u8) -> Option<KnobCommand> {
    if value == 0 {
        Some(KnobCommand::NOP)
    } else if value == 1 {
        Some(KnobCommand::MoveForwards)
    } else if value == 2 {
        Some(KnobCommand::MoveBackwards)
    } else if value == 16 {
        Some(KnobCommand::ModeToggle(KnobControlMode::Setpoint))
    } else if value == 32 {
        Some(KnobCommand::ModeToggle(KnobControlMode::Speed))
    } else {
        None
    }
}

/// Suppression memory for discrete input: the last accepted command and when it came.
pub struct Debouncer {
    last_command: KnobCommand,
    last_command_time: u64,
    window: u64,
}

impl Debouncer {
    pub closed spec fn spec_last_command(&self) -> KnobCommand {
        self.last_command
    }

    pub closed spec fn spec_last_time(&self) -> u64 {
        self.last_command_time
    }

    pub closed spec fn spec_window(&self) -> u64 {
        self.window
    }

    /// A command is a new event when it is not `NOP` and either differs from the
    /// last accepted one or comes more than the window after it.
    pub open spec fn accepts(&self, command: KnobCommand, now: u64) -> bool {
        command != KnobCommand::NOP && (command != self.spec_last_command() || now
            - self.spec_last_time() > self.spec_window())
    }

    /// The debouncer after it was offered `command` at time `now`.
    pub closed spec fn after(&self, command: KnobCommand, now: u64) -> Debouncer {
        if self.accepts(command, now) {
            Debouncer { last_command: command, last_command_time: now, window: self.window }
        } else {
            *self
        }
    }

    /// A debouncer that has accepted nothing yet, with a window of `window` milliseconds.
    pub fn new(window: u64) -> (r: Debouncer)
        ensures
            r.spec_last_command() == KnobCommand::NOP,
            r.spec_last_time() == 0,
            r.spec_window() == window,
    {
        Debouncer { last_command: KnobCommand::NOP, last_command_time: 0, window }
    }

    /// Decides whether `command` at time `now` is a new logical event, and if so
    /// remembers it.
    pub fn accept(&mut self, command: KnobCommand, now: u64) -> (r: bool)
        requires
            now >= old(self).spec_last_time(),
        ensures
            r == old(self).accepts(command, now),
            r ==> final(self).spec_last_command() == command && final(self).spec_last_time()
                == now && final(self).spec_window() == old(self).spec_window(),
            !r ==> *final(self) == *old(self),
            *final(self) == old(self).after(command, now),
    {
        if command == KnobCommand::NOP {
            return false;
        }
        if command != self.last_command || now - self.last_command_time > self.window {
            self.last_command = command;
            self.last_command_time = now;
            true
        } else {
            false
        }
    }

    pub fn last_command(&self) -> (r: KnobCommand)
        ensures
            r == self.spec_last_command(),
    {
        self.last_command
    }

    pub fn last_command_time(&self) -> (r: u64)
        ensures
            r == self.spec_last_time(),
    {
        self.last_command_time
    }

    pub fn window(&self) -> (r: u64)
        ensures
            r == self.spec_window(),
    {
        self.window
    }
}

/// The same command offered again 50 ms and 150 ms after an accepted one, inside a
/// 200 ms window, is suppressed both times; offered 250 ms after, it is accepted.
pub proof fn lemma_debounce_repeats(d: Debouncer, command: KnobCommand, t: u64)
    requires
        d.spec_window() == 200,
        d.accepts(command, t),
        t >= d.spec_last_time(),
        t + 250 <= u64::MAX,
    ensures
        ({
            let d1 = d.after(command, t);
            &&& !d1.accepts(command, (t + 50) as u64)
            &&& d1.after(command, (t + 50) as u64) == d1
            &&& !d1.accepts(command, (t + 150) as u64)
            &&& d1.accepts(command, (t + 250) as u64)
        }),
{
}

/// Right after any accepted command, a different command (other than `NOP`) at the
/// very same instant is accepted, whatever the window.
pub proof fn lemma_debounce_switch(d: Debouncer, first: KnobCommand, second: KnobCommand, t: u64)
    requires
        d.accepts(first, t),
        second != first,
        second != KnobCommand::NOP,
    ensures
        d.after(first, t).accepts(second, t),
{
}

/// `v` saturated into the range of `i32`.
pub open spec fn clamp_i32(v: int) -> int {
    if v < i32::MIN {
        i32::MIN as int
    } else if v > i32::MAX {
        i32::MAX as int
    } else {
        v
    }
}

/// Speed after an accepted command: in `Speed` mode a move nudges it by the
/// sensitivity, never below zero.
pub open spec fn next_speed(mode: KnobControlMode, speed: int, sensitivity: int, command: KnobCommand) -> int {
    match (mode, command) {
        (KnobControlMode::Speed, KnobCommand::MoveForwards) => clamp_i32(speed + sensitivity),
        (KnobControlMode::Speed, KnobCommand::MoveBackwards) => if speed - sensitivity < 0 {
            0
        } else {
            speed - sensitivity
        },
        _ => speed,
    }
}

/// Desired position after an accepted command: in `Setpoint` mode a move nudges it
/// by the current speed.
pub open spec fn next_position(mode: KnobControlMode, speed: int, position: int, command: KnobCommand) -> int {
    match (mode, command) {
        (KnobControlMode::Setpoint, KnobCommand::MoveForwards) => clamp_i32(position + speed),
        (KnobControlMode::Setpoint, KnobCommand::MoveBackwards) => clamp_i32(position - speed),
        _ => position,
    }
}

/// Control mode after an accepted command: only a toggle changes it.
pub open spec fn next_mode(mode: KnobControlMode, command: KnobCommand) -> KnobControlMode {
    match command {
        KnobCommand::ModeToggle(m) => m,
        _ => mode,
    }
}

/// In `Setpoint` mode a forward nudge adds exactly the speed to the desired position
/// and a backward nudge takes it away, leaving the speed as it was (away from the
/// limits of `i32`).
pub proof fn lemma_setpoint_nudge(speed: int, sensitivity: int, position: int)
    requires
        0 <= speed,
        i32::MIN <= position - speed,
        position + speed <= i32::MAX,
    ensures
        next_position(KnobControlMode::Setpoint, speed, position, KnobCommand::MoveForwards)
            == position + speed,
        next_position(KnobControlMode::Setpoint, speed, position, KnobCommand::MoveBackwards)
            == position - speed,
        next_speed(KnobControlMode::Setpoint, speed, sensitivity, KnobCommand::MoveForwards)
            == speed,
        next_speed(KnobControlMode::Setpoint, speed, sensitivity, KnobCommand::MoveBackwards)
            == speed,
{
}

/// In `Speed` mode a forward nudge adds the sensitivity to the speed, a backward one
/// takes it away but never below zero, and neither moves the desired position.
pub proof fn lemma_speed_nudge(speed: int, sensitivity: int, position: int)
    requires
        0 <= speed <= i32::MAX,
        0 <= sensitivity,
        speed + sensitivity <= i32::MAX,
    ensures
        next_speed(KnobControlMode::Speed, speed, sensitivity, KnobCommand::MoveForwards) == speed
            + sensitivity,
        next_speed(KnobControlMode::Speed, speed, sensitivity, KnobCommand::MoveBackwards) == if speed
            >= sensitivity {
            speed - sensitivity
        } else {
            0
        },
        next_speed(KnobControlMode::Speed, speed, sensitivity, KnobCommand::MoveBackwards) >= 0,
        next_position(KnobControlMode::Speed, speed, position, KnobCommand::MoveForwards)
            == position,
        next_position(KnobControlMode::Speed, speed, position, KnobCommand::MoveBackwards)
            == position,
{
}

/// Discrete input source: a rotary knob whose events edit either the speed or the
/// desired position.
pub struct Knob {
    speed: i32,
    speed_sensitivity: i32,
    desired_position: i32,
    debouncer: Debouncer,
    control_mode: KnobControlMode,
}

impl Knob {
    pub closed spec fn spec_speed(&self) -> int {
        self.speed as int
    }

    pub closed spec fn spec_sensitivity(&self) -> int {
        self.speed_sensitivity as int
    }

    pub closed spec fn spec_position(&self) -> int {
        self.desired_position as int
    }

    pub closed spec fn spec_mode(&self) -> KnobControlMode {
        self.control_mode
    }

    pub closed spec fn spec_debouncer(&self) -> Debouncer {
        self.debouncer
    }

    /// Speed and sensitivity are never negative.
    pub open spec fn wf(&self) -> bool {
        self.spec_speed() >= 0 && self.spec_sensitivity() >= 0
    }

    /// A knob at position 0 in `Setpoint` mode, with speed 50, nudges of 10 in
    /// `Speed` mode, and a 200 ms debounce window.
    pub fn new() -> (r: Knob)
        ensures
            r.wf(),
            r.spec_speed() == 50,
            r.spec_sensitivity() == 10,
            r.spec_position() == 0,
            r.spec_mode() == KnobControlMode::Setpoint,
            r.spec_debouncer().spec_last_command() == KnobCommand::NOP,
            r.spec_debouncer().spec_last_time() == 0,
            r.spec_debouncer().spec_window() == 200,
    {
        Knob {
            speed: 50,
            desired_position: 0,
            speed_sensitivity: 10,
            debouncer: Debouncer::new(200),
            control_mode: KnobControlMode::Setpoint,
        }
    }

    /// Decodes a raw knob code; codes without a meaning give `None`.
    pub fn val_to_command(&self, value: u8) -> (r: Option<KnobCommand>)
        ensures
            r == command_of(value),
    {
        match value {
            0 => Some(KnobCommand::NOP),
            1 => Some(KnobCommand::MoveForwards),
            2 => Some(KnobCommand::MoveBackwards),
            16 => Some(KnobCommand::ModeToggle(KnobControlMode::Setpoint)),
            32 => Some(KnobCommand::ModeToggle(KnobControlMode::Speed)),
            _ => None,
        }
    }

    /// Whether the raw code `value` at time `now` is taken as a new event.
    pub open spec fn takes(&self, value: u8, now: u64) -> bool {
        command_of(value) is Some && self.spec_debouncer().accepts(command_of(value)->0, now)
    }

    /// Handles one raw knob code read at time `now` (milliseconds). Unknown codes,
    /// `NOP` and repeats inside the debounce window change nothing; an accepted
    /// command moves the setpoint or the speed, or switches the mode.
    pub fn handle_command(&mut self, value: u8, now: u64)
        requires
            old(self).wf(),
            now >= old(self).spec_debouncer().spec_last_time(),
        ensures
            final(self).wf(),
            !old(self).takes(value, now) ==> *final(self) == *old(self),
            old(self).takes(value, now) ==> ({
                let c = command_of(value)->0;
                &&& final(self).spec_speed() == next_speed(
                    old(self).spec_mode(),
                    old(self).spec_speed(),
                    old(self).spec_sensitivity(),
                    c,
                )
                &&& final(self).spec_position() == next_position(
                    old(self).spec_mode(),
                    old(self).spec_speed(),
                    old(self).spec_position(),
                    c,
                )
                &&& final(self).spec_mode() == next_mode(old(self).spec_mode(), c)
                &&& final(self).spec_sensitivity() == old(self).spec_sensitivity()
                &&& final(self).spec_debouncer().spec_last_command() == c
                &&& final(self).spec_debouncer().spec_last_time() == now
                &&& final(self).spec_debouncer().spec_window() == old(
                    self,
                ).spec_debouncer().spec_window()
            }),
    {
        let command = match self.val_to_command(value) {
            Some(c) => c,
            None => return ,
        };
        if !self.debouncer.accept(command, now) {
            return ;
        }
        match command {
            KnobCommand::MoveForwards => match self.control_mode {
                KnobControlMode::Setpoint => self.update_setpoint(KnobDirection::Forwards),
                KnobControlMode::Speed => self.update_speed(KnobDirection::Forwards),
            },
            KnobCommand::MoveBackwards => match self.control_mode {
                KnobControlMode::Setpoint => self.update_setpoint(KnobDirection::Backwards),
                KnobControlMode::Speed => self.update_speed(KnobDirection::Backwards),
            },
            KnobCommand::ModeToggle(mode) => {
                self.control_mode = mode;
            },
            _ => {},
        }
    }

    fn update_speed(&mut self, direction: KnobDirection)
        requires
            old(self).wf(),
        ensures
            final(self).wf(),
            final(self).spec_speed() == next_speed(
                KnobControlMode::Speed,
                old(self).spec_speed(),
                old(self).spec_sensitivity(),
                match direction {
                    KnobDirection::Forwards => KnobCommand::MoveForwards,
                    KnobDirection::Backwards => KnobCommand::MoveBackwards,
                },
            ),
            final(self).spec_position() == old(self).spec_position(),
            final(self).spec_sensitivity() == old(self).spec_sensitivity(),
            final(self).spec_mode() == old(self).spec_mode(),
            final(self).spec_debouncer() == old(self).spec_debouncer(),
    {
        let updated: i64 = match direction {
            KnobDirection::Forwards => self.speed as i64 + self.speed_sensitivity as i64,
            KnobDirection::Backwards => self.speed as i64 - self.speed_sensitivity as i64,
        };
        self.speed = if updated < 0 {
            0
        } else if updated > i32::MAX as i64 {
            i32::MAX
        } else {
            updated as i32
        };
    }

    fn update_setpoint(&mut self, direction: KnobDirection)
        requires
            old(self).wf(),
        ensures
            final(self).wf(),
            final(self).spec_position() == next_position(
                KnobControlMode::Setpoint,
                old(self).spec_speed(),
                old(self).spec_position(),
                match direction {
                    KnobDirection::Forwards => KnobCommand::MoveForwards,
                    KnobDirection::Backwards => KnobCommand::MoveBackwards,
                },
            ),
            final(self).spec_speed() == old(self).spec_speed(),
            final(self).spec_sensitivity() == old(self).spec_sensitivity(),
            final(self).spec_mode() == old(self).spec_mode(),
            final(self).spec_debouncer() == old(self).spec_debouncer(),
    {
        let updated: i64 = match direction {
            KnobDirection::Forwards => self.desired_position as i64 + self.speed as i64,
            KnobDirection::Backwards => self.desired_position as i64 - self.speed as i64,
        };
        self.desired_position = if updated < i32::MIN as i64 {
            i32::MIN
        } else if updated > i32::MAX as i64 {
            i32::MAX
        } else {
            updated as i32
        };
    }

    /// Overrides the speed from outside (the user interface); a negative value
    /// stops the knob at zero.
    pub fn set_speed(&mut self, speed: i32)
        requires
            old(self).wf(),
        ensures
            final(self).wf(),
            final(self).spec_speed() == if speed < 0 {
                0
            } else {
                speed as int
            },
            final(self).spec_position() == old(self).spec_position(),
            final(self).spec_sensitivity() == old(self).spec_sensitivity(),
            final(self).spec_mode() == old(self).spec_mode(),
            final(self).spec_debouncer() == old(self).spec_debouncer(),
    {
        self.speed = if speed < 0 {
            0
        } else {
            speed
        };
    }

    pub fn get_speed(&self) -> (r: i32)
        ensures
            r == self.spec_speed(),
    {
        self.speed
    }

    pub fn get_setpoint(&self) -> (r: i32)
        ensures
            r == self.spec_position(),
    {
        self.desired_position
    }

    pub fn get_control_mode(&self) -> (r: KnobControlMode)
        ensures
            r == self.spec_mode(),
    {
        self.control_mode
    }

    /// The knob's intent, in thousandths of a step.
    pub fn intent(&self) -> (r: MotionIntent)
        requires
            self.wf(),
        ensures
            r.setpoint == self.spec_position() * 1000,
            r.speed == self.spec_speed() * 1000,
            r.control_mode == self.spec_mode(),
            r.speed >= 0,
    {
        MotionIntent {
            setpoint: self.desired_position as i64 * 1000,
            speed: self.speed as i64 * 1000,
            control_mode: self.control_mode,
        }
    }

    pub fn debouncer(&self) -> (r: &Debouncer)
        ensures
            *r == self.spec_debouncer(),
    {
        &self.debouncer
    }
}

} // verus!
