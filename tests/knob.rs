use focus_core::knob::{Debouncer, Knob, KnobCommand, KnobControlMode};

#[test]
fn debounce_suppresses_repeats_inside_window() {
    let mut d = Debouncer::new(200);
    let t = 10_000;
    assert!(d.accept(KnobCommand::MoveForwards, t));
    assert!(!d.accept(KnobCommand::MoveForwards, t + 50));
    assert!(!d.accept(KnobCommand::MoveForwards, t + 150));
    assert_eq!(d.last_command_time(), t);
}

#[test]
fn debounce_accepts_repeat_after_window() {
    let mut d = Debouncer::new(200);
    let t = 10_000;
    assert!(d.accept(KnobCommand::MoveForwards, t));
    assert!(d.accept(KnobCommand::MoveForwards, t + 250));
    assert_eq!(d.last_command_time(), t + 250);
}

#[test]
fn debounce_window_boundary_is_exclusive() {
    let mut d = Debouncer::new(200);
    assert!(d.accept(KnobCommand::MoveBackwards, 1_000));
    assert!(!d.accept(KnobCommand::MoveBackwards, 1_200));
    assert!(d.accept(KnobCommand::MoveBackwards, 1_201));
}

#[test]
fn debounce_accepts_different_command_at_once() {
    let mut d = Debouncer::new(200);
    assert!(d.accept(KnobCommand::MoveForwards, 500));
    assert!(d.accept(KnobCommand::MoveBackwards, 500));
    assert!(d.accept(KnobCommand::ModeToggle(KnobControlMode::Speed), 500));
    assert_eq!(d.last_command(), KnobCommand::ModeToggle(KnobControlMode::Speed));
}

#[test]
fn debounce_never_accepts_nop() {
    let mut d = Debouncer::new(200);
    assert!(!d.accept(KnobCommand::NOP, 0));
    assert!(!d.accept(KnobCommand::NOP, 100_000));
    assert_eq!(d.last_command(), KnobCommand::NOP);
}

#[test]
fn knob_decodes_codes() {
    let k = Knob::new();
    assert_eq!(k.val_to_command(0), Some(KnobCommand::NOP));
    assert_eq!(k.val_to_command(1), Some(KnobCommand::MoveForwards));
    assert_eq!(k.val_to_command(2), Some(KnobCommand::MoveBackwards));
    assert_eq!(k.val_to_command(16), Some(KnobCommand::ModeToggle(KnobControlMode::Setpoint)));
    assert_eq!(k.val_to_command(32), Some(KnobCommand::ModeToggle(KnobControlMode::Speed)));
    assert_eq!(k.val_to_command(7), None);
}

#[test]
fn knob_setpoint_mode_moves_by_speed() {
    let mut k = Knob::new();
    assert_eq!(k.get_speed(), 50);
    assert_eq!(k.get_control_mode(), KnobControlMode::Setpoint);
    k.handle_command(1, 1_000);
    assert_eq!(k.get_setpoint(), 50);
    k.handle_command(2, 1_000);
    assert_eq!(k.get_setpoint(), 0);
    assert_eq!(k.get_speed(), 50);
}

#[test]
fn knob_speed_mode_moves_by_sensitivity() {
    let mut k = Knob::new();
    k.handle_command(32, 1_000);
    assert_eq!(k.get_control_mode(), KnobControlMode::Speed);
    k.handle_command(1, 1_001);
    assert_eq!(k.get_speed(), 60);
    assert_eq!(k.get_setpoint(), 0);
}

#[test]
fn knob_speed_never_below_zero() {
    let mut k = Knob::new();
    k.handle_command(32, 1_000);
    let mut now = 1_000;
    for _ in 0..10 {
        now += 300;
        k.handle_command(2, now);
    }
    assert_eq!(k.get_speed(), 0);
    k.handle_command(16, now);
    k.handle_command(1, now + 1);
    assert_eq!(k.get_setpoint(), 0);
}

#[test]
fn knob_ignores_unknown_and_repeated_codes() {
    let mut k = Knob::new();
    k.handle_command(99, 1_000);
    k.handle_command(0, 1_000);
    assert_eq!(k.get_setpoint(), 0);
    assert_eq!(k.debouncer().last_command(), KnobCommand::NOP);
    k.handle_command(1, 1_000);
    k.handle_command(1, 1_100);
    assert_eq!(k.get_setpoint(), 50);
    k.handle_command(1, 1_300);
    assert_eq!(k.get_setpoint(), 100);
}

#[test]
fn knob_mode_toggle_keeps_values() {
    let mut k = Knob::new();
    k.handle_command(1, 1_000);
    k.handle_command(32, 1_000);
    assert_eq!(k.get_control_mode(), KnobControlMode::Speed);
    assert_eq!(k.get_setpoint(), 50);
    assert_eq!(k.get_speed(), 50);
}

#[test]
fn knob_speed_override_floors_at_zero() {
    let mut k = Knob::new();
    k.set_speed(120);
    assert_eq!(k.get_speed(), 120);
    k.handle_command(1, 1_000);
    assert_eq!(k.get_setpoint(), 120);
    k.set_speed(-5);
    assert_eq!(k.get_speed(), 0);
}
