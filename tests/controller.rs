use focus_core::focus_controller::FocusController;
use focus_core::gamepad::{GamepadDriver, GamepadEvent};
use focus_core::knob::{Knob, KnobControlMode};
use focus_core::shaping::ResponseCurve;

fn logistic_curve() -> ResponseCurve {
    let table: Vec<u16> = (0..=1000)
        .map(|k| {
            let a = k as f64 / 1000.0;
            let v = 1.0 / (1.0 + (-20.0 * (a - 0.5)).exp());
            (v * 1000.0).round() as u16
        })
        .collect();
    match ResponseCurve::from_table(table) {
        Ok(c) => c,
        Err(_) => panic!("logistic table should be a valid curve"),
    }
}

fn controller_at(now: u64) -> FocusController {
    let mut c = FocusController::new(GamepadDriver::new(logistic_curve()));
    assert_eq!(c.tick(now, &vec![]), None);
    c
}

fn driver_at(now: u64) -> GamepadDriver {
    let mut g = GamepadDriver::new(logistic_curve());
    g.tick(now, &vec![]);
    g
}

#[test]
fn gamepad_zero_dt_keeps_state() {
    let mut g = GamepadDriver::new(logistic_curve());
    g.set_speed(40_000);
    g.set_setpoint(-3_000);
    let events = vec![
        GamepadEvent::LeftStickY(1000),
        GamepadEvent::RightTrigger(1000),
        GamepadEvent::LeftTrigger(600),
    ];
    g.tick(5_000, &events);
    assert_eq!(g.get_speed(), 40_000);
    assert_eq!(g.get_setpoint(), -3_000);
    g.tick(5_000, &vec![GamepadEvent::LeftStickY(-1000)]);
    assert_eq!(g.get_speed(), 40_000);
    assert_eq!(g.get_setpoint(), -3_000);
}

#[test]
fn gamepad_first_tick_has_no_elapsed_time() {
    let mut g = GamepadDriver::new(logistic_curve());
    g.set_speed(100_000);
    g.tick(987_654, &vec![GamepadEvent::RightTrigger(1000), GamepadEvent::LeftStickY(1000)]);
    assert_eq!(g.get_speed(), 100_000);
    assert_eq!(g.get_setpoint(), 0);
    g.tick(987_754, &vec![]);
    assert_eq!(g.get_speed(), 110_000);
    assert_eq!(g.get_setpoint(), 110_000);
}

#[test]
fn gamepad_stick_accelerates_and_decelerates() {
    let mut g = driver_at(0);
    g.tick(100, &vec![GamepadEvent::LeftStickY(1000)]);
    assert_eq!(g.get_speed(), 10_000);
    g.tick(200, &vec![GamepadEvent::LeftStickY(-1000)]);
    assert_eq!(g.get_speed(), 0);
    g.tick(300, &vec![]);
    assert_eq!(g.get_speed(), 0);
}

#[test]
fn gamepad_stick_inside_deadzone_is_rest() {
    let mut g = driver_at(0);
    g.set_speed(5_000);
    g.tick(1_000, &vec![GamepadEvent::LeftStickY(90)]);
    assert_eq!(g.get_speed(), 5_000);
}

#[test]
fn gamepad_decrease_trigger_moves_back() {
    let mut g = driver_at(0);
    g.set_speed(100_000);
    g.tick(100, &vec![GamepadEvent::LeftTrigger(500)]);
    assert_eq!(g.get_setpoint(), -50_000);
    g.tick(200, &vec![GamepadEvent::RightTrigger(1000)]);
    assert_eq!(g.get_setpoint(), 50_000);
}

#[test]
fn controller_idle_at_rest_sends_nothing() {
    let mut c = controller_at(0);
    assert_eq!(c.tick(100, &vec![]), None);
    assert_eq!(c.tick(200, &vec![GamepadEvent::RightTrigger(1000)]), None);
    assert_eq!(c.step_position(), 0);
    assert_eq!(c.control_mode(), KnobControlMode::Setpoint);
    assert_eq!(c.control_mode_label(), "setpoint");
}

#[test]
fn controller_sustained_trigger_moves_every_tick() {
    let mut c = controller_at(0);
    c.set_speed(100_000);
    let mut now = 0;
    let mut previous = c.intended_step_position();
    for tick in 1..=10 {
        now += 100;
        let events = if tick == 1 { vec![GamepadEvent::RightTrigger(1000)] } else { vec![] };
        let line = c.tick(now, &events);
        let intended = c.intended_step_position();
        assert!(intended > previous);
        assert_eq!(intended, 100_000 * tick as i64);
        let expected = format!("move 100 {}\n", 100 * tick);
        assert_eq!(line, Some(expected.into_bytes()));
        assert_eq!(c.step_position(), intended);
        assert_eq!(c.get_speed(), 100_000);
        previous = intended;
    }
    assert_eq!(c.position_steps(), 1_000);
}

#[test]
fn controller_query_reply_sets_position() {
    let mut c = controller_at(0);
    assert_eq!(c.position_query(), b"position\n".to_vec());
    assert!(c.get_position(&b"342\n".to_vec()));
    assert_eq!(c.position_steps(), 342);
    assert_eq!(c.step_position(), 342_000);
}

#[test]
fn controller_malformed_reply_keeps_position() {
    let mut c = controller_at(0);
    assert!(c.get_position(&b"-15\n".to_vec()));
    assert!(!c.get_position(&b"garbage\n".to_vec()));
    assert!(!c.get_position(&b"9223372036854775807\n".to_vec()));
    assert_eq!(c.position_steps(), -15);
}

#[test]
fn controller_moves_back_after_query() {
    let mut c = controller_at(0);
    assert!(c.get_position(&b"7\n".to_vec()));
    assert_eq!(c.tick(10, &vec![]), Some(b"move 0 0\n".to_vec()));
    assert_eq!(c.step_position(), 0);
    assert_eq!(c.tick(20, &vec![]), None);
}

#[test]
fn controller_move_motor_sends_intent() {
    let mut c = controller_at(0);
    c.set_speed(75_000);
    c.tick(100, &vec![GamepadEvent::LeftTrigger(1000)]);
    assert_eq!(c.intended_step_position(), -75_000);
    assert_eq!(c.move_motor(), b"move 75 -75\n".to_vec());
}

#[test]
fn controller_ports() {
    let mut c = controller_at(0);
    c.init_usb(vec!["COM3".to_string(), "COM4".to_string()]);
    assert_eq!(c.serialports().len(), 2);
    assert_eq!(c.selected_port_name(), "COM3");
    c.select_port("COM4".to_string());
    assert_eq!(c.selected_port_name(), "COM4");
    c.init_usb(vec![]);
    assert_eq!(c.selected_port_name(), "COM4");
}

#[test]
fn controller_follows_knob_intent() {
    let mut c = controller_at(0);
    let mut k = Knob::new();
    assert_eq!(c.apply_intent(k.intent()), None);
    k.handle_command(1, 1_000);
    let intent = k.intent();
    assert_eq!(intent.setpoint, 50_000);
    assert_eq!(intent.speed, 50_000);
    assert_eq!(c.apply_intent(intent), Some(b"move 50 50\n".to_vec()));
    assert_eq!(c.apply_intent(intent), None);
    k.handle_command(32, 1_000);
    assert_eq!(c.apply_intent(k.intent()), None);
    assert_eq!(c.control_mode(), KnobControlMode::Speed);
    assert_eq!(c.control_mode_label(), "speed");
}
