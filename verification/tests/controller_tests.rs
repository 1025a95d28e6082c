use nordichack::rptreadmill::{Action, ControllerConfig, PiTreadmill, INCLINE_PULSE_MS};
use nordichack::treadmill::{Command, Event, Notice, TreadmillError};
use nordichack::watcher::InputEvent;

fn fresh() -> PiTreadmill {
    PiTreadmill::new(ControllerConfig::default())
}

#[test]
fn duty_cycle_formula() {
    assert_eq!(PiTreadmill::km_per_hour_to_duty_cycle(600), 3912);
    assert_eq!(PiTreadmill::km_per_hour_to_duty_cycle(1), 1863);
    assert_eq!(PiTreadmill::km_per_hour_to_duty_cycle(0), 0);
    assert_eq!(PiTreadmill::km_per_hour_to_duty_cycle(-500), 0);
}

#[test]
fn set_speed_from_idle_enables_and_drives() {
    let mut t = fresh();
    let (actions, events) = t.handle_command(Command::SetSpeed(600));
    assert_eq!(actions, vec![Action::EnablePwm, Action::SetDuty(3912)]);
    assert_eq!(events, vec![Event::SpeedChanged(600)]);
    assert!(t.pwm_enabled);
    assert_eq!(t.duty, 3912);
}

#[test]
fn set_speed_zero_while_running_stops_and_disables() {
    let mut t = fresh();
    t.handle_command(Command::SetSpeed(600));
    let (actions, events) = t.handle_command(Command::SetSpeed(0));
    assert_eq!(actions, vec![Action::SetDuty(0), Action::DisablePwm]);
    assert_eq!(events, vec![Event::SpeedChanged(0)]);
    assert!(!t.pwm_enabled);
    assert_eq!(t.duty, 0);
}

#[test]
fn set_speed_zero_while_idle_does_nothing() {
    let mut t = fresh();
    let (actions, events) = t.handle_command(Command::SetSpeed(0));
    assert!(actions.is_empty());
    assert!(events.is_empty());
}

#[test]
fn unchanged_duty_is_not_rewritten() {
    let mut t = fresh();
    t.handle_command(Command::SetSpeed(600));
    let (actions, events) = t.handle_command(Command::SetSpeed(600));
    assert!(actions.is_empty());
    assert_eq!(events, vec![Event::SpeedChanged(600)]);
    let (actions, events) = t.handle_command(Command::SetSpeed(700));
    assert_eq!(actions, vec![Action::SetDuty(4254)]);
    assert_eq!(events, vec![Event::SpeedChanged(700)]);
}

#[test]
fn incline_commands_pulse_the_outputs() {
    let mut t = fresh();
    let (actions, events) = t.handle_command(Command::RaiseIncline);
    assert_eq!(actions, vec![Action::PulseInclineUp(INCLINE_PULSE_MS)]);
    assert!(events.is_empty());
    let (actions, _) = t.handle_command(Command::LowerIncline);
    assert_eq!(actions, vec![Action::PulseInclineDown(INCLINE_PULSE_MS)]);

    let mut quick = PiTreadmill::new(ControllerConfig { incline_pulse_ms: 1000 });
    let (actions, _) = quick.handle_command(Command::RaiseIncline);
    assert_eq!(actions, vec![Action::PulseInclineUp(1000)]);
}

#[test]
fn incline_does_not_change_belt_state() {
    let mut t = fresh();
    t.handle_command(Command::SetSpeed(600));
    t.handle_command(Command::RaiseIncline);
    assert!(t.pwm_enabled);
    assert_eq!(t.duty, 3912);
}

#[test]
fn shutdown_stops_everything_and_is_terminal() {
    let mut t = fresh();
    t.handle_command(Command::SetSpeed(600));
    let (actions, events) = t.handle_command(Command::Shutdown);
    assert_eq!(actions, vec![Action::SetDuty(0), Action::DisablePwm]);
    assert!(events.is_empty());
    assert!(!t.running);
    assert!(!t.pwm_enabled);
    assert_eq!(t.duty, 0);

    // No further transitions: later traffic is a no-op.
    let (actions, events) = t.handle_command(Command::SetSpeed(600));
    assert!(actions.is_empty());
    assert!(events.is_empty());
    assert!(!t.pwm_enabled);
    let (actions, events) = t.handle_input_event(InputEvent::SpeedPulse(100));
    assert!(actions.is_empty());
    assert!(events.is_empty());
}

#[test]
fn safety_key_removal_reports_and_forces_a_stop() {
    let mut t = fresh();
    t.handle_command(Command::SetSpeed(600));
    let (actions, events) = t.handle_input_event(InputEvent::SafetyKeyRemoved);
    assert_eq!(events, vec![Event::KeyRemoved]);
    assert_eq!(actions, vec![Action::SetDuty(0), Action::DisablePwm]);
    assert!(!t.pwm_enabled);
    assert_eq!(t.duty, 0);
    assert!(t.running);
}

#[test]
fn safety_key_removal_while_idle_only_reports() {
    let mut t = fresh();
    let (actions, events) = t.handle_input_event(InputEvent::SafetyKeyRemoved);
    assert_eq!(events, vec![Event::KeyRemoved]);
    assert!(actions.is_empty());
}

#[test]
fn safety_key_insertion_only_reports() {
    let mut t = fresh();
    let (actions, events) = t.handle_input_event(InputEvent::SafetyKeyInserted);
    assert_eq!(events, vec![Event::KeyInserted]);
    assert!(actions.is_empty());
}

#[test]
fn incline_pulse_is_reported() {
    let mut t = fresh();
    let (actions, events) = t.handle_input_event(InputEvent::InclinePulse(800));
    assert!(actions.is_empty());
    assert_eq!(events, vec![Event::Message(Notice::InclinePulse(800))]);
}

#[test]
fn zero_period_pulse_reports_a_conversion_fault() {
    let mut t = fresh();
    let (actions, events) = t.handle_input_event(InputEvent::SpeedPulse(0));
    assert!(actions.is_empty());
    assert_eq!(
        events,
        vec![Event::Message(Notice::Fault(TreadmillError::Conversion))]
    );
    assert_eq!(t.current_speed, 0);
}

#[test]
fn rolling_average_over_ten_samples() {
    let mut t = fresh();
    // Each 100 ms pulse is a 5.523 km/h sample; the ring starts zeroed,
    // so the rounded average climbs by one tenth of a sample per pulse.
    for k in 1..=10u32 {
        let (actions, events) = t.handle_input_event(InputEvent::SpeedPulse(100));
        assert!(actions.is_empty());
        let expected = ((5523 * k + 50) / 100) as i32;
        assert_eq!(events, vec![Event::SpeedChanged(expected)], "after sample {k}");
        assert_eq!(t.current_speed, expected);
    }
    // Ten equal samples of 5.523 km/h average to 5.52 km/h, matching
    // round(mean * 100) / 100 on the exact values.
    assert_eq!(t.current_speed, 552);
}

#[test]
fn eleventh_sample_evicts_the_oldest() {
    let mut t = fresh();
    for _ in 0..10 {
        t.handle_input_event(InputEvent::SpeedPulse(100));
    }
    assert_eq!(t.current_speed, 552);
    // An eleventh, faster pulse (10.693 km/h) replaces one 5.523 km/h
    // sample: the window mean is (9 * 5523 + 10693 + 50) / 100.
    let (_, events) = t.handle_input_event(InputEvent::SpeedPulse(50));
    assert_eq!(events, vec![Event::SpeedChanged(604)]);
    assert_eq!(t.current_speed, 604);
    // Were the buffer an unbounded accumulator, the mean would instead
    // sink below every sample fed so far.
    assert!(t.current_speed > 552);
}

#[test]
fn unchanged_average_emits_no_event() {
    let mut t = fresh();
    for _ in 0..10 {
        t.handle_input_event(InputEvent::SpeedPulse(100));
    }
    // The ring is full of 5.523 km/h samples; one more replaces an equal
    // sample, so the reported speed cannot move.
    let (actions, events) = t.handle_input_event(InputEvent::SpeedPulse(100));
    assert!(actions.is_empty());
    assert!(events.is_empty());
    assert_eq!(t.current_speed, 552);
}

#[test]
fn measured_speed_never_drives_the_actuator() {
    let mut t = fresh();
    t.handle_command(Command::SetSpeed(600));
    for _ in 0..10 {
        let (actions, _) = t.handle_input_event(InputEvent::SpeedPulse(40));
        assert!(actions.is_empty());
    }
    assert_eq!(t.duty, 3912);
    assert!(t.pwm_enabled);
}
