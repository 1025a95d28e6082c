use nordichack::treadmill::{Command, Event, FakeTreadmill};

#[test]
fn starts_stopped_and_level() {
    let t = FakeTreadmill::new();
    assert_eq!(t.speed, 0);
    assert_eq!(t.incline, 0);
    assert!(t.running);
}

#[test]
fn set_speed_takes_effect_immediately() {
    let mut t = FakeTreadmill::new();
    let events = t.handle_command(Command::SetSpeed(600));
    assert_eq!(events, vec![Event::SpeedChanged(600)]);
    assert_eq!(t.speed, 600);
    let events = t.handle_command(Command::SetSpeed(250));
    assert_eq!(events, vec![Event::SpeedChanged(250)]);
    assert_eq!(t.speed, 250);
}

#[test]
fn incline_counts_up_and_down() {
    let mut t = FakeTreadmill::new();
    assert_eq!(t.handle_command(Command::RaiseIncline), vec![Event::InclineChanged(1)]);
    assert_eq!(t.handle_command(Command::RaiseIncline), vec![Event::InclineChanged(2)]);
    assert_eq!(t.handle_command(Command::LowerIncline), vec![Event::InclineChanged(1)]);
    assert_eq!(t.handle_command(Command::LowerIncline), vec![Event::InclineChanged(0)]);
}

#[test]
fn incline_is_clamped_at_zero() {
    let mut t = FakeTreadmill::new();
    let events = t.handle_command(Command::LowerIncline);
    assert!(events.is_empty());
    assert_eq!(t.incline, 0);
}

#[test]
fn shutdown_reports_a_final_stop() {
    let mut t = FakeTreadmill::new();
    t.handle_command(Command::SetSpeed(600));
    let events = t.handle_command(Command::Shutdown);
    assert_eq!(events, vec![Event::SpeedChanged(0)]);
    assert_eq!(t.speed, 0);
    assert!(!t.running);
    // Terminal: nothing moves afterwards.
    let events = t.handle_command(Command::SetSpeed(600));
    assert!(events.is_empty());
    assert_eq!(t.speed, 0);
}
