use totodoro::clock::{decimal_string, format_number, format_timer};
use totodoro::dispatch::{Dispatcher, MenuChoice, Schedule, TimerEvent, SESSION_SECONDS};
use totodoro::session::{SessionState, Status};

#[test]
fn format_timer_examples() {
    assert_eq!(format_timer(0), "00:00");
    assert_eq!(format_timer(65), "01:05");
    assert_eq!(format_timer(1199), "19:59");
    assert_eq!(format_timer(1200), "20:00");
    assert_eq!(format_timer(9), "00:09");
    assert_eq!(format_timer(10), "00:10");
    assert_eq!(format_timer(600), "10:00");
}

#[test]
fn format_timer_does_not_wrap_minutes() {
    assert_eq!(format_timer(3600), "60:00");
    assert_eq!(format_timer(6000), "100:00");
    assert_eq!(format_timer(60 * 100 + 7), "100:07");
}

#[test]
fn format_number_pads_single_digits() {
    assert_eq!(format_number(0), "00");
    assert_eq!(format_number(5), "05");
    assert_eq!(format_number(9), "09");
    assert_eq!(format_number(10), "10");
    assert_eq!(format_number(59), "59");
}

#[test]
fn decimal_string_examples() {
    assert_eq!(decimal_string(0), "0");
    assert_eq!(decimal_string(7), "7");
    assert_eq!(decimal_string(42), "42");
    assert_eq!(decimal_string(1200), "1200");
    assert_eq!(decimal_string(u64::MAX), "18446744073709551615");
}

#[test]
fn tick_ignored_while_idle() {
    let mut d = Dispatcher::new();
    let r = d.handle_event(TimerEvent::TickDue);
    assert_eq!(d.state.status, Status::Idle);
    assert_eq!(d.state.remaining, 0);
    assert!(r.label.is_none());
    assert!(r.schedule.is_none());
    assert!(!r.release_tray);
    assert!(!r.exit);
}

#[test]
fn tick_ignored_while_paused() {
    let mut d = Dispatcher {
        state: SessionState { status: Status::Paused, remaining: 321 },
        tray_held: true,
    };
    let r = d.handle_event(TimerEvent::TickDue);
    assert_eq!(d.state.status, Status::Paused);
    assert_eq!(d.state.remaining, 321);
    assert!(r.label.is_none());
    assert!(r.schedule.is_none());
}

#[test]
fn pause_resume_round_trip() {
    let mut d = Dispatcher::new();
    d.handle_event(TimerEvent::PrimaryClick);
    assert_eq!(d.state.status, Status::Running);
    assert_eq!(d.state.remaining, SESSION_SECONDS);
    d.handle_event(TimerEvent::PrimaryClick);
    assert_eq!(d.state.status, Status::Paused);
    assert_eq!(d.state.remaining, SESSION_SECONDS);
    d.handle_event(TimerEvent::PrimaryClick);
    assert_eq!(d.state.status, Status::Running);
    assert_eq!(d.state.remaining, SESSION_SECONDS);
}

#[test]
fn full_countdown_reaches_idle() {
    let mut d = Dispatcher::new();
    d.handle_event(TimerEvent::PrimaryClick);
    for i in 0..SESSION_SECONDS {
        let r = d.handle_event(TimerEvent::TickDue);
        let left = SESSION_SECONDS - i - 1;
        assert_eq!(d.state.remaining, left);
        if left > 0 {
            assert_eq!(d.state.status, Status::Running);
            assert_eq!(r.schedule, Some(Schedule::WakeInOneSecond));
        } else {
            assert_eq!(d.state.status, Status::Idle);
            assert_eq!(r.schedule, Some(Schedule::WaitIndefinitely));
            assert_eq!(r.label.unwrap(), "00:00");
        }
    }
    let r = d.handle_event(TimerEvent::TickDue);
    assert_eq!(d.state.status, Status::Idle);
    assert_eq!(d.state.remaining, 0);
    assert!(r.label.is_none());
}

#[test]
fn tick_to_zero_ends_session() {
    let mut d = Dispatcher {
        state: SessionState { status: Status::Running, remaining: 1 },
        tray_held: true,
    };
    let r = d.handle_event(TimerEvent::TickDue);
    assert_eq!(d.state.status, Status::Idle);
    assert_eq!(d.state.remaining, 0);
    assert_eq!(r.label.unwrap(), "00:00");
    assert_eq!(r.schedule, Some(Schedule::WaitIndefinitely));
}

#[test]
fn clear_resets_from_running() {
    let mut d = Dispatcher {
        state: SessionState { status: Status::Running, remaining: 777 },
        tray_held: true,
    };
    let r = d.handle_event(TimerEvent::MenuSelect(MenuChoice::Clear));
    assert_eq!(d.state.status, Status::Idle);
    assert_eq!(d.state.remaining, 0);
    assert_eq!(r.label.unwrap(), "00:00");
    assert_eq!(r.schedule, Some(Schedule::WaitIndefinitely));
    assert!(!r.release_tray);
    assert!(!r.exit);
}

#[test]
fn clear_resets_from_paused() {
    let mut d = Dispatcher {
        state: SessionState { status: Status::Paused, remaining: 5 },
        tray_held: true,
    };
    let r = d.handle_event(TimerEvent::MenuSelect(MenuChoice::Clear));
    assert_eq!(d.state.status, Status::Idle);
    assert_eq!(d.state.remaining, 0);
    assert_eq!(r.label.unwrap(), "00:00");
}

#[test]
fn clear_resets_from_idle() {
    let mut d = Dispatcher::new();
    let r = d.handle_event(TimerEvent::MenuSelect(MenuChoice::Clear));
    assert_eq!(d.state.status, Status::Idle);
    assert_eq!(d.state.remaining, 0);
    assert_eq!(r.label.unwrap(), "00:00");
}

#[test]
fn quit_releases_tray_exactly_once() {
    let mut d = Dispatcher {
        state: SessionState { status: Status::Running, remaining: 100 },
        tray_held: true,
    };
    let r = d.handle_event(TimerEvent::MenuSelect(MenuChoice::Quit));
    assert!(r.release_tray);
    assert!(r.exit);
    assert!(r.label.is_none());
    assert!(!d.tray_held);
    // Late-arriving events after quit never push a label nor release again.
    let r2 = d.handle_event(TimerEvent::TickDue);
    assert!(r2.label.is_none());
    assert!(!r2.release_tray);
    let r3 = d.handle_event(TimerEvent::PrimaryClick);
    assert!(r3.label.is_none());
    assert!(!r3.release_tray);
    let r4 = d.handle_event(TimerEvent::MenuSelect(MenuChoice::Quit));
    assert!(!r4.release_tray);
}

#[test]
fn ignored_events_change_nothing() {
    let mut d = Dispatcher {
        state: SessionState { status: Status::Running, remaining: 50 },
        tray_held: true,
    };
    let r = d.handle_event(TimerEvent::Other);
    assert_eq!(d.state.status, Status::Running);
    assert_eq!(d.state.remaining, 50);
    assert!(r.label.is_none());
    assert!(r.schedule.is_none());
    assert!(!r.release_tray);
    assert!(!r.exit);
}

#[test]
fn startup_scenario() {
    let mut d = Dispatcher::new();

    let r = d.handle_event(TimerEvent::Init);
    assert_eq!(r.schedule, Some(Schedule::WaitIndefinitely));
    assert!(r.label.is_none());

    let r = d.handle_event(TimerEvent::PrimaryClick);
    assert_eq!(d.state.status, Status::Running);
    assert_eq!(d.state.remaining, 1200);
    assert_eq!(r.label.unwrap(), "20:00");
    assert_eq!(r.schedule, Some(Schedule::WakeInOneSecond));

    let r = d.handle_event(TimerEvent::TickDue);
    assert_eq!(d.state.status, Status::Running);
    assert_eq!(d.state.remaining, 1199);
    assert_eq!(r.label.unwrap(), "19:59");

    let r = d.handle_event(TimerEvent::PrimaryClick);
    assert_eq!(d.state.status, Status::Paused);
    assert_eq!(d.state.remaining, 1199);
    assert_eq!(r.label.unwrap(), "19:59");
    assert_eq!(r.schedule, Some(Schedule::WaitIndefinitely));

    let r = d.handle_event(TimerEvent::MenuSelect(MenuChoice::Quit));
    assert!(r.release_tray);
    assert!(r.exit);
}
