use break_timer::{
    ClockWrites, InputWrites, Key, SharedTimer, Tick, TickAction, Timer, TimerConfig,
};

fn fresh_shared() -> SharedTimer {
    SharedTimer::new(TimerConfig::default())
}

#[test]
fn shared_timer_starts_as_a_new_timer() {
    let shared = fresh_shared();
    assert_eq!(shared.snapshot(), Timer::new(TimerConfig::default()));
}

#[test]
fn press_writes_an_edit_back() {
    let shared = fresh_shared();
    let pressed = shared.press(Key::Char('+'), 60).unwrap();
    assert_eq!(pressed.seen, Timer::new(TimerConfig::default()));
    assert_eq!(pressed.left.break_interval, 3300);
    assert_eq!(pressed.left.next_break_time, 3360);
    assert_eq!(
        pressed.report,
        Some(String::from("Break interval increased to 55:00"))
    );
    assert_eq!(shared.snapshot(), pressed.left);

    let pressed = shared.press(Key::Char('-'), 61).unwrap();
    assert_eq!(pressed.left.break_interval, 3000);
    assert_eq!(pressed.left.next_break_time, 3061);
    assert_eq!(shared.snapshot(), pressed.left);
}

#[test]
fn press_of_help_or_an_unknown_key_writes_nothing() {
    let shared = fresh_shared();
    let before = shared.snapshot();
    let help = shared.press(Key::Char('?'), 5).unwrap();
    assert_eq!(help.report, Some(String::from("Commands: + - q")));
    let other = shared.press(Key::Other, 6).unwrap();
    assert_eq!(
        other.report,
        Some(String::from("Unknown command (press ? for help)"))
    );
    assert_eq!(shared.snapshot(), before);
}

#[test]
fn press_of_quit_stops_the_clock_at_its_next_tick() {
    let shared = fresh_shared();
    let pressed = shared.press(Key::Char('q'), 12).unwrap();
    assert_eq!(pressed.report, None);
    assert!(pressed.left.should_exit);
    assert!(shared.snapshot().should_exit);
    let ticked = shared.tick(13).unwrap();
    assert_eq!(
        ticked.tick,
        Tick {
            action: TickAction::Stop,
            sleep_seconds: 0
        }
    );
}

#[test]
fn request_exit_stops_the_clock_at_its_next_tick() {
    let shared = fresh_shared();
    shared.request_exit();
    assert!(shared.snapshot().should_exit);
    assert_eq!(shared.tick(1).unwrap().tick.action, TickAction::Stop);
}

#[test]
fn tick_writes_a_reminder_back() {
    let shared = fresh_shared();
    let early = shared.tick(10).unwrap();
    assert_eq!(early.tick.action, TickAction::Countdown(2990));
    assert_eq!(shared.snapshot(), early.seen);

    let ticked = shared.tick(3000).unwrap();
    assert_eq!(ticked.tick.action, TickAction::Remind);
    let now = shared.snapshot();
    assert_eq!(now, ticked.left);
    assert!(now.is_break_time);
    assert_eq!(now.reminder_count, 1);
    assert_eq!(now.next_break_time, 3300);
    assert_eq!(now.break_interval, 3000);
}

#[test]
fn shared_edits_are_ignored_while_a_break_is_pending() {
    let shared = fresh_shared();
    shared.tick(3000).unwrap();
    let before = shared.snapshot();
    let plus = shared.press(Key::Char('+'), 3001).unwrap();
    assert_eq!(plus.report, None);
    let minus = shared.press(Key::Char('-'), 3002).unwrap();
    assert_eq!(minus.report, None);
    assert_eq!(shared.snapshot(), before);
}

#[test]
fn shared_clock_gives_eight_reminders_and_asks_to_leave() {
    let shared = fresh_shared();
    let mut elapsed: u64 = 2990;
    let mut reminders: usize = 0;
    loop {
        let ticked = shared.tick(elapsed).unwrap();
        match ticked.tick.action {
            TickAction::Remind => reminders += 1,
            TickAction::Stop => break,
            _ => {}
        }
        elapsed += 1;
        assert!(elapsed < 10_000);
    }
    assert_eq!(reminders, 8);
    assert_eq!(elapsed, 3000 + 8 * 300);
    let end = shared.snapshot();
    assert!(end.should_exit);
    assert!(end.is_break_time);
    assert_eq!(end.reminder_count, 8);
}

#[test]
fn shared_edits_between_ticks_apply_in_order() {
    let shared = fresh_shared();
    let mut alone = Timer::new(TimerConfig::default());
    let keys = ['+', '-', '-', '+', '+', '+', '-', '-', '-', '-'];
    let mut now: u64 = 0;
    for round in 0..30 {
        for key in keys {
            shared.tick(now).unwrap();
            now += 1;
            let pressed = shared.press(Key::Char(key), now).unwrap();
            alone.handle_key(Key::Char(key), now);
            assert_eq!(pressed.left, alone);
            assert_eq!(shared.snapshot(), alone);
        }
        let expected: u64 = if round < 4 { 2400 - 600 * round } else { 300 };
        assert_eq!(alone.break_interval, expected);
    }
    assert_eq!(alone.break_interval, 300);
}

#[test]
fn an_edit_or_a_tick_that_does_not_fit_is_refused() {
    let config = TimerConfig {
        default_break_interval: u64::MAX - 100,
        min_break_interval: 300,
        interval_change: 300,
        max_reminders: 8,
        reminder_interval: 300,
    };
    let shared = SharedTimer::new(config);
    let before = shared.snapshot();
    let refused = shared.press(Key::Char('+'), 0);
    assert_eq!(refused.unwrap_err(), before);
    assert_eq!(shared.snapshot(), before);
    let refused = shared.tick(u64::MAX - 50);
    assert_eq!(refused.unwrap_err(), before);
    assert_eq!(shared.snapshot(), before);
    assert!(shared.press(Key::Char('?'), 0).is_ok());
    assert!(shared.tick(0).is_ok());
}

#[test]
fn press_writes_only_what_the_key_changed() {
    let shared = fresh_shared();
    let plus = shared.press(Key::Char('+'), 60).unwrap();
    assert_eq!(
        plus.writes,
        InputWrites {
            break_interval: Some(3300),
            next_break_time: Some(3360),
            should_exit: false
        }
    );
    let help = shared.press(Key::Char('?'), 61).unwrap();
    assert_eq!(
        help.writes,
        InputWrites {
            break_interval: None,
            next_break_time: None,
            should_exit: false
        }
    );
    let quit = shared.press(Key::Char('q'), 62).unwrap();
    assert_eq!(
        quit.writes,
        InputWrites {
            break_interval: None,
            next_break_time: None,
            should_exit: true
        }
    );
    let again = shared.press(Key::Char('q'), 63).unwrap();
    assert!(!again.writes.should_exit);
    assert!(shared.snapshot().should_exit);
}

#[test]
fn press_with_no_step_still_restarts_the_countdown() {
    let config = TimerConfig {
        default_break_interval: 100,
        min_break_interval: 10,
        interval_change: 0,
        max_reminders: 8,
        reminder_interval: 5,
    };
    let shared = SharedTimer::new(config);
    let pressed = shared.press(Key::Char('+'), 7).unwrap();
    assert_eq!(
        pressed.report,
        Some(String::from("Break interval increased to 01:40"))
    );
    assert_eq!(
        pressed.writes,
        InputWrites {
            break_interval: None,
            next_break_time: Some(107),
            should_exit: false
        }
    );
    assert_eq!(shared.snapshot(), pressed.left);
    assert_eq!(shared.snapshot().next_break_time, 107);

    let pressed = shared.press(Key::Char('-'), 9).unwrap();
    assert_eq!(
        pressed.report,
        Some(String::from("Break interval already at minimum to 01:40"))
    );
    assert_eq!(shared.snapshot().next_break_time, 107);
}

#[test]
fn tick_writes_only_what_the_tick_changed() {
    let shared = fresh_shared();
    let early = shared.tick(100).unwrap();
    assert_eq!(
        early.writes,
        ClockWrites {
            is_break_time: false,
            reminder_count: None,
            next_break_time: None,
            should_exit: false
        }
    );
    let first = shared.tick(3000).unwrap();
    assert_eq!(
        first.writes,
        ClockWrites {
            is_break_time: true,
            reminder_count: Some(1),
            next_break_time: Some(3300),
            should_exit: false
        }
    );
    let second = shared.tick(3300).unwrap();
    assert_eq!(
        second.writes,
        ClockWrites {
            is_break_time: false,
            reminder_count: Some(2),
            next_break_time: Some(3600),
            should_exit: false
        }
    );
    let mut elapsed: u64 = 3600;
    while elapsed < 5400 {
        shared.tick(elapsed).unwrap();
        elapsed += 300;
    }
    let last = shared.tick(5400).unwrap();
    assert_eq!(last.tick.action, TickAction::Stop);
    assert_eq!(
        last.writes,
        ClockWrites {
            is_break_time: false,
            reminder_count: None,
            next_break_time: None,
            should_exit: true
        }
    );
    assert_eq!(shared.snapshot(), last.left);
}
