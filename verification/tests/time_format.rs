use break_timer::format_time;
use break_timer::status_line;
use break_timer::{TickAction, TimerConfig};

#[test]
fn format_time_writes_minutes_and_seconds() {
    assert_eq!(format_time(65), "01:05");
    assert_eq!(format_time(3000), "50:00");
}

#[test]
fn format_time_pads_each_part_to_two_digits() {
    assert_eq!(format_time(0), "00:00");
    assert_eq!(format_time(9), "00:09");
    assert_eq!(format_time(59), "00:59");
    assert_eq!(format_time(60), "01:00");
    assert_eq!(format_time(600), "10:00");
    assert_eq!(format_time(3599), "59:59");
}

#[test]
fn format_time_keeps_all_digits_of_long_times() {
    assert_eq!(format_time(3600), "60:00");
    assert_eq!(format_time(6000), "100:00");
    assert_eq!(format_time(360_061), "6001:01");
    assert_eq!(format_time(u64::MAX), "307445734561825860:15");
}

#[test]
fn format_time_agrees_with_std_formatting() {
    let mut seconds: u64 = 0;
    while seconds < 8000 {
        assert_eq!(
            format_time(seconds),
            format!("{:02}:{:02}", seconds / 60, seconds % 60)
        );
        seconds += 1;
    }
}

#[test]
fn format_time_reads_back_under_an_hour() {
    let mut seconds: u64 = 0;
    while seconds < 3600 {
        let text = format_time(seconds);
        assert_eq!(text.len(), 5);
        let minutes: u64 = text[0..2].parse().unwrap();
        let rest: u64 = text[3..5].parse().unwrap();
        assert_eq!(&text[2..3], ":");
        assert_eq!(minutes * 60 + rest, seconds);
        seconds += 1;
    }
}

#[test]
fn status_line_returns_clears_and_shows() {
    assert_eq!(status_line("hello"), "\r\u{1b}[2Khello");
    assert_eq!(status_line(""), "\r\u{1b}[2K");
}

#[test]
fn status_line_uses_the_terminal_library_sequence() {
    let expected = format!("\r{}{}", termion::clear::CurrentLine, "Commands: + - q");
    assert_eq!(status_line("Commands: + - q"), expected);
}

#[test]
fn notice_texts() {
    assert_eq!(
        TickAction::Remind.notice(),
        Some(String::from("Time to take a break!"))
    );
    assert_eq!(
        TickAction::Countdown(125).notice(),
        Some(String::from("Time until next break: 02:05"))
    );
    assert_eq!(TickAction::Wait.notice(), None);
    assert_eq!(TickAction::Stop.notice(), None);
}

#[test]
fn default_config_values() {
    let config = TimerConfig::default();
    assert_eq!(config.default_break_interval, 3000);
    assert_eq!(config.min_break_interval, 300);
    assert_eq!(config.interval_change, 300);
    assert_eq!(config.max_reminders, 8);
    assert_eq!(config.reminder_interval, 300);
}
