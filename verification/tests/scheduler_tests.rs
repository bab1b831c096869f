use chronoward::scheduler::{parse_hhmm, LocalTime, ScheduleSettings, SchedulerState};

#[test]
fn test_parse_hhmm_valid() {
    assert_eq!(parse_hhmm("11:00"), Some((11, 0)));
    assert_eq!(parse_hhmm("16:30"), Some((16, 30)));
    assert_eq!(parse_hhmm("00:00"), Some((0, 0)));
    assert_eq!(parse_hhmm("23:59"), Some((23, 59)));
}

#[test]
fn test_parse_hhmm_invalid() {
    assert_eq!(parse_hhmm("25:00"), None); // hour out of range
    assert_eq!(parse_hhmm("11:60"), None); // minute out of range
    assert_eq!(parse_hhmm("notaTime"), None);
    assert_eq!(parse_hhmm(""), None);
    assert_eq!(parse_hhmm("11"), None); // missing minutes
}

#[test]
fn test_parse_hhmm_boundary() {
    assert_eq!(parse_hhmm("00:01"), Some((0, 1)));
    assert_eq!(parse_hhmm("23:00"), Some((23, 0)));
}

#[test]
fn parse_hhmm_follows_integer_parsing() {
    assert_eq!(parse_hhmm("+9:+5"), Some((9, 5)));
    assert_eq!(parse_hhmm("007:0030"), Some((7, 30)));
    assert_eq!(parse_hhmm("1:2:3"), None);
    assert_eq!(parse_hhmm("-1:00"), None);
    assert_eq!(parse_hhmm(" 1:00"), None);
    assert_eq!(parse_hhmm("99999999999:00"), None);
    assert_eq!(parse_hhmm(":30"), None);
    assert_eq!(parse_hhmm("12:"), None);
}

fn at(ordinal: u32, hour: u32, minute: u32, second: u32) -> LocalTime {
    LocalTime { year: 2025, ordinal, hour, minute, second }
}

fn settings(focus: &[&str], warning: &str) -> ScheduleSettings {
    ScheduleSettings {
        focus_times: focus.iter().map(|s| s.to_string()).collect(),
        warning_time: warning.to_string(),
    }
}

#[test]
fn focus_time_fires_once_per_day() {
    let s = settings(&["11:00", "14:00"], "16:30");
    let mut sched = SchedulerState::new();
    let a = sched.tick(at(10, 10, 59, 55), Some(&s));
    assert_eq!(a.focus_trigger, None);
    let a = sched.tick(at(10, 11, 0, 0), Some(&s));
    assert_eq!(a.focus_trigger, Some("11:00".to_string()));
    let a = sched.tick(at(10, 11, 0, 5), Some(&s));
    assert_eq!(a.focus_trigger, None);
    let a = sched.tick(at(10, 14, 0, 2), Some(&s));
    assert_eq!(a.focus_trigger, Some("14:00".to_string()));
    // Next day, the same minute fires again.
    let a = sched.tick(at(11, 11, 0, 1), Some(&s));
    assert_eq!(a.focus_trigger, Some("11:00".to_string()));
    assert_eq!(sched.triggered_focus, vec![(2025, 11, 11, 0)]);
}

#[test]
fn duplicate_focus_times_fire_once() {
    let s = settings(&["11:00", "11:00", "11:0"], "16:30");
    let mut sched = SchedulerState::new();
    let a = sched.tick(at(1, 11, 0, 0), Some(&s));
    assert_eq!(a.focus_trigger, Some("11:00".to_string()));
    assert_eq!(sched.triggered_focus.len(), 1);
}

#[test]
fn hours_warning_once_per_minute_after_warning_time() {
    let s = settings(&[], "16:30");
    let mut sched = SchedulerState::new();
    assert!(!sched.tick(at(1, 16, 29, 59), Some(&s)).hours_warning);
    assert!(sched.tick(at(1, 16, 30, 0), Some(&s)).hours_warning);
    assert!(!sched.tick(at(1, 16, 30, 5), Some(&s)).hours_warning);
    assert!(sched.tick(at(1, 16, 31, 0), Some(&s)).hours_warning);
    assert_eq!(sched.last_warning_minute, Some((2025, 1, 16, 31)));
}

#[test]
fn nothing_fires_without_settings_or_with_bad_times() {
    let mut sched = SchedulerState::new();
    sched.triggered_focus.push((2024, 200, 11, 0));
    let a = sched.tick(at(1, 16, 30, 0), None);
    assert_eq!(a.focus_trigger, None);
    assert!(!a.hours_warning);
    assert!(sched.triggered_focus.is_empty());
    let s = settings(&["25:00"], "later");
    let a = sched.tick(at(1, 23, 59, 59), Some(&s));
    assert_eq!(a.focus_trigger, None);
    assert!(!a.hours_warning);
}
