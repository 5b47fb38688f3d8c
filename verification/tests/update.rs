use toggdoro::config::{EscalationConfig, PomodoroConfig};
use toggdoro::pomodoro::PomodoroMode;
use toggdoro::state::{PomodoroState, StateError};
use toggdoro::time::Timestamp;
use toggdoro::toggl::TimeEntry;
use toggdoro::update::{refresh, update, Notification, RefreshError, Tick};

const T0: i64 = 1_700_000_000;

fn done(description: &str, tags: &[&str], start: i64, duration: i64) -> TimeEntry {
    TimeEntry {
        description: description.to_string(),
        duration,
        project_id: None,
        project_name: None,
        start: Timestamp::new(start),
        stop: Some(Timestamp::new(start + duration)),
        tags: tags.iter().map(|t| t.to_string()).collect(),
    }
}

fn open(description: &str, tags: &[&str], start: i64) -> TimeEntry {
    TimeEntry { duration: -1, stop: None, ..done(description, tags, start, 0) }
}

fn tick(prev: &PomodoroState, entries: &Vec<TimeEntry>, now: i64) -> Tick {
    update(prev, entries, &PomodoroConfig::default(), &EscalationConfig::default(), Timestamp::new(now))
        .unwrap()
}

#[test]
fn idle_tick_is_silent_and_zeroes_the_counts() {
    let mut prev = PomodoroState::default();
    prev.nnotifications = 2;
    prev.ntnotifications = 1;
    let t = tick(&prev, &vec![done("write", &[], T0, 1500)], T0 + 5000);
    assert_eq!(t.state.mode, PomodoroMode::Idle);
    assert_eq!(t.state.nnotifications, 0);
    assert_eq!(t.state.ntnotifications, 0);
    assert_eq!(t.state.npomodoros, 0);
    assert_eq!(t.notification, None);
}

#[test]
fn before_the_finish_time_nothing_is_announced() {
    let entries = vec![open("write", &[], T0)];
    let t = tick(&PomodoroState::default(), &entries, T0 + 1499);
    assert_eq!(t.state.mode, PomodoroMode::Work);
    assert_eq!(t.state.nnotifications, 0);
    assert_eq!(t.notification, None);
}

#[test]
fn work_over_announces_a_short_break() {
    let entries = vec![open("write", &[], T0)];
    let t = tick(&PomodoroState::default(), &entries, T0 + 1500);
    assert_eq!(t.notification, Some(Notification::PhaseOver { next: PomodoroMode::Break, min: 5 }));
    assert_eq!(t.state.nnotifications, 1);
    assert_eq!(t.state.ntnotifications, 0);
}

#[test]
fn break_over_announces_work() {
    let entries = vec![done("write", &[], T0, 1500), open("Pomodoro Break", &[], T0 + 1500)];
    let t = tick(&PomodoroState::default(), &entries, T0 + 1800);
    assert_eq!(t.notification, Some(Notification::PhaseOver { next: PomodoroMode::Work, min: 25 }));
    assert_eq!(t.notification.unwrap().mode(), PomodoroMode::Work);
    assert_eq!(t.notification.unwrap().min(), 25);
}

#[test]
fn fourth_work_over_announces_a_long_break() {
    let mut entries = Vec::new();
    let mut at = T0;
    for _ in 0..3 {
        entries.push(done("write", &[], at, 1500));
        at += 1500;
        entries.push(done("Pomodoro Break", &[], at, 300));
        at += 300;
    }
    entries.push(open("write", &[], at));
    let t = tick(&PomodoroState::default(), &entries, at + 1500);
    assert_eq!(t.state.npomodoros, 4);
    assert_eq!(t.notification, Some(Notification::PhaseOver { next: PomodoroMode::Break, min: 15 }));
}

#[test]
fn notifications_escalate_over_successive_ticks() {
    let entries = vec![open("write", &[], T0)];
    let due = T0 + 1500;
    let mut state = PomodoroState::default();
    let mut fired = Vec::new();
    let mut now = due - 9;
    while now <= due + 4000 {
        let t = tick(&state, &entries, now);
        if t.notification.is_some() {
            fired.push(now - due);
        }
        state = t.state;
        now += 3;
    }
    assert_eq!(fired, vec![0, 303, 1803]);
    assert_eq!(state.nnotifications, 3);
}

#[test]
fn count_resets_when_the_overrun_is_gone() {
    let overdue = vec![open("write", &[], T0)];
    let first = tick(&PomodoroState::default(), &overdue, T0 + 1600);
    assert_eq!(first.state.nnotifications, 1);
    let fresh = vec![done("write", &[], T0, 1600), open("Pomodoro Break", &[], T0 + 1600)];
    let second = tick(&first.state, &fresh, T0 + 1601);
    assert_eq!(second.state.mode, PomodoroMode::Break);
    assert_eq!(second.state.nnotifications, 0);
    assert_eq!(second.notification, None);
    let third = tick(&second.state, &fresh, T0 + 1600 + 300);
    assert_eq!(third.state.nnotifications, 1);
    assert_eq!(third.notification, Some(Notification::PhaseOver { next: PomodoroMode::Work, min: 25 }));
}

#[test]
fn task_over_is_announced_with_the_minutes_left() {
    let entries = vec![open("write", &["10min"], T0)];
    let t = tick(&PomodoroState::default(), &entries, T0 + 600);
    assert_eq!(t.notification, Some(Notification::TaskOver { min: 15 }));
    assert_eq!(t.notification.unwrap().mode(), PomodoroMode::Work);
    assert_eq!(t.notification.unwrap().min(), 15);
    assert_eq!(t.state.ntnotifications, 1);
    assert_eq!(t.state.nnotifications, 0);
    let later = tick(&t.state, &entries, T0 + 600 + 301);
    assert_eq!(later.notification, Some(Notification::TaskOver { min: 9 }));
    assert_eq!(later.state.ntnotifications, 2);
}

#[test]
fn task_not_yet_over_is_silent() {
    let entries = vec![open("write", &["10min"], T0)];
    let mut prev = PomodoroState::default();
    prev.ntnotifications = 2;
    let t = tick(&prev, &entries, T0 + 599);
    assert_eq!(t.notification, None);
    assert_eq!(t.state.ntnotifications, 0);
}

#[test]
fn phase_over_silences_the_task() {
    let entries = vec![open("write", &["10min"], T0)];
    let mut prev = PomodoroState::default();
    prev.ntnotifications = 1;
    let t = tick(&prev, &entries, T0 + 1500);
    assert_eq!(t.notification, Some(Notification::PhaseOver { next: PomodoroMode::Break, min: 5 }));
    assert_eq!(t.state.nnotifications, 1);
    assert_eq!(t.state.ntnotifications, 0);
    let next = tick(&t.state, &entries, T0 + 1503);
    assert_eq!(next.notification, None);
    assert_eq!(next.state.ntnotifications, 0);
}

#[test]
fn no_task_keeps_the_task_count_at_zero() {
    let entries = vec![open("write", &[], T0)];
    let mut prev = PomodoroState::default();
    prev.ntnotifications = 3;
    let t = tick(&prev, &entries, T0 + 10);
    assert_eq!(t.state.ntnotifications, 0);
}

#[test]
fn refresh_with_the_same_entries_is_idempotent() {
    let entries = vec![
        done("write", &["15min"], T0, 1500),
        done("Pomodoro Break", &[], T0 + 1500, 300),
        open("write", &["15min"], T0 + 1800),
    ];
    let first = tick(&PomodoroState::default(), &entries, T0 + 1900);
    let second = tick(&first.state, &entries, T0 + 1903);
    let third = tick(&second.state, &entries, T0 + 9000);
    for later in [&second, &third] {
        assert_eq!(later.state.mode, first.state.mode);
        assert_eq!(later.state.npomodoros, first.state.npomodoros);
        assert_eq!(later.state.finish_time, first.state.finish_time);
        assert_eq!(later.state.task_finish_time, first.state.task_finish_time);
        assert_eq!(later.state.description, first.state.description);
    }
    assert_eq!(first.state.npomodoros, 2);
    assert_eq!(first.state.finish_time, Timestamp::new(T0 + 1800 + 1500));
    assert_eq!(first.state.task_finish_time, Some(Timestamp::new(T0 + 1800 + 900 - 1500)));
}

#[test]
fn update_reports_a_finish_time_out_of_range() {
    let entries = vec![open("write", &[], i64::MAX)];
    let r = update(
        &PomodoroState::default(),
        &entries,
        &PomodoroConfig::default(),
        &EscalationConfig::default(),
        Timestamp::new(0),
    );
    assert_eq!(r.err(), Some(StateError::FinishTimeOutOfRange));
}

#[test]
fn update_copes_with_times_far_apart() {
    let entries = vec![open("write", &["1min"], i64::MAX - 2000)];
    let t = tick(&PomodoroState::default(), &entries, i64::MIN);
    assert_eq!(t.notification, None);
    let t = tick(&PomodoroState::default(), &entries, i64::MAX);
    assert_eq!(t.notification, Some(Notification::PhaseOver { next: PomodoroMode::Break, min: 5 }));
}

#[test]
fn failed_fetch_publishes_nothing() {
    let mut prev = PomodoroState::default();
    prev.nnotifications = 2;
    let r = refresh(
        &prev,
        None,
        &PomodoroConfig::default(),
        &EscalationConfig::default(),
        Timestamp::new(T0),
    );
    assert_eq!(r.err(), Some(RefreshError::Fetch));
}

#[test]
fn successful_fetch_is_an_update() {
    let entries = vec![open("write", &[], T0)];
    let r = refresh(
        &PomodoroState::default(),
        Some(&entries),
        &PomodoroConfig::default(),
        &EscalationConfig::default(),
        Timestamp::new(T0 + 1500),
    )
    .unwrap();
    assert_eq!(r.state.mode, PomodoroMode::Work);
    assert_eq!(r.state.nnotifications, 1);
    assert_eq!(r.notification, Some(Notification::PhaseOver { next: PomodoroMode::Break, min: 5 }));
}

#[test]
fn refresh_reports_what_update_reports() {
    let entries = vec![open("write", &[], i64::MAX)];
    let r = refresh(
        &PomodoroState::default(),
        Some(&entries),
        &PomodoroConfig::default(),
        &EscalationConfig::default(),
        Timestamp::new(0),
    );
    assert_eq!(r.err(), Some(RefreshError::State(StateError::FinishTimeOutOfRange)));
}
