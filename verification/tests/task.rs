use toggdoro::decimal::{parse_u32, to_decimal};
use toggdoro::task::{extra_task_duration, minutes_of_capture, task_min, TaskTagError};
use toggdoro::time::Timestamp;
use toggdoro::toggl::TimeEntry;

fn tagged(tags: &[&str]) -> TimeEntry {
    TimeEntry {
        description: "write".to_string(),
        duration: -1,
        project_id: None,
        project_name: None,
        start: Timestamp::new(0),
        stop: None,
        tags: tags.iter().map(|t| t.to_string()).collect(),
    }
}

fn spent(description: &str, tags: &[&str], duration: i64) -> TimeEntry {
    TimeEntry { description: description.to_string(), duration, ..tagged(tags) }
}

#[test]
fn task_tag_is_read() {
    assert_eq!(task_min(&tagged(&["15min"])), Ok(Some(15)));
    assert_eq!(task_min(&tagged(&["0min"])), Ok(Some(0)));
    assert_eq!(task_min(&tagged(&["007min"])), Ok(Some(7)));
    assert_eq!(task_min(&tagged(&["4294967295min"])), Ok(Some(u32::MAX)));
}

#[test]
fn no_task_tag_is_no_task() {
    assert_eq!(task_min(&tagged(&[])), Ok(None));
    assert_eq!(task_min(&tagged(&["deep", "min", "15 min", "15mins", "x15min", "15min "])), Ok(None));
    assert_eq!(task_min(&tagged(&["-5min", "+5min", "1.5min", "15MIN"])), Ok(None));
}

#[test]
fn first_task_tag_wins() {
    assert_eq!(task_min(&tagged(&["deep", "20min", "10min"])), Ok(Some(20)));
}

#[test]
fn task_number_too_large_is_an_error() {
    assert_eq!(task_min(&tagged(&["4294967296min"])), Err(TaskTagError::Number));
    assert_eq!(task_min(&tagged(&["4294967296min", "5min"])), Err(TaskTagError::Number));
    assert_eq!(task_min(&tagged(&["5min", "4294967296min"])), Ok(Some(5)));
}

#[test]
fn task_number_in_other_digits_is_an_error() {
    assert_eq!(task_min(&tagged(&["\u{0661}\u{0665}min"])), Err(TaskTagError::Number));
}

#[test]
fn captured_digits_are_read() {
    assert_eq!(minutes_of_capture("25"), Ok(25));
    assert_eq!(minutes_of_capture("25min"), Err(TaskTagError::Number));
    assert_eq!(minutes_of_capture(""), Err(TaskTagError::Number));
}

#[test]
fn parse_u32_reads_decimal_numbers() {
    assert_eq!(parse_u32("0"), Some(0));
    assert_eq!(parse_u32("42"), Some(42));
    assert_eq!(parse_u32("+42"), Some(42));
    assert_eq!(parse_u32("0042"), Some(42));
    assert_eq!(parse_u32("4294967295"), Some(4294967295));
    assert_eq!(parse_u32("4294967296"), None);
    assert_eq!(parse_u32("99999999999999999999999999"), None);
    assert_eq!(parse_u32(""), None);
    assert_eq!(parse_u32("+"), None);
    assert_eq!(parse_u32("++1"), None);
    assert_eq!(parse_u32("-1"), None);
    assert_eq!(parse_u32("1 "), None);
    assert_eq!(parse_u32(" 1"), None);
    assert_eq!(parse_u32("1_0"), None);
    assert_eq!(parse_u32("12a"), None);
    assert_eq!(parse_u32("\u{0661}"), None);
}

#[test]
fn parse_u32_agrees_with_std() {
    for text in ["0", "7", "+7", "010", "4294967295", "4294967296", "", "+", "-0", "1e3", "١٢"] {
        assert_eq!(parse_u32(text), text.parse::<u32>().ok());
    }
}

#[test]
fn to_decimal_writes_decimal_numbers() {
    assert_eq!(to_decimal(0), "0");
    assert_eq!(to_decimal(9), "9");
    assert_eq!(to_decimal(10), "10");
    assert_eq!(to_decimal(1905), "1905");
    assert_eq!(to_decimal(u64::MAX), "18446744073709551615");
}

#[test]
fn written_numbers_can_be_read_again() {
    for n in [0u32, 1, 9, 10, 99, 100, 12345, u32::MAX] {
        assert_eq!(parse_u32(&to_decimal(n as u64)), Some(n));
    }
}

#[test]
fn extra_task_duration_sums_the_same_task() {
    let entries = vec![
        spent("write", &["a"], 100),
        spent("write", &["a"], 200),
        tagged(&["a"]),
    ];
    assert_eq!(extra_task_duration(&entries), 300);
}

#[test]
fn extra_task_duration_skips_breaks() {
    let entries = vec![
        spent("write", &["a"], 100),
        spent("Pomodoro Break", &[], 50),
        spent("walk", &["pomodoro-break"], 60),
        spent("write", &["a"], 200),
        tagged(&["a"]),
    ];
    assert_eq!(extra_task_duration(&entries), 300);
}

#[test]
fn extra_task_duration_stops_at_another_task() {
    let entries = vec![
        spent("write", &["a"], 100),
        spent("read", &["a"], 40),
        spent("write", &["a"], 200),
        tagged(&["a"]),
    ];
    assert_eq!(extra_task_duration(&entries), 200);
    assert_eq!(extra_task_duration(&vec![tagged(&["a"])]), 0);
}

#[test]
fn extra_task_duration_holds_large_sums() {
    let entries = vec![
        spent("write", &["a"], i64::MAX),
        spent("write", &["a"], i64::MAX),
        tagged(&["a"]),
    ];
    assert_eq!(extra_task_duration(&entries), 2 * (i64::MAX as i128));
}
