//! Sub-tasks: a tag such as `15min` gives the running entry a budget of its
//! own, shorter than the phase.

use vstd::prelude::*;

use crate::classify::{mode_of_entry, spec_mode_of_entry};
use crate::decimal::{parse_u32, spec_parse_u32};
use crate::pomodoro::PomodoroMode;
use crate::streak::{lemma_sum_bound_grows, sum_bound};
use crate::toggl::{entry_views, EntryView, TimeEntry};

verus! {

/// The error type of the `regex` crate.
#[verifier::external_type_specification]
#[verifier::external_body]
pub struct ExRegexError(regex::Error);

/// Whether `regex::Regex::new` accepts `pattern`.
pub uninterp spec fn regex_is_valid(pattern: Seq<char>) -> bool;

/// The text of capture group 1 in the leftmost match of `pattern` in `text`,
/// as `regex::Regex::captures` finds it; `None` when there is no match or
/// the group took no part in it.
pub uninterp spec fn regex_first_group(pattern: Seq<char>, text: Seq<char>) -> Option<Seq<char>>;

/// Why a tag could not be read.
#[derive(Clone, Copy, Debug, PartialEq, Eq, Structural)]
pub enum TaskTagError {
    /// The pattern for task tags is no regular expression.
    Pattern,
    /// A tag has the shape of a task tag, but its number is no `u32`.
    Number,
}

/// The view of an optional string.
pub open spec fn option_string_view(s: Option<String>) -> Option<Seq<char>> {
    match s {
        Some(text) => Some(text@),
        None => None,
    }
}

/// Calls `regex::Regex::new` on `pattern` and `Regex::captures` on `text`,
/// then `Captures::get` for group 1.
///
/// Trusted: the call fails exactly when the crate rejects the pattern, and
/// what it finds is what the crate's matcher finds for this pattern and this
/// text. Nothing is claimed about which texts match.
#[verifier::external_body]
fn first_group(pattern: &str, text: &str) -> (r: Result<Option<String>, regex::Error>)
    ensures
        r is Ok <==> regex_is_valid(pattern@),
        r matches Ok(found) ==> option_string_view(found) == regex_first_group(pattern@, text@),
{
    let re = regex::Regex::new(pattern)?;
    match re.captures(text) {
        Some(captures) => match captures.get(1) {
            Some(group) => Ok(Some(group.as_str().to_string())),
            None => Ok(None),
        },
        None => Ok(None),
    }
}

/// The pattern of a task tag: a run of digits followed by `min`.
pub open spec fn task_pattern() -> Seq<char> {
    "^(\\d+)min$"@
}

/// The minutes that the digits of a task tag denote.
pub open spec fn spec_minutes_of_capture(digits: Seq<char>) -> Result<u32, TaskTagError> {
    match spec_parse_u32(digits) {
        Some(minutes) => Ok(minutes),
        None => Err(TaskTagError::Number),
    }
}

/// Reads the digits that the task pattern captured. They denote the task's
/// minutes when they form a decimal `u32`; anything else is an error.
pub fn minutes_of_capture(digits: &str) -> (r: Result<u32, TaskTagError>)
    ensures
        r == spec_minutes_of_capture(digits@),
{
    match parse_u32(digits) {
        Some(minutes) => Ok(minutes),
        None => Err(TaskTagError::Number),
    }
}

/// The task minutes of the tags from index `from` on: those of the first tag
/// that matches the task pattern, `None` when no tag matches.
pub open spec fn spec_task_min_from(tags: Seq<Seq<char>>, from: int) -> Result<
    Option<u32>,
    TaskTagError,
>
    decreases tags.len() - from,
{
    if from < 0 || from >= tags.len() {
        Ok(None)
    } else if !regex_is_valid(task_pattern()) {
        Err(TaskTagError::Pattern)
    } else {
        match regex_first_group(task_pattern(), tags[from]) {
            Some(digits) => match spec_minutes_of_capture(digits) {
                Ok(minutes) => Ok(Some(minutes)),
                Err(e) => Err(e),
            },
            None => spec_task_min_from(tags, from + 1),
        }
    }
}

/// The task minutes that a list of tags asks for.
pub open spec fn spec_task_min(tags: Seq<Seq<char>>) -> Result<Option<u32>, TaskTagError> {
    spec_task_min_from(tags, 0)
}

/// The minutes of the sub-task that the entry's tags ask for.
///
/// The tags are scanned in their order and the first that matches the task
/// pattern decides: its number is the result, or an error when it is no
/// `u32`. Without a matching tag there is no sub-task.
pub fn task_min(entry: &TimeEntry) -> (r: Result<Option<u32>, TaskTagError>)
    ensures
        r == spec_task_min(entry@.tags),
{
    let ghost tags = entry@.tags;
    let mut i: usize = 0;
    while i < entry.tags.len()
        invariant
            i <= entry.tags.len(),
            tags == entry@.tags,
            spec_task_min(tags) == spec_task_min_from(tags, i as int),
        decreases entry.tags.len() - i,
    {
        assert(tags[i as int] == entry.tags[i as int]@);
        match first_group("^(\\d+)min$", entry.tags[i].as_str()) {
            Err(_) => {
                return Err(TaskTagError::Pattern);
            },
            Ok(Some(digits)) => {
                return match minutes_of_capture(digits.as_str()) {
                    Ok(minutes) => Ok(Some(minutes)),
                    Err(e) => Err(e),
                };
            },
            Ok(None) => {},
        }
        i += 1;
    }
    Ok(None)
}

/// The seconds already spent on the task of `latest` in the entries before
/// it (`earlier`, oldest first): walking back from the most recent, breaks
/// are passed over, the durations of entries that record the same task add
/// up, and the first entry of another task ends the walk.
pub open spec fn extra_task_seconds(latest: EntryView, earlier: Seq<EntryView>) -> int
    decreases earlier.len(),
{
    if earlier.len() == 0 {
        0
    } else {
        let entry = earlier.last();
        if spec_mode_of_entry(entry) == PomodoroMode::Break {
            extra_task_seconds(latest, earlier.drop_last())
        } else if latest.same_task(entry) {
            entry.duration + extra_task_seconds(latest, earlier.drop_last())
        } else {
            0
        }
    }
}

/// The seconds already spent on the task of the last entry of `entries` in
/// the entries before it; 0 without entries. The sum is no larger in
/// magnitude than the durations before the last entry can add up to.
pub fn extra_task_duration(entries: &Vec<TimeEntry>) -> (seconds: i128)
    ensures
        entries.len() == 0 ==> seconds == 0,
        entries.len() > 0 ==> seconds == extra_task_seconds(
            entries[entries.len() - 1]@,
            entry_views(entries@).drop_last(),
        ),
        -sum_bound(entries.len() as int) <= seconds <= sum_bound(entries.len() as int),
{
    if entries.len() == 0 {
        return 0;
    }
    let n = entries.len();
    let latest = &entries[n - 1];
    let ghost views = entry_views(entries@);
    let ghost goal = extra_task_seconds(latest@, views.drop_last());
    let mut seconds: i128 = 0;
    let mut i: usize = n - 1;
    assert(views.drop_last() =~= views.subrange(0, i as int));
    while i > 0
        invariant
            n == entries.len(),
            i < n,
            latest == &entries[n - 1],
            views == entry_views(entries@),
            goal == extra_task_seconds(latest@, views.drop_last()),
            goal == seconds + extra_task_seconds(latest@, views.subrange(0, i as int)),
            -sum_bound(n - 1 - i) <= seconds <= sum_bound(n - 1 - i),
        decreases i,
    {
        let entry = &entries[i - 1];
        proof {
            let earlier = views.subrange(0, i as int);
            assert(earlier.last() == entry@);
            assert(earlier.drop_last() =~= views.subrange(0, i - 1));
            lemma_sum_bound_grows(n - 1 - i, n - i);
            lemma_sum_bound_grows(n - i, n - 1);
        }
        if mode_of_entry(entry) != PomodoroMode::Break {
            if latest.same_task(entry) {
                seconds = seconds + entry.duration as i128;
            } else {
                return seconds;
            }
        }
        i -= 1;
    }
    proof {
        assert(views.subrange(0, 0).len() == 0);
        lemma_sum_bound_grows(n - 1 - i, n - 1);
    }
    seconds
}

} // verus!
