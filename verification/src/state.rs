//! The state of the timer, and how it is derived from the time entries.

use vstd::prelude::*;

use crate::classify::{mode_of_entry, spec_mode_of_entry};
use crate::config::PomodoroConfig;
use crate::escalate::MAX_NOTIFICATIONS;
use crate::pomodoro::PomodoroMode;
use crate::streak::{streak, streak_history, sum_bound, BucketView};
use crate::task::{extra_task_duration, extra_task_seconds, spec_task_min, task_min};
use crate::time::{representable, Timestamp};
use crate::toggl::{entry_views, EntryView, TimeEntry};

verus! {

/// A snapshot of the timer.
#[derive(Debug)]
pub struct PomodoroState {
    /// The number of the pomodoro that the streak has reached; at least 1
    /// while an entry runs, 0 when idle.
    pub npomodoros: u64,
    /// How often the end of the phase has been announced during the overrun
    /// that lasts now.
    pub nnotifications: u32,
    /// How often the end of the sub-task has been announced during the
    /// overrun that lasts now.
    pub ntnotifications: u32,
    pub mode: PomodoroMode,
    /// The description of the running entry.
    pub description: String,
    /// The project name of the running entry, empty when it has none.
    pub project: String,
    /// When the phase is due to end. Carries no meaning when idle.
    pub finish_time: Timestamp,
    /// When the sub-task of the running entry is due to end, if it has one.
    pub task_finish_time: Option<Timestamp>,
}

/// A [`PomodoroState`] as mathematical values.
pub ghost struct StateView {
    pub npomodoros: int,
    pub nnotifications: int,
    pub ntnotifications: int,
    pub mode: PomodoroMode,
    pub description: Seq<char>,
    pub project: Seq<char>,
    pub finish_time: int,
    pub task_finish_time: Option<int>,
}

impl View for PomodoroState {
    type V = StateView;

    open spec fn view(&self) -> StateView {
        StateView {
            npomodoros: self.npomodoros as int,
            nnotifications: self.nnotifications as int,
            ntnotifications: self.ntnotifications as int,
            mode: self.mode,
            description: self.description@,
            project: self.project@,
            finish_time: self.finish_time@,
            task_finish_time: match self.task_finish_time {
                Some(t) => Some(t@),
                None => None,
            },
        }
    }
}

impl StateView {
    /// What holds of every state that a refresh produces: when idle all
    /// counters are zero; otherwise the pomodoro count is at least 1; no
    /// overrun is announced more than three times; and while the end of the
    /// phase is being announced the sub-task is silent.
    pub open spec fn valid(self) -> bool {
        &&& self.mode == PomodoroMode::Idle ==> self.npomodoros == 0 && self.nnotifications == 0
            && self.ntnotifications == 0
        &&& self.mode != PomodoroMode::Idle ==> self.npomodoros >= 1
        &&& 0 <= self.nnotifications <= MAX_NOTIFICATIONS
        &&& 0 <= self.ntnotifications <= MAX_NOTIFICATIONS
        &&& self.nnotifications > 0 ==> self.ntnotifications == 0
    }
}

/// The state while no entry runs: every counter is zero, the texts are
/// empty and there is no sub-task.
pub open spec fn idle_state() -> StateView {
    StateView {
        npomodoros: 0,
        nnotifications: 0,
        ntnotifications: 0,
        mode: PomodoroMode::Idle,
        description: Seq::empty(),
        project: Seq::empty(),
        finish_time: 0,
        task_finish_time: None,
    }
}

impl Default for PomodoroState {
    fn default() -> (state: Self)
        ensures
            state@ == idle_state(),
            state@.valid(),
    {
        PomodoroState {
            npomodoros: 0,
            nnotifications: 0,
            ntnotifications: 0,
            mode: PomodoroMode::Idle,
            description: String::new(),
            project: String::new(),
            finish_time: Timestamp { secs: 0 },
            task_finish_time: None,
        }
    }
}

/// Whether the most recent entry is still running.
pub open spec fn is_running(entries: Seq<EntryView>) -> bool {
    entries.len() > 0 && entries.last().is_running()
}

/// The seconds of a break from which on it counts as a long one.
pub open spec fn long_break_secs(config: PomodoroConfig) -> int {
    config.long_break_min * 60
}

/// The streak that leads up to the last of `entries`.
pub open spec fn streak_of(entries: Seq<EntryView>, config: PomodoroConfig) -> Seq<BucketView> {
    streak(entries.drop_last(), entries.last().start, long_break_secs(config))
}

/// The pomodoro count of a streak: every full pair of buckets is one
/// pomodoro done, and the running entry belongs to the next.
pub open spec fn pomodoros_of(history: Seq<BucketView>) -> int {
    (history.len() / 2 + 1) as int
}

/// The minutes that a phase is meant to last. A break is a long one from
/// the pomodoro count `long_break_after` on.
pub open spec fn nominal_minutes(mode: PomodoroMode, npomodoros: int, config: PomodoroConfig) -> int {
    if mode == PomodoroMode::Break {
        if npomodoros >= config.long_break_after {
            config.long_break_min as int
        } else {
            config.short_break_min as int
        }
    } else {
        config.pomodoro_min as int
    }
}

/// The seconds of the running phase that earlier entries have used up: the
/// most recent bucket of the streak, when it is of the same phase.
pub open spec fn seconds_used(mode: PomodoroMode, history: Seq<BucketView>) -> int {
    if history.len() > 0 && history[0].mode == mode {
        history[0].seconds
    } else {
        0
    }
}

/// When the phase of the running entry is due to end.
pub open spec fn spec_finish_time(entries: Seq<EntryView>, config: PomodoroConfig) -> int {
    let latest = entries.last();
    let mode = spec_mode_of_entry(latest);
    let history = streak_of(entries, config);
    latest.start + nominal_minutes(mode, pomodoros_of(history), config) * 60 - seconds_used(
        mode,
        history,
    )
}

/// When the sub-task of the running entry is due to end: its minutes after
/// the start of the entry, less the time that earlier entries spent on the
/// same task while the phase is work. A tag that cannot be read gives no
/// sub-task.
pub open spec fn spec_task_finish_time(entries: Seq<EntryView>) -> Option<int> {
    let latest = entries.last();
    let extra = if spec_mode_of_entry(latest) == PomodoroMode::Work {
        extra_task_seconds(latest, entries.drop_last())
    } else {
        0
    };
    match spec_task_min(latest.tags) {
        Ok(Some(minutes)) => Some(latest.start + minutes * 60 - extra),
        _ => None,
    }
}

/// The state that a list of entries, oldest first, amounts to. The
/// notification counters are zero: they are no property of the entries.
pub open spec fn spec_reconstruct(entries: Seq<EntryView>, config: PomodoroConfig) -> StateView {
    if !is_running(entries) {
        idle_state()
    } else {
        let latest = entries.last();
        StateView {
            npomodoros: pomodoros_of(streak_of(entries, config)),
            nnotifications: 0,
            ntnotifications: 0,
            mode: spec_mode_of_entry(latest),
            description: latest.description,
            project: match latest.project_name {
                Some(name) => name,
                None => Seq::empty(),
            },
            finish_time: spec_finish_time(entries, config),
            task_finish_time: spec_task_finish_time(entries),
        }
    }
}

/// Why a state could not be derived.
#[derive(Clone, Copy, Debug, PartialEq, Eq, Structural)]
pub enum StateError {
    /// The end of the phase lies outside the range of a [`Timestamp`].
    FinishTimeOutOfRange,
    /// The end of the sub-task lies outside the range of a [`Timestamp`].
    TaskFinishTimeOutOfRange,
}

/// The error that stands in the way of the state of `entries`, if any.
pub open spec fn spec_reconstruct_error(entries: Seq<EntryView>, config: PomodoroConfig) -> Option<
    StateError,
> {
    let state = spec_reconstruct(entries, config);
    if !representable(state.finish_time) {
        Some(StateError::FinishTimeOutOfRange)
    } else if state.task_finish_time matches Some(t) && !representable(t) {
        Some(StateError::TaskFinishTimeOutOfRange)
    } else {
        None
    }
}

/// Derives the state of the timer from the time entries, oldest first.
///
/// Without a running entry at the end of the list the state is idle.
/// Otherwise the running entry gives the phase, the streak before it gives
/// the pomodoro count and the time already used, and its tags may give a
/// sub-task. The result depends on nothing but the arguments, and its
/// notification counters are zero.
pub fn reconstruct(entries: &Vec<TimeEntry>, config: &PomodoroConfig) -> (r: Result<
    PomodoroState,
    StateError,
>)
    ensures
        match r {
            Ok(state) => {
                &&& spec_reconstruct_error(entry_views(entries@), *config) is None
                &&& state@ == spec_reconstruct(entry_views(entries@), *config)
            },
            Err(e) => spec_reconstruct_error(entry_views(entries@), *config) == Some(e),
        },
        !is_running(entry_views(entries@)) ==> r is Ok,
        r matches Ok(state) ==> (state.mode == PomodoroMode::Idle <==> !is_running(
            entry_views(entries@),
        )),
        r matches Ok(state) ==> state.mode != PomodoroMode::Idle ==> state.npomodoros >= 1,
        r matches Ok(state) ==> state@.valid(),
{
    let ghost views = entry_views(entries@);
    let n = entries.len();
    if n == 0 {
        return Ok(PomodoroState::default());
    }
    let latest = &entries[n - 1];
    assert(views.last() == latest@);
    if latest.duration >= 0 {
        return Ok(PomodoroState::default());
    }
    let mode = mode_of_entry(latest);
    let extra: i128 = if mode == PomodoroMode::Work {
        extra_task_duration(entries)
    } else {
        0
    };
    let history = streak_history(entries, config.long_break_min as i64 * 60);
    let npomodoros: u64 = (history.len() / 2 + 1) as u64;
    let minutes: u32 = if mode == PomodoroMode::Break {
        if npomodoros >= config.long_break_after as u64 {
            config.long_break_min
        } else {
            config.short_break_min
        }
    } else {
        config.pomodoro_min
    };
    let mut seconds: i128 = minutes as i128 * 60;
    assert(sum_bound(n as int) <= 0xffff_ffff_ffff_ffff * 0x8000_0000_0000_0000);
    if history.len() > 0 && history[0].mode == mode {
        seconds = seconds - history[0].seconds;
    }
    let finish_time = match latest.start.checked_add_seconds(seconds) {
        Some(t) => t,
        None => {
            return Err(StateError::FinishTimeOutOfRange);
        },
    };
    let task_finish_time = match task_min(latest) {
        Ok(Some(task_minutes)) => {
            match latest.start.checked_add_seconds(task_minutes as i128 * 60 - extra) {
                Some(t) => Some(t),
                None => {
                    return Err(StateError::TaskFinishTimeOutOfRange);
                },
            }
        },
        _ => None,
    };
    let project = match &latest.project_name {
        Some(name) => name.clone(),
        None => String::new(),
    };
    Ok(
        PomodoroState {
            npomodoros,
            nnotifications: 0,
            ntnotifications: 0,
            mode,
            description: latest.description.clone(),
            project,
            finish_time,
            task_finish_time,
        },
    )
}

} // verus!
