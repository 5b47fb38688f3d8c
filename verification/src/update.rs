//! One refresh of the timer: the state that the entries amount to now, and
//! the notification that is due, if any.

use vstd::prelude::*;

use crate::config::{EscalationConfig, PomodoroConfig};
use crate::escalate::{escalate, spec_escalate};
use crate::pomodoro::PomodoroMode;
use crate::state::{
    is_running, nominal_minutes, reconstruct, spec_reconstruct, spec_reconstruct_error,
    PomodoroState, StateError, StateView,
};
use crate::time::Timestamp;
use crate::toggl::{entry_views, EntryView, TimeEntry};

verus! {

/// What there is to announce.
#[derive(Clone, Copy, Debug, PartialEq, Eq, Structural)]
pub enum Notification {
    /// The phase is over. `next` is the phase to go on with and `min` the
    /// minutes it is meant to last.
    PhaseOver { next: PomodoroMode, min: u32 },
    /// The sub-task is over and it is time for the next task. `min` is the
    /// number of whole minutes that are left of the phase.
    TaskOver { min: u32 },
}

impl Notification {
    /// The phase to hand to a notifier: the next phase when a phase is
    /// over, work when a sub-task is over.
    pub open spec fn spec_mode(self) -> PomodoroMode {
        match self {
            Notification::PhaseOver { next, .. } => next,
            Notification::TaskOver { .. } => PomodoroMode::Work,
        }
    }

    /// The minutes to hand to a notifier.
    pub open spec fn spec_min(self) -> u32 {
        match self {
            Notification::PhaseOver { min, .. } => min,
            Notification::TaskOver { min } => min,
        }
    }

    /// The phase to hand to a notifier.
    pub fn mode(&self) -> (mode: PomodoroMode)
        ensures
            mode == self.spec_mode(),
    {
        match self {
            Notification::PhaseOver { next, .. } => *next,
            Notification::TaskOver { .. } => PomodoroMode::Work,
        }
    }

    /// The minutes to hand to a notifier.
    pub fn min(&self) -> (min: u32)
        ensures
            min == self.spec_min(),
    {
        match self {
            Notification::PhaseOver { min, .. } => *min,
            Notification::TaskOver { min } => *min,
        }
    }
}

/// The outcome of one refresh.
#[derive(Debug)]
pub struct Tick {
    /// The state to publish.
    pub state: PomodoroState,
    /// The notification to send, if one is due.
    pub notification: Option<Notification>,
}

/// The whole minutes between `now` and a later `finish`, as far as a `u32`
/// holds them: the count modulo 2^32.
pub open spec fn minutes_left(finish: int, now: int) -> int {
    ((finish - now) / 60) % 0x1_0000_0000
}

/// The decision on the sub-task for one refresh. While the phase itself is
/// overdue, or without a sub-task, the count of its announcements is zero
/// and nothing is announced.
pub open spec fn spec_task_escalation(
    count: int,
    state: StateView,
    config: EscalationConfig,
    now: int,
) -> (bool, int) {
    if now - state.finish_time >= 0 {
        (false, 0)
    } else {
        match state.task_finish_time {
            Some(task_finish) => spec_escalate(count, now - task_finish, config),
            None => (false, 0),
        }
    }
}

/// The state after a refresh at `now`, given the announcement counts
/// `nnotifications` and `ntnotifications` of the state before it.
pub open spec fn spec_update_state(
    nnotifications: int,
    ntnotifications: int,
    entries: Seq<EntryView>,
    pomodoro: PomodoroConfig,
    escalation: EscalationConfig,
    now: int,
) -> StateView {
    let fresh = spec_reconstruct(entries, pomodoro);
    if fresh.mode == PomodoroMode::Idle {
        fresh
    } else {
        StateView {
            nnotifications: spec_escalate(nnotifications, now - fresh.finish_time, escalation).1,
            ntnotifications: spec_task_escalation(ntnotifications, fresh, escalation, now).1,
            ..fresh
        }
    }
}

/// The notification that a refresh at `now` calls for. The end of the
/// phase goes before the end of the sub-task, so at most one is due.
pub open spec fn spec_update_notification(
    nnotifications: int,
    ntnotifications: int,
    entries: Seq<EntryView>,
    pomodoro: PomodoroConfig,
    escalation: EscalationConfig,
    now: int,
) -> Option<Notification> {
    let fresh = spec_reconstruct(entries, pomodoro);
    if fresh.mode == PomodoroMode::Idle {
        None
    } else if spec_escalate(nnotifications, now - fresh.finish_time, escalation).0 {
        let next = fresh.mode.spec_next();
        Some(
            Notification::PhaseOver {
                next,
                min: nominal_minutes(next, fresh.npomodoros, pomodoro) as u32,
            },
        )
    } else if spec_task_escalation(ntnotifications, fresh, escalation, now).0 {
        Some(Notification::TaskOver { min: minutes_left(fresh.finish_time, now) as u32 })
    } else {
        None
    }
}

/// Refreshes the timer at `now`.
///
/// The state is derived anew from `entries`; of the state before, `prev`,
/// only the two announcement counts are read. Each count goes on while its
/// overrun lasts and is zero otherwise; when idle both are zero and nothing
/// is announced. The caller sends the notification and publishes the state.
pub fn update(
    prev: &PomodoroState,
    entries: &Vec<TimeEntry>,
    pomodoro: &PomodoroConfig,
    escalation: &EscalationConfig,
    now: Timestamp,
) -> (r: Result<Tick, StateError>)
    ensures
        match r {
            Ok(tick) => {
                &&& spec_reconstruct_error(entry_views(entries@), *pomodoro) is None
                &&& tick.state@ == spec_update_state(
                    prev.nnotifications as int,
                    prev.ntnotifications as int,
                    entry_views(entries@),
                    *pomodoro,
                    *escalation,
                    now@,
                )
                &&& tick.notification == spec_update_notification(
                    prev.nnotifications as int,
                    prev.ntnotifications as int,
                    entry_views(entries@),
                    *pomodoro,
                    *escalation,
                    now@,
                )
            },
            Err(e) => spec_reconstruct_error(entry_views(entries@), *pomodoro) == Some(e),
        },
        r matches Ok(tick) ==> (tick.state.mode == PomodoroMode::Idle <==> !is_running(
            entry_views(entries@),
        )),
        r matches Ok(tick) ==> (prev@.valid() ==> tick.state@.valid()),
        r matches Ok(tick) ==> (tick.notification is Some ==> tick.state.mode
            != PomodoroMode::Idle),
{
    let mut state = match reconstruct(entries, pomodoro) {
        Ok(state) => state,
        Err(e) => {
            return Err(e);
        },
    };
    let ghost fresh = state@;
    if state.mode == PomodoroMode::Idle {
        return Ok(Tick { state, notification: None });
    }
    let overrun = now.seconds_since(state.finish_time);
    let (phase_due, nnotifications) = escalate(prev.nnotifications, overrun, escalation);
    let mut notification: Option<Notification> = None;
    let mut ntnotifications: u32 = 0;
    if phase_due {
        let next = state.mode.next();
        let min = if next == PomodoroMode::Break {
            if state.npomodoros >= pomodoro.long_break_after as u64 {
                pomodoro.long_break_min
            } else {
                pomodoro.short_break_min
            }
        } else {
            pomodoro.pomodoro_min
        };
        notification = Some(Notification::PhaseOver { next, min });
    }
    if overrun < 0 {
        if let Some(task_finish) = state.task_finish_time {
            let (task_due, count) = escalate(
                prev.ntnotifications,
                now.seconds_since(task_finish),
                escalation,
            );
            ntnotifications = count;
            if task_due {
                let left: i128 = (-overrun / 60) % 0x1_0000_0000;
                notification = Some(Notification::TaskOver { min: left as u32 });
            }
        }
    }
    state.nnotifications = nnotifications;
    state.ntnotifications = ntnotifications;
    assert(state@ == StateView {
        nnotifications: nnotifications as int,
        ntnotifications: ntnotifications as int,
        ..fresh
    });
    Ok(Tick { state, notification })
}

/// Why a refresh leaves the published state as it is.
#[derive(Clone, Copy, Debug, PartialEq, Eq, Structural)]
pub enum RefreshError {
    /// The entries could not be fetched.
    Fetch,
    /// The entries were fetched, but no state can be derived from them.
    State(StateError),
}

/// One turn of the refresh loop, given what the fetch brought: the entries,
/// or nothing when it failed.
///
/// After a failed fetch there is nothing to publish and nothing to
/// announce: the state of the turn before stays published and the next turn
/// tries again. Otherwise the turn is what [`update`] makes of the entries.
pub fn refresh(
    prev: &PomodoroState,
    fetched: Option<&Vec<TimeEntry>>,
    pomodoro: &PomodoroConfig,
    escalation: &EscalationConfig,
    now: Timestamp,
) -> (r: Result<Tick, RefreshError>)
    ensures
        fetched is None ==> r == Err::<Tick, RefreshError>(RefreshError::Fetch),
        fetched matches Some(entries) ==> match r {
            Ok(tick) => {
                &&& spec_reconstruct_error(entry_views(entries@), *pomodoro) is None
                &&& tick.state@ == spec_update_state(
                    prev.nnotifications as int,
                    prev.ntnotifications as int,
                    entry_views(entries@),
                    *pomodoro,
                    *escalation,
                    now@,
                )
                &&& tick.notification == spec_update_notification(
                    prev.nnotifications as int,
                    prev.ntnotifications as int,
                    entry_views(entries@),
                    *pomodoro,
                    *escalation,
                    now@,
                )
                &&& (prev@.valid() ==> tick.state@.valid())
            },
            Err(RefreshError::State(e)) => spec_reconstruct_error(
                entry_views(entries@),
                *pomodoro,
            ) == Some(e),
            Err(RefreshError::Fetch) => false,
        },
{
    match fetched {
        None => Err(RefreshError::Fetch),
        Some(entries) => match update(prev, entries, pomodoro, escalation, now) {
            Ok(tick) => Ok(tick),
            Err(e) => Err(RefreshError::State(e)),
        },
    }
}

} // verus!
