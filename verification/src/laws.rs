//! What holds of the timer whatever the entries are.

use vstd::prelude::*;

use crate::classify::spec_mode_of_entry;
use crate::config::{EscalationConfig, PomodoroConfig};
use crate::pomodoro::PomodoroMode;
use crate::state::{
    idle_state, is_running, long_break_secs, spec_reconstruct, streak_of, StateView,
};
use crate::streak::{
    continues_streak, ends_with_long_break, merge_bucket, streak_from, BucketView,
};
use crate::toggl::EntryView;
use crate::update::{spec_update_notification, spec_update_state};

verus! {

/// Whether the walk that has gathered `history` so far and goes on over
/// `tail` (oldest first) comes to a long break somewhere in `tail`, without
/// a gap or a running entry ending it before.
pub open spec fn reaches_long_break(
    tail: Seq<EntryView>,
    next_start: int,
    history: Seq<BucketView>,
    long_break_secs: int,
) -> bool
    decreases tail.len(),
{
    if tail.len() == 0 {
        false
    } else {
        let entry = tail.last();
        let merged = merge_bucket(history, spec_mode_of_entry(entry), entry.duration);
        continues_streak(entry, next_start) && (ends_with_long_break(merged, long_break_secs)
            || reaches_long_break(tail.drop_last(), entry.start, merged, long_break_secs))
    }
}

/// Whether two states agree on what the entries determine: the phase, the
/// pomodoro count, the texts and both finish times.
pub open spec fn same_session(a: StateView, b: StateView) -> bool {
    &&& a.mode == b.mode
    &&& a.npomodoros == b.npomodoros
    &&& a.description == b.description
    &&& a.project == b.project
    &&& a.finish_time == b.finish_time
    &&& a.task_finish_time == b.task_finish_time
}

/// Without a running entry at the end of the list the timer is idle, and
/// with one it is not.
pub proof fn lemma_idle_iff_nothing_runs(entries: Seq<EntryView>, config: PomodoroConfig)
    ensures
        !is_running(entries) ==> spec_reconstruct(entries, config) == idle_state(),
        spec_reconstruct(entries, config).mode == PomodoroMode::Idle <==> !is_running(entries),
        is_running(entries) ==> spec_reconstruct(entries, config).npomodoros >= 1,
{
}

/// An entry that completes a long break ends the walk on the spot: the
/// break's bucket is dropped, and whatever lies before the entry (`older`)
/// has no part in the streak.
pub proof fn lemma_long_break_ends_streak(
    older: Seq<EntryView>,
    entry: EntryView,
    next_start: int,
    history: Seq<BucketView>,
    long_break_secs: int,
)
    requires
        continues_streak(entry, next_start),
        ends_with_long_break(
            merge_bucket(history, spec_mode_of_entry(entry), entry.duration),
            long_break_secs,
        ),
    ensures
        streak_from(older.push(entry), next_start, history, long_break_secs) == merge_bucket(
            history,
            spec_mode_of_entry(entry),
            entry.duration,
        ).drop_last(),
{
    assert(older.push(entry).last() == entry);
}

/// A long break is a boundary: when the walk over `tail` comes to one, the
/// streak is the same whatever entries stand before `tail`.
pub proof fn lemma_streak_stops_at_long_break(
    older: Seq<EntryView>,
    tail: Seq<EntryView>,
    next_start: int,
    history: Seq<BucketView>,
    long_break_secs: int,
)
    requires
        reaches_long_break(tail, next_start, history, long_break_secs),
    ensures
        streak_from(older + tail, next_start, history, long_break_secs) == streak_from(
            tail,
            next_start,
            history,
            long_break_secs,
        ),
    decreases tail.len(),
{
    let all = older + tail;
    let entry = tail.last();
    assert(all.last() == entry);
    assert(all.drop_last() =~= older + tail.drop_last());
    let merged = merge_bucket(history, spec_mode_of_entry(entry), entry.duration);
    if !ends_with_long_break(merged, long_break_secs) {
        lemma_streak_stops_at_long_break(
            older,
            tail.drop_last(),
            entry.start,
            merged,
            long_break_secs,
        );
    }
}

/// The pomodoro count does not count beyond a long break: two histories
/// that differ only in what stands before a long break give the same
/// phase, the same count and the same finish times.
pub proof fn lemma_count_stops_at_long_break(
    older_a: Seq<EntryView>,
    older_b: Seq<EntryView>,
    tail: Seq<EntryView>,
    latest: EntryView,
    config: PomodoroConfig,
)
    requires
        latest.is_running(),
        reaches_long_break(tail, latest.start, Seq::empty(), long_break_secs(config)),
    ensures
        streak_of((older_a + tail).push(latest), config) == streak_of(
            (older_b + tail).push(latest),
            config,
        ),
        spec_reconstruct((older_a + tail).push(latest), config).npomodoros == spec_reconstruct(
            (older_b + tail).push(latest),
            config,
        ).npomodoros,
        spec_reconstruct((older_a + tail).push(latest), config).finish_time == spec_reconstruct(
            (older_b + tail).push(latest),
            config,
        ).finish_time,
{
    let a = (older_a + tail).push(latest);
    let b = (older_b + tail).push(latest);
    assert(a.drop_last() =~= older_a + tail);
    assert(b.drop_last() =~= older_b + tail);
    assert(a.last() == latest);
    assert(b.last() == latest);
    lemma_streak_stops_at_long_break(
        older_a,
        tail,
        latest.start,
        Seq::empty(),
        long_break_secs(config),
    );
    lemma_streak_stops_at_long_break(
        older_b,
        tail,
        latest.start,
        Seq::empty(),
        long_break_secs(config),
    );
}

/// A refresh changes nothing of what the entries determine: whatever the
/// counts before it and whatever the time, the state after it agrees with
/// the state that the entries alone amount to.
pub proof fn lemma_update_keeps_session(
    nnotifications: int,
    ntnotifications: int,
    entries: Seq<EntryView>,
    pomodoro: PomodoroConfig,
    escalation: EscalationConfig,
    now: int,
)
    ensures
        same_session(
            spec_update_state(nnotifications, ntnotifications, entries, pomodoro, escalation, now),
            spec_reconstruct(entries, pomodoro),
        ),
{
}

/// Refreshing again with the same entries gives the same session: the
/// state after a first refresh, fed into a second one at any later or
/// earlier time, comes back with the same phase, the same pomodoro count
/// and the same finish times.
pub proof fn lemma_refresh_is_idempotent(
    nnotifications: int,
    ntnotifications: int,
    entries: Seq<EntryView>,
    pomodoro: PomodoroConfig,
    escalation: EscalationConfig,
    first_now: int,
    second_now: int,
)
    ensures
        ({
            let first = spec_update_state(
                nnotifications,
                ntnotifications,
                entries,
                pomodoro,
                escalation,
                first_now,
            );
            let second = spec_update_state(
                first.nnotifications,
                first.ntnotifications,
                entries,
                pomodoro,
                escalation,
                second_now,
            );
            same_session(first, second)
        }),
{
}

/// While idle nothing is announced and both counts are zero.
pub proof fn lemma_idle_is_silent(
    nnotifications: int,
    ntnotifications: int,
    entries: Seq<EntryView>,
    pomodoro: PomodoroConfig,
    escalation: EscalationConfig,
    now: int,
)
    requires
        !is_running(entries),
    ensures
        spec_update_state(nnotifications, ntnotifications, entries, pomodoro, escalation, now)
            == idle_state(),
        spec_update_notification(
            nnotifications,
            ntnotifications,
            entries,
            pomodoro,
            escalation,
            now,
        ) is None,
{
}

/// As soon as a refresh finds the phase not overdue, the count of its
/// announcements is zero, and as long as the phase is overdue the count of
/// the sub-task's announcements is zero.
pub proof fn lemma_counts_reset(
    nnotifications: int,
    ntnotifications: int,
    entries: Seq<EntryView>,
    pomodoro: PomodoroConfig,
    escalation: EscalationConfig,
    now: int,
)
    ensures
        ({
            let state = spec_update_state(
                nnotifications,
                ntnotifications,
                entries,
                pomodoro,
                escalation,
                now,
            );
            &&& now < state.finish_time ==> state.nnotifications == 0
            &&& now >= state.finish_time ==> state.ntnotifications == 0
            &&& state.task_finish_time is None ==> state.ntnotifications == 0
            &&& (state.task_finish_time matches Some(t) && now < t) ==> state.ntnotifications == 0
        }),
{
}

} // verus!
