//! The streak: the run of work and break that leads up to the running entry.
//!
//! The entries before the running one are walked from the most recent
//! backward and merged by phase into buckets, until a gap, an entry without
//! a stop time or a long break ends the walk.

use vstd::prelude::*;

use crate::classify::{mode_of_entry, spec_mode_of_entry};
use crate::pomodoro::PomodoroMode;
use crate::time::Timestamp;
use crate::toggl::{entry_views, EntryView, TimeEntry};

verus! {

/// The longest pause, in seconds, between the stop of one entry and the
/// start of the next that still keeps both in one streak.
pub const STREAK_GAP_SECS: i64 = 120;

/// Consecutive entries of one phase, merged.
#[derive(Clone, Copy, Debug)]
pub struct Bucket {
    pub mode: PomodoroMode,
    /// The summed durations of the merged entries.
    pub seconds: i128,
}

/// A [`Bucket`] as mathematical values.
pub ghost struct BucketView {
    pub mode: PomodoroMode,
    pub seconds: int,
}

impl View for Bucket {
    type V = BucketView;

    open spec fn view(&self) -> BucketView {
        BucketView { mode: self.mode, seconds: self.seconds as int }
    }
}

/// The views of a list of buckets, in the same order.
pub open spec fn bucket_views(buckets: Seq<Bucket>) -> Seq<BucketView> {
    Seq::new(buckets.len(), |i: int| buckets[i]@)
}

/// Whether `entry` belongs to the streak of the entry that starts at
/// `next_start`: it has stopped, and no more than [`STREAK_GAP_SECS`]
/// seconds lie between its stop and that start.
pub open spec fn continues_streak(entry: EntryView, next_start: int) -> bool {
    match entry.stop {
        Some(stop) => next_start - stop <= STREAK_GAP_SECS,
        None => false,
    }
}

/// Adds `seconds` of phase `mode` to a history: to its last bucket when
/// that has the same phase, as a new last bucket otherwise.
pub open spec fn merge_bucket(history: Seq<BucketView>, mode: PomodoroMode, seconds: int) -> Seq<
    BucketView,
> {
    if history.len() > 0 && history.last().mode == mode {
        history.drop_last().push(BucketView { mode, seconds: history.last().seconds + seconds })
    } else {
        history.push(BucketView { mode, seconds })
    }
}

/// Whether the last bucket of `history` is a break of at least
/// `long_break_secs` seconds. Such a break is a boundary: the streak begins
/// after it.
pub open spec fn ends_with_long_break(history: Seq<BucketView>, long_break_secs: int) -> bool {
    &&& history.len() > 0
    &&& history.last().mode == PomodoroMode::Break
    &&& history.last().seconds >= long_break_secs
}

/// The history that the walk arrives at when it has gathered `history` so
/// far, the entry it last took starts at `next_start`, and `earlier` holds
/// the entries still before it, oldest first.
pub open spec fn streak_from(
    earlier: Seq<EntryView>,
    next_start: int,
    history: Seq<BucketView>,
    long_break_secs: int,
) -> Seq<BucketView>
    decreases earlier.len(),
{
    if earlier.len() == 0 {
        history
    } else {
        let entry = earlier.last();
        if !continues_streak(entry, next_start) {
            history
        } else {
            let merged = merge_bucket(history, spec_mode_of_entry(entry), entry.duration);
            if ends_with_long_break(merged, long_break_secs) {
                merged.drop_last()
            } else {
                streak_from(earlier.drop_last(), entry.start, merged, long_break_secs)
            }
        }
    }
}

/// The streak that leads up to an entry starting at `latest_start`, given
/// the entries before it, oldest first. The first bucket is the most recent.
pub open spec fn streak(earlier: Seq<EntryView>, latest_start: int, long_break_secs: int) -> Seq<
    BucketView,
> {
    streak_from(earlier, latest_start, Seq::empty(), long_break_secs)
}

/// A bound on the magnitude of a sum of `count` durations.
pub open spec fn sum_bound(count: int) -> int {
    count * 0x8000_0000_0000_0000
}

/// The streak that leads up to the last entry of `entries`, merged into
/// buckets, the most recent bucket first. The last entry itself is not part
/// of it; without entries there is no streak. No bucket is larger in
/// magnitude than the durations before the last entry can add up to.
pub fn streak_history(entries: &Vec<TimeEntry>, long_break_secs: i64) -> (history: Vec<Bucket>)
    ensures
        entries.len() == 0 ==> history.len() == 0,
        entries.len() > 0 ==> bucket_views(history@) == streak(
            entry_views(entries@).drop_last(),
            entries[entries.len() - 1].start@,
            long_break_secs as int,
        ),
        history.len() <= entries.len(),
        forall|k: int|
            0 <= k < history.len() ==> -sum_bound(entries.len() as int)
                <= #[trigger] history[k].seconds <= sum_bound(entries.len() as int),
{
    if entries.len() == 0 {
        return Vec::new();
    }
    let n = entries.len();
    let ghost views = entry_views(entries@);
    let ghost goal = streak(views.drop_last(), entries[n - 1].start@, long_break_secs as int);
    let mut history: Vec<Bucket> = Vec::new();
    let mut next_start: Timestamp = entries[n - 1].start;
    let mut i: usize = n - 1;
    assert(views.drop_last() =~= views.subrange(0, i as int));
    assert(bucket_views(history@) =~= Seq::<BucketView>::empty());
    while i > 0
        invariant
            n == entries.len(),
            i < n,
            views == entry_views(entries@),
            goal == streak(views.drop_last(), entries[n - 1].start@, long_break_secs as int),
            history.len() <= n - 1 - i,
            forall|k: int|
                0 <= k < history.len() ==> -sum_bound(n - 1 - i) <= #[trigger] history[k].seconds
                    <= sum_bound(n - 1 - i),
            goal == streak_from(
                views.subrange(0, i as int),
                next_start@,
                bucket_views(history@),
                long_break_secs as int,
            ),
        decreases i,
    {
        let entry = &entries[i - 1];
        let ghost earlier = views.subrange(0, i as int);
        let ghost before = bucket_views(history@);
        proof {
            assert(earlier.last() == entry@);
            assert(earlier.drop_last() =~= views.subrange(0, i - 1));
        }
        match entry.stop {
            Some(stop) => {
                if next_start.seconds_since(stop) > STREAK_GAP_SECS as i128 {
                    proof {
                        lemma_sum_bound_grows(n - 1 - i, n - 1);
                    }
                    return history;
                }
            },
            None => {
                proof {
                    lemma_sum_bound_grows(n - 1 - i, n - 1);
                }
                return history;
            },
        }
        let mode = mode_of_entry(entry);
        let len = history.len();
        let merged: Bucket = if len > 0 && history[len - 1].mode == mode {
            let last = history[len - 1];
            history.set(len - 1, Bucket { mode, seconds: last.seconds + entry.duration as i128 });
            assert(bucket_views(history@) =~= merge_bucket(before, mode, entry.duration as int));
            history[len - 1]
        } else {
            let fresh = Bucket { mode, seconds: entry.duration as i128 };
            history.push(fresh);
            assert(bucket_views(history@) =~= merge_bucket(before, mode, entry.duration as int));
            fresh
        };
        proof {
            lemma_sum_bound_grows(n - 1 - i, n - i);
            lemma_sum_bound_grows(n - i, n - 1);
            assert(bucket_views(history@).last() == merged@);
        }
        if merged.mode == PomodoroMode::Break && merged.seconds >= long_break_secs as i128 {
            let ghost full = bucket_views(history@);
            history.pop();
            assert(bucket_views(history@) =~= full.drop_last());
            return history;
        }
        next_start = entry.start;
        i -= 1;
    }
    proof {
        assert(views.subrange(0, 0).len() == 0);
    }
    history
}

/// The bound on a sum grows with the number of summands.
pub proof fn lemma_sum_bound_grows(fewer: int, more: int)
    requires
        0 <= fewer <= more,
    ensures
        sum_bound(fewer) <= sum_bound(more),
        sum_bound(fewer + 1) == sum_bound(fewer) + 0x8000_0000_0000_0000,
{
}

} // verus!
