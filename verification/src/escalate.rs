//! When to announce that something is overdue, and how often.
//!
//! An overrun is announced at once, a second time when it has lasted longer
//! than a first threshold and a third time when it has lasted longer than a
//! second one. The count of announcements starts again at zero as soon as
//! the overrun is gone.

use vstd::prelude::*;

use crate::config::EscalationConfig;

verus! {

/// The most announcements that one overrun can get.
pub const MAX_NOTIFICATIONS: u32 = 3;

/// Whether an overrun of `overrun` seconds is to be announced when `count`
/// announcements of it have been made.
pub open spec fn spec_should_notify(count: int, overrun: int, config: EscalationConfig) -> bool {
    &&& overrun >= 0
    &&& {
        ||| count == 0
        ||| count == 1 && overrun > config.second_after_secs
        ||| count == 2 && overrun > config.third_after_secs
    }
}

/// The decision of one tick: whether to announce, and the count after it.
/// A negative `overrun` means that nothing is due yet.
pub open spec fn spec_escalate(count: int, overrun: int, config: EscalationConfig) -> (bool, int) {
    if overrun < 0 {
        (false, 0)
    } else if spec_should_notify(count, overrun, config) {
        (true, count + 1)
    } else {
        (false, count)
    }
}

/// Decides for one tick whether an overrun of `overrun` seconds is to be
/// announced, given the `count` of announcements made so far, and returns
/// the decision with the new count.
pub fn escalate(count: u32, overrun: i128, config: &EscalationConfig) -> (r: (bool, u32))
    ensures
        r.0 == spec_escalate(count as int, overrun as int, *config).0,
        r.1 == spec_escalate(count as int, overrun as int, *config).1,
        overrun < 0 ==> !r.0 && r.1 == 0,
        r.0 <==> spec_should_notify(count as int, overrun as int, *config),
        r.0 ==> r.1 == count + 1 && r.1 <= MAX_NOTIFICATIONS,
        overrun >= 0 && !r.0 ==> r.1 == count,
{
    if overrun < 0 {
        (false, 0)
    } else if count == 0 || (count == 1 && overrun > config.second_after_secs as i128) || (count
        == 2 && overrun > config.third_after_secs as i128) {
        (true, count + 1)
    } else {
        (false, count)
    }
}

/// The count of announcements after a run of ticks that saw the overruns
/// `overruns` in this order, starting from `count`.
pub open spec fn count_after(count: int, overruns: Seq<int>, config: EscalationConfig) -> int
    decreases overruns.len(),
{
    if overruns.len() == 0 {
        count
    } else {
        count_after(spec_escalate(count, overruns[0], config).1, overruns.drop_first(), config)
    }
}

/// The number of announcements made during a run of ticks that saw the
/// overruns `overruns` in this order, starting from `count`.
pub open spec fn notifications_during(count: int, overruns: Seq<int>, config: EscalationConfig) -> int
    decreases overruns.len(),
{
    if overruns.len() == 0 {
        0
    } else {
        let (notify, next) = spec_escalate(count, overruns[0], config);
        (if notify {
            1int
        } else {
            0int
        }) + notifications_during(next, overruns.drop_first(), config)
    }
}

/// While an overrun lasts, each announcement is tied to one value of the
/// count: the first is made at count 0 whatever the overrun, the second at
/// count 1 once the overrun exceeds the first threshold, the third at
/// count 2 once it exceeds the second threshold, and none at any other
/// count. Each announcement raises the count by one; a tick without one
/// leaves it as it is.
pub proof fn lemma_escalation_steps(count: int, overrun: int, config: EscalationConfig)
    requires
        overrun >= 0,
    ensures
        count == 0 ==> spec_escalate(count, overrun, config) == (true, 1int),
        count == 1 ==> spec_escalate(count, overrun, config) == if overrun
            > config.second_after_secs {
            (true, 2int)
        } else {
            (false, 1int)
        },
        count == 2 ==> spec_escalate(count, overrun, config) == if overrun
            > config.third_after_secs {
            (true, 3int)
        } else {
            (false, 2int)
        },
        count < 0 || count > 2 ==> spec_escalate(count, overrun, config) == (false, count),
{
}

/// An overrun that does not clear is announced at most three times, however
/// many ticks it lasts and however it grows: the count never falls, every
/// announcement raises it by one, and it does not pass three.
pub proof fn lemma_at_most_three_notifications(
    count: int,
    overruns: Seq<int>,
    config: EscalationConfig,
)
    requires
        count >= 0,
        forall|i: int| 0 <= i < overruns.len() ==> overruns[i] >= 0,
    ensures
        0 <= notifications_during(count, overruns, config) <= MAX_NOTIFICATIONS,
        count_after(count, overruns, config) == count + notifications_during(
            count,
            overruns,
            config,
        ),
        count <= MAX_NOTIFICATIONS ==> count_after(count, overruns, config) <= MAX_NOTIFICATIONS,
        count >= MAX_NOTIFICATIONS ==> notifications_during(count, overruns, config) == 0,
    decreases overruns.len(),
{
    if overruns.len() > 0 {
        let next = spec_escalate(count, overruns[0], config).1;
        let rest = overruns.drop_first();
        assert forall|i: int| 0 <= i < rest.len() implies rest[i] >= 0 by {
            assert(rest[i] == overruns[i + 1]);
        }
        lemma_at_most_three_notifications(next, rest, config);
    }
}

/// As soon as a tick finds nothing overdue, the count is back at zero and
/// nothing is announced, whatever went before.
pub proof fn lemma_reset_on_recovery(
    count: int,
    overruns: Seq<int>,
    recovered: int,
    config: EscalationConfig,
)
    requires
        recovered < 0,
    ensures
        spec_escalate(count, recovered, config) == (false, 0int),
        count_after(count, overruns.push(recovered), config) == 0,
    decreases overruns.len(),
{
    let all = overruns.push(recovered);
    if overruns.len() == 0 {
        assert(all.drop_first() =~= Seq::<int>::empty());
        assert(all[0] == recovered);
        assert(count_after(0, all.drop_first(), config) == 0);
    } else {
        assert(all[0] == overruns[0]);
        assert(all.drop_first() =~= overruns.drop_first().push(recovered));
        lemma_reset_on_recovery(
            spec_escalate(count, overruns[0], config).1,
            overruns.drop_first(),
            recovered,
            config,
        );
    }
}

} // verus!
