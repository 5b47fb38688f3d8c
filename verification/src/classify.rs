//! Which phase a time entry belongs to.

use vstd::prelude::*;
use vstd::string::StringExecFns;

use crate::pomodoro::PomodoroMode;
use crate::toggl::{has_tag, EntryView, TimeEntry};

verus! {

/// The description that marks an entry as a break.
pub open spec fn break_description() -> Seq<char> {
    "Pomodoro Break"@
}

/// The tag that marks an entry as a break.
pub open spec fn break_tag() -> Seq<char> {
    "pomodoro-break"@
}

/// The phase of an entry: `Break` when its description is the break
/// description or one of its tags is the break tag, `Work` otherwise.
pub open spec fn spec_mode_of_entry(entry: EntryView) -> PomodoroMode {
    if entry.description == break_description() || entry.tags.contains(break_tag()) {
        PomodoroMode::Break
    } else {
        PomodoroMode::Work
    }
}

/// Classifies one entry as work or as a break. The result depends on the
/// entry's description and tags alone and is never `Idle`.
pub fn mode_of_entry(entry: &TimeEntry) -> (mode: PomodoroMode)
    ensures
        mode == spec_mode_of_entry(entry@),
        mode != PomodoroMode::Idle,
{
    let break_description = String::from_str("Pomodoro Break");
    if entry.description == break_description {
        return PomodoroMode::Break;
    }
    let break_tag = String::from_str("pomodoro-break");
    if has_tag(&entry.tags, &break_tag) {
        PomodoroMode::Break
    } else {
        PomodoroMode::Work
    }
}

/// Classification reads nothing but the description and the set of tags:
/// two entries that agree on both are in the same phase, in whatever order
/// their tags stand.
pub proof fn lemma_mode_depends_on_description_and_tags(a: EntryView, b: EntryView)
    requires
        a.description == b.description,
        a.tags.to_set() == b.tags.to_set(),
    ensures
        spec_mode_of_entry(a) == spec_mode_of_entry(b),
{
    assert(a.tags.contains(break_tag()) == a.tags.to_set().contains(break_tag()));
    assert(b.tags.contains(break_tag()) == b.tags.to_set().contains(break_tag()));
}

} // verus!
