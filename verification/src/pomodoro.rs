//! The phases of a pomodoro timer.

use vstd::prelude::*;

verus! {

/// The phase a timer is in.
///
/// `Idle` is the phase while no time entry is running. A running entry puts
/// the timer into `Work` or `Break`.
#[derive(Clone, Copy, Debug, PartialEq, Eq, Structural)]
pub enum PomodoroMode {
    Idle,
    Work,
    Break,
}

impl PomodoroMode {
    /// The phase that follows a finished phase: a break follows work, and
    /// work follows everything else.
    pub open spec fn spec_next(self) -> PomodoroMode {
        match self {
            PomodoroMode::Work => PomodoroMode::Break,
            _ => PomodoroMode::Work,
        }
    }

    /// The name of the phase.
    pub open spec fn spec_name(self) -> Seq<char> {
        match self {
            PomodoroMode::Idle => "Idle"@,
            PomodoroMode::Work => "Work"@,
            PomodoroMode::Break => "Break"@,
        }
    }

    /// The name of the phase: `Idle`, `Work` or `Break`.
    pub fn name(self) -> (name: &'static str)
        ensures
            name@ == self.spec_name(),
    {
        match self {
            PomodoroMode::Idle => "Idle",
            PomodoroMode::Work => "Work",
            PomodoroMode::Break => "Break",
        }
    }

    /// The phase to announce when this one is over.
    pub fn next(self) -> (r: PomodoroMode)
        ensures
            r == self.spec_next(),
    {
        match self {
            PomodoroMode::Work => PomodoroMode::Break,
            _ => PomodoroMode::Work,
        }
    }
}

} // verus!
