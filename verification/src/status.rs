//! What a status line says: how much time is left, which template applies
//! and which values the template may use.

use vstd::prelude::*;
use vstd::string::StringExecFns;

use crate::decimal::{decimal_digits, to_decimal};
use crate::pomodoro::PomodoroMode;
use crate::state::PomodoroState;
use crate::time::Timestamp;

verus! {

/// The time between now and a finish time, split for display.
#[derive(Clone, Copy, Debug, PartialEq, Eq, Structural)]
pub struct Remaining {
    /// Whether the finish time is past.
    pub over: bool,
    /// The whole minutes, negative when the finish time is past by a minute
    /// or more.
    pub mins: i64,
    /// The seconds beyond the whole minutes, from 0 to 59.
    pub secs: i64,
}

/// The magnitude of a number.
pub open spec fn magnitude(n: int) -> int {
    if n < 0 {
        -n
    } else {
        n
    }
}

/// The whole minutes in `left` seconds, rounded towards zero.
pub open spec fn whole_minutes(left: int) -> int {
    if left < 0 {
        -(magnitude(left) / 60)
    } else {
        left / 60
    }
}

/// The seconds of `left` beyond its whole minutes, without a sign.
pub open spec fn seconds_part(left: int) -> int {
    magnitude(left) % 60
}

/// The time that is left until `finish` at `now`.
pub fn remaining(finish: Timestamp, now: Timestamp) -> (r: Remaining)
    ensures
        r.over == (finish@ < now@),
        r.mins == whole_minutes(finish@ - now@),
        r.secs == seconds_part(finish@ - now@),
        0 <= r.secs < 60,
{
    let left = finish.seconds_since(now);
    let over = left < 0;
    let size: i128 = if over {
        -left
    } else {
        left
    };
    let mins = (size / 60) as i64;
    let secs = (size % 60) as i64;
    Remaining { over, mins: if over {
        -mins
    } else {
        mins
    }, secs }
}

/// A number written at least two characters wide: with a leading zero when
/// it is a single digit, with a minus sign when it is negative.
pub open spec fn spec_two_wide(n: int) -> Seq<char> {
    if n < 0 {
        "-"@ + decimal_digits((-n) as nat)
    } else if n < 10 {
        "0"@ + decimal_digits(n as nat)
    } else {
        decimal_digits(n as nat)
    }
}

/// Writes a number without sign at least two characters wide.
pub fn two_wide_unsigned(n: u64) -> (text: String)
    ensures
        text@ == spec_two_wide(n as int),
{
    if n < 10 {
        let mut text = String::from_str("0");
        let digits = to_decimal(n);
        text.append(digits.as_str());
        text
    } else {
        to_decimal(n)
    }
}

/// Writes `n` at least two characters wide.
pub fn two_wide(n: i64) -> (text: String)
    ensures
        text@ == spec_two_wide(n as int),
{
    if n < 0 {
        let mut text = String::from_str("-");
        let digits = to_decimal((-(n as i128)) as u64);
        text.append(digits.as_str());
        text
    } else {
        two_wide_unsigned(n as u64)
    }
}

/// Minutes and seconds as a clock reading, `mm:ss`.
pub open spec fn spec_clock(mins: int, secs: int) -> Seq<char> {
    spec_two_wide(mins) + ":"@ + spec_two_wide(secs)
}

/// Writes minutes and seconds as a clock reading, such as `04:07`.
pub fn clock(mins: i64, secs: i64) -> (text: String)
    ensures
        text@ == spec_clock(mins as int, secs as int),
{
    let mut text = two_wide(mins);
    text.append(":");
    let seconds = two_wide(secs);
    text.append(seconds.as_str());
    text
}

impl Remaining {
    /// The clock reading with the sign of the minutes.
    pub fn clock(&self) -> (text: String)
        ensures
            text@ == spec_clock(self.mins as int, self.secs as int),
    {
        clock(self.mins, self.secs)
    }

    /// The clock reading without a sign.
    pub fn clock_abs(&self) -> (text: String)
        ensures
            text@ == spec_two_wide(magnitude(self.mins as int)) + ":"@ + spec_two_wide(
                self.secs as int,
            ),
    {
        let size: u64 = if self.mins < 0 {
            (-(self.mins as i128)) as u64
        } else {
            self.mins as u64
        };
        let mut text = two_wide_unsigned(size);
        text.append(":");
        let seconds = two_wide(self.secs);
        text.append(seconds.as_str());
        text
    }
}

/// The name of the template for a status line: the name of the phase, with
/// `over` before it when the time is up and `Task` after it when the line
/// is about the sub-task.
pub open spec fn spec_template_name(mode: PomodoroMode, over: bool, task: bool) -> Seq<char> {
    (if over {
        "over"@
    } else {
        Seq::empty()
    }) + mode.spec_name() + (if task {
        "Task"@
    } else {
        Seq::empty()
    })
}

/// The name of the template for a status line, such as `overWorkTask`.
pub fn template_name(mode: PomodoroMode, over: bool, task: bool) -> (name: String)
    ensures
        name@ == spec_template_name(mode, over, task),
{
    let mut name = String::new();
    if over {
        name.append("over");
    }
    name.append(mode.name());
    if task {
        name.append("Task");
    }
    assert(name@ =~= spec_template_name(mode, over, task));
    name
}

/// The values that a template may use.
#[derive(Debug)]
pub struct Context {
    /// The pomodoro count.
    pub count: u64,
    pub remaining_time: String,
    pub remaining_time_abs: String,
    pub project: String,
    pub description: String,
    /// The project, or the description where there is no project.
    pub project_or_description: String,
    /// The rendered status of the sub-task, if there is one.
    pub task: String,
}

impl Context {
    /// The values that `state` gives by itself. The times and the
    /// sub-task are empty.
    pub fn new(state: &PomodoroState) -> (context: Context)
        ensures
            context.count == state.npomodoros,
            context.description@ == state.description@,
            context.project@ == state.project@,
            context.project_or_description@ == if state.project@.len() != 0 {
                state.project@
            } else {
                state.description@
            },
            context.remaining_time@.len() == 0,
            context.remaining_time_abs@.len() == 0,
            context.task@.len() == 0,
    {
        let project_or_description = if state.project.as_str().unicode_len() != 0 {
            state.project.clone()
        } else {
            state.description.clone()
        };
        Context {
            count: state.npomodoros,
            remaining_time: String::new(),
            remaining_time_abs: String::new(),
            project: state.project.clone(),
            description: state.description.clone(),
            project_or_description,
            task: String::new(),
        }
    }

    /// Puts the time that is left into the context, with and without sign.
    pub fn set_remaining(&mut self, remaining: &Remaining)
        ensures
            final(self).remaining_time@ == spec_clock(
                remaining.mins as int,
                remaining.secs as int,
            ),
            final(self).remaining_time_abs@ == spec_clock(
                magnitude(remaining.mins as int),
                remaining.secs as int,
            ),
            final(self).count == old(self).count,
            final(self).project == old(self).project,
            final(self).description == old(self).description,
            final(self).project_or_description == old(self).project_or_description,
            final(self).task == old(self).task,
    {
        self.remaining_time = remaining.clock();
        self.remaining_time_abs = remaining.clock_abs();
    }
}

} // verus!
