//! Notifications in a chat channel.

use vstd::prelude::*;

use crate::notifier::{notification_text, spec_notification_text};
use crate::pomodoro::PomodoroMode;

verus! {

/// The emoji that stands for a phase: a tomato for work, a coffee for
/// everything else.
pub open spec fn spec_emoji(mode: PomodoroMode) -> Seq<char> {
    if mode == PomodoroMode::Work {
        ":tomato:"@
    } else {
        ":coffee:"@
    }
}

/// The icon of the message for a phase.
pub fn emoji(mode: PomodoroMode) -> (emoji: &'static str)
    ensures
        emoji@ == spec_emoji(mode),
{
    if mode == PomodoroMode::Work {
        ":tomato:"
    } else {
        ":coffee:"
    }
}

/// The name under which the messages are posted.
pub fn username() -> (name: &'static str)
    ensures
        name@ == "toggdoro"@,
{
    "toggdoro"
}

/// The text of the message for a phase.
pub fn text(mode: PomodoroMode, min: u32) -> (text: String)
    ensures
        text@ == spec_notification_text(mode, min),
{
    notification_text(mode, min)
}

} // verus!
