//! Notifiers: the ways in which the end of a phase is made known.
//!
//! This module holds what every notifier needs before it sends anything:
//! the text of the notification and the settings of each kind of notifier.
//! Sending is left to the program that uses the library.

use vstd::prelude::*;
use vstd::string::StringExecFns;

use crate::decimal::{decimal_digits, to_decimal};
use crate::pomodoro::PomodoroMode;

pub mod dbus;
pub mod mail;
pub mod slack;

verus! {

/// Why a notification could not be sent.
#[derive(Debug)]
pub struct NotifyError {
    pub message: String,
}

/// Something that can make the begin of a phase known.
pub trait Notifier {
    /// Announces that `mode` begins and is meant to last `min` minutes.
    fn notify(&self, mode: PomodoroMode, min: u32) -> Result<(), NotifyError>;
}

/// The text of a notification: the name of the phase, the minutes in base
/// ten and the word `min`, with single spaces between them.
pub open spec fn spec_notification_text(mode: PomodoroMode, min: u32) -> Seq<char> {
    mode.spec_name() + " "@ + decimal_digits(min as nat) + " min"@
}

/// The text of a notification, such as `Break 5 min`.
pub fn notification_text(mode: PomodoroMode, min: u32) -> (text: String)
    ensures
        text@ == spec_notification_text(mode, min),
{
    let mut text = String::from_str(mode.name());
    text.append(" ");
    let minutes = to_decimal(min as u64);
    text.append(minutes.as_str());
    text.append(" min");
    text
}

} // verus!
