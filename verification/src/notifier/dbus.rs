//! Desktop notifications.

use vstd::prelude::*;

use crate::notifier::{notification_text, spec_notification_text, NotifyError};
use crate::pomodoro::PomodoroMode;

verus! {

/// The notifier that shows a desktop notification. It has no settings.
#[derive(Debug)]
pub struct DBusNotifier;

impl DBusNotifier {
    /// Always succeeds.
    pub fn new() -> (r: Result<Self, NotifyError>)
        ensures
            r is Ok,
    {
        Ok(DBusNotifier)
    }

    /// The heading of every desktop notification.
    pub fn summary(&self) -> (summary: &'static str)
        ensures
            summary@ == "Toggdoro"@,
    {
        "Toggdoro"
    }

    /// The body of the desktop notification for a phase.
    pub fn body(&self, mode: PomodoroMode, min: u32) -> (body: String)
        ensures
            body@ == spec_notification_text(mode, min),
    {
        notification_text(mode, min)
    }
}

} // verus!
