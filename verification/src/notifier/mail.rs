//! Notifications by mail.

use vstd::prelude::*;
use vstd::string::StringExecFns;

use crate::notifier::{notification_text, spec_notification_text, NotifyError};
use crate::pomodoro::PomodoroMode;

verus! {

/// The notifier that sends a mail with an empty body; the subject says it
/// all.
#[derive(Debug)]
pub struct MailNotifier {
    from: String,
    to: String,
}

impl MailNotifier {
    /// The address that the mails come from.
    pub closed spec fn spec_sender(&self) -> Seq<char> {
        self.from@
    }

    /// The address that the mails go to.
    pub closed spec fn spec_recipient(&self) -> Seq<char> {
        self.to@
    }

    /// A notifier that sends mails from `from` to `to`. Always succeeds;
    /// the addresses are taken as they are.
    pub fn new(from: &str, to: &str) -> (r: Result<Self, NotifyError>)
        ensures
            r is Ok,
            r matches Ok(notifier) ==> notifier.spec_sender() == from@ && notifier.spec_recipient()
                == to@,
    {
        Ok(MailNotifier { from: String::from_str(from), to: String::from_str(to) })
    }

    /// The address that the mails come from.
    pub fn sender(&self) -> (address: &str)
        ensures
            address@ == self.spec_sender(),
    {
        self.from.as_str()
    }

    /// The address that the mails go to.
    pub fn recipient(&self) -> (address: &str)
        ensures
            address@ == self.spec_recipient(),
    {
        self.to.as_str()
    }

    /// The subject of the mail for a phase.
    pub fn subject(&self, mode: PomodoroMode, min: u32) -> (subject: String)
        ensures
            subject@ == spec_notification_text(mode, min),
    {
        notification_text(mode, min)
    }
}

} // verus!
