//! A pomodoro timer that is driven by a log of time-tracking entries.
//!
//! The current phase, the pomodoro count and the time at which the phase
//! ends are all derived from the chronological list of time entries; nothing
//! is stored between two refreshes but the number of notifications already
//! sent for an overrun.

pub mod classify;
pub mod config;
pub mod decimal;
pub mod escalate;
pub mod laws;
pub mod notifier;
pub mod pomodoro;
pub mod state;
pub mod status;
pub mod streak;
pub mod task;
pub mod time;
pub mod toggl;
pub mod update;
