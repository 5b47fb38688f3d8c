//! The settings of the timer.

use vstd::prelude::*;
use vstd::string::StringExecFns;

verus! {

/// All settings.
#[derive(Debug)]
pub struct Config {
    pub version: u8,
    pub toggl_token: String,
    pub socket: Option<String>,
    pub notification: NotificationConfig,
    pub pomodoro: PomodoroConfig,
    pub format: FormatConfig,
    pub escalation: EscalationConfig,
    /// Seconds between two refreshes of the state.
    pub refresh_secs: u64,
}

/// Which notifiers are in use.
#[derive(Debug)]
pub struct NotificationConfig {
    /// Whether to show desktop notifications.
    pub dbus: bool,
    /// The address to send mail to, if any.
    pub mail: Option<String>,
    /// The webhook to post to, if any.
    pub slack: Option<String>,
}

/// The lengths of the phases, in minutes, and the rhythm of long breaks.
#[derive(Clone, Copy, Debug, PartialEq, Eq, Structural)]
pub struct PomodoroConfig {
    pub pomodoro_min: u32,
    pub short_break_min: u32,
    pub long_break_min: u32,
    /// From this pomodoro count on, a break is a long one.
    pub long_break_after: u32,
}

/// When a notification is repeated while an overrun lasts.
#[derive(Clone, Copy, Debug, PartialEq, Eq, Structural)]
pub struct EscalationConfig {
    /// The second notification waits until the overrun exceeds this many
    /// seconds.
    pub second_after_secs: u32,
    /// The third notification waits until the overrun exceeds this many
    /// seconds.
    pub third_after_secs: u32,
}

/// The templates of the status line, one for each situation.
#[derive(Debug)]
pub struct FormatConfig {
    pub idle: String,
    pub work: String,
    pub break_: String,
    pub overwork: String,
    pub overbreak: String,
    pub task_work: String,
    pub task_break: String,
    pub task_overwork: String,
    pub task_overbreak: String,
}

pub fn default_pomodoro_min() -> (min: u32)
    ensures
        min == 25,
{
    25
}

pub fn default_short_break_min() -> (min: u32)
    ensures
        min == 5,
{
    5
}

pub fn default_long_break_min() -> (min: u32)
    ensures
        min == 15,
{
    15
}

pub fn default_long_break_after() -> (count: u32)
    ensures
        count == 4,
{
    4
}

pub fn default_second_after_secs() -> (secs: u32)
    ensures
        secs == 300,
{
    300
}

pub fn default_third_after_secs() -> (secs: u32)
    ensures
        secs == 1800,
{
    1800
}

pub fn default_refresh_secs() -> (secs: u64)
    ensures
        secs == 3,
{
    3
}

pub fn default_format_idle() -> (template: String)
    ensures
        template@ == "idle"@,
{
    String::from_str("idle")
}

pub fn default_format_work() -> (template: String)
    ensures
        template@ == "Work {{count}}[{{remaining_time}}{{task}}]"@,
{
    String::from_str("Work {{count}}[{{remaining_time}}{{task}}]")
}

pub fn default_format_break() -> (template: String)
    ensures
        template@ == "Break {{count}}[{{remaining_time}}{{task}}]"@,
{
    String::from_str("Break {{count}}[{{remaining_time}}{{task}}]")
}

pub fn default_format_task() -> (template: String)
    ensures
        template@ == "|{{remaining_time}}"@,
{
    String::from_str("|{{remaining_time}}")
}

impl Default for PomodoroConfig {
    fn default() -> (config: Self)
        ensures
            config == (PomodoroConfig {
                pomodoro_min: 25,
                short_break_min: 5,
                long_break_min: 15,
                long_break_after: 4,
            }),
    {
        PomodoroConfig {
            pomodoro_min: default_pomodoro_min(),
            short_break_min: default_short_break_min(),
            long_break_min: default_long_break_min(),
            long_break_after: default_long_break_after(),
        }
    }
}

impl Default for EscalationConfig {
    fn default() -> (config: Self)
        ensures
            config == (EscalationConfig { second_after_secs: 300, third_after_secs: 1800 }),
    {
        EscalationConfig {
            second_after_secs: default_second_after_secs(),
            third_after_secs: default_third_after_secs(),
        }
    }
}

impl Default for NotificationConfig {
    fn default() -> (config: Self)
        ensures
            !config.dbus,
            config.mail is None,
            config.slack is None,
    {
        NotificationConfig { dbus: false, mail: None, slack: None }
    }
}

impl Default for FormatConfig {
    fn default() -> (config: Self)
        ensures
            config.idle@ == "idle"@,
            config.work@ == "Work {{count}}[{{remaining_time}}{{task}}]"@,
            config.break_@ == "Break {{count}}[{{remaining_time}}{{task}}]"@,
            config.overwork@ == config.work@,
            config.overbreak@ == config.break_@,
            config.task_work@ == "|{{remaining_time}}"@,
            config.task_break@ == config.task_work@,
            config.task_overwork@ == config.task_work@,
            config.task_overbreak@ == config.task_work@,
    {
        FormatConfig {
            idle: default_format_idle(),
            work: default_format_work(),
            break_: default_format_break(),
            overwork: default_format_work(),
            overbreak: default_format_break(),
            task_work: default_format_task(),
            task_break: default_format_task(),
            task_overwork: default_format_task(),
            task_overbreak: default_format_task(),
        }
    }
}

impl Default for Config {
    fn default() -> (config: Self)
        ensures
            config.version == 0,
            config.toggl_token@.len() == 0,
            config.socket is None,
            config.pomodoro == (PomodoroConfig {
                pomodoro_min: 25,
                short_break_min: 5,
                long_break_min: 15,
                long_break_after: 4,
            }),
            config.escalation == (EscalationConfig {
                second_after_secs: 300,
                third_after_secs: 1800,
            }),
            config.refresh_secs == 3,
            !config.notification.dbus,
            config.notification.mail is None,
            config.notification.slack is None,
            config.format.idle@ == "idle"@,
    {
        Config {
            version: 0,
            toggl_token: String::new(),
            socket: None,
            notification: NotificationConfig::default(),
            pomodoro: PomodoroConfig::default(),
            format: FormatConfig::default(),
            escalation: EscalationConfig::default(),
            refresh_secs: default_refresh_secs(),
        }
    }
}

} // verus!
