//! The settings of a timer, fixed when it is made.

use vstd::prelude::*;

verus! {

/// The lengths, in seconds, and the cap on reminders that a timer works with.
#[derive(Clone, Copy, Debug, PartialEq, Eq, Structural)]
pub struct TimerConfig {
    /// The break interval that a new timer starts with.
    pub default_break_interval: u64,
    /// The shortest break interval that an edit can reach.
    pub min_break_interval: u64,
    /// By how much one edit lengthens or shortens the break interval.
    pub interval_change: u64,
    /// How many reminders one break gives before the clock stops.
    pub max_reminders: usize,
    /// The time between two reminders of one break.
    pub reminder_interval: u64,
}

impl TimerConfig {
    /// The settings in use where none are given: a break every 50 minutes,
    /// never more often than every 5; edits in steps of 5 minutes; up to 8
    /// reminders, 5 minutes apart.
    pub open spec fn standard() -> TimerConfig {
        TimerConfig {
            default_break_interval: 3000,
            min_break_interval: 300,
            interval_change: 300,
            max_reminders: 8,
            reminder_interval: 300,
        }
    }

    /// A timer made with these settings starts at or above the shortest interval.
    pub open spec fn valid(self) -> bool {
        self.default_break_interval >= self.min_break_interval
    }
}

impl Default for TimerConfig {
    fn default() -> (config: Self)
        ensures
            config == TimerConfig::standard(),
            config.valid(),
    {
        TimerConfig {
            default_break_interval: 50 * 60,
            min_break_interval: 5 * 60,
            interval_change: 5 * 60,
            max_reminders: 8,
            reminder_interval: 5 * 60,
        }
    }
}

} // verus!
