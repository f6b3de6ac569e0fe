//! The schedule of breaks, and the two ways it changes: a key press of the
//! user, and a tick of the clock.
//!
//! All times are whole seconds since the timer was started. An edit of the
//! break interval restarts the countdown: the next break is then due one new
//! interval after the moment of the edit. While a break is pending, edits are
//! ignored without a message.

use vstd::prelude::*;
use vstd::string::StringExecFns;
use crate::config::TimerConfig;
use crate::key::{command_of, Command, Key};
use crate::time_format::{format_time, time_text};

verus! {

/// The schedule: what the clock and the input handler share.
#[derive(Clone, Copy, Debug, PartialEq, Eq, Structural)]
pub struct Timer {
    /// The current break interval. Only key presses change it.
    pub break_interval: u64,
    /// When the next break, or the next reminder of a pending one, is due.
    pub next_break_time: u64,
    /// How many reminders the pending break has given. Only ticks change it.
    pub reminder_count: usize,
    /// Set once, by the quit key or by the clock when the reminders are used up.
    pub should_exit: bool,
    /// Set by the clock once a break is due; edits are ignored from then on.
    pub is_break_time: bool,
    /// The settings the timer was made with.
    pub config: TimerConfig,
}

/// What the clock does after a tick.
#[derive(Clone, Copy, Debug, PartialEq, Eq, Structural)]
pub enum TickAction {
    /// A break is due: remind the user.
    Remind,
    /// No break is pending: show the seconds left until the next one.
    Countdown(u64),
    /// A break is pending and its next reminder is not due yet: show nothing.
    Wait,
    /// The clock stops.
    Stop,
}

/// The outcome of one tick of the clock.
#[derive(Clone, Copy, Debug, PartialEq, Eq, Structural)]
pub struct Tick {
    /// What to do now.
    pub action: TickAction,
    /// For how many seconds to sleep before the next tick.
    pub sleep_seconds: u64,
}

/// The text of an optional message.
pub open spec fn shown(message: Option<String>) -> Option<Seq<char>> {
    match message {
        Some(text) => Some(text@),
        None => None,
    }
}

/// The acknowledgement of an edit: what was done, and the interval now in force.
pub open spec fn interval_message(action: Seq<char>, interval: nat) -> Seq<char> {
    "Break interval "@ + action + " to "@ + time_text(interval)
}

/// The smaller of `seconds` and one.
pub open spec fn at_most_one(seconds: int) -> int {
    if seconds < 1 {
        seconds
    } else {
        1
    }
}

impl Timer {
    /// The invariant of a schedule: the interval is not under the shortest one,
    /// and no more reminders were given than a break may give.
    pub open spec fn wf(self) -> bool {
        &&& self.break_interval >= self.config.min_break_interval
        &&& self.reminder_count <= self.config.max_reminders
    }

    /// The schedule that a new timer starts with.
    pub open spec fn initial(config: TimerConfig) -> Timer {
        Timer {
            break_interval: config.default_break_interval,
            next_break_time: config.default_break_interval,
            reminder_count: 0,
            should_exit: false,
            is_break_time: false,
            config,
        }
    }

    /// No break is pending, and the interval is the shortest one.
    pub open spec fn at_floor(self) -> bool {
        !self.is_break_time && self.break_interval == self.config.min_break_interval
    }

    /// The interval one step above the current one.
    pub open spec fn raised_interval(self) -> int {
        self.break_interval + self.config.interval_change
    }

    /// The interval one step under the current one, but not under the shortest.
    pub open spec fn lowered_interval(self) -> int {
        if self.break_interval - self.config.interval_change >= self.config.min_break_interval {
            self.break_interval - self.config.interval_change
        } else {
            self.config.min_break_interval as int
        }
    }

    /// Whether the edit that `key` asks for at the time `now` stays within
    /// what a `u64` holds. Keys that ask for no edit, and all keys while a
    /// break is pending, always do.
    pub open spec fn can_edit(self, key: Key, now: u64) -> bool {
        !self.is_break_time ==> match command_of(key) {
            Command::Increase => now + self.raised_interval() <= u64::MAX,
            Command::Decrease => self.lowered_interval() < self.break_interval ==> now
                + self.lowered_interval() <= u64::MAX,
            _ => true,
        }
    }

    /// The schedule after the edit that `key` asks for at the time `now`.
    pub open spec fn after_edit(self, key: Key, now: u64) -> Timer {
        if self.is_break_time {
            self
        } else {
            match command_of(key) {
                Command::Increase => Timer {
                    break_interval: self.raised_interval() as u64,
                    next_break_time: (now + self.raised_interval()) as u64,
                    ..self
                },
                Command::Decrease => if self.lowered_interval() < self.break_interval {
                    Timer {
                        break_interval: self.lowered_interval() as u64,
                        next_break_time: (now + self.lowered_interval()) as u64,
                        ..self
                    }
                } else {
                    self
                },
                _ => self,
            }
        }
    }

    /// The acknowledgement of the edit that `key` asks for, if it has one.
    pub open spec fn edit_report(self, key: Key, now: u64) -> Option<Seq<char>> {
        if self.is_break_time {
            None
        } else {
            let interval = self.after_edit(key, now).break_interval as nat;
            match command_of(key) {
                Command::Increase => Some(interval_message("increased"@, interval)),
                Command::Decrease => if self.lowered_interval() < self.break_interval {
                    Some(interval_message("decreased"@, interval))
                } else {
                    Some(interval_message("already at minimum"@, interval))
                },
                _ => None,
            }
        }
    }

    /// The schedule after the key press `key` at the time `now`.
    pub open spec fn after_key(self, key: Key, now: u64) -> Timer {
        match command_of(key) {
            Command::Increase | Command::Decrease => self.after_edit(key, now),
            Command::Quit => Timer { should_exit: true, ..self },
            Command::Help | Command::Unknown => self,
        }
    }

    /// The message that answers the key press `key`, if it has one.
    pub open spec fn key_report(self, key: Key, now: u64) -> Option<Seq<char>> {
        match command_of(key) {
            Command::Increase | Command::Decrease => self.edit_report(key, now),
            Command::Help => Some("Commands: + - q"@),
            Command::Quit => None,
            Command::Unknown => Some("Unknown command (press ? for help)"@),
        }
    }

    /// Whether a reminder is due at the time `elapsed` and can still be given.
    pub open spec fn reminder_due(self, elapsed: u64) -> bool {
        &&& !self.should_exit
        &&& elapsed >= self.next_break_time
        &&& self.reminder_count < self.config.max_reminders
    }

    /// Whether the tick at the time `elapsed` stays within what a `u64` holds:
    /// a reminder that is due moves the deadline on by the reminder interval.
    pub open spec fn can_tick(self, elapsed: u64) -> bool {
        self.reminder_due(elapsed) ==> self.next_break_time + self.config.reminder_interval
            <= u64::MAX
    }

    /// The schedule after the tick at the time `elapsed`.
    pub open spec fn after_tick(self, elapsed: u64) -> Timer {
        if self.should_exit || elapsed < self.next_break_time {
            self
        } else if self.reminder_count < self.config.max_reminders {
            Timer {
                is_break_time: true,
                reminder_count: (self.reminder_count + 1) as usize,
                next_break_time: (self.next_break_time + self.config.reminder_interval) as u64,
                ..self
            }
        } else {
            Timer { is_break_time: true, should_exit: true, ..self }
        }
    }

    /// What the tick at the time `elapsed` tells the clock to do.
    pub open spec fn tick_outcome(self, elapsed: u64) -> Tick {
        if self.should_exit {
            Tick { action: TickAction::Stop, sleep_seconds: 0 }
        } else if elapsed >= self.next_break_time {
            if self.reminder_count < self.config.max_reminders {
                Tick {
                    action: TickAction::Remind,
                    sleep_seconds: at_most_one(self.config.reminder_interval as int) as u64,
                }
            } else {
                Tick { action: TickAction::Stop, sleep_seconds: 0 }
            }
        } else if !self.is_break_time {
            Tick {
                action: TickAction::Countdown((self.next_break_time - elapsed) as u64),
                sleep_seconds: 1,
            }
        } else {
            Tick { action: TickAction::Wait, sleep_seconds: 1 }
        }
    }

    /// Tells whether the edit that `key` asks for at the time `now` stays
    /// within what a `u64` holds, as `handle_interval_change` and
    /// `handle_key` ask of their callers.
    pub fn edit_fits(&self, key: Key, now: u64) -> (fits: bool)
        ensures
            fits == self.can_edit(key, now),
    {
        if self.is_break_time {
            return true;
        }
        let current: u64 = self.break_interval;
        let step: u64 = self.config.interval_change;
        let floor: u64 = self.config.min_break_interval;
        match Command::from_key(key) {
            Command::Increase => step <= u64::MAX - current && now <= u64::MAX - (current + step),
            Command::Decrease => {
                let lowered: u64 = if current >= step && current - step >= floor {
                    current - step
                } else {
                    floor
                };
                lowered >= current || now <= u64::MAX - lowered
            },
            _ => true,
        }
    }

    /// Tells whether the tick at the time `elapsed` stays within what a `u64`
    /// holds, as `tick` asks of its callers.
    pub fn tick_fits(&self, elapsed: u64) -> (fits: bool)
        ensures
            fits == self.can_tick(elapsed),
    {
        let due: bool = !self.should_exit && elapsed >= self.next_break_time && self.reminder_count
            < self.config.max_reminders;
        !due || self.config.reminder_interval <= u64::MAX - self.next_break_time
    }

    /// A timer at its start: the first break is due one default interval
    /// after the start, no break is pending, and nobody asked to leave.
    pub fn new(config: TimerConfig) -> (timer: Timer)
        ensures
            timer == Timer::initial(config),
            config.valid() ==> timer.wf(),
    {
        Timer {
            break_interval: config.default_break_interval,
            next_break_time: config.default_break_interval,
            reminder_count: 0,
            should_exit: false,
            is_break_time: false,
            config,
        }
    }

    /// Carries out the edit of the break interval that `key` asks for at the
    /// time `now`, and returns its acknowledgement.
    ///
    /// `+` lengthens the interval by one step. `-` shortens it by one step,
    /// but not under the shortest interval; where that leaves the interval as
    /// it is, nothing changes and the acknowledgement says so. An edit that
    /// changes the interval makes the next break due one new interval after
    /// `now`. While a break is pending, and for every other key, nothing
    /// changes and there is no acknowledgement.
    pub fn handle_interval_change(&mut self, key: Key, now: u64) -> (report: Option<String>)
        requires
            old(self).can_edit(key, now),
        ensures
            *final(self) == old(self).after_edit(key, now),
            shown(report) == old(self).edit_report(key, now),
            old(self).is_break_time ==> *final(self) == *old(self) && report.is_none(),
            final(self).reminder_count == old(self).reminder_count,
            final(self).should_exit == old(self).should_exit,
            final(self).is_break_time == old(self).is_break_time,
            final(self).config == old(self).config,
            old(self).wf() ==> final(self).wf(),
            old(self).at_floor() && command_of(key) == Command::Decrease ==> *final(self) == *old(
                self,
            ) && shown(report) == Some(
                interval_message("already at minimum"@, old(self).break_interval as nat),
            ),
    {
        if self.is_break_time {
            return None;
        }
        let current: u64 = self.break_interval;
        let step: u64 = self.config.interval_change;
        let floor: u64 = self.config.min_break_interval;
        match Command::from_key(key) {
            Command::Increase => {
                let raised: u64 = current + step;
                self.break_interval = raised;
                self.next_break_time = now + raised;
                Some(acknowledge("increased", raised))
            },
            Command::Decrease => {
                let lowered: u64 = if current >= step && current - step >= floor {
                    current - step
                } else {
                    floor
                };
                if lowered < current {
                    self.break_interval = lowered;
                    self.next_break_time = now + lowered;
                    Some(acknowledge("decreased", lowered))
                } else {
                    Some(acknowledge("already at minimum", current))
                }
            },
            _ => None,
        }
    }

    /// Answers the key press `key` at the time `now`: `+` and `-` edit the
    /// break interval, `q` asks both the clock and the input handler to leave,
    /// `?` lists the commands, and every other key is answered with a hint.
    /// Only `+`, `-` and `q` change the schedule.
    pub fn handle_key(&mut self, key: Key, now: u64) -> (report: Option<String>)
        requires
            old(self).can_edit(key, now),
        ensures
            *final(self) == old(self).after_key(key, now),
            shown(report) == old(self).key_report(key, now),
            command_of(key) == Command::Quit ==> final(self).should_exit,
            old(self).should_exit ==> final(self).should_exit,
            old(self).is_break_time && command_of(key) != Command::Quit ==> *final(self) == *old(
                self,
            ),
            old(self).is_break_time ==> final(self).break_interval == old(self).break_interval
                && final(self).next_break_time == old(self).next_break_time,
            final(self).reminder_count == old(self).reminder_count,
            final(self).is_break_time == old(self).is_break_time,
            final(self).config == old(self).config,
            old(self).wf() ==> final(self).wf(),
    {
        match Command::from_key(key) {
            Command::Increase | Command::Decrease => self.handle_interval_change(key, now),
            Command::Help => Some(String::from_str("Commands: + - q")),
            Command::Quit => {
                self.should_exit = true;
                None
            },
            Command::Unknown => Some(String::from_str("Unknown command (press ? for help)")),
        }
    }

    /// One tick of the clock at the time `elapsed`.
    ///
    /// Once somebody asked to leave, the clock stops. Else, where the deadline
    /// is reached, a break is pending from now on: if it may still give a
    /// reminder, one is given, counted, and the deadline moves on by the
    /// reminder interval; if not, the clock asks to leave and stops. Before
    /// the deadline nothing changes: the clock shows the time that is left
    /// unless a break is pending.
    pub fn tick(&mut self, elapsed: u64) -> (outcome: Tick)
        requires
            old(self).can_tick(elapsed),
        ensures
            *final(self) == old(self).after_tick(elapsed),
            outcome == old(self).tick_outcome(elapsed),
            final(self).break_interval == old(self).break_interval,
            final(self).config == old(self).config,
            final(self).next_break_time >= old(self).next_break_time,
            old(self).should_exit ==> final(self).should_exit,
            old(self).is_break_time ==> final(self).is_break_time,
            (outcome.action == TickAction::Stop) == final(self).should_exit,
            old(self).wf() ==> final(self).wf(),
    {
        if self.should_exit {
            return Tick { action: TickAction::Stop, sleep_seconds: 0 };
        }
        let deadline: u64 = self.next_break_time;
        if elapsed >= deadline {
            self.is_break_time = true;
            if self.reminder_count < self.config.max_reminders {
                self.reminder_count = self.reminder_count + 1;
                self.next_break_time = deadline + self.config.reminder_interval;
                let pause: u64 = if self.config.reminder_interval < 1 {
                    self.config.reminder_interval
                } else {
                    1
                };
                Tick { action: TickAction::Remind, sleep_seconds: pause }
            } else {
                self.should_exit = true;
                Tick { action: TickAction::Stop, sleep_seconds: 0 }
            }
        } else if !self.is_break_time {
            Tick { action: TickAction::Countdown(deadline - elapsed), sleep_seconds: 1 }
        } else {
            Tick { action: TickAction::Wait, sleep_seconds: 1 }
        }
    }
}

/// The text that the clock shows for `action`, if it shows one.
pub open spec fn notice_text(action: TickAction) -> Option<Seq<char>> {
    match action {
        TickAction::Remind => Some("Time to take a break!"@),
        TickAction::Countdown(remaining) => Some(
            "Time until next break: "@ + time_text(remaining as nat),
        ),
        TickAction::Wait => None,
        TickAction::Stop => None,
    }
}

impl TickAction {
    /// The text that the clock shows for this action, if it shows one.
    pub fn notice(self) -> (text: Option<String>)
        ensures
            shown(text) == notice_text(self),
    {
        match self {
            TickAction::Remind => Some(String::from_str("Time to take a break!")),
            TickAction::Countdown(remaining) => {
                let mut text = String::from_str("Time until next break: ");
                let time = format_time(remaining);
                text.append(time.as_str());
                Some(text)
            },
            TickAction::Wait => None,
            TickAction::Stop => None,
        }
    }
}

fn acknowledge(action: &str, interval: u64) -> (text: String)
    ensures
        text@ == interval_message(action@, interval as nat),
{
    let mut text = String::from_str("Break interval ");
    text.append(action);
    text.append(" to ");
    let time = format_time(interval);
    text.append(time.as_str());
    text
}

} // verus!
