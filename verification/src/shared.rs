//! The schedule as a clock and an input handler share it: one atomic cell
//! for each field, and no lock.
//!
//! Each field has its writers. The input handler alone writes the break
//! interval; the clock alone writes the reminder count and opens a break.
//! The deadline is written by the input handler while no break is pending
//! and by the clock once one is. Either of them may ask to leave, and nobody
//! takes that back. The two kinds of writes below hold exactly the fields
//! that each of them may write.
//!
//! What one of them reads may be changed by the other a moment later, so
//! nothing is promised here of what the cells hold: each operation reads the
//! schedule once, and says what it read, what it made of it, and what it
//! wrote back.

use std::sync::atomic::{AtomicBool, AtomicU64, AtomicUsize, Ordering};
use vstd::prelude::*;
use crate::config::TimerConfig;
use crate::key::Key;
use crate::timer::{shown, Tick, Timer};

verus! {

/// The shared schedule.
pub struct SharedTimer {
    break_interval: AtomicU64,
    next_break_time: AtomicU64,
    reminder_count: AtomicUsize,
    should_exit: AtomicBool,
    is_break_time: AtomicBool,
    config: TimerConfig,
}

/// What the input handler writes after a key press: a new value for each
/// field that the key press changed.
#[derive(Clone, Copy, Debug, PartialEq, Eq)]
pub struct InputWrites {
    /// The new break interval, if it changed.
    pub break_interval: Option<u64>,
    /// The new deadline, if it changed.
    pub next_break_time: Option<u64>,
    /// Whether the request to leave is raised.
    pub should_exit: bool,
}

/// What the clock writes after a tick: a new value for each field that the
/// tick changed.
#[derive(Clone, Copy, Debug, PartialEq, Eq)]
pub struct ClockWrites {
    /// Whether a break is opened.
    pub is_break_time: bool,
    /// The new reminder count, if it changed.
    pub reminder_count: Option<usize>,
    /// The new deadline, if it changed.
    pub next_break_time: Option<u64>,
    /// Whether the request to leave is raised.
    pub should_exit: bool,
}

/// A key press that was handled.
#[derive(Debug)]
pub struct Pressed {
    /// The schedule as it was read when the key arrived.
    pub seen: Timer,
    /// The schedule that the key press made of it.
    pub left: Timer,
    /// What was written back.
    pub writes: InputWrites,
    /// The message that answers the key press, if it has one.
    pub report: Option<String>,
}

/// A tick of the clock that was carried out.
#[derive(Debug)]
pub struct Ticked {
    /// The schedule as it was read at the tick.
    pub seen: Timer,
    /// The schedule that the tick made of it.
    pub left: Timer,
    /// What was written back.
    pub writes: ClockWrites,
    /// What the clock does next.
    pub tick: Tick,
}

/// The new value of a field, if it differs from the old one.
pub open spec fn changed<T>(old_value: T, new_value: T) -> Option<T> {
    if new_value == old_value {
        None
    } else {
        Some(new_value)
    }
}

/// The value of a field after a write, if there was one.
pub open spec fn written<T>(old_value: T, write: Option<T>) -> T {
    match write {
        Some(new_value) => new_value,
        None => old_value,
    }
}

impl InputWrites {
    /// The writes that turn the input handler's fields of `seen` into those
    /// of `left`.
    pub open spec fn between(seen: Timer, left: Timer) -> InputWrites {
        InputWrites {
            break_interval: changed(seen.break_interval, left.break_interval),
            next_break_time: changed(seen.next_break_time, left.next_break_time),
            should_exit: left.should_exit && !seen.should_exit,
        }
    }

    /// The schedule `timer` after these writes.
    pub open spec fn applied_to(self, timer: Timer) -> Timer {
        Timer {
            break_interval: written(timer.break_interval, self.break_interval),
            next_break_time: written(timer.next_break_time, self.next_break_time),
            should_exit: timer.should_exit || self.should_exit,
            ..timer
        }
    }
}

impl ClockWrites {
    /// The writes that turn the clock's fields of `seen` into those of `left`.
    pub open spec fn between(seen: Timer, left: Timer) -> ClockWrites {
        ClockWrites {
            is_break_time: left.is_break_time && !seen.is_break_time,
            reminder_count: changed(seen.reminder_count, left.reminder_count),
            next_break_time: changed(seen.next_break_time, left.next_break_time),
            should_exit: left.should_exit && !seen.should_exit,
        }
    }

    /// The schedule `timer` after these writes.
    pub open spec fn applied_to(self, timer: Timer) -> Timer {
        Timer {
            is_break_time: timer.is_break_time || self.is_break_time,
            reminder_count: written(timer.reminder_count, self.reminder_count),
            next_break_time: written(timer.next_break_time, self.next_break_time),
            should_exit: timer.should_exit || self.should_exit,
            ..timer
        }
    }
}

fn changed_u64(old_value: u64, new_value: u64) -> (change: Option<u64>)
    ensures
        change == changed(old_value, new_value),
{
    if new_value == old_value {
        None
    } else {
        Some(new_value)
    }
}

impl SharedTimer {
    /// The settings the schedule was made with.
    pub closed spec fn config(&self) -> TimerConfig {
        self.config
    }

    /// A shared schedule at its start, as `Timer::new` gives it.
    pub fn new(config: TimerConfig) -> (shared: SharedTimer)
        ensures
            shared.config() == config,
    {
        let timer = Timer::new(config);
        SharedTimer {
            break_interval: AtomicU64::new(timer.break_interval),
            next_break_time: AtomicU64::new(timer.next_break_time),
            reminder_count: AtomicUsize::new(timer.reminder_count),
            should_exit: AtomicBool::new(timer.should_exit),
            is_break_time: AtomicBool::new(timer.is_break_time),
            config,
        }
    }

    /// Reads the schedule, field by field.
    pub fn snapshot(&self) -> (timer: Timer)
        ensures
            timer.config == self.config(),
    {
        Timer {
            break_interval: self.break_interval.load(Ordering::SeqCst),
            next_break_time: self.next_break_time.load(Ordering::SeqCst),
            reminder_count: self.reminder_count.load(Ordering::SeqCst),
            should_exit: self.should_exit.load(Ordering::SeqCst),
            is_break_time: self.is_break_time.load(Ordering::SeqCst),
            config: self.config,
        }
    }

    /// Asks both the clock and the input handler to leave.
    pub fn request_exit(&self) {
        self.should_exit.store(true, Ordering::SeqCst);
    }

    /// The input handler's step: reads the schedule, handles the key press
    /// `key` at the time `now` as `Timer::handle_key` does, and writes back
    /// what the key press changed: the interval and the deadline after an
    /// edit, the request to leave after the quit key. The deadline is
    /// written only where no break was seen pending.
    ///
    /// Where the edit does not stay within what a `u64` holds, nothing is
    /// written, and the schedule that was read comes back as the error.
    pub fn press(&self, key: Key, now: u64) -> (result: Result<Pressed, Timer>)
        ensures
            match result {
                Ok(pressed) => {
                    &&& pressed.seen.config == self.config()
                    &&& pressed.seen.can_edit(key, now)
                    &&& pressed.left == pressed.seen.after_key(key, now)
                    &&& shown(pressed.report) == pressed.seen.key_report(key, now)
                    &&& pressed.writes == InputWrites::between(pressed.seen, pressed.left)
                    &&& pressed.writes.applied_to(pressed.seen) == pressed.left
                    &&& pressed.writes.next_break_time.is_some() ==> !pressed.seen.is_break_time
                },
                Err(seen) => seen.config == self.config() && !seen.can_edit(key, now),
            },
    {
        let seen = self.snapshot();
        if !seen.edit_fits(key, now) {
            return Err(seen);
        }
        let mut left = seen;
        let report = left.handle_key(key, now);
        let writes = InputWrites {
            break_interval: changed_u64(seen.break_interval, left.break_interval),
            next_break_time: changed_u64(seen.next_break_time, left.next_break_time),
            should_exit: left.should_exit && !seen.should_exit,
        };
        if let Some(interval) = writes.break_interval {
            self.break_interval.store(interval, Ordering::SeqCst);
        }
        if let Some(deadline) = writes.next_break_time {
            self.next_break_time.store(deadline, Ordering::SeqCst);
        }
        if writes.should_exit {
            self.should_exit.store(true, Ordering::SeqCst);
        }
        Ok(Pressed { seen, left, writes, report })
    }

    /// The clock's step: reads the schedule, carries out the tick at the time
    /// `elapsed` as `Timer::tick` does, and writes back what the tick
    /// changed: that a break is pending, then the reminder count and the
    /// deadline after a reminder, or the request to leave once the
    /// reminders are used up. The deadline is written only in a pending
    /// break.
    ///
    /// Where the new deadline does not stay within what a `u64` holds,
    /// nothing is written, and the schedule that was read comes back as the
    /// error.
    pub fn tick(&self, elapsed: u64) -> (result: Result<Ticked, Timer>)
        ensures
            match result {
                Ok(ticked) => {
                    &&& ticked.seen.config == self.config()
                    &&& ticked.seen.can_tick(elapsed)
                    &&& ticked.left == ticked.seen.after_tick(elapsed)
                    &&& ticked.tick == ticked.seen.tick_outcome(elapsed)
                    &&& ticked.writes == ClockWrites::between(ticked.seen, ticked.left)
                    &&& ticked.writes.applied_to(ticked.seen) == ticked.left
                    &&& ticked.writes.next_break_time.is_some() ==> ticked.left.is_break_time
                },
                Err(seen) => seen.config == self.config() && !seen.can_tick(elapsed),
            },
    {
        let seen = self.snapshot();
        if !seen.tick_fits(elapsed) {
            return Err(seen);
        }
        let mut left = seen;
        let tick = left.tick(elapsed);
        let count: Option<usize> = if left.reminder_count == seen.reminder_count {
            None
        } else {
            Some(left.reminder_count)
        };
        let writes = ClockWrites {
            is_break_time: left.is_break_time && !seen.is_break_time,
            reminder_count: count,
            next_break_time: changed_u64(seen.next_break_time, left.next_break_time),
            should_exit: left.should_exit && !seen.should_exit,
        };
        if writes.is_break_time {
            self.is_break_time.store(true, Ordering::SeqCst);
        }
        if let Some(reminders) = writes.reminder_count {
            self.reminder_count.store(reminders, Ordering::SeqCst);
        }
        if let Some(deadline) = writes.next_break_time {
            self.next_break_time.store(deadline, Ordering::SeqCst);
        }
        if writes.should_exit {
            self.should_exit.store(true, Ordering::SeqCst);
        }
        Ok(Ticked { seen, left, writes, tick })
    }
}

} // verus!
