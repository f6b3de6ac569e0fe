//! What holds of a schedule over several key presses and ticks.

use vstd::prelude::*;
use crate::config::TimerConfig;
use crate::key::Key;
use crate::timer::{TickAction, Timer};

verus! {

/// Something that happens to a schedule.
pub enum Event {
    /// The key `key` is pressed at the time `now`.
    Press { key: Key, now: u64 },
    /// The clock ticks at the time `elapsed`.
    Tick { elapsed: u64 },
}

/// The schedule after one event.
pub open spec fn after_event(timer: Timer, event: Event) -> Timer {
    match event {
        Event::Press { key, now } => timer.after_key(key, now),
        Event::Tick { elapsed } => timer.after_tick(elapsed),
    }
}

/// The schedule after the events of `events`, in their order.
pub open spec fn after_events(timer: Timer, events: Seq<Event>) -> Timer
    decreases events.len(),
{
    if events.len() == 0 {
        timer
    } else {
        after_events(after_event(timer, events[0]), events.drop_first())
    }
}

/// The key presses among `events`, in their order.
pub open spec fn presses(events: Seq<Event>) -> Seq<Event>
    decreases events.len(),
{
    if events.len() == 0 {
        Seq::empty()
    } else if events[0] is Press {
        seq![events[0]] + presses(events.drop_first())
    } else {
        presses(events.drop_first())
    }
}

/// No break is pending at the start, nor after any of the events.
pub open spec fn no_break_during(timer: Timer, events: Seq<Event>) -> bool
    decreases events.len(),
{
    &&& !timer.is_break_time
    &&& events.len() > 0 ==> no_break_during(
        after_event(timer, events[0]),
        events.drop_first(),
    )
}

/// The schedule after `n` ticks, each at the very time its deadline is reached.
pub open spec fn after_due_ticks(timer: Timer, n: nat) -> Timer
    decreases n,
{
    if n == 0 {
        timer
    } else {
        let before = after_due_ticks(timer, (n - 1) as nat);
        before.after_tick(before.next_break_time)
    }
}

/// Lengthening the break interval by one step and then shortening it by one
/// step gives back the interval there was, wherever that interval was not
/// under the shortest one.
pub proof fn lemma_increase_then_decrease(timer: Timer, now: u64, later: u64)
    requires
        timer.break_interval >= timer.config.min_break_interval,
        timer.can_edit(Key::Char('+'), now),
    ensures
        timer.after_edit(Key::Char('+'), now).after_edit(Key::Char('-'), later).break_interval
            == timer.break_interval,
        timer.after_key(Key::Char('+'), now).after_key(Key::Char('-'), later).break_interval
            == timer.break_interval,
{
}

/// Ticks of the clock lose no edit: as long as no break becomes pending, the
/// schedule after key presses and ticks in any interleaving is the one that
/// the key presses alone give, carried out in their order.
pub proof fn lemma_ticks_lose_no_edit(timer: Timer, events: Seq<Event>)
    requires
        no_break_during(timer, events),
    ensures
        after_events(timer, events) == after_events(timer, presses(events)),
    decreases events.len(),
{
    if events.len() > 0 {
        let first = events[0];
        let rest = events.drop_first();
        let next = after_event(timer, first);
        lemma_ticks_lose_no_edit(next, rest);
        match first {
            Event::Press { key, now } => {
                let kept = presses(events);
                assert(kept[0] == first);
                assert(kept.drop_first() =~= presses(rest));
            },
            Event::Tick { elapsed } => {
                assert(next == timer);
            },
        }
    }
}

/// Once somebody asked to leave, no key press and no tick takes that back,
/// and every later tick stops the clock.
pub proof fn lemma_exit_request_stays(timer: Timer, events: Seq<Event>, elapsed: u64)
    requires
        timer.should_exit,
    ensures
        after_events(timer, events).should_exit,
        after_events(timer, events).tick_outcome(elapsed).action == TickAction::Stop,
    decreases events.len(),
{
    if events.len() > 0 {
        lemma_exit_request_stays(after_event(timer, events[0]), events.drop_first(), elapsed);
    }
}

/// The quit key stops the clock at its next tick, whatever the schedule was
/// when the key was pressed and whatever happens in between.
pub proof fn lemma_quit_stops_the_clock(timer: Timer, now: u64, events: Seq<Event>, elapsed: u64)
    ensures
        timer.after_key(Key::Char('q'), now).should_exit,
        after_events(timer.after_key(Key::Char('q'), now), events).tick_outcome(elapsed).action
            == TickAction::Stop,
{
    lemma_exit_request_stays(timer.after_key(Key::Char('q'), now), events, elapsed);
}

/// A new timer whose deadline is reached again and again gives one reminder
/// at each tick, counts it and moves the deadline on by the reminder
/// interval, until the break has given all its reminders; the tick after
/// that asks to leave and stops the clock.
pub proof fn lemma_reminders_run_out(config: TimerConfig, n: nat)
    requires
        n <= config.max_reminders,
        config.default_break_interval + n * config.reminder_interval <= u64::MAX,
    ensures
        ({
            let timer = after_due_ticks(Timer::initial(config), n);
            let deadline = timer.next_break_time;
            &&& timer.reminder_count == n
            &&& deadline == config.default_break_interval + n * config.reminder_interval
            &&& timer.break_interval == config.default_break_interval
            &&& timer.config == config
            &&& !timer.should_exit
            &&& timer.is_break_time == (n > 0)
            &&& n < config.max_reminders ==> timer.tick_outcome(deadline).action
                == TickAction::Remind && timer.after_tick(deadline).is_break_time
            &&& n == config.max_reminders ==> timer.tick_outcome(deadline).action
                == TickAction::Stop && timer.after_tick(deadline).should_exit
        }),
    decreases n,
{
    let step = config.reminder_interval as int;
    if n > 0 {
        let m = (n - 1) as nat;
        assert(m * step + step == n * step && m * step >= 0) by (nonlinear_arith)
            requires
                m + 1 == n,
                step >= 0,
        ;
        lemma_reminders_run_out(config, m);
    } else {
        assert(n * step == 0) by (nonlinear_arith)
            requires
                n == 0,
        ;
    }
}

} // verus!
