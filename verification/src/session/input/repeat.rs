//! Keys that repeat while they are held.

use vstd::prelude::*;

use crate::session::input::actions::Action;
use crate::time::{millis, Duration};

verus! {

/// A key that repeats.
#[derive(Debug)]
pub struct ActiveRepeat {
    pub generation: u64,
    pub keycode: u32,
    pub action: Action,
    pub interval: Duration,
}

/// A binding that was pressed.
#[derive(Debug)]
pub struct RepeatBind {
    pub action: Action,
    pub repeat: bool,
}

/// The key that repeats, if any does.
#[derive(Debug)]
pub struct Tracker {
    pub generation: u64,
    pub active: Option<ActiveRepeat>,
}

/// The number after a generation.
pub open spec fn next_generation(generation: u64) -> u64 {
    if generation == u64::MAX {
        0
    } else {
        (generation + 1) as u64
    }
}

/// The rate of repetition that the settings ask for.
pub open spec fn held_rate(rate: i32) -> int {
    if rate < 1 {
        1
    } else {
        rate as int
    }
}

/// A second divided by the rate, to the nearest nanosecond. Where the quotient lies half
/// way, the double nearest to the seconds decides. It goes down for the three rates that
/// are named here, and up for all others.
pub open spec fn interval_nanos(rate: i32) -> int {
    let n = held_rate(rate);
    let quotient = 1_000_000_000int / n;
    let rest = 1_000_000_000int % n;
    if 2 * rest > n || (2 * rest == n && n != 1024 && n != 16_000_000 && n != 80_000_000) {
        quotient + 1
    } else {
        quotient
    }
}

/// The time between two repetitions.
pub fn repeat_interval(rate: i32) -> (interval: Duration)
    ensures
        interval.nanos == interval_nanos(rate),
{
    let n: u64 = if rate < 1 {
        1
    } else {
        rate as u64
    };
    let quotient: u64 = 1_000_000_000 / n;
    let rest: u64 = 1_000_000_000 % n;
    let nanos: u64 = if 2 * rest > n || (2 * rest == n && n != 1024 && n != 16_000_000 && n
        != 80_000_000) {
        quotient + 1
    } else {
        quotient
    };
    Duration::from_nanos(nanos)
}

impl Default for Tracker {
    fn default() -> (r: Self)
        ensures
            r.generation == 0,
            r.active is None,
    {
        Tracker { generation: 0, active: None }
    }
}

impl Tracker {
    /// Starts to repeat a key in place of any other. The generation and the time until
    /// the first repetition are handed back. Keys that do not repeat stop the others
    /// all the same.
    pub fn start(&mut self, keycode: u32, bind: RepeatBind, delay_ms: i32, rate: i32) -> (started:
        Option<(u64, Duration)>)
        ensures
            !bind.repeat || rate <= 0 ==> {
                &&& started is None
                &&& final(self).active is None
                &&& final(self).generation == next_generation(old(self).generation)
            },
            bind.repeat && rate > 0 ==> {
                &&& started is Some
                &&& (started->0).0 == final(self).generation
                &&& (started->0).1.nanos == millis(
                    if delay_ms < 0 {
                        0
                    } else {
                        delay_ms as int
                    },
                )
                &&& final(self).generation == next_generation(
                    next_generation(old(self).generation),
                )
                &&& final(self).active is Some
                &&& final(self).active->0.generation == final(self).generation
                &&& final(self).active->0.keycode == keycode
                &&& final(self).active->0.action == bind.action
                &&& final(self).active->0.interval.nanos == interval_nanos(rate)
            },
    {
        self.cancel();
        if !bind.repeat || rate <= 0 {
            return None;
        }
        self.generation = self.generation.wrapping_add(1);
        let generation: u64 = self.generation;
        self.active = Some(
            ActiveRepeat {
                generation,
                keycode,
                action: bind.action,
                interval: repeat_interval(rate),
            },
        );
        let delay: u64 = if delay_ms < 0 {
            0
        } else {
            delay_ms as u64
        };
        Some((generation, Duration::from_millis(delay)))
    }

    /// Stops to repeat.
    pub fn cancel(&mut self)
        ensures
            final(self).active is None,
            final(self).generation == next_generation(old(self).generation),
    {
        self.generation = self.generation.wrapping_add(1);
        self.active = None;
    }

    /// A key is let go: the one that repeats stops.
    pub fn release(&mut self, keycode: u32) -> (stopped: bool)
        ensures
            stopped == (old(self).active is Some && old(self).active->0.keycode == keycode),
            stopped ==> final(self).active is None && final(self).generation == next_generation(
                old(self).generation,
            ),
            !stopped ==> *final(self) == *old(self),
    {
        let held = match &self.active {
            Some(active) => active.keycode == keycode,
            None => false,
        };
        if held {
            self.cancel();
        }
        held
    }

    /// The timer of a generation has run out. Where that generation still repeats and its
    /// binding still holds, its action is due, and again after the interval; else the
    /// repetition ends.
    pub fn tick(&mut self, generation: u64, holds: bool) -> (interval: Option<Duration>)
        ensures
            interval == (match old(self).active {
                Some(active) => if active.generation == generation && holds {
                    Some(active.interval)
                } else {
                    None
                },
                None => None,
            }),
            old(self).active is Some && old(self).active->0.generation == generation && !holds
                ==> final(self).active is None && final(self).generation == next_generation(
                old(self).generation,
            ),
            !(old(self).active is Some && old(self).active->0.generation == generation && !holds)
                ==> *final(self) == *old(self),
    {
        let interval = match &self.active {
            Some(active) => {
                if active.generation != generation {
                    return None;
                }
                active.interval
            },
            None => {
                return None;
            },
        };
        if !holds {
            self.cancel();
            return None;
        }
        Some(interval)
    }
}

/// What can keep an action from being repeated.
#[derive(Clone, Copy, Debug, PartialEq, Eq, Structural)]
pub struct RepeatFacts {
    pub locked: bool,
    pub bindings_enabled: bool,
    pub focus_cycle_open: bool,
    pub confirmation_active: bool,
    pub capture_active: bool,
    pub apogee_accepts: bool,
    pub cluster_modal: bool,
}

/// An action may be repeated now. While a window is chosen from a list only the
/// steps through it may.
pub open spec fn may_repeat(facts: RepeatFacts, action: Action) -> bool {
    &&& !facts.locked
    &&& facts.bindings_enabled
    &&& if facts.focus_cycle_open {
        action is FocusCycle
    } else {
        !facts.confirmation_active && !facts.capture_active && !facts.apogee_accepts
            && !facts.cluster_modal
    }
}

/// Whether an action may be repeated now.
pub fn repeat_allowed(facts: RepeatFacts, action: &Action) -> (r: bool)
    ensures
        r == may_repeat(facts, *action),
{
    if facts.locked || !facts.bindings_enabled {
        return false;
    }
    if facts.focus_cycle_open {
        return match action {
            Action::FocusCycle(_) => true,
            _ => false,
        };
    }
    !facts.confirmation_active && !facts.capture_active && !facts.apogee_accepts
        && !facts.cluster_modal
}

/// The timer of the key that repeats, of which a seat has one.
#[derive(Debug)]
pub struct Policy {
    pub tracker: Tracker,
    pub timer: Option<calloop::RegistrationToken>,
}

/// What is to be done with the event loop: the source that goes comes first.
#[derive(Debug)]
pub struct RepeatTimer {
    pub remove: Option<calloop::RegistrationToken>,
    pub arm: Option<(u64, Duration)>,
}

impl Default for Policy {
    fn default() -> (r: Self)
        ensures
            r.tracker.active is None,
            r.tracker.generation == 0,
            r.timer is None,
    {
        Policy { tracker: Tracker::default(), timer: None }
    }
}

impl Policy {
    /// A binding was pressed. The timer that is set runs for a millisecond at least.
    pub fn start(&mut self, keycode: u32, bind: RepeatBind, delay_ms: i32, rate: i32) -> (timer:
        RepeatTimer)
        ensures
            timer.remove == old(self).timer,
            final(self).timer is None,
            final(self).tracker.generation == (if bind.repeat && rate > 0 {
                next_generation(next_generation(old(self).tracker.generation))
            } else {
                next_generation(old(self).tracker.generation)
            }),
            timer.arm is Some == (bind.repeat && rate > 0),
            timer.arm is Some ==> (timer.arm->0).0 == final(self).tracker.generation && (
            timer.arm->0).1.nanos == millis(
                if delay_ms < 1 {
                    1
                } else {
                    delay_ms as int
                },
            ),
            final(self).tracker.active is Some == (bind.repeat && rate > 0),
            final(self).tracker.active is Some ==> {
                &&& final(self).tracker.active->0.generation == final(self).tracker.generation
                &&& final(self).tracker.active->0.keycode == keycode
                &&& final(self).tracker.active->0.action == bind.action
                &&& final(self).tracker.active->0.interval.nanos == interval_nanos(rate)
            },
    {
        let remove = self.timer.take();
        match self.tracker.start(keycode, bind, delay_ms, rate) {
            Some((generation, delay)) => {
                let least = Duration::from_millis(1);
                let delay = if delay.nanos < least.nanos {
                    least
                } else {
                    delay
                };
                RepeatTimer { remove, arm: Some((generation, delay)) }
            },
            None => RepeatTimer { remove, arm: None },
        }
    }

    /// Notes the timer, or that none could be set: then nothing repeats.
    pub fn armed(&mut self, token: Option<calloop::RegistrationToken>)
        ensures
            final(self).timer == token,
            token is Some ==> final(self).tracker == old(self).tracker,
            token is None ==> final(self).tracker.active is None
                && final(self).tracker.generation == next_generation(
                old(self).tracker.generation,
            ),
    {
        if token.is_none() {
            self.tracker.cancel();
        }
        self.timer = token;
    }

    /// A key is let go. The timer that is no longer needed is handed back.
    pub fn release(&mut self, keycode: u32) -> (remove: Option<calloop::RegistrationToken>)
        ensures
            old(self).tracker.active is Some && old(self).tracker.active->0.keycode == keycode ==> {
                &&& remove == old(self).timer
                &&& final(self).timer is None
                &&& final(self).tracker.active is None
                &&& final(self).tracker.generation == next_generation(
                    old(self).tracker.generation,
                )
            },
            !(old(self).tracker.active is Some && old(self).tracker.active->0.keycode == keycode)
                ==> remove is None && *final(self) == *old(self),
    {
        if self.tracker.release(keycode) {
            self.timer.take()
        } else {
            None
        }
    }

    /// The timer of a generation has run out. `holds` says whether the binding still
    /// holds, and `has_display` whether there is a display to act on. An interval is
    /// handed back where the action is due, and after which it is due again; else the
    /// timer is gone.
    pub fn repeat_tick(
        &mut self,
        generation: u64,
        holds: bool,
        facts: RepeatFacts,
        has_display: bool,
    ) -> (interval: Option<Duration>)
        ensures
            ({
                let active = old(self).tracker.active;
                let current = active is Some && active->0.generation == generation;
                let repeats = is_due(old(self).tracker, generation, holds, facts, has_display);
                &&& interval == (if repeats {
                    Some(active->0.interval)
                } else {
                    None
                })
                &&& repeats ==> *final(self) == *old(self)
                &&& !repeats ==> final(self).timer is None
                &&& !repeats && current ==> final(self).tracker.active is None
                    && final(self).tracker.generation == next_generation(
                    old(self).tracker.generation,
                )
                &&& !current ==> final(self).tracker == old(self).tracker
            }),
    {
        let interval = match self.tracker.tick(generation, holds) {
            Some(interval) => interval,
            None => {
                self.timer = None;
                return None;
            },
        };
        let allowed = match &self.tracker.active {
            Some(active) => repeat_allowed(facts, &active.action),
            None => false,
        };
        if !allowed || !has_display {
            self.tracker.cancel();
            self.timer = None;
            return None;
        }
        Some(interval)
    }

    /// Stops to repeat. The timer is handed back.
    pub fn cancel(&mut self) -> (remove: Option<calloop::RegistrationToken>)
        ensures
            remove == old(self).timer,
            final(self).timer is None,
            final(self).tracker.active is None,
            final(self).tracker.generation == next_generation(old(self).tracker.generation),
    {
        self.tracker.cancel();
        self.timer.take()
    }
}

/// The timer of a generation is that of the key that repeats, and the binding holds: the
/// action is due.
pub open spec fn is_due(
    tracker: Tracker,
    generation: u64,
    holds: bool,
    facts: RepeatFacts,
    has_display: bool,
) -> bool {
    tracker.active is Some && tracker.active->0.generation == generation && holds && may_repeat(
        facts,
        tracker.active->0.action,
    ) && has_display
}

/// Once another key repeats in its place, the timer of a key repeats nothing.
pub proof fn replaced_keys_repeat_nothing(
    before: Tracker,
    after: Tracker,
    holds: bool,
    facts: RepeatFacts,
    has_display: bool,
)
    requires
        before.active is Some ==> before.active->0.generation == before.generation,
        after.active is Some ==> after.active->0.generation == after.generation,
        after.generation == next_generation(next_generation(before.generation))
            || after.generation == next_generation(before.generation),
    ensures
        !is_due(after, before.generation, holds, facts, has_display),
{
}

/// A timer of an earlier generation repeats nothing: each start and each stop leaves the
/// generations before it behind.
pub proof fn generations_move_on(generation: u64)
    ensures
        next_generation(generation) != generation,
        next_generation(next_generation(generation)) != generation,
{
}

/// The time between two repetitions is the part of a second that the rate asks for, to the
/// nearest nanosecond.
pub proof fn repetitions_keep_the_rate(rate: i32)
    requires
        rate >= 1,
    ensures
        -(rate as int) <= 2 * (interval_nanos(rate) * rate - 1_000_000_000) <= rate,
        interval_nanos(rate) >= 0,
{
    let n = rate as int;
    let q = 1_000_000_000int / n;
    let r = 1_000_000_000int % n;
    vstd::arithmetic::div_mod::lemma_fundamental_div_mod(1_000_000_000int, n);
    vstd::arithmetic::div_mod::lemma_mod_bound(1_000_000_000int, n);
    vstd::arithmetic::div_mod::lemma_div_pos_is_pos(1_000_000_000int, n);
    assert(n * q == q * n) by (nonlinear_arith);
    assert((q + 1) * n == q * n + n) by (nonlinear_arith);
}

/// Rates below one count as one: a second.
pub proof fn slow_rates_repeat_each_second(rate: i32)
    requires
        rate <= 1,
    ensures
        interval_nanos(rate) == 1_000_000_000,
{
    assert(1_000_000_000int / 1 == 1_000_000_000int);
    assert(1_000_000_000int % 1 == 0);
}

/// Nothing is repeated in a locked session or while bindings do not count. While a window is
/// chosen from a list only the steps through it are, else everything is unless an overlay has
/// the keyboard.
pub proof fn repetition_stops_where_bindings_do(facts: RepeatFacts, action: Action)
    ensures
        may_repeat(facts, action) ==> !facts.locked && facts.bindings_enabled,
        !facts.locked && facts.bindings_enabled && facts.focus_cycle_open ==> (may_repeat(
            facts,
            action,
        ) <==> action is FocusCycle),
        !facts.locked && facts.bindings_enabled && !facts.focus_cycle_open ==> (may_repeat(
            facts,
            action,
        ) <==> !(facts.confirmation_active || facts.capture_active || facts.apogee_accepts
            || facts.cluster_modal)),
{
}

/// An action is due exactly where the timer is that of the key that repeats, its binding
/// holds, it may be repeated, and there is a display.
pub proof fn actions_are_due_while_their_key_is_held(
    tracker: Tracker,
    generation: u64,
    holds: bool,
    facts: RepeatFacts,
    has_display: bool,
)
    ensures
        is_due(tracker, generation, holds, facts, has_display) ==> holds && has_display
            && !facts.locked && facts.bindings_enabled && tracker.active is Some
            && tracker.active->0.generation == generation,
        holds && has_display && tracker.active is Some && tracker.active->0.generation == generation
            && may_repeat(facts, tracker.active->0.action) ==> is_due(
            tracker,
            generation,
            holds,
            facts,
            has_display,
        ),
{
}

/// Where a second lies half way between two numbers of nanoseconds, the interval is the larger
/// one, but for three rates that the nearest double brings below.
pub proof fn intervals_half_way_go_up(rate: i32)
    requires
        rate >= 1,
        2 * (1_000_000_000int % (rate as int)) == rate,
    ensures
        rate != 1024 && rate != 16_000_000 && rate != 80_000_000 ==> 2 * (interval_nanos(rate) * rate
            - 1_000_000_000) == rate,
        rate == 1024 || rate == 16_000_000 || rate == 80_000_000 ==> 2 * (1_000_000_000
            - interval_nanos(rate) * rate) == rate,
{
    let n = rate as int;
    let quotient = 1_000_000_000int / n;
    let rest = 1_000_000_000int % n;
    assert(quotient * n + rest == 1_000_000_000) by (nonlinear_arith)
        requires
            n >= 1,
            quotient == 1_000_000_000int / n,
            rest == 1_000_000_000int % n,
    ;
    assert((quotient + 1) * n == quotient * n + n) by (nonlinear_arith);
}

} // verus!
