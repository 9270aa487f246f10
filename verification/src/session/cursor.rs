//! Timers of the cursor.

use vstd::prelude::*;

use crate::time::Duration;

verus! {

/// A source that is registered with the event loop.
#[verifier::external_type_specification]
#[verifier::external_body]
pub struct ExRegistrationToken(calloop::RegistrationToken);

/// What the visibility of the cursor asks of its timer.
#[derive(Clone, Copy, Debug, PartialEq, Eq, Structural)]
pub enum TimerDirective {
    Keep,
    Disarm,
    Arm { generation: u64, delay: Duration },
}

/// The shortest time after which the next image of a cursor is shown.
pub const SHORTEST_FRAME_MS: u64 = 1;

/// The timers that the cursor has with the event loop, so that neither the input nor
/// the cursor's images need to know of them.
#[derive(Debug)]
pub struct Policy {
    pub visibility_timer: Option<calloop::RegistrationToken>,
    pub animation_timer: Option<calloop::RegistrationToken>,
    pub animation_generation: u64,
}

/// What is to be done with the event loop: the source that goes comes first.
#[derive(Debug)]
pub struct TimerChange {
    pub remove: Option<calloop::RegistrationToken>,
    /// The generation and the delay of a timer that is set.
    pub arm: Option<(u64, Duration)>,
}

impl Default for Policy {
    fn default() -> (r: Self)
        ensures
            r.visibility_timer is None,
            r.animation_timer is None,
            r.animation_generation == 0,
    {
        Policy { visibility_timer: None, animation_timer: None, animation_generation: 0 }
    }
}

impl Policy {
    /// Follows a directive. A timer that is set replaces the one before.
    pub fn apply_timer(&mut self, directive: TimerDirective) -> (change: TimerChange)
        ensures
            directive == TimerDirective::Keep ==> {
                &&& change.remove is None
                &&& change.arm is None
                &&& *final(self) == *old(self)
            },
            directive != TimerDirective::Keep ==> {
                &&& change.remove == old(self).visibility_timer
                &&& final(self).visibility_timer is None
                &&& change.arm == (match directive {
                    TimerDirective::Arm { generation, delay } => Some((generation, delay)),
                    _ => None,
                })
            },
            final(self).animation_timer == old(self).animation_timer,
            final(self).animation_generation == old(self).animation_generation,
    {
        match directive {
            TimerDirective::Keep => TimerChange { remove: None, arm: None },
            TimerDirective::Disarm => {
                let remove = self.visibility_timer.take();
                TimerChange { remove, arm: None }
            },
            TimerDirective::Arm { generation, delay } => {
                let remove = self.visibility_timer.take();
                TimerChange { remove, arm: Some((generation, delay)) }
            },
        }
    }

    /// Notes the timer that the event loop has set.
    pub fn visibility_armed(&mut self, token: calloop::RegistrationToken)
        ensures
            final(self).visibility_timer == Some(token),
            final(self).animation_timer == old(self).animation_timer,
            final(self).animation_generation == old(self).animation_generation,
    {
        self.visibility_timer = Some(token);
    }

    /// The timer has run out, and the event loop drops it.
    pub fn visibility_expired(&mut self)
        ensures
            final(self).visibility_timer is None,
            final(self).animation_timer == old(self).animation_timer,
            final(self).animation_generation == old(self).animation_generation,
    {
        self.visibility_timer = None;
    }

    /// Sets the time of the next image, or none. What was set before no longer counts.
    pub fn schedule_animation(&mut self, delay: Option<Duration>) -> (change: TimerChange)
        ensures
            change.remove == old(self).animation_timer,
            final(self).animation_timer is None,
            final(self).animation_generation == (if old(self).animation_generation == u64::MAX {
                0
            } else {
                old(self).animation_generation + 1
            }),
            change.arm == (match delay {
                Some(delay) => Some(
                    (
                        final(self).animation_generation,
                        if delay.nanos < 1_000_000 {
                            Duration { nanos: 1_000_000 }
                        } else {
                            delay
                        },
                    ),
                ),
                None => None,
            }),
            final(self).visibility_timer == old(self).visibility_timer,
    {
        let remove = self.animation_timer.take();
        self.animation_generation = self.animation_generation.wrapping_add(1);
        let arm = match delay {
            Some(delay) => {
                let least = Duration::from_millis(SHORTEST_FRAME_MS);
                assert(least.nanos == 1_000_000);
                let delay = if delay.nanos < least.nanos {
                    least
                } else {
                    delay
                };
                Some((self.animation_generation, delay))
            },
            None => None,
        };
        TimerChange { remove, arm }
    }

    pub fn animation_armed(&mut self, token: calloop::RegistrationToken)
        ensures
            final(self).animation_timer == Some(token),
            final(self).visibility_timer == old(self).visibility_timer,
            final(self).animation_generation == old(self).animation_generation,
    {
        self.animation_timer = Some(token);
    }

    /// The timer of an image has run out. The image is drawn if no other was set since.
    pub fn animation_expired(&mut self, generation: u64) -> (redraw: bool)
        ensures
            redraw == (generation == old(self).animation_generation),
            final(self).animation_timer is None,
            final(self).visibility_timer == old(self).visibility_timer,
            final(self).animation_generation == old(self).animation_generation,
    {
        self.animation_timer = None;
        self.animation_generation == generation
    }
}

/// A timer that was replaced draws nothing when it runs out after all: its generation
/// is not the next one.
pub proof fn replaced_timers_draw_nothing(generation: u64)
    ensures
        (if generation == u64::MAX {
            0
        } else {
            generation + 1
        }) != generation,
{
}

} // verus!
