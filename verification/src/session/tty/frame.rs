//! The frames of one output.

use vstd::prelude::*;

use crate::time::Duration;

verus! {

/// The redraw work that an output owes, and the event that it waits for.
#[derive(Clone, Copy, Debug)]
pub enum RedrawState {
    Idle,
    Suspended,
    Queued,
    WaitingForVBlank { redraw_needed: bool },
    WaitingForEstimatedVBlank(calloop::RegistrationToken),
    WaitingForEstimatedVBlankAndQueued(calloop::RegistrationToken),
}

/// Whether a timer has to be set that stands in for the display's own signal.
#[derive(Clone, Copy, Debug, PartialEq, Eq, Structural)]
pub enum EstimatedVblankTimer {
    AlreadyArmed,
    ArmAfter(Duration),
}

/// A state in which no frame can have been shown, or no timer can have run out.
#[derive(Clone, Copy, Debug)]
pub struct Unexpected {
    pub state: RedrawState,
}

/// The redraw work of an output.
#[derive(Clone, Copy, Debug)]
pub struct OutputFrameState {
    pub redraw: RedrawState,
    pub last_camera_sample: Duration,
    pub unfinished_animations: bool,
}

/// A frame is owed now.
pub open spec fn is_queued(redraw: RedrawState) -> bool {
    redraw is Queued || redraw is WaitingForEstimatedVBlankAndQueued
}

/// The timer that the state holds.
pub open spec fn timer_of(redraw: RedrawState) -> Option<calloop::RegistrationToken> {
    match redraw {
        RedrawState::WaitingForEstimatedVBlank(token) => Some(token),
        RedrawState::WaitingForEstimatedVBlankAndQueued(token) => Some(token),
        _ => None,
    }
}

/// A frame is owed, now or once the event that is waited for has come.
pub open spec fn owes_frame(state: OutputFrameState) -> bool {
    match state.redraw {
        RedrawState::Idle => false,
        RedrawState::Suspended => false,
        RedrawState::Queued => true,
        RedrawState::WaitingForVBlank { redraw_needed } => redraw_needed
            || state.unfinished_animations,
        RedrawState::WaitingForEstimatedVBlank(_) => state.unfinished_animations,
        RedrawState::WaitingForEstimatedVBlankAndQueued(_) => true,
    }
}

/// The state once a redraw was asked for.
pub open spec fn with_redraw(redraw: RedrawState) -> RedrawState {
    match redraw {
        RedrawState::Suspended => RedrawState::Suspended,
        RedrawState::Idle => RedrawState::Queued,
        RedrawState::Queued => RedrawState::Queued,
        RedrawState::WaitingForVBlank { .. } => RedrawState::WaitingForVBlank {
            redraw_needed: true,
        },
        RedrawState::WaitingForEstimatedVBlank(token) =>
            RedrawState::WaitingForEstimatedVBlankAndQueued(token),
        RedrawState::WaitingForEstimatedVBlankAndQueued(token) =>
            RedrawState::WaitingForEstimatedVBlankAndQueued(token),
    }
}

/// The state once the display has shown a frame.
pub open spec fn after_vblank(state: OutputFrameState) -> RedrawState {
    match state.redraw {
        RedrawState::Suspended => RedrawState::Suspended,
        RedrawState::WaitingForVBlank { redraw_needed } => if redraw_needed
            || state.unfinished_animations {
            RedrawState::Queued
        } else {
            RedrawState::Idle
        },
        _ => RedrawState::Queued,
    }
}

/// The state once the timer that stands in for the display has run out.
pub open spec fn after_timer(state: OutputFrameState) -> RedrawState {
    match state.redraw {
        RedrawState::Suspended => RedrawState::Suspended,
        RedrawState::WaitingForEstimatedVBlank(_) => if state.unfinished_animations {
            RedrawState::Queued
        } else {
            RedrawState::Idle
        },
        RedrawState::WaitingForEstimatedVBlankAndQueued(_) => RedrawState::Queued,
        _ => RedrawState::Idle,
    }
}

impl OutputFrameState {
    pub fn new(now: Duration) -> (state: Self)
        ensures
            state.redraw is Idle,
            state.last_camera_sample == now,
            !state.unfinished_animations,
    {
        OutputFrameState {
            redraw: RedrawState::Idle,
            last_camera_sample: now,
            unfinished_animations: false,
        }
    }

    /// Asks for a frame. A suspended output owes none, however often it is asked.
    pub fn queue_redraw(&mut self)
        ensures
            final(self).redraw == with_redraw(old(self).redraw),
            final(self).last_camera_sample == old(self).last_camera_sample,
            final(self).unfinished_animations == old(self).unfinished_animations,
    {
        self.redraw = match self.redraw {
            RedrawState::Suspended => RedrawState::Suspended,
            RedrawState::Idle => RedrawState::Queued,
            RedrawState::Queued => RedrawState::Queued,
            RedrawState::WaitingForVBlank { .. } => RedrawState::WaitingForVBlank {
                redraw_needed: true,
            },
            RedrawState::WaitingForEstimatedVBlank(token) =>
                RedrawState::WaitingForEstimatedVBlankAndQueued(token),
            RedrawState::WaitingForEstimatedVBlankAndQueued(token) =>
                RedrawState::WaitingForEstimatedVBlankAndQueued(token),
        };
    }

    pub fn is_redraw_queued(&self) -> (r: bool)
        ensures
            r == is_queued(self.redraw),
    {
        match self.redraw {
            RedrawState::Queued | RedrawState::WaitingForEstimatedVBlankAndQueued(_) => true,
            _ => false,
        }
    }

    /// The output has another mode, and its clock is a new one.
    pub fn replace_clock(&mut self, now: Duration)
        ensures
            final(self).redraw == old(self).redraw,
            final(self).last_camera_sample == now,
            !final(self).unfinished_animations,
    {
        self.last_camera_sample = now;
        self.unfinished_animations = false;
    }

    /// The time since the last frame, for a frame that is to be shown at `target`.
    pub fn next_frame_sample(&mut self, target: Duration) -> (step: Duration)
        ensures
            step.nanos == (if target.nanos >= old(self).last_camera_sample.nanos {
                target.nanos - old(self).last_camera_sample.nanos
            } else {
                0
            }),
            final(self).last_camera_sample == target,
            final(self).redraw == old(self).redraw,
            final(self).unfinished_animations == old(self).unfinished_animations,
    {
        let step = target.saturating_sub(self.last_camera_sample);
        self.last_camera_sample = target;
        step
    }

    /// The display has shown a frame. What was asked for meanwhile is drawn next.
    pub fn on_vblank(&mut self) -> (unexpected: Option<Unexpected>)
        ensures
            final(self).redraw == after_vblank(*old(self)),
            final(self).last_camera_sample == old(self).last_camera_sample,
            final(self).unfinished_animations == old(self).unfinished_animations,
            unexpected is Some == !(old(self).redraw is Suspended || old(
                self,
            ).redraw is WaitingForVBlank),
            unexpected is Some ==> unexpected->0.state == old(self).redraw,
    {
        match self.redraw {
            RedrawState::Suspended => None,
            RedrawState::WaitingForVBlank { redraw_needed } => {
                self.redraw = if redraw_needed || self.unfinished_animations {
                    RedrawState::Queued
                } else {
                    RedrawState::Idle
                };
                None
            },
            other => {
                self.redraw = RedrawState::Queued;
                Some(Unexpected { state: other })
            },
        }
    }

    /// A frame is on its way to the display. The timer that it makes needless is handed
    /// back.
    pub fn frame_submitted(&mut self, animating: bool) -> (timer: Option<
        calloop::RegistrationToken,
    >)
        ensures
            timer == timer_of(old(self).redraw),
            final(self).redraw == (RedrawState::WaitingForVBlank { redraw_needed: animating }),
            final(self).unfinished_animations == animating,
            final(self).last_camera_sample == old(self).last_camera_sample,
    {
        let timer = match self.redraw {
            RedrawState::WaitingForEstimatedVBlank(token) => Some(token),
            RedrawState::WaitingForEstimatedVBlankAndQueued(token) => Some(token),
            _ => None,
        };
        self.unfinished_animations = animating;
        self.redraw = RedrawState::WaitingForVBlank { redraw_needed: animating };
        timer
    }

    /// A frame was drawn that changed nothing. A timer then stands in for the display:
    /// the one that is set, or a new one that runs until the next frame is due.
    pub fn frame_skipped(&mut self, animating: bool, now: Duration, due: Duration) -> (timer:
        EstimatedVblankTimer)
        requires
            is_queued(old(self).redraw) || old(self).redraw is WaitingForEstimatedVBlank,
        ensures
            final(self).unfinished_animations == animating,
            final(self).last_camera_sample == old(self).last_camera_sample,
            match timer_of(old(self).redraw) {
                Some(token) => {
                    &&& timer == EstimatedVblankTimer::AlreadyArmed
                    &&& final(self).redraw == RedrawState::WaitingForEstimatedVBlank(token)
                },
                None => {
                    &&& timer == EstimatedVblankTimer::ArmAfter(
                        Duration {
                            nanos: (if due.nanos - now.nanos < 1_000_000 {
                                1_000_000
                            } else {
                                due.nanos - now.nanos
                            }) as u128,
                        },
                    )
                    &&& final(self).redraw is Idle
                },
            },
    {
        self.unfinished_animations = animating;
        match self.redraw {
            RedrawState::WaitingForEstimatedVBlank(token) => {
                self.redraw = RedrawState::WaitingForEstimatedVBlank(token);
                EstimatedVblankTimer::AlreadyArmed
            },
            RedrawState::WaitingForEstimatedVBlankAndQueued(token) => {
                self.redraw = RedrawState::WaitingForEstimatedVBlank(token);
                EstimatedVblankTimer::AlreadyArmed
            },
            _ => {
                self.redraw = RedrawState::Idle;
                let rest = due.saturating_sub(now);
                let least = Duration::from_millis(1);
                let delay = if rest.nanos < least.nanos {
                    least
                } else {
                    rest
                };
                EstimatedVblankTimer::ArmAfter(delay)
            },
        }
    }

    /// Notes the timer that stands in for the display.
    pub fn timer_armed(&mut self, token: calloop::RegistrationToken)
        ensures
            final(self).redraw == RedrawState::WaitingForEstimatedVBlank(token),
            final(self).last_camera_sample == old(self).last_camera_sample,
            final(self).unfinished_animations == old(self).unfinished_animations,
    {
        self.redraw = RedrawState::WaitingForEstimatedVBlank(token);
    }

    /// The timer has run out. `Ok(true)` means that clients are told to go on: nothing
    /// is left to draw that would tell them.
    pub fn estimated_vblank_fired(&mut self) -> (released: Result<bool, Unexpected>)
        ensures
            final(self).redraw == after_timer(*old(self)),
            final(self).last_camera_sample == old(self).last_camera_sample,
            final(self).unfinished_animations == old(self).unfinished_animations,
            released is Err == !(old(self).redraw is Suspended || timer_of(
                old(self).redraw,
            ) is Some),
            released is Err ==> released->Err_0.state == old(self).redraw,
            released is Ok ==> released->Ok_0 == (old(self).redraw is WaitingForEstimatedVBlank
                && !old(self).unfinished_animations),
    {
        match self.redraw {
            RedrawState::Suspended => Ok(false),
            RedrawState::WaitingForEstimatedVBlank(_) => {
                if self.unfinished_animations {
                    self.redraw = RedrawState::Queued;
                    Ok(false)
                } else {
                    self.redraw = RedrawState::Idle;
                    Ok(true)
                }
            },
            RedrawState::WaitingForEstimatedVBlankAndQueued(_) => {
                self.redraw = RedrawState::Queued;
                Ok(false)
            },
            other => {
                self.redraw = RedrawState::Idle;
                Err(Unexpected { state: other })
            },
        }
    }

    /// The output goes dark. The timer that was set is handed back.
    pub fn suspend(&mut self, now: Duration) -> (timer: Option<calloop::RegistrationToken>)
        ensures
            timer == timer_of(old(self).redraw),
            final(self).redraw is Suspended,
            final(self).last_camera_sample == now,
            !final(self).unfinished_animations,
    {
        let timer = match self.redraw {
            RedrawState::WaitingForEstimatedVBlank(token) => Some(token),
            RedrawState::WaitingForEstimatedVBlankAndQueued(token) => Some(token),
            _ => None,
        };
        self.last_camera_sample = now;
        self.unfinished_animations = false;
        self.redraw = RedrawState::Suspended;
        timer
    }

    /// The output is lit again, and owes a frame.
    pub fn resume(&mut self, now: Duration)
        ensures
            final(self).redraw is Queued,
            final(self).last_camera_sample == now,
            !final(self).unfinished_animations,
    {
        self.last_camera_sample = now;
        self.unfinished_animations = false;
        self.redraw = RedrawState::Queued;
    }

    /// The display pipeline is a new one: whatever was on its way is gone, and a frame is
    /// owed. The timer that was set is handed back.
    pub fn reset(&mut self, now: Duration) -> (timer: Option<calloop::RegistrationToken>)
        ensures
            timer == timer_of(old(self).redraw),
            final(self).redraw is Queued,
            final(self).last_camera_sample == now,
            !final(self).unfinished_animations,
    {
        let timer = self.suspend(now);
        self.resume(now);
        timer
    }
}

/// A request for a frame is never lost: an output that is not suspended owes one from
/// then on, and asking again changes nothing.
pub proof fn requests_are_not_lost(state: OutputFrameState)
    ensures
        state.redraw !is Suspended ==> owes_frame(
            OutputFrameState { redraw: with_redraw(state.redraw), ..state },
        ),
        with_redraw(with_redraw(state.redraw)) == with_redraw(state.redraw),
        timer_of(with_redraw(state.redraw)) == timer_of(state.redraw),
{
}

/// What is owed when the display has shown a frame is queued then, and only that.
pub proof fn vblank_queues_what_is_owed(state: OutputFrameState)
    requires
        state.redraw is WaitingForVBlank || state.redraw is Suspended,
    ensures
        is_queued(after_vblank(state)) == owes_frame(state),
{
}

/// What is owed when the timer runs out is queued then, and only that.
pub proof fn timer_queues_what_is_owed(state: OutputFrameState)
    requires
        timer_of(state.redraw) is Some,
    ensures
        is_queued(after_timer(state)) == owes_frame(state),
        timer_of(after_timer(state)) is None,
{
}

/// A suspended output stays dark through every request, late frame and late timer.
pub proof fn suspended_outputs_stay_dark(state: OutputFrameState)
    requires
        state.redraw is Suspended,
    ensures
        with_redraw(state.redraw) is Suspended,
        after_vblank(state) is Suspended,
        after_timer(state) is Suspended,
        !is_queued(state.redraw),
{
}

/// An output owes a frame exactly where one is asked for, or something was still moving while
/// it waits. One that is idle or dark owes none.
pub proof fn frames_are_owed_to_requests_and_motion(
    token: calloop::RegistrationToken,
    now: Duration,
    moving: bool,
    asked: bool,
)
    ensures
        !owes_frame(
            OutputFrameState {
                redraw: RedrawState::Idle,
                last_camera_sample: now,
                unfinished_animations: moving,
            },
        ),
        !owes_frame(
            OutputFrameState {
                redraw: RedrawState::Suspended,
                last_camera_sample: now,
                unfinished_animations: moving,
            },
        ),
        owes_frame(
            OutputFrameState {
                redraw: RedrawState::Queued,
                last_camera_sample: now,
                unfinished_animations: moving,
            },
        ),
        owes_frame(
            OutputFrameState {
                redraw: RedrawState::WaitingForVBlank { redraw_needed: asked },
                last_camera_sample: now,
                unfinished_animations: moving,
            },
        ) <==> asked || moving,
        owes_frame(
            OutputFrameState {
                redraw: RedrawState::WaitingForEstimatedVBlank(token),
                last_camera_sample: now,
                unfinished_animations: moving,
            },
        ) <==> moving,
        owes_frame(
            OutputFrameState {
                redraw: RedrawState::WaitingForEstimatedVBlankAndQueued(token),
                last_camera_sample: now,
                unfinished_animations: moving,
            },
        ),
{
}

/// A request turns an idle output into one that is drawn, and is noted by one that waits,
/// which goes on to wait for the same event.
pub proof fn requests_are_noted(token: calloop::RegistrationToken, asked: bool)
    ensures
        with_redraw(RedrawState::Idle) == RedrawState::Queued,
        with_redraw(RedrawState::Queued) == RedrawState::Queued,
        with_redraw(RedrawState::Suspended) == RedrawState::Suspended,
        with_redraw(RedrawState::WaitingForVBlank { redraw_needed: asked })
            == (RedrawState::WaitingForVBlank { redraw_needed: true }),
        with_redraw(RedrawState::WaitingForEstimatedVBlank(token))
            == RedrawState::WaitingForEstimatedVBlankAndQueued(token),
        is_queued(RedrawState::Queued),
        is_queued(RedrawState::WaitingForEstimatedVBlankAndQueued(token)),
        !is_queued(RedrawState::Idle),
        !is_queued(RedrawState::Suspended),
        !is_queued(RedrawState::WaitingForVBlank { redraw_needed: asked }),
        !is_queued(RedrawState::WaitingForEstimatedVBlank(token)),
        timer_of(RedrawState::WaitingForEstimatedVBlank(token)) == Some(token),
        timer_of(RedrawState::WaitingForEstimatedVBlankAndQueued(token)) == Some(token),
        timer_of(RedrawState::Queued) is None,
        timer_of(RedrawState::Idle) is None,
        timer_of(RedrawState::Suspended) is None,
        timer_of(RedrawState::WaitingForVBlank { redraw_needed: asked }) is None,
{
}

/// After a frame, or the timer that stands in for one, an output is drawn again or rests: it
/// waits for nothing any more.
pub proof fn outputs_rest_once_nothing_is_owed(state: OutputFrameState)
    ensures
        state.redraw is WaitingForVBlank ==> (after_vblank(state) is Queued <==> owes_frame(state))
            && (after_vblank(state) is Idle <==> !owes_frame(state)),
        timer_of(state.redraw) is Some ==> (after_timer(state) is Queued <==> owes_frame(state)) && (
        after_timer(state) is Idle <==> !owes_frame(state)),
        state.redraw is Idle || state.redraw is Queued || timer_of(state.redraw) is Some
            ==> after_vblank(state) is Queued,
        state.redraw is Idle || state.redraw is Queued || state.redraw is WaitingForVBlank
            ==> after_timer(state) is Idle,
{
}

} // verus!
