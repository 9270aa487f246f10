//! The session on a terminal of its own.

pub mod frame;
pub mod sleep;
pub mod vt;

use vstd::prelude::*;

use crate::session::input::pointer::InputEvent;
use crate::session::tty::frame::{is_queued, timer_of, OutputFrameState};
use crate::steps;
use crate::time::Duration;

verus! {

/// An output under the pointer or in use, and whether it is lit.
#[derive(Debug)]
pub struct LitOutput {
    pub name: String,
    pub enabled: bool,
}

/// Which outputs input wakes.
#[derive(Debug)]
pub enum Wake {
    Nothing,
    All,
    One(String),
}

/// Where input finds the output that it wakes.
#[derive(Clone, Copy, Debug, PartialEq, Eq, Structural)]
pub enum WakeTarget {
    Nowhere,
    /// The output that is in use.
    Selected,
    /// The output under the pointer.
    UnderPointer,
}

/// Where an event finds the output that it wakes before it is handled.
pub fn wake_before(event: InputEvent) -> (target: WakeTarget)
    ensures
        target == (match event {
            InputEvent::Keyboard => WakeTarget::Selected,
            InputEvent::PointerButton { .. } => WakeTarget::UnderPointer,
            InputEvent::PointerAxis => WakeTarget::UnderPointer,
            _ => WakeTarget::Nowhere,
        }),
{
    match event {
        InputEvent::Keyboard => WakeTarget::Selected,
        InputEvent::PointerButton { .. } | InputEvent::PointerAxis => WakeTarget::UnderPointer,
        _ => WakeTarget::Nowhere,
    }
}

/// Where an event finds the output that it wakes once it was handled: only a motion can
/// have brought the pointer elsewhere.
pub fn wake_after(event: InputEvent) -> (target: WakeTarget)
    ensures
        target == (if crate::session::input::pointer::is_motion_event(event) {
            WakeTarget::UnderPointer
        } else {
            WakeTarget::Nowhere
        }),
{
    match event {
        InputEvent::PointerMotion | InputEvent::PointerMotionAbsolute => WakeTarget::UnderPointer,
        _ => WakeTarget::Nowhere,
    }
}

/// Input wakes everything where nothing is lit, and else the output that it is about.
pub fn wake_dpms_on_input(any_enabled: bool, target: Option<LitOutput>) -> (wake: Wake)
    ensures
        match wake {
            Wake::All => !any_enabled,
            Wake::One(name) => any_enabled && target is Some && !target->0.enabled && name
                == target->0.name,
            Wake::Nothing => any_enabled && (target is None || target->0.enabled),
        },
{
    if !any_enabled {
        return Wake::All;
    }
    match target {
        Some(output) => if output.enabled {
            Wake::Nothing
        } else {
            Wake::One(output.name)
        },
        None => Wake::Nothing,
    }
}

/// Asks an output for a frame, if it is lit.
pub fn request_redraw(state: &mut OutputFrameState, enabled: bool)
    ensures
        final(state).redraw == (if enabled {
            frame::with_redraw(old(state).redraw)
        } else {
            old(state).redraw
        }),
        final(state).last_camera_sample == old(state).last_camera_sample,
        final(state).unfinished_animations == old(state).unfinished_animations,
{
    if enabled {
        state.queue_redraw();
    }
}

/// An output was lit or went dark. The timer that is no longer needed is handed back.
pub fn apply_dpms_change(state: &mut OutputFrameState, enabled: bool, now: Duration) -> (timer:
    Option<calloop::RegistrationToken>)
    ensures
        enabled ==> final(state).redraw is Queued && timer is None,
        !enabled ==> final(state).redraw is Suspended && timer == frame::timer_of(
            old(state).redraw,
        ),
        final(state).last_camera_sample == now,
        !final(state).unfinished_animations,
{
    if enabled {
        state.resume(now);
        None
    } else {
        state.suspend(now)
    }
}

/// What a device that came or went asks of the seat.
#[derive(Clone, Copy, Debug, PartialEq, Eq, Structural)]
pub enum SeatStep {
    Nothing,
    AddTouch,
    /// Every touch is cancelled, and the seat has none any more.
    RemoveTouch,
}

/// The first touch device brings touch to the seat, the last one takes it away.
pub fn device_changed(
    event: InputEvent,
    first_touch: bool,
    last_touch: bool,
    seat_has_touch: bool,
) -> (step: SeatStep)
    ensures
        step == (if event == InputEvent::DeviceAdded && first_touch && !seat_has_touch {
            SeatStep::AddTouch
        } else if event == InputEvent::DeviceRemoved && last_touch {
            SeatStep::RemoveTouch
        } else {
            SeatStep::Nothing
        }),
{
    match event {
        InputEvent::DeviceAdded => if first_touch && !seat_has_touch {
            SeatStep::AddTouch
        } else {
            SeatStep::Nothing
        },
        InputEvent::DeviceRemoved => if last_touch {
            SeatStep::RemoveTouch
        } else {
            SeatStep::Nothing
        },
        _ => SeatStep::Nothing,
    }
}

/// Whether the session has the seat, and the configuration of the outputs that waits
/// for it.
#[derive(Clone, Copy, Debug, PartialEq, Eq, Structural)]
pub struct SeatSession {
    pub paused: bool,
    /// The number of the configuration that is to be applied.
    pub pending_outputs: Option<u64>,
}

/// What a switch back to the session does.
#[derive(Clone, Copy, Debug, PartialEq, Eq, Structural)]
pub struct Activation {
    /// The configuration that is applied now.
    pub outputs: Option<u64>,
    /// Every output starts over: what was on its way before the switch is gone.
    pub reset_frames: bool,
}

/// What a configuration of the outputs does.
#[derive(Clone, Copy, Debug, PartialEq, Eq, Structural)]
pub enum OutputConfigStep {
    Apply,
    Defer,
}

impl SeatSession {
    /// The seat is gone.
    pub fn pause(&mut self)
        ensures
            final(self).paused,
            final(self).pending_outputs == old(self).pending_outputs,
    {
        self.paused = true;
    }

    /// The seat is back. Where the display came back with it, what waited is applied.
    pub fn activate(&mut self, resumed: bool) -> (activation: Activation)
        ensures
            !final(self).paused,
            activation.reset_frames == resumed,
            resumed ==> activation.outputs == old(self).pending_outputs
                && final(self).pending_outputs is None,
            !resumed ==> activation.outputs is None && final(self).pending_outputs == old(
                self,
            ).pending_outputs,
    {
        self.paused = false;
        if resumed {
            let outputs = self.pending_outputs;
            self.pending_outputs = None;
            Activation { outputs, reset_frames: true }
        } else {
            Activation { outputs: None, reset_frames: false }
        }
    }

    /// A new configuration of the outputs: it is applied, or waits for the seat. Only
    /// the last one that waits counts.
    pub fn configure_outputs(&mut self, outputs: u64) -> (step: OutputConfigStep)
        ensures
            step == (if old(self).paused {
                OutputConfigStep::Defer
            } else {
                OutputConfigStep::Apply
            }),
            final(self).paused == old(self).paused,
            final(self).pending_outputs == (if old(self).paused {
                Some(outputs)
            } else {
                old(self).pending_outputs
            }),
    {
        if self.paused {
            self.pending_outputs = Some(outputs);
            OutputConfigStep::Defer
        } else {
            OutputConfigStep::Apply
        }
    }

    /// Whether frames are drawn at all.
    pub fn draws(&self) -> (r: bool)
        ensures
            r == !self.paused,
    {
        !self.paused
    }
}

/// The time that the display reports with a frame.
#[derive(Clone, Copy, Debug, PartialEq, Eq, Structural)]
pub enum FrameTime {
    Monotonic(Duration),
    Realtime,
}

/// The time at which a frame was shown, if the display says so on the clock that
/// clients know. Drivers that cannot say report zero.
pub fn presentation_time(time: Option<FrameTime>) -> (presented: Option<Duration>)
    ensures
        presented == (match time {
            Some(FrameTime::Monotonic(time)) => if time.nanos == 0 {
                None
            } else {
                Some(time)
            },
            _ => None,
        }),
{
    match time {
        Some(FrameTime::Monotonic(time)) => if time.nanos == 0 {
            None
        } else {
            Some(time)
        },
        _ => None,
    }
}

/// What a client is told of a frame of its own.
#[derive(Clone, Copy, Debug, PartialEq, Eq, Structural)]
pub struct PresentationReport {
    /// The time of the display, or none where the present is as good as it gets.
    pub time: Option<Duration>,
    pub sequence: u64,
    /// The time comes from the hardware.
    pub hardware: bool,
    /// The refresh rate of the output, in thousandths of a hertz, if it has a mode.
    pub refresh_mhz: Option<i32>,
}

pub fn presentation_report(
    time: Option<FrameTime>,
    sequence: Option<u32>,
    refresh_mhz: Option<i32>,
) -> (report: PresentationReport)
    ensures
        report.hardware == (report.time is Some),
        report.time == (match time {
            Some(FrameTime::Monotonic(time)) => if time.nanos == 0 {
                None
            } else {
                Some(time)
            },
            _ => None,
        }),
        report.sequence == (match sequence {
            Some(sequence) => sequence as u64,
            None => 0,
        }),
        report.refresh_mhz == refresh_mhz,
{
    let presented = presentation_time(time);
    let sequence: u64 = match sequence {
        Some(sequence) => sequence as u64,
        None => 0,
    };
    PresentationReport { time: presented, sequence, hardware: presented.is_some(), refresh_mhz }
}

/// What is known when the display has shown a frame.
#[derive(Clone, Copy, Debug, PartialEq, Eq, Structural)]
pub struct VblankFacts {
    /// The output is lit.
    pub enabled: bool,
    /// The frame was one of the session's.
    pub submitted: bool,
    /// The lock screen's frame that was shown with it.
    pub lock_generation: Option<u64>,
    pub locked: bool,
    pub apogee_active: bool,
    /// The previews of the overview are due.
    pub preview_due: bool,
}

#[derive(Clone, Copy, Debug, PartialEq, Eq, Structural)]
pub enum VblankStep {
    /// The lock screen is shown on the output.
    LockPresented(u64),
    /// Clients are told when their frames were shown.
    ReportPresentation,
    LockFrames,
    PreviewFrames,
    WindowFrames,
    LayerFrames,
    CursorFrame,
    Refresh,
}

pub open spec fn vblank_steps(facts: VblankFacts) -> Seq<VblankStep> {
    steps::when(
        facts.enabled,
        steps::when(
            facts.submitted,
            (match facts.lock_generation {
                Some(generation) => seq![VblankStep::LockPresented(generation)],
                None => Seq::empty(),
            }) + seq![VblankStep::ReportPresentation],
        ) + (if facts.locked {
            seq![VblankStep::LockFrames]
        } else if facts.apogee_active {
            steps::when(facts.preview_due, seq![VblankStep::PreviewFrames])
        } else {
            seq![VblankStep::WindowFrames]
        }) + seq![VblankStep::LayerFrames, VblankStep::CursorFrame, VblankStep::Refresh],
    )
}

/// The display of an output that is lit has shown a frame: clients learn of it, and may
/// draw the next. Only what is on the screen is told to.
pub fn on_vblank(facts: VblankFacts) -> (list: Vec<VblankStep>)
    ensures
        list@ == vblank_steps(facts),
{
    let mut list: Vec<VblankStep> = Vec::new();
    if facts.enabled {
        if facts.submitted {
            if let Some(generation) = facts.lock_generation {
                list.push(VblankStep::LockPresented(generation));
            }
            list.push(VblankStep::ReportPresentation);
        }
        if facts.locked {
            list.push(VblankStep::LockFrames);
        } else if facts.apogee_active {
            if facts.preview_due {
                list.push(VblankStep::PreviewFrames);
            }
        } else {
            list.push(VblankStep::WindowFrames);
        }
        list.push(VblankStep::LayerFrames);
        list.push(VblankStep::CursorFrame);
        list.push(VblankStep::Refresh);
    }
    list
}

/// No window learns that it may draw while the session is locked or the overview is
/// shown.
pub proof fn hidden_windows_stay_still(facts: VblankFacts)
    requires
        facts.locked || facts.apogee_active,
    ensures
        !vblank_steps(facts).contains(VblankStep::WindowFrames),
{
}

/// What a configuration that was read does.
#[derive(Clone, Copy, Debug, PartialEq, Eq, Structural)]
pub enum ReloadStep {
    ApplyCommon,
    ReloadInputDevices,
    ConfigureOutputs(OutputConfigStep),
    RunAutostart,
    ClearError,
    ShowError,
}

pub open spec fn reload_steps(loaded: bool, paused: bool) -> Seq<ReloadStep> {
    if loaded {
        seq![
            ReloadStep::ApplyCommon,
            ReloadStep::ReloadInputDevices,
            ReloadStep::ConfigureOutputs(
                if paused {
                    OutputConfigStep::Defer
                } else {
                    OutputConfigStep::Apply
                },
            ),
            ReloadStep::RunAutostart,
            ReloadStep::ClearError,
        ]
    } else {
        seq![ReloadStep::ShowError]
    }
}

/// A configuration that was read is applied; one that was rejected is only reported.
pub fn apply_runtime_config(session: &mut SeatSession, loaded: bool, outputs: u64) -> (list: Vec<
    ReloadStep,
>)
    ensures
        list@ == reload_steps(loaded, old(session).paused),
        final(session).paused == old(session).paused,
        final(session).pending_outputs == (if loaded && old(session).paused {
            Some(outputs)
        } else {
            old(session).pending_outputs
        }),
{
    let mut list: Vec<ReloadStep> = Vec::new();
    if loaded {
        let step = session.configure_outputs(outputs);
        list.push(ReloadStep::ApplyCommon);
        list.push(ReloadStep::ReloadInputDevices);
        list.push(ReloadStep::ConfigureOutputs(step));
        list.push(ReloadStep::RunAutostart);
        list.push(ReloadStep::ClearError);
    } else {
        list.push(ReloadStep::ShowError);
    }
    list
}

/// What changed of an output.
#[derive(Clone, Copy, Debug, PartialEq, Eq, Structural)]
pub struct OutputChange {
    pub output: u64,
    pub mode_changed: bool,
    pub layout_changed: bool,
    pub size_changed: bool,
    /// The output has a place in the layout.
    pub mapped: bool,
}

#[derive(Clone, Copy, Debug, PartialEq, Eq, Structural)]
pub enum OutputStep {
    ReplaceClock(u64),
    /// The output is put where it is now, and its layers are arranged.
    MapOutput(u64),
    /// The camera starts over, and windows that fill the output get its new size.
    ResetCamera(u64),
    Redraw(u64),
    /// The layout is looked at again, by captures too.
    RefreshLayout,
    /// The lock screen is configured, and what is under the pointer is looked up again.
    RefreshSession,
}

pub open spec fn change_steps(change: OutputChange) -> Seq<OutputStep> {
    steps::when(change.mode_changed, seq![OutputStep::ReplaceClock(change.output)]) + steps::when(
        change.layout_changed,
        seq![OutputStep::MapOutput(change.output)],
    ) + steps::when(
        change.size_changed && change.mapped,
        seq![OutputStep::ResetCamera(change.output)],
    ) + steps::when(
        change.mode_changed || change.layout_changed,
        seq![OutputStep::Redraw(change.output)],
    )
}

pub open spec fn all_change_steps(changes: Seq<OutputChange>) -> Seq<OutputStep>
    decreases changes.len(),
{
    if changes.len() == 0 {
        Seq::empty()
    } else {
        all_change_steps(changes.drop_last()) + change_steps(changes.last())
    }
}

/// The layout of some output changed.
pub open spec fn any_layout_changed(changes: Seq<OutputChange>) -> bool {
    exists|i: int| 0 <= i < changes.len() && (#[trigger] changes[i]).layout_changed
}

pub open spec fn output_config_steps(changes: Seq<OutputChange>) -> Seq<OutputStep> {
    all_change_steps(changes) + steps::when(
        any_layout_changed(changes),
        seq![OutputStep::RefreshLayout],
    ) + steps::when(changes.len() > 0, seq![OutputStep::RefreshSession])
}

/// Follows the changes of the outputs, one after the other, and then looks at the
/// session as a whole once.
#[verifier::rlimit(60)]
pub fn apply_tty_output_config(changes: &Vec<OutputChange>) -> (list: Vec<OutputStep>)
    ensures
        list@ == output_config_steps(changes@),
{
    let mut list: Vec<OutputStep> = Vec::new();
    let mut layout_changed = false;
    let mut index: usize = 0;
    while index < changes.len()
        invariant
            index <= changes@.len(),
            list@ == all_change_steps(changes@.take(index as int)),
            layout_changed == any_layout_changed(changes@.take(index as int)),
        decreases changes@.len() - index,
    {
        let change = changes[index];
        let ghost before = list@;
        if change.mode_changed {
            list.push(OutputStep::ReplaceClock(change.output));
        }
        let ghost clock = steps::when(
            change.mode_changed,
            seq![OutputStep::ReplaceClock(change.output)],
        );
        assert(list@ =~= before + clock);
        if change.layout_changed {
            list.push(OutputStep::MapOutput(change.output));
        }
        let ghost placed = clock + steps::when(
            change.layout_changed,
            seq![OutputStep::MapOutput(change.output)],
        );
        assert(list@ =~= before + placed);
        if change.size_changed && change.mapped {
            list.push(OutputStep::ResetCamera(change.output));
        }
        let ghost seen = placed + steps::when(
            change.size_changed && change.mapped,
            seq![OutputStep::ResetCamera(change.output)],
        );
        assert(list@ =~= before + seen);
        if change.mode_changed || change.layout_changed {
            list.push(OutputStep::Redraw(change.output));
        }
        proof {
            let shorter = changes@.take(index as int);
            let longer = changes@.take(index as int + 1);
            assert(list@ =~= before + change_steps(change));
            assert(longer.drop_last() =~= shorter);
            assert(longer.last() == change);
            if any_layout_changed(shorter) {
                let i = choose|i: int|
                    0 <= i < shorter.len() && (#[trigger] shorter[i]).layout_changed;
                assert(longer[i].layout_changed);
            }
            if change.layout_changed {
                assert(longer[index as int].layout_changed);
            }
            if any_layout_changed(longer) && !change.layout_changed {
                let i = choose|i: int|
                    0 <= i < longer.len() && (#[trigger] longer[i]).layout_changed;
                assert(shorter[i].layout_changed);
            }
        }
        layout_changed = layout_changed || change.layout_changed;
        index += 1;
    }
    assert(changes@.take(index as int) =~= changes@);
    if layout_changed {
        list.push(OutputStep::RefreshLayout);
    }
    if changes.len() > 0 {
        list.push(OutputStep::RefreshSession);
    }
    assert(list@ =~= output_config_steps(changes@));
    list
}

/// What moves on an output while a frame of it is drawn.
#[derive(Clone, Copy, Debug, PartialEq, Eq, Structural)]
pub struct Motion {
    pub camera: bool,
    pub fullscreen_camera_changed: bool,
    pub windows: bool,
    pub closing: bool,
    pub nodes: bool,
    pub bearings: bool,
    pub focus_cycle: bool,
    pub apogee: bool,
    pub overlays: bool,
    pub fullscreen: bool,
    pub maximize: bool,
    pub cursor_animated: bool,
    pub cursor_shown: bool,
    /// Images of nodes are still being loaded.
    pub pending_icons: bool,
}

pub open spec fn moves(motion: Motion) -> bool {
    motion.camera || motion.fullscreen_camera_changed || motion.windows || motion.closing
        || motion.nodes || motion.bearings || motion.focus_cycle || motion.apogee
        || motion.overlays || motion.fullscreen || motion.maximize || (motion.cursor_shown
        && motion.cursor_animated) || motion.pending_icons
}

/// Whether the next frame will differ from this one.
pub fn animating(motion: Motion) -> (r: bool)
    ensures
        r == moves(motion),
{
    motion.camera || motion.fullscreen_camera_changed || motion.windows || motion.closing
        || motion.nodes || motion.bearings || motion.focus_cycle || motion.apogee
        || motion.overlays || motion.fullscreen || motion.maximize || (motion.cursor_shown
        && motion.cursor_animated) || motion.pending_icons
}

/// How often what is under the pointer is looked up while a frame is drawn: once where
/// a window changes its size under it, once more where the view has moved.
pub fn pointer_updates(motion: Motion, pointer_on_output: bool, view_changed: bool) -> (times: u8)
    ensures
        times == (if (motion.fullscreen || motion.maximize) && pointer_on_output {
            1int
        } else {
            0
        }) + (if view_changed && pointer_on_output {
            1int
        } else {
            0
        }),
{
    let first: u8 = if (motion.fullscreen || motion.maximize) && pointer_on_output {
        1
    } else {
        0
    };
    let second: u8 = if view_changed && pointer_on_output {
        1
    } else {
        0
    };
    first + second
}

/// What became of a frame.
#[derive(Clone, Copy, Debug, PartialEq, Eq, Structural)]
pub enum RenderStatus {
    Submitted,
    Skipped,
}

/// What drawing came to.
#[derive(Clone, Copy, Debug, PartialEq, Eq, Structural)]
pub enum RenderResult {
    Drawn {
        status: RenderStatus,
        /// It is known how each surface was shown.
        states_known: bool,
    },
    /// Nothing could be drawn.
    Failed,
}

/// A frame that could not be drawn counts as one that was skipped.
pub open spec fn status_of(result: RenderResult) -> RenderStatus {
    match result {
        RenderResult::Drawn { status, .. } => status,
        RenderResult::Failed => RenderStatus::Skipped,
    }
}

/// What is done once a frame was drawn, before its output waits for the next.
#[derive(Clone, Copy, Debug, PartialEq, Eq, Structural)]
pub enum RedrawStep {
    SyncKeyboard,
    /// What is under the pointer is looked up again.
    UpdatePointer,
    /// Clients are told which buffers the output could show directly.
    SendFeedback,
}

/// Where a window has come to rest in fullscreen, or left it, the focus is looked at again.
/// Clients hear of buffers where the output has such a thing to say and something was drawn.
pub open spec fn redraw_steps(result: RenderResult, fullscreen_settled: bool, feedback_known: bool)
    -> Seq<RedrawStep> {
    steps::when(
        fullscreen_settled,
        seq![RedrawStep::SyncKeyboard, RedrawStep::UpdatePointer],
    ) + steps::when(
        feedback_known && (result matches RenderResult::Drawn { states_known, .. } && states_known),
        seq![RedrawStep::SendFeedback],
    )
}

/// What the event loop is to do once a frame was drawn.
#[derive(Debug)]
pub struct FrameFollowUp {
    /// What is done first.
    pub steps: Vec<RedrawStep>,
    /// A timer that is no longer needed.
    pub remove: Option<calloop::RegistrationToken>,
    /// A timer that is to be set.
    pub arm: Option<Duration>,
}

/// Notes a frame that was drawn. Whether or not it reaches the display, exactly one
/// event will follow it: the display's own, or a timer. `fullscreen_settled` says whether
/// a fullscreen animation has just been dropped because it is over.
pub fn redraw_output(
    state: &mut OutputFrameState,
    result: RenderResult,
    fullscreen_settled: bool,
    feedback_known: bool,
    motion: Motion,
    now: Duration,
    due: Duration,
) -> (follow_up: FrameFollowUp)
    requires
        frame::is_queued(old(state).redraw),
    ensures
        follow_up.steps@ == redraw_steps(result, fullscreen_settled, feedback_known),
        final(state).unfinished_animations == moves(motion),
        final(state).last_camera_sample == old(state).last_camera_sample,
        status_of(result) == RenderStatus::Submitted ==> {
            &&& follow_up.remove == frame::timer_of(old(state).redraw)
            &&& follow_up.arm is None
            &&& final(state).redraw == (frame::RedrawState::WaitingForVBlank {
                redraw_needed: moves(motion),
            })
        },
        status_of(result) == RenderStatus::Skipped ==> follow_up.remove is None && match frame::timer_of(
            old(state).redraw,
        ) {
            Some(token) => follow_up.arm is None && final(state).redraw
                == frame::RedrawState::WaitingForEstimatedVBlank(token),
            None => final(state).redraw is Idle && follow_up.arm == Some(
                Duration {
                    nanos: (if due.nanos - now.nanos < 1_000_000 {
                        1_000_000
                    } else {
                        due.nanos - now.nanos
                    }) as u128,
                },
            ),
        },
{
    let mut steps: Vec<RedrawStep> = Vec::new();
    if fullscreen_settled {
        steps.push(RedrawStep::SyncKeyboard);
        steps.push(RedrawStep::UpdatePointer);
    }
    let (status, states_known) = match result {
        RenderResult::Drawn { status, states_known } => (status, states_known),
        RenderResult::Failed => (RenderStatus::Skipped, false),
    };
    if feedback_known && states_known {
        steps.push(RedrawStep::SendFeedback);
    }
    assert(steps@ =~= redraw_steps(result, fullscreen_settled, feedback_known));
    let animating = animating(motion);
    match status {
        RenderStatus::Submitted => {
            let remove = state.frame_submitted(animating);
            FrameFollowUp { steps, remove, arm: None }
        },
        RenderStatus::Skipped => match state.frame_skipped(animating, now, due) {
            frame::EstimatedVblankTimer::AlreadyArmed => FrameFollowUp {
                steps,
                remove: None,
                arm: None,
            },
            frame::EstimatedVblankTimer::ArmAfter(delay) => FrameFollowUp {
                steps,
                remove: None,
                arm: Some(delay),
            },
        },
    }
}

/// The outputs that are asked for a frame.
pub open spec fn queued(frames: Seq<OutputFrameState>) -> Seq<int>
    decreases frames.len(),
{
    if frames.len() == 0 {
        Seq::empty()
    } else {
        let before = queued(frames.drop_last());
        if is_queued(frames.last().redraw) {
            before.push(frames.len() - 1)
        } else {
            before
        }
    }
}

/// The outputs that are drawn now: those that are asked for a frame.
pub fn redraw_queued_outputs(frames: &Vec<OutputFrameState>) -> (outputs: Vec<usize>)
    ensures
        outputs@.map_values(|index: usize| index as int) == queued(frames@),
{
    let mut outputs: Vec<usize> = Vec::new();
    let mut index: usize = 0;
    assert(outputs@.map_values(|index: usize| index as int) =~= queued(frames@.take(0)));
    while index < frames.len()
        invariant
            index <= frames@.len(),
            outputs@.map_values(|index: usize| index as int) == queued(frames@.take(index as int)),
        decreases frames@.len() - index,
    {
        let ghost before = outputs@;
        proof {
            let longer = frames@.take(index as int + 1);
            assert(longer.drop_last() =~= frames@.take(index as int));
            assert(longer.last() == frames@[index as int]);
        }
        if frames[index].is_redraw_queued() {
            outputs.push(index);
            assert(outputs@.map_values(|index: usize| index as int) =~= before.map_values(
                |index: usize| index as int,
            ).push(index as int));
        }
        index += 1;
    }
    assert(frames@.take(index as int) =~= frames@);
    outputs
}

/// The timers that outputs hold.
pub open spec fn held_timers(frames: Seq<OutputFrameState>) -> Seq<calloop::RegistrationToken>
    decreases frames.len(),
{
    if frames.len() == 0 {
        Seq::empty()
    } else {
        let before = held_timers(frames.drop_last());
        match timer_of(frames.last().redraw) {
            Some(token) => before.push(token),
            None => before,
        }
    }
}

/// Every output starts over: each is asked for a frame, and the timers that were set are
/// handed back.
pub fn reset_redraw_state(frames: &mut Vec<OutputFrameState>, now: Duration) -> (timers: Vec<
    calloop::RegistrationToken,
>)
    ensures
        timers@ == held_timers(old(frames)@),
        final(frames)@.len() == old(frames)@.len(),
        forall|i: int|
            0 <= i < final(frames)@.len() ==> (#[trigger] final(frames)@[i]).redraw is Queued
                && final(frames)@[i].last_camera_sample == now
                && !final(frames)@[i].unfinished_animations,
{
    let ghost before = frames@;
    let mut timers: Vec<calloop::RegistrationToken> = Vec::new();
    let mut index: usize = 0;
    while index < frames.len()
        invariant
            index <= frames@.len(),
            frames@.len() == before.len(),
            timers@ == held_timers(before.take(index as int)),
            forall|i: int| index <= i < frames@.len() ==> #[trigger] frames@[i] == before[i],
            forall|i: int|
                0 <= i < index ==> (#[trigger] frames@[i]).redraw is Queued
                    && frames@[i].last_camera_sample == now && !frames@[i].unfinished_animations,
        decreases frames@.len() - index,
    {
        proof {
            let longer = before.take(index as int + 1);
            assert(longer.drop_last() =~= before.take(index as int));
            assert(longer.last() == before[index as int]);
        }
        if let Some(token) = frames[index].reset(now) {
            timers.push(token);
        }
        index += 1;
    }
    assert(before.take(index as int) =~= before);
    timers
}

/// One thing that is done about an event of a physical device.
#[derive(Clone, Copy, Debug, PartialEq, Eq, Structural)]
pub enum DeviceStage {
    Wake(WakeTarget),
    Seat(SeatStep),
    /// The session handles the event.
    Handle,
}

/// What is done about an event of a physical device, in order: the output that it is about
/// wakes, the seat gets or loses touch, the session handles the event, and a motion wakes
/// the output that it led to.
pub open spec fn device_stages(
    event: InputEvent,
    first_touch: bool,
    last_touch: bool,
    seat_has_touch: bool,
) -> Seq<DeviceStage> {
    (match event {
        InputEvent::Keyboard => seq![DeviceStage::Wake(WakeTarget::Selected)],
        InputEvent::PointerButton { .. } => seq![DeviceStage::Wake(WakeTarget::UnderPointer)],
        InputEvent::PointerAxis => seq![DeviceStage::Wake(WakeTarget::UnderPointer)],
        InputEvent::DeviceAdded => steps::when(
            first_touch && !seat_has_touch,
            seq![DeviceStage::Seat(SeatStep::AddTouch)],
        ),
        InputEvent::DeviceRemoved => steps::when(
            last_touch,
            seq![DeviceStage::Seat(SeatStep::RemoveTouch)],
        ),
        _ => Seq::empty(),
    }) + seq![DeviceStage::Handle] + steps::when(
        crate::session::input::pointer::is_motion_event(event),
        seq![DeviceStage::Wake(WakeTarget::UnderPointer)],
    )
}

/// What is done about an event of a physical device.
pub fn on_device_event(
    event: InputEvent,
    first_touch: bool,
    last_touch: bool,
    seat_has_touch: bool,
) -> (list: Vec<DeviceStage>)
    ensures
        list@ == device_stages(event, first_touch, last_touch, seat_has_touch),
{
    let mut list: Vec<DeviceStage> = Vec::new();
    let target = wake_before(event);
    if target != WakeTarget::Nowhere {
        list.push(DeviceStage::Wake(target));
    }
    let seat = device_changed(event, first_touch, last_touch, seat_has_touch);
    if seat != SeatStep::Nothing {
        list.push(DeviceStage::Seat(seat));
    }
    list.push(DeviceStage::Handle);
    let reached = wake_after(event);
    if reached != WakeTarget::Nowhere {
        list.push(DeviceStage::Wake(reached));
    }
    assert(list@ =~= device_stages(event, first_touch, last_touch, seat_has_touch));
    list
}

/// On an output that is lit, only what is on the screen may draw the next frame: the lock
/// screen while it is locked, the previews of an overview that are due, and else the windows.
/// Layers and the cursor always may. The session's own frames are reported. An output that is
/// dark says nothing.
#[verifier::rlimit(40)]
pub proof fn what_is_on_the_screen_goes_on(facts: VblankFacts, generation: u64)
    ensures
        !facts.enabled ==> vblank_steps(facts).len() == 0,
        vblank_steps(facts).contains(VblankStep::LockFrames) <==> facts.enabled && facts.locked,
        vblank_steps(facts).contains(VblankStep::PreviewFrames) <==> facts.enabled && !facts.locked
            && facts.apogee_active && facts.preview_due,
        vblank_steps(facts).contains(VblankStep::WindowFrames) <==> facts.enabled && !facts.locked
            && !facts.apogee_active,
        vblank_steps(facts).contains(VblankStep::LayerFrames) <==> facts.enabled,
        vblank_steps(facts).contains(VblankStep::CursorFrame) <==> facts.enabled,
        vblank_steps(facts).contains(VblankStep::Refresh) <==> facts.enabled,
        vblank_steps(facts).contains(VblankStep::ReportPresentation) <==> facts.enabled
            && facts.submitted,
        vblank_steps(facts).contains(VblankStep::LockPresented(generation)) <==> facts.enabled
            && facts.submitted && facts.lock_generation == Some(generation),
{
    broadcast use steps::group_steps;

}

/// A configuration that was read is applied, and its outputs wait exactly while the seat is
/// gone. One that was rejected only shows its error.
pub proof fn rejected_configurations_change_nothing(loaded: bool, paused: bool)
    ensures
        !loaded ==> reload_steps(loaded, paused) == seq![ReloadStep::ShowError],
        loaded ==> {
            &&& reload_steps(loaded, paused)[0] == ReloadStep::ApplyCommon
            &&& reload_steps(loaded, paused)[1] == ReloadStep::ReloadInputDevices
            &&& reload_steps(loaded, paused).contains(ReloadStep::RunAutostart)
            &&& reload_steps(loaded, paused).last() == ReloadStep::ClearError
            &&& !reload_steps(loaded, paused).contains(ReloadStep::ShowError)
            &&& reload_steps(loaded, paused).contains(
                ReloadStep::ConfigureOutputs(OutputConfigStep::Defer),
            ) <==> paused
            &&& reload_steps(loaded, paused).contains(
                ReloadStep::ConfigureOutputs(OutputConfigStep::Apply),
            ) <==> !paused
        },
{
    broadcast use steps::group_steps;

}

/// Each change of an output has what it needs: a new mode a new clock, a new place in the
/// layout its mapping, a new size a new view where the output is mapped, and a new mode or
/// place a frame.
pub proof fn outputs_follow_what_changed(change: OutputChange)
    ensures
        change_steps(change).contains(OutputStep::ReplaceClock(change.output))
            <==> change.mode_changed,
        change_steps(change).contains(OutputStep::MapOutput(change.output))
            <==> change.layout_changed,
        change_steps(change).contains(OutputStep::ResetCamera(change.output))
            <==> change.size_changed && change.mapped,
        change_steps(change).contains(OutputStep::Redraw(change.output)) <==> change.mode_changed
            || change.layout_changed,
{
    broadcast use steps::group_steps;

}

/// Changes are followed one after the other. Then the layout is looked at once where that of
/// any output changed, and the session once where anything did.
pub proof fn the_session_is_looked_at_once(changes: Seq<OutputChange>, last: OutputChange, i: int)
    ensures
        output_config_steps(Seq::<OutputChange>::empty()).len() == 0,
        all_change_steps(changes.push(last)) == all_change_steps(changes) + change_steps(last),
        output_config_steps(changes.push(last)).last() == OutputStep::RefreshSession,
        0 <= i < changes.len() && changes[i].layout_changed ==> output_config_steps(
            changes,
        ).contains(OutputStep::RefreshLayout),
        (forall|j: int| 0 <= j < changes.len() ==> !(#[trigger] changes[j]).layout_changed)
            ==> output_config_steps(changes) == all_change_steps(changes) + steps::when(
            changes.len() > 0,
            seq![OutputStep::RefreshSession],
        ),
{
    broadcast use steps::group_steps;

    assert(changes.push(last).drop_last() =~= changes);
    if 0 <= i < changes.len() && changes[i].layout_changed {
        assert(any_layout_changed(changes));
    }
    if forall|j: int| 0 <= j < changes.len() ==> !(#[trigger] changes[j]).layout_changed {
        assert(output_config_steps(changes) =~= all_change_steps(changes) + steps::when(
            changes.len() > 0,
            seq![OutputStep::RefreshSession],
        ));
    }
}

/// A frame is followed by another exactly where one of these is under way; an animated cursor
/// counts only where it is shown.
pub proof fn frames_follow_while_anything_is_under_way(motion: Motion)
    ensures
        motion.camera || motion.fullscreen_camera_changed || motion.windows || motion.closing
            || motion.nodes || motion.bearings || motion.focus_cycle || motion.apogee
            || motion.overlays || motion.fullscreen || motion.maximize || motion.pending_icons
            ==> moves(motion),
        motion.cursor_animated && motion.cursor_shown ==> moves(motion),
        !(motion.camera || motion.fullscreen_camera_changed || motion.windows || motion.closing
            || motion.nodes || motion.bearings || motion.focus_cycle || motion.apogee
            || motion.overlays || motion.fullscreen || motion.maximize || motion.pending_icons)
            ==> (moves(motion) <==> motion.cursor_animated && motion.cursor_shown),
{
}

/// A frame that could not be drawn counts as skipped, any other as what became of it.
pub proof fn failed_frames_are_skipped(status: RenderStatus, states_known: bool)
    ensures
        status_of(RenderResult::Failed) == RenderStatus::Skipped,
        status_of(RenderResult::Drawn { status, states_known }) == status,
{
}

/// The focus is looked at again exactly where a window has come to rest, and clients hear of
/// buffers exactly where something was drawn and it is known how.
pub proof fn clients_hear_of_frames_that_were_drawn(
    status: RenderStatus,
    states_known: bool,
    settled: bool,
    feedback_known: bool,
)
    ensures
        redraw_steps(
            RenderResult::Drawn { status, states_known },
            settled,
            feedback_known,
        ).contains(RedrawStep::SendFeedback) <==> feedback_known && states_known,
        !redraw_steps(RenderResult::Failed, settled, feedback_known).contains(
            RedrawStep::SendFeedback,
        ),
        redraw_steps(
            RenderResult::Drawn { status, states_known },
            settled,
            feedback_known,
        ).contains(RedrawStep::SyncKeyboard) <==> settled,
        redraw_steps(
            RenderResult::Drawn { status, states_known },
            settled,
            feedback_known,
        ).contains(RedrawStep::UpdatePointer) <==> settled,
        redraw_steps(RenderResult::Failed, settled, feedback_known).contains(
            RedrawStep::SyncKeyboard,
        ) <==> settled,
{
    broadcast use steps::group_steps;

}

/// The outputs that are drawn are those that are asked for a frame, in their order.
pub proof fn outputs_that_owe_a_frame_are_drawn(
    frames: Seq<OutputFrameState>,
    last: OutputFrameState,
)
    ensures
        queued(Seq::<OutputFrameState>::empty()).len() == 0,
        last.redraw is Queued || last.redraw is WaitingForEstimatedVBlankAndQueued ==> queued(
            frames.push(last),
        ) == queued(frames).push(frames.len() as int),
        !(last.redraw is Queued || last.redraw is WaitingForEstimatedVBlankAndQueued) ==> queued(
            frames.push(last),
        ) == queued(frames),
{
    assert(frames.push(last).drop_last() =~= frames);
}

/// The timers that are handed back are those that outputs hold, in their order.
pub proof fn timers_that_are_held_are_handed_back(
    frames: Seq<OutputFrameState>,
    last: OutputFrameState,
)
    ensures
        held_timers(Seq::<OutputFrameState>::empty()).len() == 0,
        timer_of(last.redraw) matches Some(token) ==> held_timers(frames.push(last)) == held_timers(
            frames,
        ).push(token),
        timer_of(last.redraw) is None ==> held_timers(frames.push(last)) == held_timers(frames),
{
    assert(frames.push(last).drop_last() =~= frames);
}

/// A key wakes the output in use, a button or the wheel the one under the pointer, before
/// they are handled; a motion wakes the one that it led to, afterwards. Every event is
/// handled. The first touch device brings touch, the last one takes it away.
#[verifier::rlimit(40)]
pub proof fn input_wakes_the_output_it_is_about(
    event: InputEvent,
    first_touch: bool,
    last_touch: bool,
    seat_has_touch: bool,
)
    ensures
        ({
            let list = device_stages(event, first_touch, last_touch, seat_has_touch);
            &&& list.contains(DeviceStage::Handle)
            &&& list.contains(DeviceStage::Wake(WakeTarget::Selected)) <==> event is Keyboard
            &&& list.contains(DeviceStage::Wake(WakeTarget::UnderPointer)) <==> event
                is PointerButton || event is PointerAxis || event is PointerMotion || event
                is PointerMotionAbsolute
            &&& list.contains(DeviceStage::Seat(SeatStep::AddTouch)) <==> event is DeviceAdded
                && first_touch && !seat_has_touch
            &&& list.contains(DeviceStage::Seat(SeatStep::RemoveTouch)) <==> event
                is DeviceRemoved && last_touch
            &&& event is PointerMotion || event is PointerMotionAbsolute ==> list[0]
                == DeviceStage::Handle
            &&& event is Keyboard || event is PointerButton || event is PointerAxis ==> list[1]
                == DeviceStage::Handle
        }),
{
    broadcast use steps::group_steps;

}

/// What was presented is reported before anyone may draw again: windows, then layers, then the
/// cursor; and the session is refreshed at last.
#[verifier::rlimit(50)]
pub proof fn frames_are_told_in_turn(facts: VblankFacts, generation: u64)
    ensures
        steps::comes_before(vblank_steps(facts), VblankStep::LockPresented(generation), VblankStep::ReportPresentation),
        steps::comes_before(vblank_steps(facts), VblankStep::LockPresented(generation), VblankStep::LockFrames),
        steps::comes_before(vblank_steps(facts), VblankStep::ReportPresentation, VblankStep::LockFrames),
        steps::comes_before(vblank_steps(facts), VblankStep::ReportPresentation, VblankStep::LayerFrames),
        steps::comes_before(vblank_steps(facts), VblankStep::LockFrames, VblankStep::LayerFrames),
        steps::comes_before(vblank_steps(facts), VblankStep::LockFrames, VblankStep::CursorFrame),
        steps::comes_before(vblank_steps(facts), VblankStep::LayerFrames, VblankStep::CursorFrame),
        steps::comes_before(vblank_steps(facts), VblankStep::LayerFrames, VblankStep::Refresh),
        steps::comes_before(vblank_steps(facts), VblankStep::CursorFrame, VblankStep::Refresh),
        steps::comes_before(vblank_steps(facts), VblankStep::ReportPresentation, VblankStep::PreviewFrames),
        steps::comes_before(vblank_steps(facts), VblankStep::ReportPresentation, VblankStep::LayerFrames),
        steps::comes_before(vblank_steps(facts), VblankStep::PreviewFrames, VblankStep::LayerFrames),
        steps::comes_before(vblank_steps(facts), VblankStep::ReportPresentation, VblankStep::WindowFrames),
        steps::comes_before(vblank_steps(facts), VblankStep::ReportPresentation, VblankStep::LayerFrames),
        steps::comes_before(vblank_steps(facts), VblankStep::WindowFrames, VblankStep::LayerFrames),
{
    broadcast use {steps::group_steps, steps::group_orders};

}

/// What every backend has is applied before its devices and outputs, programs start then, and the
/// error goes at last.
#[verifier::rlimit(50)]
pub proof fn settings_apply_in_turn(paused: bool, step: OutputConfigStep)
    ensures
        steps::comes_before(reload_steps(true, paused), ReloadStep::ApplyCommon, ReloadStep::ReloadInputDevices),
        steps::comes_before(reload_steps(true, paused), ReloadStep::ApplyCommon, ReloadStep::ConfigureOutputs(step)),
        steps::comes_before(reload_steps(true, paused), ReloadStep::ReloadInputDevices, ReloadStep::ConfigureOutputs(step)),
        steps::comes_before(reload_steps(true, paused), ReloadStep::ReloadInputDevices, ReloadStep::RunAutostart),
        steps::comes_before(reload_steps(true, paused), ReloadStep::ConfigureOutputs(step), ReloadStep::RunAutostart),
        steps::comes_before(reload_steps(true, paused), ReloadStep::ConfigureOutputs(step), ReloadStep::ClearError),
        steps::comes_before(reload_steps(true, paused), ReloadStep::RunAutostart, ReloadStep::ClearError),
{
    broadcast use {steps::group_steps, steps::group_orders};

}

/// An output has its new clock before it is placed, and its camera before it is drawn.
#[verifier::rlimit(50)]
pub proof fn outputs_change_in_turn(change: OutputChange)
    ensures
        steps::comes_before(change_steps(change), OutputStep::ReplaceClock(change.output), OutputStep::MapOutput(change.output)),
        steps::comes_before(change_steps(change), OutputStep::ReplaceClock(change.output), OutputStep::ResetCamera(change.output)),
        steps::comes_before(change_steps(change), OutputStep::ReplaceClock(change.output), OutputStep::Redraw(change.output)),
        steps::comes_before(change_steps(change), OutputStep::MapOutput(change.output), OutputStep::ResetCamera(change.output)),
        steps::comes_before(change_steps(change), OutputStep::MapOutput(change.output), OutputStep::Redraw(change.output)),
        steps::comes_before(change_steps(change), OutputStep::ResetCamera(change.output), OutputStep::Redraw(change.output)),
{
    broadcast use {steps::group_steps, steps::group_orders};

}

/// The keyboard and the pointer follow a window that has settled before clients hear of the frame.
pub proof fn redraws_are_followed_in_turn(result: RenderResult, fullscreen_settled: bool, feedback_known: bool)
    ensures
        steps::comes_before(redraw_steps(result, fullscreen_settled, feedback_known), RedrawStep::SyncKeyboard, RedrawStep::UpdatePointer),
        steps::comes_before(redraw_steps(result, fullscreen_settled, feedback_known), RedrawStep::SyncKeyboard, RedrawStep::SendFeedback),
        steps::comes_before(redraw_steps(result, fullscreen_settled, feedback_known), RedrawStep::UpdatePointer, RedrawStep::SendFeedback),
{
    broadcast use {steps::group_steps, steps::group_orders};

}

/// Changes are made one after the other, each wholly before the next.
pub proof fn outputs_are_changed_one_by_one(first: Seq<OutputChange>, second: Seq<OutputChange>)
    ensures
        all_change_steps(first + second) == all_change_steps(first) + all_change_steps(second),
    decreases second.len(),
{
    if second.len() == 0 {
        assert(first + second =~= first);
        assert(all_change_steps(first) + all_change_steps(second) =~= all_change_steps(first));
    } else {
        assert((first + second).drop_last() =~= first + second.drop_last());
        outputs_are_changed_one_by_one(first, second.drop_last());
        assert(all_change_steps(first + second) =~= all_change_steps(first) + all_change_steps(
            second,
        ));
    }
}

/// A key wakes the output that is chosen, a button or a wheel the one under the pointer, and
/// nothing else wakes any before it is handled.
pub proof fn outputs_wake_where_input_goes(event: InputEvent, target: WakeTarget)
    requires
        call_ensures(wake_before, (event,), target),
    ensures
        target is Selected <==> event is Keyboard,
        target is UnderPointer <==> event is PointerButton || event is PointerAxis,
{
}

/// All outputs wake where none is lit; where one is, only a dark one that the input goes to does.
pub proof fn dark_outputs_wake(any_enabled: bool, target: Option<LitOutput>, wake: Wake)
    requires
        call_ensures(wake_dpms_on_input, (any_enabled, target), wake),
    ensures
        wake is All <==> !any_enabled,
        wake is One <==> any_enabled && target is Some && !target->0.enabled,
        wake is One ==> wake->One_0 == target->0.name,
{
}

/// The seat has touch from the first device that brings it to the last that takes it.
pub proof fn the_seat_has_touch_while_devices_do(event: InputEvent, first: bool, last: bool, touch: bool, step: SeatStep)
    requires
        call_ensures(device_changed, (event, first, last, touch), step),
    ensures
        step is AddTouch <==> event is DeviceAdded && first && !touch,
        step is RemoveTouch <==> event is DeviceRemoved && last,
{
}

/// Only a time of the monotonic clock that is not zero is told as that of a frame, and only then
/// it comes from the hardware.
pub proof fn presentation_times_are_monotonic(time: Option<FrameTime>, sequence: Option<u32>, refresh: Option<i32>, presented: Option<Duration>, report: PresentationReport)
    requires
        call_ensures(presentation_time, (time,), presented),
        call_ensures(presentation_report, (time, sequence, refresh), report),
    ensures
        report.time == presented,
        report.hardware <==> presented is Some,
        presented is Some <==> time is Some && time->0 is Monotonic && time->0->Monotonic_0.nanos > 0,
        presented is Some ==> presented->0 == time->0->Monotonic_0,
        sequence is Some ==> report.sequence == sequence->0,
        sequence is None ==> report.sequence == 0,
        report.refresh_mhz == refresh,
{
}

/// The pointer is looked up once for what moves and once for a new view, and never on another
/// output.
pub proof fn the_pointer_is_looked_up_for_each_change(motion: Motion, on_output: bool, view_changed: bool, times: u8)
    requires
        call_ensures(pointer_updates, (motion, on_output, view_changed), times),
    ensures
        !on_output ==> times == 0,
        times == 0 ==> !on_output || (!motion.fullscreen && !motion.maximize && !view_changed),
        times == 2 <==> on_output && view_changed && (motion.fullscreen || motion.maximize),
        times <= 2,
{
}

} // verus!
