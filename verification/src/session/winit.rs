//! A session in a window of another session.

use vstd::prelude::*;

use crate::session::tty::{animating, moves, Motion};
use crate::steps;

verus! {

/// What the window is told.
#[derive(Clone, Copy, Debug, PartialEq, Eq, Structural)]
pub enum WinitEvent {
    CloseRequested,
    Redraw,
    Resized,
    Input,
    Focus,
}

/// What the session does about it.
#[derive(Clone, Copy, Debug, PartialEq, Eq, Structural)]
pub enum WinitStep {
    /// What is under the pointer is looked up again.
    UpdatePointer,
    /// The cursor's image is on the outputs that it touches.
    RefreshCursor,
    Render,
    /// Clients are told that their frames were shown.
    WindowFrames,
    LayerFrames,
    CursorFrame,
    /// Windows and layers that are gone are dropped.
    Refresh,
    /// Animations that are over are dropped.
    Cleanup,
    SyncKeyboard,
    RequestRedraw,
    /// Clients see the new size of the output, and its layers are arranged.
    UpdateMode,
    ResetCamera,
    /// Windows that fill the output get its size.
    ReconfigureFullscreen,
    HandleInput,
}

/// Whether the session goes on.
#[derive(Clone, Copy, Debug, PartialEq, Eq, Structural)]
pub struct WinitSession {
    pub exit: bool,
}

/// What is done about an event other than a frame.
pub open spec fn event_steps(event: WinitEvent) -> Seq<WinitStep> {
    match event {
        WinitEvent::Resized => seq![
            WinitStep::UpdateMode,
            WinitStep::ResetCamera,
            WinitStep::ReconfigureFullscreen,
            WinitStep::UpdatePointer,
            WinitStep::RequestRedraw,
        ],
        WinitEvent::Input => seq![WinitStep::HandleInput],
        _ => Seq::empty(),
    }
}

impl WinitSession {
    /// What is done about an event. Frames are drawn by `begin_frame` and `finish_frame`.
    pub fn on_event(&mut self, event: WinitEvent) -> (list: Vec<WinitStep>)
        ensures
            list@ == event_steps(event),
            final(self).exit == (old(self).exit || event == WinitEvent::CloseRequested),
    {
        let mut list: Vec<WinitStep> = Vec::new();
        match event {
            WinitEvent::CloseRequested => {
                self.exit = true;
            },
            WinitEvent::Resized => {
                list.push(WinitStep::UpdateMode);
                list.push(WinitStep::ResetCamera);
                list.push(WinitStep::ReconfigureFullscreen);
                list.push(WinitStep::UpdatePointer);
                list.push(WinitStep::RequestRedraw);
            },
            WinitEvent::Input => {
                list.push(WinitStep::HandleInput);
            },
            _ => {},
        }
        assert(list@ =~= event_steps(event));
        list
    }
}

/// What is done for a frame before it is drawn, once the cameras have moved.
pub fn begin_frame(view_changed: bool, fullscreen_animating: bool) -> (list: Vec<WinitStep>)
    ensures
        list@ == steps::when(view_changed, seq![WinitStep::UpdatePointer]) + steps::when(
            fullscreen_animating,
            seq![WinitStep::UpdatePointer],
        ) + seq![WinitStep::RefreshCursor, WinitStep::Render],
{
    let mut list: Vec<WinitStep> = Vec::new();
    if view_changed {
        list.push(WinitStep::UpdatePointer);
    }
    if fullscreen_animating {
        list.push(WinitStep::UpdatePointer);
    }
    list.push(WinitStep::RefreshCursor);
    list.push(WinitStep::Render);
    assert(list@ =~= steps::when(view_changed, seq![WinitStep::UpdatePointer]) + steps::when(
        fullscreen_animating,
        seq![WinitStep::UpdatePointer],
    ) + seq![WinitStep::RefreshCursor, WinitStep::Render]);
    list
}

/// What is done for a frame that was shown, whether or not it could be drawn. Where a
/// window has come to rest in fullscreen the focus is looked at again.
pub open spec fn finish_steps(fullscreen_settled: bool, motion: Motion) -> Seq<WinitStep> {
    seq![
        WinitStep::WindowFrames,
        WinitStep::LayerFrames,
        WinitStep::CursorFrame,
        WinitStep::Refresh,
        WinitStep::Cleanup,
    ] + steps::when(
        fullscreen_settled,
        seq![WinitStep::SyncKeyboard, WinitStep::UpdatePointer],
    ) + steps::when(moves(motion), seq![WinitStep::RequestRedraw])
}

pub fn finish_frame(fullscreen_settled: bool, motion: Motion) -> (list: Vec<WinitStep>)
    ensures
        list@ == finish_steps(fullscreen_settled, motion),
{
    let mut list: Vec<WinitStep> = Vec::new();
    list.push(WinitStep::WindowFrames);
    list.push(WinitStep::LayerFrames);
    list.push(WinitStep::CursorFrame);
    list.push(WinitStep::Refresh);
    list.push(WinitStep::Cleanup);
    if fullscreen_settled {
        list.push(WinitStep::SyncKeyboard);
        list.push(WinitStep::UpdatePointer);
    }
    if animating(motion) {
        list.push(WinitStep::RequestRedraw);
    }
    assert(list@ =~= finish_steps(fullscreen_settled, motion));
    list
}

/// A window that changes its size has its output, its camera, what fills it and what is under
/// the pointer follow, and is drawn. Input is handled; nothing else does anything.
pub proof fn the_output_follows_the_window(event: WinitEvent)
    ensures
        event_steps(event).contains(WinitStep::UpdateMode) <==> event == WinitEvent::Resized,
        event_steps(event).contains(WinitStep::ResetCamera) <==> event == WinitEvent::Resized,
        event_steps(event).contains(WinitStep::ReconfigureFullscreen) <==> event
            == WinitEvent::Resized,
        event_steps(event).contains(WinitStep::UpdatePointer) <==> event == WinitEvent::Resized,
        event_steps(event).contains(WinitStep::RequestRedraw) <==> event == WinitEvent::Resized,
        event_steps(event).contains(WinitStep::HandleInput) <==> event == WinitEvent::Input,
        event_steps(WinitEvent::Resized)[0] == WinitStep::UpdateMode,
        event_steps(WinitEvent::Resized).last() == WinitStep::RequestRedraw,
{
    broadcast use steps::group_steps;

}

/// Every frame is told to windows, layers and the cursor. The focus is looked at again where
/// a window has come to rest, and another frame is asked for exactly where something moves.
pub proof fn frames_go_on_while_something_moves(settled: bool, motion: Motion)
    ensures
        finish_steps(settled, motion).contains(WinitStep::WindowFrames),
        finish_steps(settled, motion).contains(WinitStep::LayerFrames),
        finish_steps(settled, motion).contains(WinitStep::CursorFrame),
        finish_steps(settled, motion).contains(WinitStep::Refresh),
        finish_steps(settled, motion).contains(WinitStep::Cleanup),
        finish_steps(settled, motion).contains(WinitStep::SyncKeyboard) <==> settled,
        finish_steps(settled, motion).contains(WinitStep::UpdatePointer) <==> settled,
        finish_steps(settled, motion).contains(WinitStep::RequestRedraw) <==> moves(motion),
{
    broadcast use steps::group_steps;

}

/// The mode is known before the camera is reset, and full screen windows before the pointer is;
/// then a frame is asked for. After one, windows hear of it before layers and the cursor, and the
/// session is tidied before the keyboard and the pointer follow.
#[verifier::rlimit(50)]
pub proof fn events_are_followed_in_turn(event: WinitEvent, fullscreen_settled: bool, motion: Motion)
    ensures
        steps::comes_before(event_steps(event), WinitStep::UpdateMode, WinitStep::ResetCamera),
        steps::comes_before(event_steps(event), WinitStep::UpdateMode, WinitStep::ReconfigureFullscreen),
        steps::comes_before(event_steps(event), WinitStep::ResetCamera, WinitStep::ReconfigureFullscreen),
        steps::comes_before(event_steps(event), WinitStep::ResetCamera, WinitStep::UpdatePointer),
        steps::comes_before(event_steps(event), WinitStep::ReconfigureFullscreen, WinitStep::UpdatePointer),
        steps::comes_before(event_steps(event), WinitStep::ReconfigureFullscreen, WinitStep::RequestRedraw),
        steps::comes_before(event_steps(event), WinitStep::UpdatePointer, WinitStep::RequestRedraw),
        steps::comes_before(finish_steps(fullscreen_settled, motion), WinitStep::WindowFrames, WinitStep::LayerFrames),
        steps::comes_before(finish_steps(fullscreen_settled, motion), WinitStep::WindowFrames, WinitStep::CursorFrame),
        steps::comes_before(finish_steps(fullscreen_settled, motion), WinitStep::LayerFrames, WinitStep::CursorFrame),
        steps::comes_before(finish_steps(fullscreen_settled, motion), WinitStep::LayerFrames, WinitStep::Refresh),
        steps::comes_before(finish_steps(fullscreen_settled, motion), WinitStep::CursorFrame, WinitStep::Refresh),
        steps::comes_before(finish_steps(fullscreen_settled, motion), WinitStep::CursorFrame, WinitStep::Cleanup),
        steps::comes_before(finish_steps(fullscreen_settled, motion), WinitStep::Refresh, WinitStep::Cleanup),
        steps::comes_before(finish_steps(fullscreen_settled, motion), WinitStep::Refresh, WinitStep::SyncKeyboard),
        steps::comes_before(finish_steps(fullscreen_settled, motion), WinitStep::Cleanup, WinitStep::SyncKeyboard),
        steps::comes_before(finish_steps(fullscreen_settled, motion), WinitStep::Cleanup, WinitStep::UpdatePointer),
        steps::comes_before(finish_steps(fullscreen_settled, motion), WinitStep::SyncKeyboard, WinitStep::UpdatePointer),
        steps::comes_before(finish_steps(fullscreen_settled, motion), WinitStep::SyncKeyboard, WinitStep::RequestRedraw),
        steps::comes_before(finish_steps(fullscreen_settled, motion), WinitStep::UpdatePointer, WinitStep::RequestRedraw),
{
    broadcast use {steps::group_steps, steps::group_orders};

}

} // verus!
