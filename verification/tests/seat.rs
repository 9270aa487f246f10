use calloop::timer::{TimeoutAction, Timer};
use calloop::{EventLoop, RegistrationToken};
use halley_session::session::cursor::{Policy, TimerDirective};
use halley_session::session::input::pointer::{ButtonState, InputEvent, BTN_LEFT};
use halley_session::session::tty::frame::{OutputFrameState, RedrawState};
use halley_session::session::tty::{
    animating, apply_dpms_change, apply_runtime_config, apply_tty_output_config, device_changed,
    on_device_event, on_vblank, pointer_updates, presentation_report, presentation_time,
    redraw_output, redraw_queued_outputs, request_redraw, reset_redraw_state, wake_after,
    wake_before, wake_dpms_on_input, DeviceStage, FrameTime, LitOutput, Motion, OutputChange,
    OutputConfigStep, OutputStep, PresentationReport, RedrawStep, ReloadStep, RenderResult,
    RenderStatus, SeatSession,
    SeatStep, VblankFacts, VblankStep, Wake, WakeTarget,
};
use halley_session::session::winit::{
    begin_frame, finish_frame, WinitEvent, WinitSession, WinitStep,
};
use halley_session::time::Duration;

fn at(milliseconds: u64) -> Duration {
    Duration::from_millis(milliseconds)
}

fn token() -> RegistrationToken {
    let event_loop = EventLoop::<()>::try_new().expect("test event loop");
    event_loop
        .handle()
        .insert_source(Timer::immediate(), |_, _, _| TimeoutAction::Drop)
        .expect("test timer")
}

fn press() -> InputEvent {
    InputEvent::PointerButton {
        button: BTN_LEFT,
        state: ButtonState::Pressed,
    }
}

fn still() -> Motion {
    Motion {
        camera: false,
        fullscreen_camera_changed: false,
        windows: false,
        closing: false,
        nodes: false,
        bearings: false,
        focus_cycle: false,
        apogee: false,
        overlays: false,
        fullscreen: false,
        maximize: false,
        cursor_animated: false,
        cursor_shown: false,
        pending_icons: false,
    }
}

#[test]
fn input_wakes_the_output_that_it_is_about() {
    assert_eq!(wake_before(InputEvent::Keyboard), WakeTarget::Selected);
    assert_eq!(wake_before(press()), WakeTarget::UnderPointer);
    assert_eq!(wake_before(InputEvent::PointerMotion), WakeTarget::Nowhere);
    assert_eq!(
        wake_after(InputEvent::PointerMotion),
        WakeTarget::UnderPointer
    );
    assert_eq!(wake_after(press()), WakeTarget::Nowhere);
    let dark = || {
        Some(LitOutput {
            name: "left".to_string(),
            enabled: false,
        })
    };
    assert!(matches!(wake_dpms_on_input(false, None), Wake::All));
    assert!(matches!(wake_dpms_on_input(false, dark()), Wake::All));
    assert!(matches!(wake_dpms_on_input(true, dark()), Wake::One(name) if name == "left"));
    assert!(matches!(
        wake_dpms_on_input(
            true,
            Some(LitOutput {
                name: "left".to_string(),
                enabled: true,
            })
        ),
        Wake::Nothing
    ));
}

#[test]
fn events_of_devices_are_handled_between_the_wakes() {
    assert_eq!(
        on_device_event(InputEvent::Keyboard, false, false, false),
        vec![DeviceStage::Wake(WakeTarget::Selected), DeviceStage::Handle]
    );
    assert_eq!(
        on_device_event(InputEvent::PointerMotion, false, false, false),
        vec![
            DeviceStage::Handle,
            DeviceStage::Wake(WakeTarget::UnderPointer),
        ]
    );
    assert_eq!(
        on_device_event(InputEvent::DeviceAdded, true, false, false),
        vec![DeviceStage::Seat(SeatStep::AddTouch), DeviceStage::Handle]
    );
    assert_eq!(
        device_changed(InputEvent::DeviceAdded, true, false, true),
        SeatStep::Nothing
    );
    assert_eq!(
        device_changed(InputEvent::DeviceRemoved, false, true, true),
        SeatStep::RemoveTouch
    );
    assert_eq!(
        device_changed(InputEvent::DeviceRemoved, false, false, true),
        SeatStep::Nothing
    );
}

#[test]
fn outputs_that_go_dark_draw_nothing() {
    let mut state = OutputFrameState::new(at(10));
    request_redraw(&mut state, true);
    assert!(state.is_redraw_queued());
    assert!(apply_dpms_change(&mut state, false, at(20)).is_none());
    assert!(matches!(state.redraw, RedrawState::Suspended));
    request_redraw(&mut state, true);
    assert!(!state.is_redraw_queued());
    assert!(apply_dpms_change(&mut state, true, at(30)).is_none());
    assert!(state.is_redraw_queued());
    assert_eq!(state.last_camera_sample, at(30));

    let mut idle = OutputFrameState::new(at(10));
    assert!(idle.reset(at(11)).is_none());
    idle.frame_submitted(false);
    idle.on_vblank();
    request_redraw(&mut idle, false);
    assert!(!idle.is_redraw_queued());
}

#[test]
fn outputs_configured_while_away_wait_for_the_return() {
    let mut session = SeatSession {
        paused: false,
        pending_outputs: None,
    };
    assert_eq!(session.configure_outputs(1), OutputConfigStep::Apply);
    session.pause();
    assert!(!session.draws());
    assert_eq!(session.configure_outputs(2), OutputConfigStep::Defer);
    assert_eq!(session.configure_outputs(3), OutputConfigStep::Defer);
    let refused = session.activate(false);
    assert_eq!((refused.outputs, refused.reset_frames), (None, false));
    let resumed = session.activate(true);
    assert_eq!((resumed.outputs, resumed.reset_frames), (Some(3), true));
    assert!(session.draws());
    assert_eq!(session.activate(true).outputs, None);
}

#[test]
fn a_rejected_configuration_is_only_reported() {
    let mut session = SeatSession {
        paused: true,
        pending_outputs: None,
    };
    assert_eq!(
        apply_runtime_config(&mut session, false, 4),
        vec![ReloadStep::ShowError]
    );
    assert_eq!(session.pending_outputs, None);
    assert_eq!(
        apply_runtime_config(&mut session, true, 4),
        vec![
            ReloadStep::ApplyCommon,
            ReloadStep::ReloadInputDevices,
            ReloadStep::ConfigureOutputs(OutputConfigStep::Defer),
            ReloadStep::RunAutostart,
            ReloadStep::ClearError,
        ]
    );
    assert_eq!(session.pending_outputs, Some(4));
}

#[test]
fn frames_are_reported_with_the_time_of_the_display() {
    assert_eq!(
        presentation_time(Some(FrameTime::Monotonic(at(5)))),
        Some(at(5))
    );
    assert_eq!(
        presentation_time(Some(FrameTime::Monotonic(Duration::zero()))),
        None
    );
    assert_eq!(presentation_time(Some(FrameTime::Realtime)), None);
    assert_eq!(presentation_time(None), None);
    assert_eq!(
        presentation_report(Some(FrameTime::Monotonic(at(5))), Some(7), Some(60_000)),
        PresentationReport {
            time: Some(at(5)),
            sequence: 7,
            hardware: true,
            refresh_mhz: Some(60_000),
        }
    );
    assert_eq!(
        presentation_report(None, None, None),
        PresentationReport {
            time: None,
            sequence: 0,
            hardware: false,
            refresh_mhz: None,
        }
    );
}

#[test]
fn only_what_is_shown_may_draw_again() {
    let facts = VblankFacts {
        enabled: true,
        submitted: true,
        lock_generation: None,
        locked: false,
        apogee_active: false,
        preview_due: false,
    };
    assert_eq!(
        on_vblank(facts),
        vec![
            VblankStep::ReportPresentation,
            VblankStep::WindowFrames,
            VblankStep::LayerFrames,
            VblankStep::CursorFrame,
            VblankStep::Refresh,
        ]
    );
    assert_eq!(
        on_vblank(VblankFacts {
            lock_generation: Some(9),
            locked: true,
            ..facts
        }),
        vec![
            VblankStep::LockPresented(9),
            VblankStep::ReportPresentation,
            VblankStep::LockFrames,
            VblankStep::LayerFrames,
            VblankStep::CursorFrame,
            VblankStep::Refresh,
        ]
    );
    assert!(!on_vblank(VblankFacts {
        apogee_active: true,
        ..facts
    })
    .contains(&VblankStep::WindowFrames));
    assert!(on_vblank(VblankFacts {
        apogee_active: true,
        preview_due: true,
        ..facts
    })
    .contains(&VblankStep::PreviewFrames));
    assert!(on_vblank(VblankFacts {
        enabled: false,
        ..facts
    })
    .is_empty());
}

#[test]
fn changed_outputs_are_followed_one_by_one() {
    let change = OutputChange {
        output: 1,
        mode_changed: true,
        layout_changed: true,
        size_changed: true,
        mapped: true,
    };
    assert_eq!(
        apply_tty_output_config(&vec![
            change,
            OutputChange {
                output: 2,
                mode_changed: false,
                layout_changed: false,
                size_changed: true,
                mapped: false,
            },
        ]),
        vec![
            OutputStep::ReplaceClock(1),
            OutputStep::MapOutput(1),
            OutputStep::ResetCamera(1),
            OutputStep::Redraw(1),
            OutputStep::RefreshLayout,
            OutputStep::RefreshSession,
        ]
    );
    assert!(apply_tty_output_config(&vec![]).is_empty());
}

#[test]
fn what_moves_asks_for_the_next_frame() {
    assert!(!animating(still()));
    assert!(!animating(Motion {
        cursor_animated: true,
        ..still()
    }));
    assert!(animating(Motion {
        cursor_animated: true,
        cursor_shown: true,
        ..still()
    }));
    assert!(animating(Motion {
        pending_icons: true,
        ..still()
    }));
    let growing = Motion {
        maximize: true,
        ..still()
    };
    assert_eq!(pointer_updates(growing, true, true), 2);
    assert_eq!(pointer_updates(growing, true, false), 1);
    assert_eq!(pointer_updates(growing, false, true), 0);
    assert_eq!(pointer_updates(still(), true, true), 1);
}

fn drawn(status: RenderStatus) -> RenderResult {
    RenderResult::Drawn {
        status,
        states_known: true,
    }
}

#[test]
fn a_frame_that_could_not_be_drawn_is_skipped() {
    let mut state = OutputFrameState::new(at(10));
    state.queue_redraw();
    let failed = redraw_output(
        &mut state,
        RenderResult::Failed,
        true,
        true,
        still(),
        at(20),
        at(25),
    );
    assert_eq!(
        failed.steps,
        [RedrawStep::SyncKeyboard, RedrawStep::UpdatePointer]
    );
    assert_eq!(failed.arm, Some(at(5)));
    let mut state = OutputFrameState::new(at(10));
    state.queue_redraw();
    let shown = redraw_output(
        &mut state,
        drawn(RenderStatus::Submitted),
        true,
        true,
        still(),
        at(20),
        at(25),
    );
    assert_eq!(
        shown.steps,
        [
            RedrawStep::SyncKeyboard,
            RedrawStep::UpdatePointer,
            RedrawStep::SendFeedback
        ]
    );
    assert_eq!(shown.arm, None);
}

#[test]
fn one_event_follows_every_frame() {
    let mut state = OutputFrameState::new(at(10));
    state.queue_redraw();
    let follow_up = redraw_output(
        &mut state,
        drawn(RenderStatus::Skipped),
        false,
        true,
        still(),
        at(20),
        at(25),
    );
    assert!(follow_up.remove.is_none());
    assert_eq!(follow_up.arm, Some(at(5)));
    let timer = token();
    state.timer_armed(timer);
    state.queue_redraw();
    let follow_up = redraw_output(
        &mut state,
        drawn(RenderStatus::Submitted),
        false,
        false,
        Motion {
            camera: true,
            ..still()
        },
        at(26),
        at(41),
    );
    assert_eq!(follow_up.remove, Some(timer));
    assert_eq!(follow_up.arm, None);
    assert!(state.on_vblank().is_none());
    assert!(state.is_redraw_queued());
}

#[test]
fn every_output_starts_over() {
    let timer = token();
    let mut waiting = OutputFrameState::new(at(10));
    waiting.queue_redraw();
    redraw_output(
        &mut waiting,
        drawn(RenderStatus::Skipped),
        false,
        true,
        still(),
        at(20),
        at(36),
    );
    waiting.timer_armed(timer);
    let mut submitted = OutputFrameState::new(at(10));
    submitted.queue_redraw();
    submitted.frame_submitted(true);
    let mut queued = OutputFrameState::new(at(10));
    queued.queue_redraw();
    let mut frames = vec![waiting, submitted, queued];
    assert_eq!(redraw_queued_outputs(&frames), vec![2]);
    assert_eq!(reset_redraw_state(&mut frames, at(50)), vec![timer]);
    assert_eq!(redraw_queued_outputs(&frames), vec![0, 1, 2]);
    assert!(frames.iter().all(|frame| frame.last_camera_sample == at(50)));
}

#[test]
fn cameras_move_by_the_time_between_frames() {
    let mut state = OutputFrameState::new(at(10));
    assert_eq!(state.next_frame_sample(at(26)), at(16));
    assert_eq!(state.next_frame_sample(at(26)), at(0));
    state.replace_clock(at(100));
    assert_eq!(state.next_frame_sample(at(116)), at(16));
}

#[test]
fn a_nested_session_follows_its_window() {
    let mut session = WinitSession { exit: false };
    assert_eq!(
        session.on_event(WinitEvent::Resized),
        vec![
            WinitStep::UpdateMode,
            WinitStep::ResetCamera,
            WinitStep::ReconfigureFullscreen,
            WinitStep::UpdatePointer,
            WinitStep::RequestRedraw,
        ]
    );
    assert_eq!(
        session.on_event(WinitEvent::Input),
        vec![WinitStep::HandleInput]
    );
    assert!(session.on_event(WinitEvent::Focus).is_empty());
    assert!(!session.exit);
    assert!(session.on_event(WinitEvent::CloseRequested).is_empty());
    assert!(session.exit);
    assert_eq!(
        begin_frame(true, true),
        vec![
            WinitStep::UpdatePointer,
            WinitStep::UpdatePointer,
            WinitStep::RefreshCursor,
            WinitStep::Render,
        ]
    );
    assert_eq!(
        finish_frame(false, still()),
        vec![
            WinitStep::WindowFrames,
            WinitStep::LayerFrames,
            WinitStep::CursorFrame,
            WinitStep::Refresh,
            WinitStep::Cleanup,
        ]
    );
    assert_eq!(
        finish_frame(
            true,
            Motion {
                windows: true,
                ..still()
            }
        ),
        vec![
            WinitStep::WindowFrames,
            WinitStep::LayerFrames,
            WinitStep::CursorFrame,
            WinitStep::Refresh,
            WinitStep::Cleanup,
            WinitStep::SyncKeyboard,
            WinitStep::UpdatePointer,
            WinitStep::RequestRedraw,
        ]
    );
}

#[test]
fn the_timer_that_hides_the_cursor_is_replaced() {
    let mut policy = Policy::default();
    let first = policy.apply_timer(TimerDirective::Arm {
        generation: 1,
        delay: at(500),
    });
    assert!(first.remove.is_none());
    assert_eq!(first.arm, Some((1, at(500))));
    let timer = token();
    policy.visibility_armed(timer);
    let kept = policy.apply_timer(TimerDirective::Keep);
    assert!(kept.remove.is_none() && kept.arm.is_none());
    let second = policy.apply_timer(TimerDirective::Arm {
        generation: 2,
        delay: at(700),
    });
    assert_eq!(second.remove, Some(timer));
    policy.visibility_armed(timer);
    policy.visibility_expired();
    assert!(policy.apply_timer(TimerDirective::Disarm).remove.is_none());
}

#[test]
fn only_the_last_image_of_a_cursor_is_drawn() {
    let mut policy = Policy::default();
    let first = policy.schedule_animation(Some(Duration::from_nanos(5)));
    assert_eq!(first.arm, Some((1, at(1))));
    let timer = token();
    policy.animation_armed(timer);
    let second = policy.schedule_animation(Some(at(40)));
    assert_eq!(second.remove, Some(timer));
    assert_eq!(second.arm, Some((2, at(40))));
    assert!(!policy.animation_expired(1));
    assert!(policy.animation_expired(2));
    assert!(policy.schedule_animation(None).arm.is_none());
    assert!(!policy.animation_expired(2));
}
