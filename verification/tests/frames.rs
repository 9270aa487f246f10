use calloop::timer::{TimeoutAction, Timer};
use calloop::{EventLoop, RegistrationToken};
use halley_session::session::tty::frame::{EstimatedVblankTimer, OutputFrameState};
use halley_session::session::tty::sleep::{sleep_event, SleepEvent};
use halley_session::session::tty::vt::{target_from_keycode, ModifiersState};
use halley_session::time::Duration;

fn state() -> OutputFrameState {
    OutputFrameState::new(Duration::from_millis(10))
}

fn registration_token() -> RegistrationToken {
    let event_loop = EventLoop::<()>::try_new().expect("test event loop");
    event_loop
        .handle()
        .insert_source(Timer::immediate(), |_, _, _| TimeoutAction::Drop)
        .expect("test timer")
}

#[test]
fn queued_requests_are_idempotent() {
    let mut state = state();
    state.queue_redraw();
    state.queue_redraw();

    assert!(state.is_redraw_queued());
}

#[test]
fn request_while_waiting_for_vblank_is_not_lost() {
    let mut state = state();
    state.queue_redraw();
    assert!(state.frame_submitted(false).is_none());

    state.queue_redraw();
    assert!(state.on_vblank().is_none());
    assert!(state.is_redraw_queued());
}

#[test]
fn unfinished_animation_requests_the_next_real_frame() {
    let mut state = state();
    state.queue_redraw();
    state.frame_submitted(true);

    assert!(state.on_vblank().is_none());
    assert!(state.is_redraw_queued());
}

#[test]
fn settled_frame_returns_to_idle_after_vblank() {
    let mut state = state();
    state.queue_redraw();
    state.frame_submitted(false);

    assert!(state.on_vblank().is_none());
    assert!(!state.is_redraw_queued());
}

#[test]
fn skipped_frame_arms_a_nonzero_fallback_delay() {
    let mut state = state();
    state.queue_redraw();

    match state.frame_skipped(false, Duration::from_secs(5), Duration::from_millis(10)) {
        EstimatedVblankTimer::ArmAfter(delay) => assert_eq!(delay, Duration::from_millis(1)),
        EstimatedVblankTimer::AlreadyArmed => panic!("no timer was armed"),
    }
}

#[test]
fn estimated_vblank_releases_callbacks_after_a_settled_skipped_frame() {
    let mut state = state();
    state.queue_redraw();
    state.frame_skipped(false, Duration::from_secs(5), Duration::from_secs(5));
    state.timer_armed(registration_token());

    assert!(matches!(state.estimated_vblank_fired(), Ok(true)));
    assert!(!state.is_redraw_queued());
}

#[test]
fn redraw_queued_during_estimated_wait_takes_precedence_over_callbacks() {
    let mut state = state();
    state.queue_redraw();
    state.frame_skipped(false, Duration::from_secs(5), Duration::from_secs(5));
    state.timer_armed(registration_token());
    state.queue_redraw();

    assert!(matches!(state.estimated_vblank_fired(), Ok(false)));
    assert!(state.is_redraw_queued());
}

#[test]
fn suspended_output_ignores_redraws_and_late_vblanks_until_resume() {
    let mut state = state();
    state.queue_redraw();
    state.frame_submitted(false);
    state.suspend(Duration::from_secs(1));

    state.queue_redraw();
    assert!(!state.is_redraw_queued());
    assert!(state.on_vblank().is_none());
    assert!(!state.is_redraw_queued());

    state.resume(Duration::from_secs(2));
    assert!(state.is_redraw_queued());
}

#[test]
fn a_timer_that_waits_is_handed_back_when_a_frame_is_shown() {
    let mut state = state();
    let token = registration_token();
    state.queue_redraw();
    state.frame_skipped(false, Duration::from_secs(5), Duration::from_secs(6));
    state.timer_armed(token);
    state.queue_redraw();
    assert!(state.frame_submitted(false) == Some(token));
    assert!(state.estimated_vblank_fired().is_err());
}

fn ctrl_alt() -> ModifiersState {
    ModifiersState {
        ctrl: true,
        alt: true,
    }
}

#[test]
fn ctrl_alt_function_keys_map_to_all_twelve_vts() {
    let expected = [
        (67, 1),
        (68, 2),
        (69, 3),
        (70, 4),
        (71, 5),
        (72, 6),
        (73, 7),
        (74, 8),
        (75, 9),
        (76, 10),
        (95, 11),
        (96, 12),
    ];

    for (keycode, vt) in expected {
        assert_eq!(target_from_keycode(keycode, true, ctrl_alt()), Some(vt));
    }
}

#[test]
fn release_and_incomplete_chords_do_not_switch() {
    assert_eq!(target_from_keycode(67, false, ctrl_alt()), None);
    assert_eq!(
        target_from_keycode(
            67,
            true,
            ModifiersState {
                ctrl: true,
                alt: false,
            },
        ),
        None
    );
    assert_eq!(
        target_from_keycode(
            67,
            true,
            ModifiersState {
                ctrl: false,
                alt: true,
            },
        ),
        None
    );
}

#[test]
fn ctrl_alt_non_function_key_is_ignored() {
    assert_eq!(target_from_keycode(38, true, ctrl_alt()), None);
}

#[test]
fn the_system_tells_when_it_sleeps_and_wakes() {
    assert!(matches!(sleep_event(true), SleepEvent::Preparing));
    assert!(matches!(sleep_event(false), SleepEvent::Resumed));
}
