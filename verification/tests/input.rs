use std::collections::HashMap;

use halley_session::geometry::Size;
use halley_session::ids::SurfaceId;
use halley_session::session::gesture::{
    begin, begin_route, client_route, end, modifier_forces, owner_is_current, swipe_pans, update,
    AxisEvent, AxisStep, BeginStep, GestureKind, GestureModifier, GestureRoots, GestureScope,
    GestureState, GestureStep, RouteChoice, RouteFacts, RoutePolicy, Sequence,
};
use halley_session::session::input::actions::{
    dispatch, window_action_output, Action, Command, DispatchFacts, FocusCycleDirection, FocusMode,
    Heading, SharedEffect,
};
use halley_session::session::input::buttons::{press_step, ButtonLadder, PointerTarget, PressStep, Taker};
use halley_session::session::input::handle::{
    handle, handle_axis, handle_moved, AxisStage, HandleStage,
};
use halley_session::session::input::keyboard::{
    begin_key, capture_key_routing, route_key, CaptureKeyRouting, Key, KeyFacts, KeyRoute,
    KeyState, KeyStep, KeyboardOutcome,
};
use halley_session::session::input::pointer::{
    shortcut_policy_allows_bindings, ButtonState, DragFacts, InputEvent, ModalPointer, BTN_LEFT, BTN_RIGHT,
};
use halley_session::session::input::repeat::{
    repeat_allowed, repeat_interval, Policy, RepeatBind, RepeatFacts, Tracker,
};
use halley_session::session::interaction::{Grab, InteractionState, WheelAccumulator};
use halley_session::session::output::Transform;
use halley_session::session::pointer::constraints::Position;
use halley_session::session::pointer::ConstrainedMotion;
use halley_session::session::suppressed::SuppressedCodes;
use halley_session::session::touch::{
    touch_extent, touchscreen_output, ButtonTarget, CoordinateSpace, DownFocus, DownOutcome, MotionOutcome,
    TouchHit, TouchRoute, TouchSlot, TouchState, TouchTarget, UpOutcome,
};
use halley_session::time::Duration;

#[test]
fn shortcut_policy_respects_shell_and_client_inhibition() {
    assert!(shortcut_policy_allows_bindings(false, false));
    assert!(!shortcut_policy_allows_bindings(true, false));
    assert!(!shortcut_policy_allows_bindings(false, true));
    assert!(!shortcut_policy_allows_bindings(true, true));
}

#[test]
fn window_actions_follow_pointer_only_in_hover_mode() {
    assert_eq!(
        window_action_output(FocusMode::Hover, Some("right"), Some("left")),
        Some("right".to_string())
    );
    assert_eq!(
        window_action_output(FocusMode::Click, Some("right"), Some("left")),
        Some("left".to_string())
    );
    assert_eq!(
        window_action_output(FocusMode::Hover, None, Some("left")),
        Some("left".to_string())
    );
}

#[test]
fn modal_releases_retire_preexisting_forwarded_keys() {
    assert_eq!(
        capture_key_routing(true, KeyState::Released, false),
        CaptureKeyRouting::RetireUnfocusedRelease
    );
    assert_eq!(
        capture_key_routing(false, KeyState::Released, true),
        CaptureKeyRouting::SuppressRelease
    );
    assert_eq!(
        capture_key_routing(true, KeyState::Pressed, false),
        CaptureKeyRouting::Evaluate
    );
}

fn dispatch_facts() -> DispatchFacts {
    DispatchFacts {
        focus_mode: FocusMode::Click,
        output_name: Some("right".to_string()),
        selected_output: Some("left".to_string()),
        pointer_clustered: false,
        action_clustered: false,
        camera: true,
        held_keycode: None,
        watched: true,
    }
}

#[test]
fn actions_are_about_the_output_that_is_selected() {
    match dispatch(Action::CloseFocusedWindow, None, &dispatch_facts()).command {
        Command::CloseFocused { output } => assert_eq!(output.as_deref(), Some("left")),
        other => panic!("{other:?}"),
    }
    assert!(matches!(
        dispatch(Action::Quit, None, &dispatch_facts()).command,
        Command::ShowExitConfirmation
    ));
    assert!(matches!(
        dispatch(Action::Reload, None, &dispatch_facts()).command,
        Command::RequestReload
    ));
    match dispatch(Action::OpenTerminal, Some("foot"), &dispatch_facts()).effect {
        SharedEffect::Launch(command) => assert_eq!(command, "foot"),
        other => panic!("{other:?}"),
    }
    assert!(matches!(
        dispatch(Action::OpenTerminal, None, &dispatch_facts()).effect,
        SharedEffect::NoTerminal
    ));
}

fn key_facts(state: KeyState) -> KeyFacts {
    KeyFacts {
        state,
        release_is_suppressed: false,
        symbol: Some(Key::Escape),
        modified: Key::Escape,
        character: None,
        binding: None,
        exit_modal: false,
        cluster_modal: false,
        show_key_held: false,
        apogee_accepts: false,
        focus_cycle_open: false,
        accessibility_intercepts: false,
        capture_active: false,
        capture_menu: false,
        bindings_enabled: true,
    }
}

#[test]
fn keys_go_to_clients_unless_the_session_asks_for_them() {
    assert!(matches!(
        route_key(key_facts(KeyState::Pressed)).0,
        KeyRoute::Forward
    ));
    let mut asked = key_facts(KeyState::Pressed);
    asked.exit_modal = true;
    assert!(matches!(
        route_key(asked).0,
        KeyRoute::Intercept(KeyboardOutcome::ExitCancel)
    ));
    let mut bound = key_facts(KeyState::Pressed);
    bound.binding = Some(Action::Quit);
    assert!(matches!(
        route_key(bound).0,
        KeyRoute::Intercept(KeyboardOutcome::Action(Action::Quit))
    ));
}

fn in_view() -> DragFacts {
    DragFacts {
        output_known: true,
        camera_known: true,
        output_changed: false,
        physics: false,
        toplevel: true,
    }
}

#[test]
fn events_are_handled_in_order() {
    let mut interaction = InteractionState::default();
    assert_eq!(
        handle(&mut interaction, InputEvent::Keyboard, true, true),
        [HandleStage::NotifyActivity, HandleStage::SessionLock]
    );
    assert_eq!(
        handle(
            &mut interaction,
            InputEvent::PointerButton {
                button: BTN_LEFT,
                state: ButtonState::Pressed
            },
            false,
            true
        ),
        [HandleStage::NotifyActivity]
    );
    assert!(interaction.suppressed_buttons.release_is_suppressed(BTN_LEFT));
    assert_eq!(
        handle(&mut interaction, InputEvent::DeviceAdded, false, false),
        [
            HandleStage::FinishFrame,
            HandleStage::MovePointer,
            HandleStage::Continue
        ]
    );
    assert_eq!(
        handle_moved(
            &mut interaction,
            InputEvent::PointerAxis,
            true,
            false,
            ConstrainedMotion::Apply,
            in_view()
        ),
        [HandleStage::Modal(ModalPointer::CaptureAxis)]
    );
    assert_eq!(
        handle_moved(
            &mut interaction,
            InputEvent::PointerMotion,
            false,
            false,
            ConstrainedMotion::RelativeOnly {
                surface: SurfaceId::new(1)
            },
            in_view()
        ),
        [
            HandleStage::GoBack,
            HandleStage::TellRelative,
            HandleStage::FinishFrame
        ]
    );
    assert_eq!(
        handle_moved(
            &mut interaction,
            InputEvent::PointerAxis,
            false,
            false,
            ConstrainedMotion::Hold,
            in_view()
        ),
        [
            HandleStage::GoBack,
            HandleStage::Redraw,
            HandleStage::Drag,
            HandleStage::Axis
        ]
    );
}

#[test]
fn a_wheel_pans_or_goes_on() {
    assert_eq!(handle_axis(true, true, true), [AxisStage::FinishFrame]);
    assert_eq!(
        handle_axis(false, false, true),
        [
            AxisStage::Route,
            AxisStage::DispatchActions,
            AxisStage::Forward {
                horizontal: false,
                vertical: true
            },
            AxisStage::FinishFrame
        ]
    );
    assert_eq!(
        handle_axis(false, false, false),
        [
            AxisStage::Route,
            AxisStage::DispatchActions,
            AxisStage::FinishFrame
        ]
    );
}

#[test]
fn a_release_is_swallowed_once() {
    let mut keys = SuppressedCodes::default();
    assert_eq!(
        begin_key(&mut keys, 9, KeyState::Pressed, false),
        (vec![KeyStep::KeyboardPress, KeyStep::AskMonitor], false)
    );
    keys.suppress(9);
    assert_eq!(
        begin_key(&mut keys, 9, KeyState::Released, true),
        (vec![KeyStep::StopNameRepeat], true)
    );
    assert!(!begin_key(&mut keys, 9, KeyState::Released, false).1);
}

#[test]
fn a_key_drops_what_was_left_of_a_wheel_step() {
    let mut interaction = InteractionState::default();
    interaction.wheel_accumulator.vertical_bits = 9;
    interaction.grab = Grab::MoveWindow {
        node: None,
        surface: SurfaceId::new(1),
    };
    let blind = DragFacts {
        camera_known: false,
        ..in_view()
    };
    let key = |interaction: &mut InteractionState, facts: DragFacts| {
        handle_moved(
            interaction,
            InputEvent::Keyboard,
            true,
            true,
            ConstrainedMotion::Apply,
            facts,
        )
    };
    assert_eq!(
        key(&mut interaction, blind),
        [HandleStage::Redraw, HandleStage::Drag]
    );
    assert_eq!(interaction.wheel_accumulator.vertical_bits, 9);
    assert_eq!(
        key(&mut interaction, in_view()),
        [
            HandleStage::Redraw,
            HandleStage::Drag,
            HandleStage::Keyboard
        ]
    );
    assert_eq!(interaction.wheel_accumulator, WheelAccumulator::default());
    interaction.grab = Grab::ResizeWindow {
        surface: SurfaceId::new(1),
        button: BTN_LEFT,
    };
    let unseen = DragFacts {
        output_known: false,
        ..in_view()
    };
    assert_eq!(
        key(&mut interaction, unseen),
        [HandleStage::Redraw, HandleStage::Drag]
    );
}

#[test]
fn a_button_goes_to_the_first_that_takes_it() {
    let mut buttons = SuppressedCodes::default();
    let mut ladder = ButtonLadder::new(BTN_LEFT, ButtonState::Pressed, false);
    let first = ladder.taker;
    ladder.answer(false, &mut buttons);
    assert_ne!(ladder.taker, first);
    ladder.answer(true, &mut buttons);
    assert!(ladder.intercepted);
    assert!(buttons.release_is_suppressed(BTN_LEFT));

    let mut refused = ButtonLadder::new(BTN_RIGHT, ButtonState::Pressed, false);
    while refused.taker != Taker::Client && refused.taker != Taker::Done {
        refused.answer(false, &mut buttons);
    }
    assert_eq!(refused.taker, Taker::Client);
    assert!(!refused.intercepted);
}

#[test]
fn a_held_modifier_moves_and_resizes_windows() {
    let window = PointerTarget::Window {
        surface: SurfaceId::new(3),
        grabbable: true,
    };
    assert_eq!(
        press_step(BTN_LEFT, Some(window), true),
        PressStep::BeginMove(SurfaceId::new(3))
    );
    assert_eq!(
        press_step(BTN_RIGHT, Some(window), true),
        PressStep::BeginResize(SurfaceId::new(3))
    );
    assert_eq!(
        press_step(BTN_LEFT, Some(window), false),
        PressStep::FocusWindow(SurfaceId::new(3))
    );
}

fn policy() -> RoutePolicy {
    RoutePolicy {
        behavior_enabled: true,
        client_available: true,
        client_passthrough: true,
        scope: GestureScope::EmptyField,
        modifier_forces: false,
        client_forced: false,
        blocked: false,
    }
}

#[test]
fn app_surface_owns_an_unmodified_empty_field_gesture() {
    assert_eq!(policy().decide(), RouteChoice::Client);
}

#[test]
fn field_modifier_and_global_scope_route_to_the_compositor() {
    assert_eq!(
        RoutePolicy {
            client_available: false,
            ..policy()
        }
        .decide(),
        RouteChoice::Compositor
    );
    assert_eq!(
        RoutePolicy {
            modifier_forces: true,
            ..policy()
        }
        .decide(),
        RouteChoice::Compositor
    );
    assert_eq!(
        RoutePolicy {
            scope: GestureScope::Global,
            ..policy()
        }
        .decide(),
        RouteChoice::Compositor
    );
}

#[test]
fn client_constraint_or_grab_always_has_first_refusal() {
    assert_eq!(
        RoutePolicy {
            client_forced: true,
            modifier_forces: true,
            scope: GestureScope::Global,
            ..policy()
        }
        .decide(),
        RouteChoice::Client
    );
}

#[test]
fn compositor_modal_grabs_ignore_new_gestures() {
    assert_eq!(
        RoutePolicy {
            blocked: true,
            ..policy()
        }
        .decide(),
        RouteChoice::Ignored
    );
}

#[test]
fn disabled_behavior_falls_through_only_to_available_clients() {
    assert_eq!(
        RoutePolicy {
            behavior_enabled: false,
            ..policy()
        }
        .decide(),
        RouteChoice::Client
    );
    assert_eq!(
        RoutePolicy {
            behavior_enabled: false,
            client_available: false,
            ..policy()
        }
        .decide(),
        RouteChoice::Ignored
    );
}

#[test]
fn disabling_client_passthrough_does_not_steal_an_app_gesture() {
    assert_eq!(
        RoutePolicy {
            client_passthrough: false,
            ..policy()
        }
        .decide(),
        RouteChoice::Ignored
    );
}

#[test]
fn ignored_routes_never_claim_client_ownership() {
    assert!(!matches!(Sequence::Ignored, Sequence::Client(_)));
    assert!(!owner_is_current(&Sequence::Ignored, Some(SurfaceId::new(1))));
    assert!(matches!(
        client_route(true, false, Some(SurfaceId::new(1))),
        Sequence::Ignored
    ));
    assert!(matches!(
        client_route(true, true, Some(SurfaceId::new(1))),
        Sequence::Client(_)
    ));
}

#[test]
fn held_things_block_gestures() {
    let facts = RouteFacts {
        gestures_enabled: true,
        client_passthrough: true,
        modifier_forces: false,
        capture_active: false,
        constrained: false,
        pointer_grabbed: false,
        owner: None,
    };
    assert_eq!(
        begin_route(facts, &Grab::Idle, true, GestureScope::EmptyField),
        RouteChoice::Compositor
    );
    let pan = Grab::Pan {
        output: "DP-1".to_string(),
    };
    assert_eq!(
        begin_route(facts, &pan, true, GestureScope::EmptyField),
        RouteChoice::Ignored
    );
    assert!(modifier_forces(GestureModifier::Explicit, false, true));
    assert!(!modifier_forces(GestureModifier::Disabled, true, true));
    assert!(swipe_pans(3, 3));
    assert!(!swipe_pans(0, 0));
}

#[test]
fn a_gesture_that_lost_its_client_stays_ignored() {
    let mut slot = None;
    let owner = SurfaceId::new(7);
    assert_eq!(
        begin(&mut slot, RouteChoice::Client, Some(owner), None),
        BeginStep::TellClient
    );
    assert_eq!(update(&mut slot, Some(owner), false), GestureStep::TellClient);
    assert_eq!(update(&mut slot, None, false), GestureStep::Nothing);
    assert_eq!(update(&mut slot, Some(owner), false), GestureStep::Nothing);
    assert_eq!(end(&mut slot, Some(owner), false), GestureStep::Nothing);
    assert!(slot.is_none());

    assert_eq!(
        begin(&mut slot, RouteChoice::Compositor, None, Some("DP-1")),
        BeginStep::HoldCamera
    );
    assert_eq!(update(&mut slot, None, true), GestureStep::MoveCamera);
    assert_eq!(end(&mut slot, None, true), GestureStep::MoveCamera);
}

#[test]
fn cancelling_tells_the_clients_that_still_have_the_pointer() {
    let owner = SurfaceId::new(7);
    let mut state = GestureState::default();
    state.swipe = Some(Sequence::Client(owner));
    state.hold = Some(Sequence::Client(SurfaceId::new(8)));
    let roots = GestureRoots {
        swipe: Some(SurfaceId::new(1)),
        pinch: None,
        hold: Some(SurfaceId::new(8)),
    };
    assert!(state.cancel_surface(roots, SurfaceId::new(1)));
    assert!(!state.cancel_surface(roots, SurfaceId::new(2)));
    assert_eq!(state.cancel_all(Some(owner)), [GestureKind::Swipe]);
    assert!(state.swipe.is_none() && state.hold.is_none());
}

#[test]
fn two_fingers_pan_until_both_axes_rest() {
    let event = |horizontal: Option<f64>, vertical: Option<f64>| AxisEvent {
        finger: true,
        horizontal: horizontal.map(f64::to_bits),
        vertical: vertical.map(f64::to_bits),
    };
    let mut state = GestureState::default();
    assert_eq!(
        state.handle_axis_pan(event(Some(0.0), Some(-0.0)), true, true),
        AxisStep::Pass
    );
    let start = event(Some(2.0), None);
    assert_eq!(state.handle_axis_pan(start, false, true), AxisStep::Pass);
    assert_eq!(state.handle_axis_pan(start, true, true), AxisStep::Route);
    assert!(!state.start_axis_pan(start, RouteChoice::Client, Some("DP-1")));
    assert!(state.start_axis_pan(start, RouteChoice::Compositor, Some("DP-1")));
    assert_eq!(
        state.handle_axis_pan(event(None, Some(1.0)), true, true),
        AxisStep::Pan
    );
    assert_eq!(
        state.handle_axis_pan(event(Some(0.0), None), true, true),
        AxisStep::Pan
    );
    assert_eq!(
        state.handle_axis_pan(event(None, Some(0.0)), true, true),
        AxisStep::Swallow
    );
    assert!(state.axis_pan.is_none());
}

fn bind(repeat: bool) -> RepeatBind {
    RepeatBind {
        action: Action::MoveNode(Heading::Left),
        repeat,
    }
}

#[test]
fn repeat_waits_for_delay_then_uses_configured_rate() {
    let mut tracker = Tracker::default();
    let (generation, delay) = tracker.start(113, bind(true), 500, 20).unwrap();
    assert_eq!(delay, Duration::from_millis(500));
    let interval = tracker.tick(generation, true).unwrap();
    assert_eq!(interval, Duration::from_millis(50));
}

#[test]
fn disabled_or_non_repeating_bind_never_arms() {
    let mut tracker = Tracker::default();
    assert!(tracker.start(113, bind(false), 500, 30).is_none());
    assert!(tracker.start(113, bind(true), 500, 0).is_none());
}

#[test]
fn release_modifier_change_and_replacement_retire_repeat() {
    let mut tracker = Tracker::default();
    let (first, _) = tracker.start(113, bind(true), 500, 30).unwrap();
    assert!(tracker.tick(first, false).is_none());

    let (second, _) = tracker.start(113, bind(true), 500, 30).unwrap();
    assert!(!tracker.release(114));
    assert!(tracker.release(113));
    assert!(tracker.tick(second, false).is_none());

    let (third, _) = tracker.start(113, bind(true), 500, 30).unwrap();
    let (fourth, _) = tracker.start(114, bind(true), 500, 30).unwrap();
    assert!(tracker.tick(third, true).is_none());
    assert!(tracker.tick(fourth, true).is_some());
}

#[test]
fn repeat_intervals_are_rounded_as_doubles_are() {
    for rate in [1, 3, 7, 30, 33, 512, 1024, 2048, 16_000_000, 80_000_000, i32::MAX] {
        let expected = std::time::Duration::from_secs_f64(1.0 / f64::from(rate));
        assert_eq!(repeat_interval(rate).nanos, expected.as_nanos());
    }
    assert_eq!(repeat_interval(-5).nanos, 1_000_000_000);
}

#[test]
fn the_timer_of_a_repeat_runs_a_millisecond_at_least() {
    let facts = RepeatFacts {
        locked: false,
        bindings_enabled: true,
        focus_cycle_open: true,
        confirmation_active: false,
        capture_active: false,
        apogee_accepts: false,
        cluster_modal: false,
    };
    let step = Action::FocusCycle(FocusCycleDirection::Forward);
    assert!(repeat_allowed(facts, &step));
    assert!(!repeat_allowed(facts, &Action::ZoomIn));

    let mut keys = Policy::default();
    let timer = keys.start(113, bind(true), -3, 20);
    let (generation, delay) = timer.arm.unwrap();
    assert_eq!(delay, Duration::from_millis(1));
    assert_eq!(keys.repeat_tick(generation, true, facts, true), None);
    assert!(keys.tracker.active.is_none());

    let mut open = facts;
    open.focus_cycle_open = false;
    let (generation, _) = keys.start(113, bind(true), 400, 20).arm.unwrap();
    assert_eq!(
        keys.repeat_tick(generation, true, open, true),
        Some(Duration::from_millis(50))
    );
    assert_eq!(keys.repeat_tick(generation, true, open, false), None);

    let (replaced, _) = keys.start(113, bind(true), 400, 20).arm.unwrap();
    let (current, _) = keys.start(114, bind(true), 400, 20).arm.unwrap();
    assert_eq!(current, replaced + 2);
    assert_eq!(keys.repeat_tick(replaced, true, open, true), None);
    assert!(keys.repeat_tick(current, true, open, true).is_some());
    keys.cancel();
    assert_eq!(keys.tracker.generation, current + 1);
}

#[test]
fn touch_state_pairs_slots_and_cancels_a_surface_as_one_sequence() {
    let mut state = TouchState::default();
    assert!(!state.finish(TouchSlot { id: None }));
    assert!(!state.clear());
}

#[test]
fn all_wayland_output_transforms_have_an_inverse() {
    for transform in [
        Transform::Normal,
        Transform::_90,
        Transform::_180,
        Transform::_270,
        Transform::Flipped,
        Transform::Flipped90,
        Transform::Flipped180,
        Transform::Flipped270,
    ] {
        assert_eq!(transform.invert().invert(), transform);
    }
    assert_eq!(
        Transform::_90.transform_size(Size::new(3, 5)),
        Size::new(5, 3)
    );
    assert_eq!(
        touch_extent(Transform::_270, Size::new(3, 5)),
        Size::new(5, 3)
    );
    assert_eq!(
        Transform::Flipped180.transform_size(Size::new(3, 5)),
        Size::new(3, 5)
    );
}

fn place(x: f64, y: f64) -> Option<Position> {
    Some(Position {
        x_bits: x.to_bits(),
        y_bits: y.to_bits(),
    })
}

#[test]
fn a_touch_stays_with_its_client() {
    let slot = TouchSlot { id: Some(0) };
    let other = TouchSlot { id: None };
    let window = TouchRoute {
        hit: TouchHit::Window,
        focus: Some((SurfaceId::new(5), SurfaceId::new(1))),
    };
    let mut state = TouchState::default();
    assert_eq!(
        state.down(slot, true, place(1.0, 2.0), Some(window), true),
        DownOutcome::Touched {
            focus: DownFocus::Window,
            press: None,
            deliver: Some(SurfaceId::new(5))
        }
    );
    assert!(state.frame(true));
    assert_eq!(
        state.motion(slot, true, place(2.0, 2.0), None, true),
        MotionOutcome::Deliver(CoordinateSpace::Window(SurfaceId::new(1)))
    );
    assert_eq!(
        state.motion(slot, true, place(2.0, 2.0), None, false),
        MotionOutcome::Cancel
    );
    assert_eq!(
        state.motion(other, true, place(2.0, 2.0), None, true),
        MotionOutcome::Nothing
    );
    let mut roots = HashMap::new();
    roots.insert(5, SurfaceId::new(1));
    assert!(state.has_surface(SurfaceId::new(1), &roots));
    assert!(!state.has_surface(SurfaceId::new(2), &roots));
    assert_eq!(state.up(other, true, None), UpOutcome::Nothing);
    assert_eq!(state.up(slot, true, None), UpOutcome::Deliver);
    assert_eq!(state.up(slot, true, None), UpOutcome::Nothing);
    assert!(!state.frame(true));
}

#[test]
fn a_titlebar_control_is_used_where_the_finger_goes_up_on_it() {
    let slot = TouchSlot { id: Some(2) };
    let control = ButtonTarget {
        window: 9,
        surface: Some(SurfaceId::new(9)),
        control: 1,
    };
    let on = TouchRoute {
        hit: TouchHit::Decoration(Some((control, true))),
        focus: None,
    };
    let mut state = TouchState::default();
    assert_eq!(
        state.down(slot, true, place(1.0, 1.0), Some(on), true),
        DownOutcome::Touched {
            focus: DownFocus::Window,
            press: Some(control),
            deliver: None
        }
    );
    assert_eq!(
        state.motion(slot, true, place(8.0, 1.0), None, true),
        MotionOutcome::Press(None)
    );
    assert_eq!(state.decoration(slot).unwrap().screen, place(8.0, 1.0).unwrap());
    assert!(state.has_surface(SurfaceId::new(9), &HashMap::new()));
    assert_eq!(
        state.up(slot, true, Some(on)),
        UpOutcome::Release {
            target: control,
            activates: true
        }
    );
    assert!(!state.clear());
}

#[test]
fn a_locked_screen_takes_touches_of_its_own() {
    let slot = TouchSlot { id: Some(2) };
    let mut state = TouchState::default();
    assert!(!state.lock_down(slot, true, place(0.0, 0.0), None));
    assert!(!state.lock_motion(slot, true, place(0.0, 0.0)));
    assert!(state.lock_down(slot, true, place(0.0, 0.0), Some(SurfaceId::new(4))));
    assert!(state.lock_motion(slot, true, place(0.0, 0.0)));
    assert!(state.lock_up(slot, true));
    assert!(!state.lock_up(slot, true));
    state.begin(
        slot,
        TouchTarget {
            surface: SurfaceId::new(4),
            coordinates: CoordinateSpace::Screen,
        },
    );
    assert!(state.clear());
}

#[test]
fn touchscreens_are_mapped_by_name() {
    let names = vec!["DP-1".to_string(), "eDP-1".to_string()];
    assert_eq!(touchscreen_output(Some("eDP-1"), &names), Some(1));
    assert_eq!(touchscreen_output(Some("DP-9"), &names), None);
    assert_eq!(touchscreen_output(None, &names), None);
}

#[test]
fn presses_that_were_taken_are_released_once() {
    let mut codes = SuppressedCodes::default();
    codes.suppress(30);
    assert!(codes.release_is_suppressed(30));
    assert!(!codes.release_is_suppressed(30));
}
