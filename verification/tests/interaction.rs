use halley_session::geometry::{Point, Rectangle, Size};
use halley_session::ids::{ClusterId, NodeId, SurfaceId};
use halley_session::session::input::actions::{
    cluster_blocks_zoom, dispatch_action, focus_cycle_step, is_zoom_action, window_available,
    Action, FocusCycleDirection, FocusCycleStep, SessionControl, SharedEffect, StackCycleOutcome,
};
use halley_session::session::input::buttons::{
    begin_button, begin_pointer_move, press_node, press_takes, release_left, released_window,
    sync_cluster_activation_focus, ActivationFocus, ButtonFacts, ButtonStage, LeftRelease, MoveFacts, MoveStep, PressStep,
    ReleasedWindow,
    Taker,
};
use halley_session::session::input::cluster_float::{
    float_follow_up, toggle_focused_cluster_float, FloatFacts, FloatRecord,
};
use halley_session::session::input::keyboard::{
    commits_focus_cycle, key_follow_up, name_cluster, KeyCommand, KeyState, KeyboardOutcome, NameInput, Swallow,
};
use halley_session::session::input::pointer::{
    capture_press_moves_pointer, cluster_modal_button, drag, first_taker, is_motion, is_pointer,
    is_user_activity, modal_pointer, motion_gate, nodes_take_hover, release_node, start_node_drag,
    update_capture_pointer, Admission, ButtonState, CaptureHover, CaptureKind, CapturePress,
    CaptureRoute, DragFacts, DragStep, InputEvent, ModalPointer, MotionGate, NodeRelease, BTN_LEFT,
    BTN_RIGHT,
};
use halley_session::session::interaction::{
    belongs_to_surface, Grab, InteractionState, ResizePhase, WheelAccumulator,
};
use halley_session::session::pointer::ConstrainedMotion;
use halley_session::session::suppressed::SuppressedCodes;

fn window() -> SurfaceId {
    SurfaceId::new(1)
}

fn node() -> NodeId {
    NodeId::new(5)
}

fn button(button: u32, state: ButtonState) -> InputEvent {
    InputEvent::PointerButton { button, state }
}

fn rect(x: i32, y: i32, w: i32, h: i32) -> Rectangle {
    Rectangle::new(Point::new(x, y), Size::new(w, h))
}

#[test]
fn a_resize_ends_with_the_button_that_began_it() {
    let mut interaction = InteractionState::default();
    let size = Some(Size::new(300, 200));
    assert!(!interaction.begin_window_resize(window(), BTN_RIGHT, true, size, true));
    assert!(!interaction.begin_window_resize(window(), BTN_RIGHT, false, None, true));
    assert!(!interaction.begin_pointer_resize(None, window(), BTN_RIGHT, false, size, true));
    assert!(matches!(interaction.grab, Grab::Idle));
    assert!(interaction.begin_pointer_resize(
        Some(window()),
        window(),
        BTN_RIGHT,
        false,
        size,
        true
    ));
    assert!(belongs_to_surface(&interaction.grab, window()));
    assert_eq!(
        interaction.resize_anchor.unwrap().last_size,
        Size::new(300, 200)
    );
    assert!(!interaction.release_resize(BTN_LEFT));
    assert!(interaction.release_resize(BTN_RIGHT));
    assert!(matches!(interaction.grab, Grab::Idle));
    assert_eq!(
        interaction.resize_anchor.unwrap().phase,
        ResizePhase::Released
    );
    interaction.forget_resize_anchor(SurfaceId::new(2));
    assert!(interaction.resize_anchor.is_some());
    interaction.forget_resize_anchor(window());
    assert!(interaction.resize_anchor.is_none());
}

#[test]
fn a_grab_is_cancelled_for_its_own_window() {
    let mut interaction = InteractionState::default();
    interaction.begin_window_resize(window(), BTN_RIGHT, false, Some(Size::new(1, 1)), true);
    assert!(!interaction.cancel_grab_for_surface(SurfaceId::new(2)));
    assert!(interaction.cancel_grab_for_surface(window()));
    assert!(interaction.resize_anchor.is_none());
    assert!(!interaction.cancel_grab_for_surface(window()));
    let mut wheel = WheelAccumulator {
        horizontal_bits: 1,
        vertical_bits: 2,
    };
    wheel.reset_all();
    assert_eq!(wheel, WheelAccumulator::default());
}

#[test]
fn modal_sessions_take_events_before_all_others() {
    let mut interaction = InteractionState::default();
    let press = button(BTN_LEFT, ButtonState::Pressed);
    assert_eq!(
        first_taker(&mut interaction, press, true, true),
        Admission::SessionLock
    );
    assert_eq!(
        first_taker(&mut interaction, InputEvent::PointerMotion, false, true),
        Admission::ExitModalMotion
    );
    interaction.wheel_accumulator.vertical_bits = 9;
    assert_eq!(
        first_taker(&mut interaction, InputEvent::PointerAxis, false, true),
        Admission::ExitModal
    );
    assert_eq!(interaction.wheel_accumulator, WheelAccumulator::default());
    assert_eq!(
        first_taker(&mut interaction, press, false, true),
        Admission::ExitModal
    );
    assert!(interaction
        .suppressed_buttons
        .release_is_suppressed(BTN_LEFT));
    assert_eq!(
        first_taker(&mut interaction, InputEvent::Keyboard, false, true),
        Admission::Proceed
    );
    assert_eq!(
        first_taker(&mut interaction, press, false, false),
        Admission::Proceed
    );
}

#[test]
fn events_are_of_a_kind() {
    assert!(is_motion(InputEvent::PointerMotionAbsolute));
    assert!(!is_motion(InputEvent::PointerAxis));
    assert!(is_pointer(InputEvent::PointerAxis));
    assert!(!is_pointer(InputEvent::Keyboard));
    assert!(is_user_activity(InputEvent::Keyboard));
    assert!(!is_user_activity(InputEvent::DeviceAdded));
}

#[test]
fn overlays_take_the_pointer() {
    let mut buttons = SuppressedCodes::default();
    let press = button(BTN_LEFT, ButtonState::Pressed);
    let release = button(BTN_LEFT, ButtonState::Released);
    let mut taken = |event: InputEvent, capture: bool, apogee: bool| {
        modal_pointer(&mut buttons, event, capture, apogee)
    };
    assert_eq!(taken(press, true, true), ModalPointer::CapturePress);
    assert_eq!(taken(release, true, true), ModalPointer::CaptureRelease);
    assert_eq!(
        taken(button(BTN_RIGHT, ButtonState::Pressed), true, false),
        ModalPointer::CaptureButton
    );
    assert_eq!(
        taken(InputEvent::PointerAxis, true, false),
        ModalPointer::CaptureAxis
    );
    assert_eq!(
        taken(InputEvent::PointerMotion, false, true),
        ModalPointer::ApogeeMotion
    );
    assert_eq!(taken(press, false, true), ModalPointer::ApogeePress);
    assert_eq!(
        taken(button(BTN_RIGHT, ButtonState::Pressed), false, true),
        ModalPointer::ApogeeIntercept
    );
    assert_eq!(taken(press, false, false), ModalPointer::Pass);
    assert_eq!(
        taken(InputEvent::Keyboard, true, true),
        ModalPointer::Pass
    );
    assert!(buttons.release_is_suppressed(BTN_LEFT));
    assert!(!buttons.release_is_suppressed(BTN_RIGHT));
}

#[test]
fn captures_follow_the_pointer() {
    assert!(capture_press_moves_pointer(
        Some(CapturePress::ActivateScreenshot),
        true
    ));
    assert!(!capture_press_moves_pointer(
        Some(CapturePress::ActivateSource),
        false
    ));
    assert!(!capture_press_moves_pointer(
        Some(CapturePress::Accept),
        true
    ));
    let route = |output_known: bool, window_shown: bool| {
        Some(CaptureRoute {
            output_known,
            window_shown,
        })
    };
    assert_eq!(
        update_capture_pointer(None, true, true, route(true, true)),
        CaptureHover::Nothing
    );
    assert_eq!(
        update_capture_pointer(Some(CaptureKind::Area), false, false, None),
        CaptureHover::Position
    );
    assert_eq!(
        update_capture_pointer(Some(CaptureKind::Screen), false, true, None),
        CaptureHover::Screen
    );
    assert_eq!(
        update_capture_pointer(Some(CaptureKind::Source), false, false, route(true, false)),
        CaptureHover::Source { window: false }
    );
    assert_eq!(
        update_capture_pointer(Some(CaptureKind::Source), true, false, route(true, true)),
        CaptureHover::Position
    );
    assert_eq!(
        update_capture_pointer(Some(CaptureKind::Source), false, false, route(false, true)),
        CaptureHover::Nothing
    );
    assert_eq!(
        update_capture_pointer(Some(CaptureKind::Window), false, false, None),
        CaptureHover::Window { found: false }
    );
}

#[test]
fn a_pressed_node_is_dragged_once_it_has_moved() {
    let mut grab = Grab::Idle;
    press_node(&mut grab, node(), window(), false);
    assert!(!nodes_take_hover(&grab));
    assert_eq!(
        start_node_drag(&mut grab, InputEvent::PointerMotion, false, true),
        None
    );
    assert_eq!(
        start_node_drag(&mut grab, InputEvent::PointerMotion, true, true),
        Some(node())
    );
    assert_eq!(
        release_node(&mut grab, BTN_RIGHT, ButtonState::Released, true),
        None
    );
    assert_eq!(
        release_node(&mut grab, BTN_LEFT, ButtonState::Released, true),
        Some(NodeRelease::Settle {
            id: node(),
            tick_physics: true,
        })
    );
    assert!(nodes_take_hover(&grab));
    press_node(&mut grab, node(), window(), false);
    assert_eq!(
        release_node(&mut grab, BTN_LEFT, ButtonState::Released, false),
        Some(NodeRelease::Restore(node()))
    );
    press_node(&mut grab, node(), window(), true);
    assert!(matches!(grab, Grab::MoveNode { .. }));
}

#[test]
fn what_is_held_follows_the_pointer() {
    let facts = DragFacts {
        output_known: true,
        camera_known: true,
        output_changed: false,
        physics: true,
        toplevel: true,
    };
    let moved = Grab::MoveWindow {
        node: Some(node()),
        surface: window(),
    };
    assert_eq!(
        drag(&moved, facts),
        vec![
            DragStep::SetWindowOutput,
            DragStep::UpdateJoinCandidate(node()),
            DragStep::RecordSample,
            DragStep::Redraw,
        ]
    );
    assert_eq!(
        drag(
            &moved,
            DragFacts {
                physics: false,
                output_changed: true,
                ..facts
            }
        ),
        vec![
            DragStep::SetWindowOutput,
            DragStep::MoveRigid(node()),
            DragStep::UpdateJoinCandidate(node()),
            DragStep::RecordSample,
            DragStep::UpdatePopups,
        ]
    );
    assert_eq!(
        drag(
            &moved,
            DragFacts {
                camera_known: false,
                ..facts
            }
        ),
        vec![DragStep::Abandon]
    );
    assert_eq!(
        drag(
            &Grab::ResizeWindow {
                surface: window(),
                button: BTN_RIGHT,
            },
            DragFacts {
                toplevel: false,
                ..facts
            }
        ),
        vec![DragStep::ConfigureX11]
    );
    assert_eq!(
        drag(
            &Grab::Pan {
                output: "left".to_string()
            },
            facts
        ),
        vec![DragStep::PanCamera]
    );
    assert!(drag(&Grab::Idle, facts).is_empty());
}

#[test]
fn constrained_motion_stops_at_the_gate() {
    let locked = ConstrainedMotion::RelativeOnly { surface: window() };
    assert_eq!(
        motion_gate(locked, InputEvent::PointerMotion),
        MotionGate::RelativeOnly
    );
    assert_eq!(
        motion_gate(locked, InputEvent::PointerAxis),
        MotionGate::Apply
    );
    assert_eq!(
        motion_gate(ConstrainedMotion::Hold, InputEvent::PointerMotion),
        MotionGate::Hold
    );
    assert_eq!(
        motion_gate(ConstrainedMotion::Apply, InputEvent::PointerMotion),
        MotionGate::Apply
    );
}

#[test]
fn a_dialog_of_a_cluster_swallows_every_button() {
    let mut buttons = SuppressedCodes::default();
    assert_eq!(
        cluster_modal_button(&mut buttons, BTN_LEFT, ButtonState::Pressed, Some(node())),
        Some(node())
    );
    assert_eq!(
        cluster_modal_button(&mut buttons, BTN_RIGHT, ButtonState::Pressed, Some(node())),
        None
    );
    assert!(buttons.release_is_suppressed(BTN_RIGHT));
    assert_eq!(
        cluster_modal_button(&mut buttons, BTN_LEFT, ButtonState::Released, Some(node())),
        None
    );
    assert!(!buttons.release_is_suppressed(BTN_LEFT));
}

#[test]
fn a_button_begins_with_what_is_held() {
    let facts = ButtonFacts {
        physics: true,
        cluster_modal: true,
        routed: true,
        window_under_pointer: Some(node()),
        focus_cycle_open: false,
    };
    let mut interaction = InteractionState::default();
    interaction.grab = Grab::MoveNode {
        id: node(),
        surface: window(),
    };
    let (stages, ladder) =
        begin_button(&mut interaction, BTN_LEFT, ButtonState::Released, facts);
    assert_eq!(
        stages,
        [
            ButtonStage::ReleaseNode(NodeRelease::Settle {
                id: node(),
                tick_physics: true,
            }),
            ButtonStage::FinishFrame,
        ]
    );
    assert!(ladder.is_none());
    let (stages, ladder) = begin_button(&mut interaction, BTN_LEFT, ButtonState::Pressed, facts);
    assert_eq!(
        stages,
        [
            ButtonStage::Route,
            ButtonStage::ToggleMember(node()),
            ButtonStage::FinishFrame,
        ]
    );
    assert!(ladder.is_none());
    assert!(interaction
        .suppressed_buttons
        .release_is_suppressed(BTN_LEFT));
    let open = ButtonFacts {
        cluster_modal: false,
        ..facts
    };
    let (stages, ladder) = begin_button(&mut interaction, BTN_LEFT, ButtonState::Pressed, open);
    assert_eq!(
        stages,
        [
            ButtonStage::Route,
            ButtonStage::SelectOutput,
            ButtonStage::AskTakers,
            ButtonStage::FinishFrame,
        ]
    );
    assert_eq!(ladder.unwrap().taker, Taker::Overflow);
    let (stages, _) = begin_button(&mut interaction, BTN_LEFT, ButtonState::Released, open);
    assert_eq!(
        stages,
        [
            ButtonStage::Route,
            ButtonStage::AskTakers,
            ButtonStage::FinishFrame,
        ]
    );
}

#[test]
fn windows_are_moved_and_let_go() {
    let facts = MoveFacts {
        grabbable: true,
        routed: Some(window()),
        placed: true,
        camera_known: true,
        maximized: false,
        node: Some(node()),
    };
    let mut interaction = InteractionState::default();
    assert!(begin_pointer_move(
        &mut interaction,
        window(),
        MoveFacts {
            routed: None,
            ..facts
        }
    )
    .is_none());
    assert_eq!(
        begin_pointer_move(&mut interaction, window(), facts),
        Some(vec![
            MoveStep::KeepOffset,
            MoveStep::Focus,
            MoveStep::ClearMotion(node()),
            MoveStep::GrabbingCursor,
        ])
    );
    assert_eq!(
        release_left(&mut interaction.grab),
        LeftRelease::Window { node: Some(node()) }
    );
    assert_eq!(release_left(&mut interaction.grab), LeftRelease::Nothing);
    assert_eq!(
        begin_pointer_move(
            &mut interaction,
            window(),
            MoveFacts {
                maximized: true,
                node: None,
                ..facts
            }
        ),
        Some(vec![
            MoveStep::DropTexture,
            MoveStep::Restore,
            MoveStep::ReleaseCamera,
            MoveStep::KeepRatio,
            MoveStep::Focus,
            MoveStep::GrabbingCursor,
        ])
    );
    assert_eq!(
        released_window(Some(node()), true, true),
        ReleasedWindow::Joined(node())
    );
    assert_eq!(
        released_window(Some(node()), false, true),
        ReleasedWindow::Locked(node())
    );
    assert_eq!(released_window(None, true, true), ReleasedWindow::Nothing);
    assert!(press_takes(PressStep::Pan, false));
    assert!(press_takes(PressStep::BeginMove(window()), true));
    assert!(!press_takes(PressStep::BeginMove(window()), false));
    assert!(!press_takes(PressStep::FocusWindow(window()), true));
}

#[test]
fn the_focus_follows_a_cluster_that_opens_or_closes() {
    assert_eq!(
        sync_cluster_activation_focus(Some(node()), true, true),
        ActivationFocus::Window(node())
    );
    assert_eq!(
        sync_cluster_activation_focus(Some(node()), true, false),
        ActivationFocus::Nothing
    );
    assert_eq!(
        sync_cluster_activation_focus(Some(node()), false, true),
        ActivationFocus::Node(node())
    );
    assert_eq!(
        sync_cluster_activation_focus(None, true, true),
        ActivationFocus::Nothing
    );
}

fn float_facts(presented: Option<Rectangle>) -> FloatFacts {
    FloatFacts {
        record: Some(FloatRecord {
            id: node(),
            cluster: Some(ClusterId::new(3)),
            cluster_output: Some("right".to_string()),
            active_cluster: Some(ClusterId::new(3)),
            fullscreen: false,
            maximized: false,
            grabbed: false,
        }),
        output: Some(rect(1000, 0, 800, 600)),
        cluster_output: Some(rect(200, 50, 800, 600)),
        presented,
        mapped: Some(rect(1100, 120, 300, 200)),
    }
}

#[test]
fn a_member_floats_from_where_it_is_shown() {
    let shown = toggle_focused_cluster_float(&float_facts(Some(rect(10, 20, 30, 40)))).unwrap();
    assert_eq!(shown.id, node());
    assert_eq!(shown.cluster_output, "right");
    assert_eq!(shown.current, rect(810, -30, 30, 40));
    let mapped = toggle_focused_cluster_float(&float_facts(None)).unwrap();
    assert_eq!(mapped.current, rect(900, 70, 300, 200));
    let mut far = float_facts(Some(rect(i32::MAX, i32::MIN, 30, 40)));
    far.cluster_output = Some(rect(200, -50, 800, 600));
    let far = toggle_focused_cluster_float(&far).unwrap();
    assert_eq!(far.current, rect(i32::MAX - 200, i32::MIN + 50, 30, 40));
    let mut grabbed = float_facts(None);
    grabbed.record.as_mut().unwrap().grabbed = true;
    assert!(toggle_focused_cluster_float(&grabbed).is_none());
    let mut inactive = float_facts(None);
    inactive.record.as_mut().unwrap().active_cluster = None;
    assert!(toggle_focused_cluster_float(&inactive).is_none());
    let back = float_follow_up(false, None, &"right".to_string());
    assert_eq!(back.member_output, "right");
    assert!(!back.reconcile_member_output && !back.raise);
    let floating = float_follow_up(true, Some("left".to_string()), &"right".to_string());
    assert_eq!(floating.member_output, "left");
    assert!(floating.reconcile_member_output && floating.raise);
}

#[test]
fn intercepted_keys_are_followed_up() {
    let follow = |outcome: KeyboardOutcome, naming: bool, menu: bool| {
        key_follow_up(outcome, KeyState::Pressed, naming, menu)
    };
    assert!(matches!(
        follow(KeyboardOutcome::ClusterAccept, false, false),
        (KeyCommand::NameCluster, Swallow::Yes)
    ));
    assert!(name_cluster(true, Some("left")).is_none());
    assert!(name_cluster(false, None).is_none());
    let message = name_cluster(false, Some("left")).unwrap();
    assert_eq!(message.output, "left");
    assert_eq!(
        message.text,
        "Not enough selections\nSelect at least one window"
    );
    assert_eq!(message.duration_ms, 3_000);
    assert!(matches!(
        follow(KeyboardOutcome::ClusterAccept, true, false),
        (KeyCommand::FinishCluster, Swallow::Yes)
    ));
    assert!(matches!(
        follow(KeyboardOutcome::ClusterCharacter('x'), true, false),
        (
            KeyCommand::EditName(NameInput::Character('x')),
            Swallow::Yes
        )
    ));
    assert!(matches!(
        follow(KeyboardOutcome::CaptureAccept, false, true),
        (KeyCommand::ActivateCaptureMenu, Swallow::No)
    ));
    assert!(matches!(
        follow(KeyboardOutcome::CaptureAccept, false, false),
        (KeyCommand::AcceptCapture, Swallow::IfCaptureEnds)
    ));
    assert!(matches!(
        follow(KeyboardOutcome::ApogeeIntercept, false, false),
        (KeyCommand::Nothing, Swallow::Yes)
    ));
    assert!(matches!(
        key_follow_up(
            KeyboardOutcome::ApogeeIntercept,
            KeyState::Released,
            false,
            false
        ),
        (KeyCommand::Nothing, Swallow::No)
    ));
    assert!(commits_focus_cycle(KeyState::Released, true, false));
    assert!(!commits_focus_cycle(KeyState::Released, true, true));
    assert!(!commits_focus_cycle(KeyState::Pressed, true, false));
}

#[test]
fn actions_are_shared_by_both_backends() {
    assert!(is_zoom_action(&Action::ZoomIn));
    assert!(!is_zoom_action(&Action::Quit));
    assert!(cluster_blocks_zoom(&Action::ZoomOut, true));
    assert!(!cluster_blocks_zoom(&Action::ZoomOut, false));
    assert!(!cluster_blocks_zoom(&Action::Quit, true));
    assert!(matches!(
        dispatch_action(Action::OpenTerminal, Some("foot"), false),
        (SessionControl::Continue, SharedEffect::Launch(line)) if line == "foot"
    ));
    assert!(matches!(
        dispatch_action(Action::OpenTerminal, None, false),
        (SessionControl::Continue, SharedEffect::NoTerminal)
    ));
    assert!(matches!(
        dispatch_action(Action::ZoomIn, None, false),
        (SessionControl::Continue, SharedEffect::Nothing)
    ));
    assert!(matches!(
        dispatch_action(Action::ZoomIn, None, true),
        (SessionControl::Continue, SharedEffect::ZoomIn)
    ));
    assert!(matches!(
        dispatch_action(
            Action::FocusCycle(FocusCycleDirection::Forward),
            None,
            false
        ),
        (
            SessionControl::FocusCycle(FocusCycleDirection::Forward),
            SharedEffect::Nothing
        )
    ));
}

#[test]
fn a_stack_takes_the_focus_cycle_where_one_is_open() {
    assert!(matches!(
        focus_cycle_step(StackCycleOutcome::Cycled(NodeId::new(2))),
        FocusCycleStep::FocusMember(id) if id == NodeId::new(2)
    ));
    assert!(matches!(
        focus_cycle_step(StackCycleOutcome::Unchanged),
        FocusCycleStep::Nothing
    ));
    assert!(matches!(
        focus_cycle_step(StackCycleOutcome::NotActive),
        FocusCycleStep::StepOverlay
    ));
    let windows = vec![
        (true, Some("left".to_string())),
        (true, None),
        (false, Some("right".to_string())),
    ];
    assert!(window_available(&windows, Some("left"), "left"));
    assert!(!window_available(&windows, Some("right"), "left"));
}
