use halley_session::geometry::{Point, Rectangle, Size};
use halley_session::ids::{NodeId, SurfaceId};
use halley_session::session::closing::{
    capture_surface, captures_before_client_decision, close_capture_source, CloseCaptureSource,
    SurfaceCapture,
};
use halley_session::session::focus::{
    should_raise, should_redirect_to_stacking_front, ClusterWorkspaceLayoutKind, FocusOrigin,
};
use halley_session::session::input::actions::Heading;
use halley_session::session::interaction::{Grab, InteractionState};
use halley_session::session::lifecycle::{
    finish_window_unmap, prepare_window_unmap, select_ordered_successor, FocusSuccession,
    PrepareStep, StackEntry, Succession, UnmapStep, WindowUnmapPreparation,
};
use halley_session::session::navigation::{
    center_pointer_on_output, directional_field_node_is_eligible, focus_directional_field,
    output_geometry_center, portal_direction, warp_pointer_to_window_center, DirectionalScore,
    FieldNode, PortalDir, WarpStep,
};
use halley_session::session::opening::{
    choose_fallback_origin, output_for_surface, Origin, OpeningOrigins,
};
use halley_session::session::pointer::constraints::Position;

fn rectangle(x: i32, y: i32, w: i32, h: i32) -> Rectangle {
    Rectangle::new(Point::new(x, y), Size::new(w, h))
}

fn position(x: f64, y: f64) -> Position {
    Position {
        x_bits: x.to_bits(),
        y_bits: y.to_bits(),
    }
}

#[test]
fn only_x11_captures_before_an_advisory_close_can_be_rejected() {
    assert!(captures_before_client_decision(true));
    assert!(!captures_before_client_decision(false));
}

#[test]
fn x11_close_never_samples_an_unpresented_live_commit() {
    assert_eq!(
        close_capture_source(true, true),
        CloseCaptureSource::PresentedX11
    );
    assert_eq!(
        close_capture_source(true, false),
        CloseCaptureSource::Unavailable
    );
    assert_eq!(close_capture_source(false, false), CloseCaptureSource::Live);
}

#[test]
fn a_pending_picture_answers_for_its_surface() {
    assert_eq!(capture_surface(true, false), SurfaceCapture::Answered(true));
    assert_eq!(capture_surface(false, true), SurfaceCapture::Capture);
    assert_eq!(
        capture_surface(false, false),
        SurfaceCapture::Answered(false)
    );
}

#[test]
fn only_pointer_clicks_consult_raise_on_click() {
    assert!(should_raise(FocusOrigin::Explicit, false));
    assert!(should_raise(FocusOrigin::Explicit, true));
    assert!(!should_raise(FocusOrigin::Pointer, false));
    assert!(should_raise(FocusOrigin::Pointer, true));
    assert!(!should_raise(FocusOrigin::Hover, false));
    assert!(!should_raise(FocusOrigin::Hover, true));
}

#[test]
fn floating_member_bypasses_stacking_front_redirection() {
    assert!(should_redirect_to_stacking_front(
        ClusterWorkspaceLayoutKind::Stacking,
        true,
        false,
    ));
    assert!(!should_redirect_to_stacking_front(
        ClusterWorkspaceLayoutKind::Stacking,
        true,
        true,
    ));
}

#[test]
fn directional_field_eligibility_includes_collapsed_nodes_and_cluster_cores() {
    assert!(directional_field_node_is_eligible(
        "DP-2",
        true,
        false,
        Some(("DP-2", true)),
        None,
    ));
    assert!(directional_field_node_is_eligible(
        "DP-2",
        true,
        false,
        None,
        Some("DP-2"),
    ));
    assert!(!directional_field_node_is_eligible(
        "DP-2",
        true,
        false,
        Some(("DP-1", true)),
        None,
    ));
    assert!(!directional_field_node_is_eligible(
        "DP-2",
        true,
        true,
        Some(("DP-2", true)),
        None,
    ));
    assert!(!directional_field_node_is_eligible(
        "DP-2",
        false,
        false,
        None,
        Some("DP-2"),
    ));
}

#[test]
fn maps_config_directions_to_field_directions() {
    assert_eq!(portal_direction(Heading::Left), PortalDir::W);
    assert_eq!(portal_direction(Heading::Right), PortalDir::E);
    assert_eq!(portal_direction(Heading::Up), PortalDir::N);
    assert_eq!(portal_direction(Heading::Down), PortalDir::S);
}

#[test]
fn output_pointer_center_uses_global_layout_coordinates() {
    let secondary = rectangle(2560, -120, 1920, 1200);
    let (twice_x, twice_y) = output_geometry_center(secondary);

    assert_eq!(
        (twice_x as f64 / 2.0, twice_y as f64 / 2.0),
        (3520.0, 480.0)
    );
}

#[test]
fn the_pointer_is_let_go_before_it_is_moved() {
    assert_eq!(
        center_pointer_on_output(Some(rectangle(100, -20, 51, 40))),
        [
            WarpStep::ReleaseConstraint,
            WarpStep::SetPosition {
                twice_x: 251,
                twice_y: 0
            },
            WarpStep::PointerActivity,
            WarpStep::UpdateClients,
            WarpStep::RedrawOutput
        ]
    );
    assert_eq!(center_pointer_on_output(None), []);
    assert_eq!(
        warp_pointer_to_window_center(Some(rectangle(0, 0, 10, 4)))[1],
        WarpStep::SetPosition {
            twice_x: 10,
            twice_y: 4
        }
    );
    assert_eq!(warp_pointer_to_window_center(None), []);
}

#[test]
fn the_nearest_node_in_the_direction_wins_whatever_the_order() {
    let node = |first: i32, id: u64| FieldNode {
        id: NodeId::new(id),
        visible: true,
        cluster_member: false,
        record: Some(("left".to_string(), true)),
        core_output: None,
        score: Some(DirectionalScore {
            first,
            second: 0,
            third: 0,
            fourth: 0,
        }),
    };
    let start = Some((NodeId::new(7), true));
    let search = |nodes: &Vec<FieldNode>| focus_directional_field(true, "left", start, nodes);
    assert_eq!(search(&vec![]), None);
    let nodes = vec![node(4, 1), node(2, 9), node(2, 3)];
    assert_eq!(search(&nodes), Some(NodeId::new(3)));
    assert_eq!(
        search(&vec![node(2, 3), node(2, 9), node(4, 1)]),
        Some(NodeId::new(3))
    );
    assert_eq!(focus_directional_field(false, "left", start, &nodes), None);
    assert_eq!(focus_directional_field(true, "left", None, &nodes), None);
    let unplaced = Some((NodeId::new(7), false));
    assert_eq!(focus_directional_field(true, "left", unplaced, &nodes), None);
    assert_eq!(focus_directional_field(true, "right", start, &nodes), None);
    let mut hidden = node(0, 2);
    hidden.visible = false;
    let mut member = node(0, 4);
    member.cluster_member = true;
    let mut behind = node(0, 5);
    behind.score = None;
    let mut core = node(3, 6);
    core.record = None;
    core.core_output = Some("left".to_string());
    assert_eq!(
        search(&vec![node(0, 7), hidden, member, behind, core, node(4, 1)]),
        Some(NodeId::new(6))
    );
}

#[test]
fn cursor_on_target_output_precedes_focused_window() {
    let output = rectangle(2560, 0, 1920, 1200);
    let cursor = position(3000.0, 500.0);
    let focused = position(800.0, 600.0);

    assert_eq!(
        choose_fallback_origin(output, cursor, Some(focused)),
        Origin::At(cursor)
    );
}

#[test]
fn cursor_on_another_output_preserves_launch_direction() {
    let output = rectangle(2560, 0, 1920, 1200);
    let cursor = position(100.0, 100.0);
    let focused = position(800.0, 600.0);

    assert_eq!(
        choose_fallback_origin(output, cursor, Some(focused)),
        Origin::At(cursor)
    );
}

#[test]
fn focused_window_is_used_when_the_cursor_is_invalid() {
    let output = rectangle(2560, 0, 1920, 1200);
    let focused = position(800.0, 600.0);

    assert_eq!(
        choose_fallback_origin(output, position(f64::NAN, 100.0), Some(focused)),
        Origin::At(focused)
    );
}

#[test]
fn output_center_is_the_last_fallback_for_an_invalid_cursor() {
    let output = rectangle(2560, 0, 1920, 1200);

    match choose_fallback_origin(output, position(f64::INFINITY, 100.0), None) {
        Origin::Middle { twice_x, twice_y } => assert_eq!(
            (twice_x as f64 / 2.0, twice_y as f64 / 2.0),
            (3520.0, 600.0)
        ),
        Origin::At(_) => panic!("an invalid cursor gives no origin"),
    }
}

#[test]
fn a_launcher_outranks_the_fallback() {
    let surface = SurfaceId::new(4);
    let mut origins = OpeningOrigins::default();
    origins.remember_launcher(surface, position(1.0, 2.0));
    origins.remember_fallback(surface, position(3.0, 4.0));
    assert_eq!(
        origins.activate(surface, Some(position(5.0, 6.0))),
        Some(position(1.0, 2.0))
    );
    assert_eq!(origins.active(surface), Some(position(1.0, 2.0)));
    origins.forget(surface);
    assert_eq!(origins.active(surface), None);
    assert_eq!(
        origins.start(surface, true, Some(position(5.0, 6.0))),
        Some(position(5.0, 6.0))
    );
    origins.remember_launcher(surface, position(1.0, 2.0));
    assert_eq!(origins.start(surface, false, Some(position(5.0, 6.0))), None);
    assert_eq!(origins.active(surface), None);
    assert_eq!(origins.start(surface, true, None), None);
}

#[test]
fn windows_open_on_their_own_output_first() {
    let outputs = vec!["DP-1".to_string(), "DP-2".to_string()];
    assert_eq!(
        output_for_surface(true, Some("DP-2"), &outputs, Some(0)),
        Some(1)
    );
    assert_eq!(
        output_for_surface(true, Some("DP-3"), &outputs, Some(0)),
        Some(0)
    );
    assert_eq!(output_for_surface(true, None, &outputs, None), None);
    assert_eq!(
        output_for_surface(false, Some("DP-2"), &outputs, Some(0)),
        None
    );
}

fn entry(surface: u64, mapped: bool, output: Option<&str>) -> StackEntry {
    StackEntry {
        surface: SurfaceId::new(surface),
        mapped,
        output: output.map(str::to_owned),
    }
}

const CLOSING: u64 = 1;
const GLOBAL_TOP: u64 = 2;
const SAME_OUTPUT: u64 = 3;
const GLOBAL_BOTTOM: u64 = 4;
const STALE: u64 = 5;
const REMAINING: u64 = 6;

#[test]
fn focus_successor_prefers_managed_stack_entry_on_closing_output() {
    assert_eq!(
        select_ordered_successor(
            &vec![
                entry(CLOSING, true, Some("DP-1")),
                entry(GLOBAL_TOP, true, Some("DP-2")),
                entry(SAME_OUTPUT, true, Some("DP-1")),
            ],
            SurfaceId::new(CLOSING),
            Some("DP-1"),
        ),
        Some(SurfaceId::new(SAME_OUTPUT))
    );
}

#[test]
fn focus_successor_falls_back_to_topmost_managed_window() {
    assert_eq!(
        select_ordered_successor(
            &vec![
                entry(CLOSING, true, Some("DP-1")),
                entry(GLOBAL_TOP, true, Some("DP-2")),
                entry(GLOBAL_BOTTOM, true, Some("DP-3")),
            ],
            SurfaceId::new(CLOSING),
            Some("DP-1"),
        ),
        Some(SurfaceId::new(GLOBAL_TOP))
    );
}

#[test]
fn focus_successor_skips_entries_that_are_no_longer_mapped() {
    assert_eq!(
        select_ordered_successor(
            &vec![
                entry(CLOSING, true, Some("DP-1")),
                entry(STALE, false, None),
                entry(REMAINING, true, Some("DP-1")),
            ],
            SurfaceId::new(CLOSING),
            Some("DP-1"),
        ),
        Some(SurfaceId::new(REMAINING))
    );
}

#[test]
fn focus_successor_is_none_after_the_last_managed_window_closes() {
    assert_eq!(
        select_ordered_successor(
            &vec![entry(CLOSING, true, Some("DP-1"))],
            SurfaceId::new(CLOSING),
            Some("DP-1"),
        ),
        None
    );
}

#[test]
fn only_a_focused_window_settles_its_succession() {
    let stack = vec![
        entry(CLOSING, true, Some("DP-1")),
        entry(GLOBAL_TOP, true, Some("DP-2")),
        entry(SAME_OUTPUT, true, Some("DP-1")),
    ];
    let (steps, preparation) =
        prepare_window_unmap(&stack, SurfaceId::new(CLOSING), Some(SurfaceId::new(CLOSING)));
    assert_eq!(
        steps,
        [
            PrepareStep::CancelTouch,
            PrepareStep::CancelGesture,
            PrepareStep::PreparePointer,
        ]
    );
    assert_eq!(preparation.surface(), SurfaceId::new(CLOSING));
    let succession = preparation.focus.unwrap();
    assert_eq!(succession.output.as_deref(), Some("DP-1"));
    assert_eq!(succession.preferred, Some(SurfaceId::new(SAME_OUTPUT)));
    assert!(prepare_window_unmap(
        &stack,
        SurfaceId::new(CLOSING),
        Some(SurfaceId::new(GLOBAL_TOP))
    )
    .1
    .focus
    .is_none());
}

#[test]
fn a_window_that_goes_away_lets_go_of_the_pointer() {
    let closing = |focus: Option<FocusSuccession>| WindowUnmapPreparation {
        surface: SurfaceId::new(CLOSING),
        focus,
    };
    let focused = |output: &str| {
        closing(Some(FocusSuccession {
            output: Some(output.to_string()),
            preferred: None,
        }))
    };
    let entry = |raw: u64, output: &str| StackEntry {
        surface: SurfaceId::new(raw),
        mapped: true,
        output: Some(output.to_string()),
    };
    let left_over = vec![entry(GLOBAL_TOP, "right"), entry(REMAINING, "left")];
    let mut interaction = InteractionState::default();
    interaction.grab = Grab::MoveWindow {
        node: None,
        surface: SurfaceId::new(CLOSING),
    };
    assert_eq!(
        finish_window_unmap(
            &mut interaction,
            &focused("left"),
            Some(SurfaceId::new(CLOSING)),
            None,
            &left_over,
        ),
        (
            vec![
                UnmapStep::ForgetManaged,
                UnmapStep::ForgetOpeningOrigin,
                UnmapStep::ClearPendingWarp,
                UnmapStep::DropOpening,
                UnmapStep::ForgetFullscreen,
                UnmapStep::ForgetMaximize,
                UnmapStep::DropTexture,
                UnmapStep::ResetCursor,
                UnmapStep::StartClosing,
            ],
            Succession::FocusAndRaise(SurfaceId::new(REMAINING))
        )
    );
    assert!(matches!(interaction.grab, Grab::Idle));
    assert_eq!(
        finish_window_unmap(
            &mut interaction,
            &focused("left"),
            None,
            Some(SurfaceId::new(CLOSING)),
            &vec![],
        )
        .1,
        Succession::Clear
    );
    assert_eq!(
        finish_window_unmap(
            &mut interaction,
            &closing(None),
            Some(SurfaceId::new(REMAINING)),
            None,
            &left_over,
        )
        .1,
        Succession::Keep
    );
    assert_eq!(
        finish_window_unmap(
            &mut interaction,
            &focused("left"),
            None,
            Some(SurfaceId::new(GLOBAL_TOP)),
            &left_over,
        )
        .1,
        Succession::Keep
    );
    assert_eq!(
        finish_window_unmap(
            &mut interaction,
            &focused("elsewhere"),
            None,
            None,
            &left_over,
        )
        .1,
        Succession::FocusAndRaise(SurfaceId::new(GLOBAL_TOP))
    );
}
