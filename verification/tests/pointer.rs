use halley_session::geometry::{Point, Rectangle, Size};
use halley_session::ids::SurfaceId;
use halley_session::region::{RectangleKind, Region};
use halley_session::session::pointer::confinement::{
    clamp_into_constraint, nearest_by_key, nearest_pixel, nearest_valid_point, Projection,
};
use halley_session::session::pointer::constraints::{
    motion_disposition, preferred_matches_focus, reconcile_decision, retain_cached_geometry,
    retain_while_unfocused_request_waits, ConstraintKind, MotionDisposition, Position,
    ReconcileDecision,
};
use halley_session::session::pointer::{
    constraint_requires_stable_presentation, cursor_presentation_visible,
    interactive_overlay_cursor_override, interactive_overlay_forces_cursor,
    should_emit_absolute_motion, AbsoluteMotionPolicy, CursorIcon,
};
use halley_session::session::pointer_constraints;
use halley_session::session::pointer_constraints::{ChainLink, LinkConstraint};

fn decision(
    current_present: bool,
    current_is_candidate: bool,
    current_valid: bool,
    candidate_present: bool,
    candidate_protocol_active: bool,
) -> ReconcileDecision {
    reconcile_decision(
        current_present,
        current_is_candidate,
        current_valid,
        candidate_present,
        candidate_protocol_active,
    )
}

#[test]
fn startup_churn_retains_an_already_valid_owner() {
    assert_eq!(
        decision(true, true, true, true, true),
        ReconcileDecision {
            deactivate_current: false,
            activate_candidate: false,
        }
    );
}

#[test]
fn new_constraint_never_manufactures_pointer_focus() {
    assert!(preferred_matches_focus(None));
    assert!(preferred_matches_focus(Some(true)));
    assert!(!preferred_matches_focus(Some(false)));
}

#[test]
fn transient_presentation_gap_retains_only_the_authoritative_owner() {
    assert!(retain_cached_geometry(true, true));
    assert!(!retain_cached_geometry(false, true));
    assert!(!retain_cached_geometry(true, false));
}

#[test]
fn unfocused_new_request_does_not_displace_the_active_owner() {
    assert!(retain_while_unfocused_request_waits(true, true, false));
    assert!(!retain_while_unfocused_request_waits(false, true, false));
    assert!(!retain_while_unfocused_request_waits(true, true, true));
}

#[test]
fn stale_constraint_is_replaced_only_with_an_exact_focus_candidate() {
    assert_eq!(
        decision(true, true, false, true, false),
        ReconcileDecision {
            deactivate_current: true,
            activate_candidate: true,
        }
    );
}

#[test]
fn replacement_constraint_refreshes_geometry_even_on_the_same_surface() {
    assert_eq!(
        decision(true, true, false, true, false),
        ReconcileDecision {
            deactivate_current: true,
            activate_candidate: true,
        }
    );
}

#[test]
fn focus_loss_and_unmap_deactivate_without_replacement() {
    assert_eq!(
        decision(true, false, false, false, false),
        ReconcileDecision {
            deactivate_current: true,
            activate_candidate: false,
        }
    );
}

#[test]
fn persistent_constraint_reactivates_only_after_remap_and_exact_focus() {
    let unmapped = decision(true, false, false, false, false);
    let remapped_without_focus = decision(false, false, false, false, false);
    let remapped_and_focused = decision(false, false, false, true, false);

    assert!(unmapped.deactivate_current);
    assert_eq!(
        remapped_without_focus,
        ReconcileDecision {
            deactivate_current: false,
            activate_candidate: false,
        }
    );
    assert_eq!(
        remapped_and_focused,
        ReconcileDecision {
            deactivate_current: false,
            activate_candidate: true,
        }
    );
}

#[test]
fn removed_oneshot_constraint_does_not_reactivate_after_remap() {
    let remapped_without_protocol_candidate = decision(false, false, false, false, false);
    assert_eq!(
        remapped_without_protocol_candidate,
        ReconcileDecision {
            deactivate_current: false,
            activate_candidate: false,
        }
    );
}

#[test]
fn owner_replacement_deactivates_then_activates_exact_focus() {
    assert_eq!(
        decision(true, false, false, true, false),
        ReconcileDecision {
            deactivate_current: true,
            activate_candidate: true,
        }
    );
}

#[test]
fn unfocused_or_unmapped_constraints_have_no_candidate() {
    assert_eq!(
        decision(false, false, false, false, false),
        ReconcileDecision {
            deactivate_current: false,
            activate_candidate: false,
        }
    );
}

fn rectangle(x: i32, y: i32, w: i32, h: i32) -> Rectangle {
    Rectangle::new(Point::new(x, y), Size::new(w, h))
}

fn hollow_region() -> Region {
    Region {
        rects: vec![
            (RectangleKind::Add, rectangle(0, 0, 100, 100)),
            (RectangleKind::Subtract, rectangle(40, 40, 20, 20)),
        ],
    }
}

fn projected(projection: Projection, desired: (f64, f64), size: Size) -> Option<(f64, f64)> {
    match projection {
        Projection::Nowhere => None,
        Projection::Unchanged => Some(desired),
        Projection::PerAxis => Some((
            desired.0.clamp(0.0, f64::from(size.w).next_down()),
            desired.1.clamp(0.0, f64::from(size.h).next_down()),
        )),
        Projection::Lattice(points) => {
            let keys = points
                .iter()
                .map(|point| {
                    let dx = f64::from(point.x) - desired.0;
                    let dy = f64::from(point.y) - desired.1;
                    u128::from((dx * dx + dy * dy).to_bits())
                })
                .collect();
            nearest_by_key(&points, &keys)
                .map(|point| (f64::from(point.x), f64::from(point.y)))
        }
    }
}

fn pixel(position: (f64, f64)) -> Point {
    Point::new(position.0.floor() as i32, position.1.floor() as i32)
}

fn rounded(position: (f64, f64)) -> Point {
    Point::new(position.0.round() as i32, position.1.round() as i32)
}

fn nearest(
    desired: (f64, f64),
    size: Size,
    region: Option<&Region>,
    input: Option<&Region>,
) -> Option<(f64, f64)> {
    let projection = nearest_valid_point(pixel(desired), rounded(desired), size, region, input);
    projected(projection, desired, size)
}

fn clamped(
    desired: (f64, f64),
    size: Size,
    region: Option<&Region>,
    input: Option<&Region>,
) -> Option<(f64, f64)> {
    let projection = clamp_into_constraint(pixel(desired), rounded(desired), size, region, input);
    projected(projection, desired, size)
}

#[test]
fn confinement_chooses_nearest_point_outside_a_subtracted_hole() {
    let region = hollow_region();

    assert_eq!(
        nearest((50.0, 50.0), Size::new(100, 100), Some(&region), None),
        Some((50.0, 60.0))
    );
}

#[test]
fn constraints_locked_motion_is_relative_only() {
    assert_eq!(
        motion_disposition(Some(ConstraintKind::Locked), None),
        MotionDisposition::RelativeOnly
    );
}

#[test]
fn only_a_confinement_correction_clamps_motion() {
    let correction = Position {
        x_bits: 12.0_f64.to_bits(),
        y_bits: 34.0_f64.to_bits(),
    };
    assert_eq!(
        motion_disposition(Some(ConstraintKind::Confined), Some(correction)),
        MotionDisposition::Clamp(correction)
    );
    assert_eq!(
        motion_disposition(Some(ConstraintKind::Confined), None),
        MotionDisposition::Apply
    );
    assert_eq!(motion_disposition(None, None), MotionDisposition::Apply);
}

#[test]
fn a_null_region_confines_to_the_surface() {
    let surface = Size::new(100, 80);

    assert_eq!(
        clamped((40.5, 20.25), surface, None, None),
        Some((40.5, 20.25))
    );
    assert_eq!(
        clamped((-30.0, 500.0), surface, None, None),
        Some((0.0, f64::from(80).next_down()))
    );
}

#[test]
fn clamping_preserves_the_tangential_component_of_an_edge_slide() {
    let surface = Size::new(100, 80);
    let slide = clamped((-5.0, 33.75), surface, None, None)
        .expect("a positive surface size always yields a projection");

    assert_eq!(slide.0, 0.0);
    assert_eq!(slide.1, 33.75);
}

#[test]
fn a_region_hole_falls_back_to_the_lattice_projection() {
    let region = hollow_region();

    assert_eq!(
        clamped((50.0, 50.0), Size::new(100, 100), Some(&region), None),
        Some((50.0, 60.0))
    );
}

#[test]
fn a_degenerate_surface_has_no_valid_position() {
    assert_eq!(clamped((5.0, 5.0), Size::new(0, 40), None, None), None);
}

#[test]
fn confinement_intersects_constraint_and_surface_input_regions() {
    let constraint = Region {
        rects: vec![(RectangleKind::Add, rectangle(0, 0, 80, 80))],
    };
    let input = Region {
        rects: vec![(RectangleKind::Add, rectangle(40, 20, 50, 50))],
    };

    assert_eq!(
        clamped(
            (10.0, 30.0),
            Size::new(100, 100),
            Some(&constraint),
            Some(&input),
        ),
        Some((40.0, 30.0))
    );
    assert_eq!(
        clamped(
            (90.0, 30.0),
            Size::new(100, 100),
            Some(&constraint),
            Some(&input),
        ),
        Some((79.0, 30.0))
    );
}

#[test]
fn the_first_of_the_nearest_pixels_is_taken() {
    let points = vec![Point::new(0, 5), Point::new(5, 0), Point::new(1, 1)];
    assert_eq!(
        nearest_pixel(&points, Point::new(0, 0)),
        Some(Point::new(1, 1))
    );
    assert_eq!(
        nearest_pixel(&points, Point::new(5, 5)),
        Some(Point::new(0, 5))
    );
    assert_eq!(nearest_pixel(&vec![], Point::new(5, 5)), None);
}

#[test]
fn interactive_overlays_force_the_cursor_visible() {
    assert!(interactive_overlay_forces_cursor(true, false, false));
    assert!(interactive_overlay_forces_cursor(false, true, false));
    assert!(interactive_overlay_forces_cursor(false, false, true));
    assert!(!interactive_overlay_forces_cursor(false, false, false));
}

#[test]
fn interactive_text_overlay_replaces_a_hidden_client_cursor_image() {
    assert_eq!(
        interactive_overlay_cursor_override(false, true),
        Some(CursorIcon::Default)
    );
    assert_eq!(interactive_overlay_cursor_override(false, false), None);
}

#[test]
fn locked_pointer_suppresses_every_absolute_motion_policy() {
    assert!(!should_emit_absolute_motion(
        AbsoluteMotionPolicy::PositionChanged,
        true,
        true
    ));
    assert!(!should_emit_absolute_motion(
        AbsoluteMotionPolicy::SurfaceChanged,
        true,
        true
    ));
}

#[test]
fn discrete_input_only_refreshes_a_changed_unlocked_surface() {
    assert!(!should_emit_absolute_motion(
        AbsoluteMotionPolicy::SurfaceChanged,
        false,
        false
    ));
    assert!(should_emit_absolute_motion(
        AbsoluteMotionPolicy::SurfaceChanged,
        true,
        false
    ));
}

#[test]
fn physical_motion_updates_an_unlocked_pointer_position() {
    assert!(should_emit_absolute_motion(
        AbsoluteMotionPolicy::PositionChanged,
        false,
        false
    ));
}

#[test]
fn locks_allow_visual_motion_while_confinement_requires_stable_geometry() {
    assert!(!constraint_requires_stable_presentation(Some(
        ConstraintKind::Locked
    )));
    assert!(constraint_requires_stable_presentation(Some(
        ConstraintKind::Confined
    )));
    assert!(constraint_requires_stable_presentation(None));
}

#[test]
fn policy_hiding_and_pointer_lock_independently_mask_presentation() {
    assert!(cursor_presentation_visible(true, true));
    assert!(!cursor_presentation_visible(false, true));
    assert!(!cursor_presentation_visible(true, false));
    assert!(!cursor_presentation_visible(false, false));
}

#[test]
fn pointer_constraints_locked_motion_is_relative_only() {
    assert_eq!(
        pointer_constraints::motion_disposition(Some(ConstraintKind::Locked), true),
        pointer_constraints::MotionDisposition::RelativeOnly
    );
}

#[test]
fn confinement_holds_only_positions_outside_its_region() {
    assert_eq!(
        pointer_constraints::motion_disposition(Some(ConstraintKind::Confined), false),
        pointer_constraints::MotionDisposition::Hold
    );
    assert_eq!(
        pointer_constraints::motion_disposition(Some(ConstraintKind::Confined), true),
        pointer_constraints::MotionDisposition::Apply
    );
    assert_eq!(
        pointer_constraints::motion_disposition(None, false),
        pointer_constraints::MotionDisposition::Apply
    );
}

#[test]
fn constraints_are_found_along_the_tree_of_a_surface() {
    let link = |surface: u64, constraint: Option<LinkConstraint>| ChainLink {
        surface: SurfaceId::new(surface),
        constraint,
    };
    let constraint = |kind: ConstraintKind, active: bool| {
        Some(LinkConstraint {
            kind,
            active,
            covers_pointer: true,
        })
    };
    let idle = vec![link(1, None), link(2, constraint(ConstraintKind::Locked, false))];
    assert!(!pointer_constraints::chain_has_active(&idle));
    assert_eq!(pointer_constraints::active_locked_for_focus(&idle), None);

    let locked = vec![link(1, None), link(2, constraint(ConstraintKind::Locked, true))];
    assert!(pointer_constraints::chain_has_active(&locked));
    assert_eq!(
        pointer_constraints::active_locked_for_focus(&locked),
        Some(1)
    );
    let confined = vec![link(1, constraint(ConstraintKind::Confined, true))];
    assert!(pointer_constraints::chain_has_active(&confined));
    assert_eq!(pointer_constraints::active_locked_for_focus(&confined), None);
}
