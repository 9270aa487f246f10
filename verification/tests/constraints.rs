use halley_session::geometry::{Point, Rectangle, Size};
use halley_session::ids::SurfaceId;
use halley_session::region::{allows, RectangleKind, Region};
use halley_session::session::input::buttons::PointerTarget;
use halley_session::session::pointer::confinement::{
    nearest_pixel, nearest_valid_point, prepare_candidate, Projection,
};
use halley_session::session::pointer::constraints::{
    active_owner_loss, candidate_surface, deactivation_hint, handoff_xwayland_proxy_focus,
    owner_authority_loss, ConstraintDescriptor, ConstraintKind, DeactivationReason, GeometryId,
    GeometryNext, GrabSync, HandoffFacts, OwnerFacts, PendingCandidate,
    PointerConstraintLifecycle, PointerFollow, Position, ReconcileFacts, ReconcileNext,
    TrackedConstraint,
};
use halley_session::session::pointer::{
    background_overrides_route, constrain_motion, cursor_visible, route_and_update_client_focus,
    route_client, AbsoluteMotionPolicy, ActiveConstraint, ClientRoute, ConstrainedMotion,
    FocusStep, RouteView,
};
use halley_session::session::pointer_constraints::{
    activate_focused, activate_new, allows_current_position, ChainLink, LinkConstraint,
};

fn game() -> SurfaceId {
    SurfaceId::new(1)
}

fn other() -> SurfaceId {
    SurfaceId::new(2)
}

fn place(x: f64, y: f64) -> Position {
    Position {
        x_bits: x.to_bits(),
        y_bits: y.to_bits(),
    }
}

fn owner() -> OwnerFacts {
    OwnerFacts {
        alive: true,
        mapped: true,
        compositor_focus: true,
        keyboard_focus: true,
    }
}

fn locked(active: bool) -> ConstraintDescriptor {
    ConstraintDescriptor {
        kind: ConstraintKind::Locked,
        active,
        position_hint: None,
    }
}

fn game_lock() -> TrackedConstraint {
    TrackedConstraint {
        surface: game(),
        kind: ConstraintKind::Locked,
        position_hint: None,
        geometry: GeometryId { raw: 7 },
    }
}

fn focused(active: bool) -> ReconcileFacts {
    ReconcileFacts {
        preferred: None,
        pointer_focus: Some(game()),
        focus_owner: owner(),
        focus_descriptor: Some(locked(active)),
        tracked_owner: owner(),
        tracked_descriptor: Some(locked(active)),
    }
}

fn holding() -> PointerConstraintLifecycle {
    PointerConstraintLifecycle {
        active: Some(game_lock()),
        suspended: None,
    }
}

#[test]
fn a_request_of_the_focused_surface_becomes_active() {
    let mut lifecycle = PointerConstraintLifecycle::default();
    let start = lifecycle.begin_reconcile(&focused(false));
    assert_eq!(start.deactivate, None);
    let pending = PendingCandidate {
        surface: game(),
        cached: None,
        activate: true,
    };
    assert_eq!(start.next, ReconcileNext::Measure(pending));
    let next = lifecycle.resolve_geometry(
        pending,
        true,
        Some(locked(false)),
        Some(GeometryId { raw: 7 }),
        false,
    );
    let GeometryNext::Ready(prepared, follow) = next else {
        panic!("the geometry is known");
    };
    assert_eq!(follow, PointerFollow::Nothing);
    assert!(lifecycle.finish_reconcile(prepared, true, Some(game())));
    assert_eq!(lifecycle.active, Some(game_lock()));

    assert!(!lifecycle.finish_reconcile(prepared, false, Some(game())));
    assert_eq!(lifecycle.active, None);
}

#[test]
fn an_owner_goes_for_the_first_thing_that_it_lacks() {
    assert_eq!(owner_authority_loss(owner()), None);
    assert_eq!(
        owner_authority_loss(OwnerFacts {
            alive: false,
            mapped: false,
            ..owner()
        }),
        Some(DeactivationReason::SurfaceDestroyed)
    );
    let loss = |focus: Option<SurfaceId>, owner: OwnerFacts, found: Option<ConstraintDescriptor>| {
        active_owner_loss(game_lock(), focus, owner, found)
    };
    assert_eq!(loss(Some(game()), owner(), Some(locked(true))), None);
    assert_eq!(
        loss(None, owner(), Some(locked(true))),
        Some(DeactivationReason::PointerFocusChanged)
    );
    assert_eq!(
        loss(
            Some(game()),
            OwnerFacts {
                mapped: false,
                ..owner()
            },
            None
        ),
        Some(DeactivationReason::OwnerUnmapped)
    );
    assert_eq!(
        loss(
            Some(game()),
            OwnerFacts {
                compositor_focus: false,
                ..owner()
            },
            None
        ),
        Some(DeactivationReason::CompositorFocusChanged)
    );
    assert_eq!(
        loss(
            Some(game()),
            OwnerFacts {
                keyboard_focus: false,
                ..owner()
            },
            None
        ),
        Some(DeactivationReason::KeyboardFocusChanged)
    );
    assert_eq!(
        loss(Some(game()), owner(), None),
        Some(DeactivationReason::ConstraintRemoved)
    );
    assert_eq!(
        loss(Some(game()), owner(), Some(locked(false))),
        Some(DeactivationReason::ProtocolDeactivated)
    );
    assert_eq!(
        loss(
            Some(game()),
            owner(),
            Some(ConstraintDescriptor {
                kind: ConstraintKind::Confined,
                ..locked(true)
            })
        ),
        Some(DeactivationReason::ConstraintKindChanged)
    );
}

#[test]
fn a_lost_owner_is_deactivated_before_another_can_follow() {
    let mut lifecycle = holding();
    let facts = ReconcileFacts {
        pointer_focus: Some(other()),
        focus_descriptor: Some(locked(false)),
        ..focused(true)
    };
    let start = lifecycle.begin_reconcile(&facts);
    assert_eq!(
        start.deactivate,
        Some((game_lock(), DeactivationReason::PointerFocusChanged))
    );
    assert_eq!(
        start.next,
        ReconcileNext::Measure(PendingCandidate {
            surface: other(),
            cached: None,
            activate: true,
        })
    );
    assert_eq!(lifecycle.active, None);
}

#[test]
fn a_request_of_an_unfocused_surface_waits() {
    let mut lifecycle = holding();
    let facts = ReconcileFacts {
        preferred: Some(other()),
        ..focused(true)
    };
    assert_eq!(candidate_surface(&facts), None);
    let start = lifecycle.begin_reconcile(&facts);
    assert_eq!(start.deactivate, None);
    assert_eq!(start.next, ReconcileNext::Retained);
    assert_eq!(lifecycle.active, Some(game_lock()));
}

#[test]
fn a_missing_geometry_is_bridged_by_the_last_one() {
    let mut lifecycle = holding();
    let pending = PendingCandidate {
        surface: game(),
        cached: Some(game_lock()),
        activate: false,
    };
    assert_eq!(
        lifecycle.resolve_geometry(pending, false, None, None, false),
        GeometryNext::KeptCached
    );
    assert_eq!(lifecycle.active, Some(game_lock()));
    assert_eq!(
        lifecycle.resolve_geometry(pending, true, None, None, false),
        GeometryNext::Settled
    );
    assert_eq!(lifecycle.active, None);
    let follow = |kind: ConstraintKind, grab_owns: bool| {
        let descriptor = ConstraintDescriptor {
            kind,
            ..locked(true)
        };
        match holding().resolve_geometry(
            pending,
            true,
            Some(descriptor),
            Some(GeometryId { raw: 8 }),
            grab_owns,
        ) {
            GeometryNext::Ready(prepared, follow) => {
                assert_eq!(prepared.geometry, GeometryId { raw: 8 });
                follow
            }
            _ => panic!("the geometry is known"),
        }
    };
    assert_eq!(
        follow(ConstraintKind::Confined, false),
        PointerFollow::Confine
    );
    assert_eq!(
        follow(ConstraintKind::Confined, true),
        PointerFollow::Follow
    );
    assert_eq!(follow(ConstraintKind::Locked, false), PointerFollow::Follow);
}

#[test]
fn a_confinement_without_pixels_ends() {
    let mut lifecycle = holding();
    let pending = PendingCandidate {
        surface: game(),
        cached: Some(game_lock()),
        activate: false,
    };
    let next = lifecycle.resolve_geometry(
        pending,
        true,
        Some(locked(true)),
        Some(GeometryId { raw: 7 }),
        false,
    );
    let GeometryNext::Ready(prepared, _) = next else {
        panic!("the geometry is known");
    };
    assert_eq!(
        lifecycle.confinement_is_empty(prepared),
        Some((game_lock(), DeactivationReason::EffectiveRegionEmpty))
    );
    assert_eq!(lifecycle.active, None);
}

#[test]
fn a_grab_suspends_a_lock_and_gives_it_back() {
    let mut lifecycle = holding();
    let anchor = place(3.5, 4.5);
    assert_eq!(
        lifecycle.sync_grab_suspension(true, Some(anchor)),
        GrabSync::Nothing
    );
    assert!(lifecycle.enforcement_suspended(Some(game()), owner(), Some(locked(true))));
    assert_eq!(
        lifecycle.sync_grab_suspension(true, Some(place(9.0, 9.0))),
        GrabSync::Nothing
    );
    assert_eq!(
        lifecycle.sync_grab_suspension(false, None),
        GrabSync::RestoreLock {
            anchor,
            geometry: GeometryId { raw: 7 },
        }
    );
    assert!(!lifecycle.enforcement_suspended(Some(game()), owner(), Some(locked(true))));
    assert_eq!(
        lifecycle.sync_grab_suspension(false, None),
        GrabSync::Nothing
    );
}

#[test]
fn constraints_end_before_what_they_rest_on_changes() {
    let mut lifecycle = holding();
    assert_eq!(
        lifecycle.deactivate_before_focus_change(game(), Some(game())),
        None
    );
    assert_eq!(
        lifecycle.deactivate_before_focus_change(game(), Some(other())),
        Some((game_lock(), DeactivationReason::RequestedKeyboardFocusChange))
    );
    assert_eq!(
        lifecycle.deactivate_before_focus_change(game(), Some(other())),
        None
    );
    let mut lifecycle = holding();
    assert_eq!(
        lifecycle.deactivate_before_pointer_focus_change(Some(game())),
        None
    );
    assert_eq!(
        lifecycle.deactivate_before_pointer_focus_change(None),
        Some((game_lock(), DeactivationReason::RequestedPointerFocusChange))
    );
    let mut lifecycle = holding();
    assert_eq!(
        lifecycle.deactivate_before_unmap(game(), game(), other()),
        None
    );
    assert_eq!(
        lifecycle.deactivate_before_unmap(game(), other(), other()),
        Some((game_lock(), DeactivationReason::RequestedOwnerUnmap))
    );
}

#[test]
fn a_lock_says_where_the_pointer_goes_when_it_ends() {
    let mut lifecycle = holding();
    lifecycle.apply_position_hint(other(), place(1.0, 1.0));
    assert_eq!(lifecycle.active, Some(game_lock()));
    lifecycle.apply_position_hint(game(), place(5.0, 6.0));
    let current = lifecycle.active.unwrap();
    assert_eq!(deactivation_hint(current, None), Some(place(5.0, 6.0)));
    let told = ConstraintDescriptor {
        position_hint: Some(place(8.0, 9.0)),
        ..locked(true)
    };
    assert_eq!(
        deactivation_hint(current, Some(told)),
        Some(place(5.0, 6.0))
    );
    assert_eq!(
        deactivation_hint(game_lock(), Some(told)),
        Some(place(8.0, 9.0))
    );
    assert_eq!(deactivation_hint(game_lock(), None), None);
}

#[test]
fn a_proxy_gets_the_pointer_of_its_window() {
    let facts = HandoffFacts {
        proxy_authority: Some(game()),
        focus_root: Some(game()),
        owner_shown: true,
        descriptor: true,
        pointer_allowed: true,
        origin_known: true,
    };
    let free = PointerConstraintLifecycle::default();
    assert!(handoff_xwayland_proxy_focus(&free, &facts));
    assert!(!handoff_xwayland_proxy_focus(&holding(), &facts));
    for facts in [
        HandoffFacts {
            proxy_authority: None,
            focus_root: None,
            ..facts
        },
        HandoffFacts {
            focus_root: Some(other()),
            ..facts
        },
        HandoffFacts {
            pointer_allowed: false,
            ..facts
        },
    ] {
        assert!(!handoff_xwayland_proxy_focus(&free, &facts));
    }
}

#[test]
fn candidates_hold_the_pointer_on_a_pixel_that_is_allowed() {
    let size = Size::new(100, 100);
    let hole = Region {
        rects: vec![
            (
                RectangleKind::Add,
                Rectangle::new(Point::new(0, 0), Size::new(100, 100)),
            ),
            (
                RectangleKind::Subtract,
                Rectangle::new(Point::new(20, 20), Size::new(60, 60)),
            ),
        ],
    };
    let at = |x: i32, y: i32| Some(Point::new(x, y));
    assert!(prepare_candidate(true, at(10, 10), size, Some(&hole), None));
    assert!(!prepare_candidate(true, at(50, 50), size, Some(&hole), None));
    assert!(!prepare_candidate(true, at(50, 50), size, None, Some(&hole)));
    assert!(!prepare_candidate(true, at(100, 10), size, None, None));
    assert!(!prepare_candidate(false, at(10, 10), size, None, None));
    assert!(!prepare_candidate(true, None, size, None, None));
    assert!(allows(None, Point::new(-1, -1)));
    assert!(!allows(Some(&hole), Point::new(50, 50)));
}

#[test]
fn no_allowed_pixel_is_nearer_than_the_lattice() {
    let size = Size::new(12, 9);
    let region = Region {
        rects: vec![
            (
                RectangleKind::Add,
                Rectangle::new(Point::new(1, 1), Size::new(9, 7)),
            ),
            (
                RectangleKind::Subtract,
                Rectangle::new(Point::new(3, 2), Size::new(4, 5)),
            ),
            (
                RectangleKind::Add,
                Rectangle::new(Point::new(4, 4), Size::new(1, 1)),
            ),
        ],
    };
    let input = Region {
        rects: vec![(
            RectangleKind::Add,
            Rectangle::new(Point::new(2, 0), Size::new(20, 6)),
        )],
    };
    for x in -3..15 {
        for y in -3..12 {
            let wanted = Point::new(x, y);
            let distance = |p: Point| (p.x - x) * (p.x - x) + (p.y - y) * (p.y - y);
            let nearest = match nearest_valid_point(
                wanted,
                wanted,
                size,
                Some(&region),
                Some(&input),
            ) {
                Projection::Unchanged => wanted,
                Projection::Lattice(points) => nearest_pixel(&points, wanted).unwrap(),
                _ => panic!("the surface has pixels"),
            };
            for px in 0..12 {
                for py in 0..9 {
                    let pixel = Point::new(px, py);
                    if region.contains(pixel) && input.contains(pixel) {
                        assert!(distance(nearest) <= distance(pixel));
                    }
                }
            }
        }
    }
}

#[test]
fn motion_is_held_by_what_constrains_it() {
    let active = |kind: ConstraintKind, allows_position: bool| {
        Some(ActiveConstraint {
            surface: game(),
            kind,
            allows_position,
        })
    };
    assert_eq!(constrain_motion(None), ConstrainedMotion::Apply);
    assert_eq!(
        constrain_motion(active(ConstraintKind::Locked, true)),
        ConstrainedMotion::RelativeOnly { surface: game() }
    );
    assert_eq!(
        constrain_motion(active(ConstraintKind::Confined, false)),
        ConstrainedMotion::Hold
    );
    assert_eq!(
        constrain_motion(active(ConstraintKind::Confined, true)),
        ConstrainedMotion::Apply
    );
    assert!(background_overrides_route(false, true));
    assert!(!background_overrides_route(true, true));
    assert!(!background_overrides_route(false, false));
}

#[test]
fn a_node_over_a_window_takes_the_pointer() {
    let window = ClientRoute {
        target: PointerTarget::Window {
            surface: game(),
            grabbable: true,
        },
        focus: Some(game()),
        location: place(3.0, 4.0),
        visual_geometry: Some(Rectangle::new(Point::new(0, 0), Size::new(10, 10))),
    };
    let view = RouteView {
        shown: true,
        cluster_exclusive: false,
        node_under_pointer: true,
        field: place(30.0, 40.0),
    };
    assert_eq!(
        route_client(Some(window), view),
        Some(ClientRoute {
            target: PointerTarget::Background,
            focus: None,
            location: place(30.0, 40.0),
            visual_geometry: None,
        })
    );
    let alone = RouteView {
        cluster_exclusive: true,
        ..view
    };
    assert_eq!(route_client(Some(window), alone), Some(window));
    let hidden = RouteView {
        shown: false,
        ..view
    };
    assert_eq!(route_client(Some(window), hidden), None);
    assert_eq!(route_client(None, view), None);
}

#[test]
fn clients_learn_of_the_pointer_when_it_comes_to_them() {
    assert_eq!(
        route_and_update_client_focus(
            AbsoluteMotionPolicy::SurfaceChanged,
            Some(game()),
            Some(game()),
            false
        ),
        vec![]
    );
    let changed = route_and_update_client_focus(
        AbsoluteMotionPolicy::SurfaceChanged,
        Some(game()),
        Some(other()),
        false,
    );
    assert!(changed.contains(&FocusStep::Motion));
    assert!(!route_and_update_client_focus(
        AbsoluteMotionPolicy::PositionChanged,
        Some(game()),
        Some(game()),
        true
    )
    .contains(&FocusStep::Motion));
    assert!(cursor_visible(false, false, false, true, true));
    assert!(!cursor_visible(false, false, false, true, false));
    assert!(cursor_visible(true, false, false, false, false));
}

#[test]
fn a_constraint_covers_the_pixels_of_its_region() {
    let region = Region {
        rects: vec![(
            RectangleKind::Add,
            Rectangle::new(Point::new(0, 0), Size::new(10, 10)),
        )],
    };
    let at = |region: Option<&Region>, x: i32| {
        LinkConstraint::at(ConstraintKind::Confined, false, region, Point::new(x, 5)).covers_pointer
    };
    assert!(at(Some(&region), 9));
    assert!(!at(Some(&region), 10));
    assert!(at(None, 10));
}

#[test]
fn the_constraint_of_the_chain_that_is_ready_becomes_active() {
    let link = |raw: u64, active: bool, covers_pointer: bool| ChainLink {
        surface: SurfaceId::new(raw),
        constraint: Some(LinkConstraint {
            kind: ConstraintKind::Confined,
            active,
            covers_pointer,
        }),
    };
    let bare = || ChainLink {
        surface: SurfaceId::new(9),
        constraint: None,
    };
    let chain = vec![bare(), link(1, false, false), link(2, false, true)];
    assert_eq!(activate_focused(Some(&chain)), Some(2));
    assert_eq!(activate_new(Some(&chain), SurfaceId::new(2)), Some(2));
    assert_eq!(activate_new(Some(&chain), SurfaceId::new(1)), None);
    assert_eq!(activate_new(Some(&chain), SurfaceId::new(7)), None);
    assert_eq!(activate_new(None, SurfaceId::new(2)), None);
    let busy = vec![link(1, true, true), link(2, false, true)];
    assert_eq!(activate_focused(Some(&busy)), None);
    assert!(allows_current_position(Some(&chain), SurfaceId::new(2)));
    assert!(!allows_current_position(Some(&chain), SurfaceId::new(1)));
    assert!(!allows_current_position(None, SurfaceId::new(2)));
}
