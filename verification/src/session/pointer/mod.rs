//! The pointer: which events reach clients and when its image is shown.

pub mod confinement;
pub mod constraints;

use vstd::prelude::*;

use crate::geometry::Rectangle;
use crate::ids::SurfaceId;
use crate::session::input::buttons::PointerTarget;
use crate::session::pointer::constraints::{ConstraintKind, Position};
use crate::session::pointer_constraints::{motion_disposition, MotionDisposition};
use crate::steps;

verus! {

#[derive(Clone, Copy, Debug, PartialEq, Eq, Structural)]
pub enum AbsoluteMotionPolicy {
    PositionChanged,
    SurfaceChanged,
}

/// A locked pointer receives relative motion alone: an absolute position would replace
/// the anchor of an emulated cursor.
pub open spec fn emits_absolute_motion(
    policy: AbsoluteMotionPolicy,
    surface_changed: bool,
    locked: bool,
) -> bool {
    !locked && (policy == AbsoluteMotionPolicy::PositionChanged || surface_changed)
}

pub fn should_emit_absolute_motion(
    policy: AbsoluteMotionPolicy,
    surface_changed: bool,
    locked: bool,
) -> (r: bool)
    ensures
        r == emits_absolute_motion(policy, surface_changed, locked),
{
    !locked && match policy {
        AbsoluteMotionPolicy::PositionChanged => true,
        AbsoluteMotionPolicy::SurfaceChanged => surface_changed,
    }
}

/// What is done to tell clients where the pointer is.
#[derive(Clone, Copy, Debug, PartialEq, Eq, Structural)]
pub enum FocusStep {
    ResetCursorImage,
    ReleaseConstraint,
    Motion,
}

pub open spec fn focus_steps(
    policy: AbsoluteMotionPolicy,
    surface_changed: bool,
    locked: bool,
) -> Seq<FocusStep> {
    steps::when(
        emits_absolute_motion(policy, surface_changed, locked),
        steps::when(surface_changed, seq![FocusStep::ResetCursorImage, FocusStep::ReleaseConstraint])
            + seq![FocusStep::Motion],
    )
}

/// The steps, in order, that bring the focus to the surface under the pointer. The
/// image and the constraint of the surface that is left are retired first.
pub fn route_and_update_client_focus(
    policy: AbsoluteMotionPolicy,
    pointer_focus: Option<SurfaceId>,
    routed: Option<SurfaceId>,
    locked: bool,
) -> (steps: Vec<FocusStep>)
    ensures
        steps@ == focus_steps(policy, pointer_focus != routed, locked),
{
    let surface_changed = pointer_focus != routed;
    let mut steps: Vec<FocusStep> = Vec::new();
    if should_emit_absolute_motion(policy, surface_changed, locked) {
        if surface_changed {
            steps.push(FocusStep::ResetCursorImage);
            steps.push(FocusStep::ReleaseConstraint);
        }
        steps.push(FocusStep::Motion);
    }
    steps
}

/// A locked pointer does not move, so the presentation may.
pub fn constraint_requires_stable_presentation(kind: Option<ConstraintKind>) -> (r: bool)
    ensures
        r == (kind != Some(ConstraintKind::Locked)),
{
    match kind {
        Some(ConstraintKind::Locked) => false,
        _ => true,
    }
}

/// Whether a node that lies over the routed surface takes the pointer from it. A
/// cluster that is presented alone keeps it.
pub fn background_overrides_route(cluster_exclusive: bool, node_under_pointer: bool) -> (r: bool)
    ensures
        r == (!cluster_exclusive && node_under_pointer),
{
    !cluster_exclusive && node_under_pointer
}

/// What is under the pointer, and who is told of it.
#[derive(Clone, Copy, Debug, PartialEq, Eq, Structural)]
pub struct ClientRoute {
    pub target: PointerTarget,
    /// The surface that is told, if one is.
    pub focus: Option<SurfaceId>,
    /// Where the pointer is, as the target sees it.
    pub location: Position,
    /// Where the target is shown.
    pub visual_geometry: Option<Rectangle>,
}

/// What is known of the output that a route leads to.
#[derive(Clone, Copy, Debug, PartialEq, Eq, Structural)]
pub struct RouteView {
    /// It has a place in the layout, and a camera.
    pub shown: bool,
    /// A cluster is presented on it alone.
    pub cluster_exclusive: bool,
    pub node_under_pointer: bool,
    /// Where the pointer is in the field.
    pub field: Position,
}

/// Where the pointer's events go. A node that lies over what is under the pointer takes
/// them from it: no client is told, and the pointer is in the field.
pub fn route_client(routed: Option<ClientRoute>, view: RouteView) -> (route: Option<ClientRoute>)
    ensures
        route == (if routed is None || !view.shown {
            None
        } else if !view.cluster_exclusive && view.node_under_pointer {
            Some(
                ClientRoute {
                    target: PointerTarget::Background,
                    focus: None,
                    location: view.field,
                    visual_geometry: None,
                },
            )
        } else {
            routed
        }),
{
    if routed.is_none() || !view.shown {
        return None;
    }
    if background_overrides_route(view.cluster_exclusive, view.node_under_pointer) {
        Some(
            ClientRoute {
                target: PointerTarget::Background,
                focus: None,
                location: view.field,
                visual_geometry: None,
            },
        )
    } else {
        routed
    }
}

/// What becomes of a motion under the active constraint.
#[derive(Clone, Copy, Debug, PartialEq, Eq, Structural)]
pub enum ConstrainedMotion {
    Apply,
    Hold,
    RelativeOnly { surface: SurfaceId },
}

/// The constraint that is active, and whether it allows where the pointer is.
#[derive(Clone, Copy, Debug, PartialEq, Eq, Structural)]
pub struct ActiveConstraint {
    pub surface: SurfaceId,
    pub kind: ConstraintKind,
    pub allows_position: bool,
}

/// Locks turn the motion into relative motion of their surface, confinements hold it
/// where it would leave them.
pub fn constrain_motion(active: Option<ActiveConstraint>) -> (motion: ConstrainedMotion)
    ensures
        motion == (match active {
            None => ConstrainedMotion::Apply,
            Some(constraint) => match constraint.kind {
                ConstraintKind::Locked => ConstrainedMotion::RelativeOnly {
                    surface: constraint.surface,
                },
                ConstraintKind::Confined => if constraint.allows_position {
                    ConstrainedMotion::Apply
                } else {
                    ConstrainedMotion::Hold
                },
            },
        }),
{
    match active {
        None => ConstrainedMotion::Apply,
        Some(constraint) => match motion_disposition(
            Some(constraint.kind),
            constraint.allows_position,
        ) {
            MotionDisposition::Apply => ConstrainedMotion::Apply,
            MotionDisposition::Hold => ConstrainedMotion::Hold,
            MotionDisposition::RelativeOnly => ConstrainedMotion::RelativeOnly {
                surface: constraint.surface,
            },
        },
    }
}

/// Images of the cursor that the session itself asks for.
#[derive(Clone, Copy, Debug, PartialEq, Eq, Structural)]
pub enum CursorIcon {
    Default,
    Grabbing,
}

/// Overlays that take text or a selection replace the image that a client has set, or
/// hidden.
pub fn interactive_overlay_cursor_override(capture_active: bool, cluster_creation_active: bool)
    -> (icon: Option<CursorIcon>)
    ensures
        icon == (if capture_active || cluster_creation_active {
            Some(CursorIcon::Default)
        } else {
            None
        }),
{
    if capture_active || cluster_creation_active {
        Some(CursorIcon::Default)
    } else {
        None
    }
}

pub fn interactive_overlay_forces_cursor(
    apogee_active: bool,
    capture_active: bool,
    cluster_creation_active: bool,
) -> (r: bool)
    ensures
        r == (apogee_active || capture_active || cluster_creation_active),
{
    apogee_active || capture_active || cluster_creation_active
}

pub fn cursor_presentation_visible(policy_visible: bool, constraint_visible: bool) -> (r: bool)
    ensures
        r == (policy_visible && constraint_visible),
{
    policy_visible && constraint_visible
}

/// Whether the cursor is shown: an overlay forces it, or else neither the policy nor a
/// constraint may hide it.
pub fn cursor_visible(
    apogee_active: bool,
    capture_active: bool,
    cluster_creation_active: bool,
    policy_visible: bool,
    constraint_visible: bool,
) -> (r: bool)
    ensures
        r == (apogee_active || capture_active || cluster_creation_active || (policy_visible
            && constraint_visible)),
{
    if interactive_overlay_forces_cursor(apogee_active, capture_active, cluster_creation_active) {
        return true;
    }
    cursor_presentation_visible(policy_visible, constraint_visible)
}

/// While a lock is active nothing is said of an absolute position, whatever the event.
pub proof fn locked_pointers_stay_put(policy: AbsoluteMotionPolicy, surface_changed: bool)
    ensures
        focus_steps(policy, surface_changed, true) == Seq::<FocusStep>::empty(),
{
}

/// A pointer that stays over one surface receives no position from an event that did
/// not move it.
pub proof fn presentation_invents_no_motion()
    ensures
        focus_steps(AbsoluteMotionPolicy::SurfaceChanged, false, false) == Seq::<FocusStep>::empty(),
{
}

/// A client is told where a pointer is that is not locked: whenever it moves, and otherwise
/// only as it comes to another surface. The image and the constraint of the surface that is
/// left go first.
pub proof fn clients_learn_where_free_pointers_are(
    policy: AbsoluteMotionPolicy,
    surface_changed: bool,
    locked: bool,
)
    ensures
        focus_steps(policy, surface_changed, locked).contains(FocusStep::Motion) <==> !locked && (
        surface_changed || policy == AbsoluteMotionPolicy::PositionChanged),
        focus_steps(policy, surface_changed, locked).contains(FocusStep::ResetCursorImage)
            <==> !locked && surface_changed,
        focus_steps(policy, surface_changed, locked).contains(FocusStep::ReleaseConstraint)
            <==> !locked && surface_changed,
        !locked && surface_changed ==> focus_steps(policy, surface_changed, locked) == seq![
            FocusStep::ResetCursorImage,
            FocusStep::ReleaseConstraint,
            FocusStep::Motion,
        ],
        emits_absolute_motion(policy, surface_changed, locked) <==> focus_steps(
            policy,
            surface_changed,
            locked,
        ).contains(FocusStep::Motion),
{
    broadcast use steps::group_steps;

}

/// The image and the constraint of the surface before go before the next one hears of the pointer.
pub proof fn the_pointer_is_let_go_before_it_moves(policy: AbsoluteMotionPolicy, surface_changed: bool, locked: bool)
    ensures
        steps::comes_before(focus_steps(policy, surface_changed, locked), FocusStep::ResetCursorImage, FocusStep::ReleaseConstraint),
        steps::comes_before(focus_steps(policy, surface_changed, locked), FocusStep::ResetCursorImage, FocusStep::Motion),
        steps::comes_before(focus_steps(policy, surface_changed, locked), FocusStep::ReleaseConstraint, FocusStep::Motion),
{
    broadcast use {steps::group_steps, steps::group_orders};

}

/// A node under the pointer leads to the field, unless a cluster has the output to itself; and
/// nothing leads anywhere on an output that is not shown.
pub proof fn nodes_cover_the_routes_behind_them(routed: Option<ClientRoute>, view: RouteView, route: Option<ClientRoute>, overrides: bool)
    requires
        call_ensures(route_client, (routed, view), route),
        call_ensures(background_overrides_route, (view.cluster_exclusive, view.node_under_pointer), overrides),
    ensures
        routed is None || !view.shown ==> route is None,
        routed is Some && view.shown && !overrides ==> route == routed,
        routed is Some && view.shown && overrides ==> route is Some && route->0.target is Background && route->0.focus is None && route->0.location == view.field && route->0.visual_geometry is None,
        view.cluster_exclusive ==> !overrides,
        !view.node_under_pointer ==> !overrides,
        view.node_under_pointer && !view.cluster_exclusive ==> overrides,
{
}

/// A locked pointer tells its surface of the motion alone, and a confined one is held where it
/// may not go.
pub proof fn constrained_pointers_stay(active: Option<ActiveConstraint>, motion: ConstrainedMotion)
    requires
        call_ensures(constrain_motion, (active,), motion),
    ensures
        active is None ==> motion is Apply,
        active is Some ==> (motion is RelativeOnly <==> active->0.kind is Locked),
        motion is RelativeOnly ==> active is Some && motion->surface == active->0.surface,
        active is Some && active->0.kind is Confined ==> (motion is Apply <==> active->0.allows_position),
        active is Some && active->0.kind is Confined && !active->0.allows_position ==> motion is Hold,
{
}

/// An overlay that takes input shows the cursor whatever else hides it; without one it is shown
/// where nothing hides it.
pub proof fn overlays_show_the_cursor(apogee: bool, capture: bool, creation: bool, policy: bool, constraint: bool, forced: bool, presented: bool, visible: bool, icon: Option<CursorIcon>)
    requires
        call_ensures(interactive_overlay_forces_cursor, (apogee, capture, creation), forced),
        call_ensures(cursor_presentation_visible, (policy, constraint), presented),
        call_ensures(cursor_visible, (apogee, capture, creation, policy, constraint), visible),
        call_ensures(interactive_overlay_cursor_override, (capture, creation), icon),
    ensures
        forced ==> visible,
        !forced ==> visible == presented,
        apogee || capture || creation ==> forced,
        !apogee && !capture && !creation ==> !forced,
        !policy || !constraint ==> !presented,
        policy && constraint ==> presented,
        icon is Some <==> capture || creation,
        icon is Some ==> icon->0 is Default,
{
}

} // verus!
