//! Gestures of a touchpad: who they belong to.

use vstd::prelude::*;

use crate::ids::SurfaceId;
use crate::session::interaction::Grab;
use crate::steps;

verus! {

/// Where the session takes gestures itself.
#[derive(Clone, Copy, Debug, PartialEq, Eq, Structural)]
pub enum GestureScope {
    /// Where there is no window.
    EmptyField,
    Global,
}

#[derive(Clone, Copy, Debug, PartialEq, Eq, Structural)]
pub enum RouteChoice {
    Client,
    Compositor,
    Ignored,
}

/// What decides on a gesture that begins.
#[derive(Clone, Copy, Debug, PartialEq, Eq, Structural)]
pub struct RoutePolicy {
    /// The session does something with the gesture.
    pub behavior_enabled: bool,
    pub client_available: bool,
    pub client_passthrough: bool,
    pub scope: GestureScope,
    /// A key is held that takes gestures from clients.
    pub modifier_forces: bool,
    /// A constraint or a grab of a client has first refusal.
    pub client_forced: bool,
    pub blocked: bool,
}

impl RoutePolicy {
    /// The session itself takes the gesture.
    pub open spec fn takes(self) -> bool {
        &&& !self.blocked
        &&& !self.client_forced
        &&& self.behavior_enabled
        &&& !self.client_available || self.scope == GestureScope::Global || self.modifier_forces
    }

    pub open spec fn choice(self) -> RouteChoice {
        if self.takes() {
            RouteChoice::Compositor
        } else if !self.blocked && self.client_available && self.client_passthrough {
            RouteChoice::Client
        } else {
            RouteChoice::Ignored
        }
    }

    /// Who the gesture belongs to until it ends.
    pub fn decide(self) -> (choice: RouteChoice)
        ensures
            choice == self.choice(),
    {
        if self.blocked {
            return RouteChoice::Ignored;
        }
        if self.client_forced || !self.behavior_enabled {
            return if self.client_available && self.client_passthrough {
                RouteChoice::Client
            } else {
                RouteChoice::Ignored
            };
        }
        if self.client_available && self.scope == GestureScope::EmptyField && !self.modifier_forces {
            return if self.client_passthrough {
                RouteChoice::Client
            } else {
                RouteChoice::Ignored
            };
        }
        RouteChoice::Compositor
    }
}

/// What is known of the session when a gesture begins.
#[derive(Clone, Copy, Debug, PartialEq, Eq, Structural)]
pub struct RouteFacts {
    pub gestures_enabled: bool,
    pub client_passthrough: bool,
    pub modifier_forces: bool,
    pub capture_active: bool,
    /// A constraint is active on the pointer.
    pub constrained: bool,
    /// A client has grabbed the pointer.
    pub pointer_grabbed: bool,
    pub owner: Option<SurfaceId>,
}

/// The policy that the facts make.
pub open spec fn policy_of(
    facts: RouteFacts,
    grab: Grab,
    behavior_enabled: bool,
    scope: GestureScope,
) -> RoutePolicy {
    RoutePolicy {
        behavior_enabled: facts.gestures_enabled && behavior_enabled,
        client_available: facts.owner is Some,
        client_passthrough: facts.client_passthrough,
        scope,
        modifier_forces: facts.modifier_forces,
        client_forced: facts.constrained || facts.pointer_grabbed,
        blocked: facts.capture_active || grab !is Idle,
    }
}

/// Who a gesture that begins belongs to.
pub fn begin_route(facts: RouteFacts, grab: &Grab, behavior_enabled: bool, scope: GestureScope)
    -> (choice: RouteChoice)
    ensures
        choice == policy_of(facts, *grab, behavior_enabled, scope).choice(),
{
    let held = match grab {
        Grab::Idle => false,
        _ => true,
    };
    RoutePolicy {
        behavior_enabled: facts.gestures_enabled && behavior_enabled,
        client_available: facts.owner.is_some(),
        client_passthrough: facts.client_passthrough,
        scope,
        modifier_forces: facts.modifier_forces,
        client_forced: facts.constrained || facts.pointer_grabbed,
        blocked: facts.capture_active || held,
    }.decide()
}

/// The key that takes gestures from clients.
#[derive(Clone, Copy, Debug, PartialEq, Eq, Structural)]
pub enum GestureModifier {
    Disabled,
    /// The modifier of the key bindings.
    Keybind,
    Explicit,
}

pub fn modifier_forces(modifier: GestureModifier, keybind_held: bool, explicit_held: bool) -> (r:
    bool)
    ensures
        r == (match modifier {
            GestureModifier::Disabled => false,
            GestureModifier::Keybind => keybind_held,
            GestureModifier::Explicit => explicit_held,
        }),
{
    match modifier {
        GestureModifier::Disabled => false,
        GestureModifier::Keybind => keybind_held,
        GestureModifier::Explicit => explicit_held,
    }
}

/// Whether a swipe with these fingers pans the field.
pub fn swipe_pans(pan_fingers: u32, fingers: u32) -> (r: bool)
    ensures
        r == (pan_fingers > 0 && fingers == pan_fingers),
{
    pan_fingers > 0 && fingers == pan_fingers
}

/// A gesture that has begun.
#[derive(Debug)]
pub enum Sequence {
    Client(SurfaceId),
    /// It moves the camera of an output.
    Compositor(String),
    Ignored,
}

/// What the beginning of a gesture does.
#[derive(Clone, Copy, Debug, PartialEq, Eq, Structural)]
pub enum BeginStep {
    Nothing,
    TellClient,
    /// The camera stops where it is, and follows the gesture.
    HoldCamera,
}

/// The gesture that begins: nothing does where a client is to get it and there is none.
pub open spec fn is_begun(
    before: Option<Sequence>,
    after: Option<Sequence>,
    choice: RouteChoice,
    owner: Option<SurfaceId>,
    camera: Option<&str>,
) -> bool {
    match choice {
        RouteChoice::Client => match owner {
            Some(owner) => after == Some(Sequence::Client(owner)),
            None => after == before,
        },
        RouteChoice::Compositor => match camera {
            Some(output) => after is Some && after->0 is Compositor && (after->0)->Compositor_0@
                == output@,
            None => after == Some(Sequence::Ignored),
        },
        RouteChoice::Ignored => after == Some(Sequence::Ignored),
    }
}

/// Begins a gesture. `camera` is the output under the pointer, if it has a camera that
/// can be moved; a hold never moves one.
pub fn begin(
    slot: &mut Option<Sequence>,
    choice: RouteChoice,
    owner: Option<SurfaceId>,
    camera: Option<&str>,
) -> (step: BeginStep)
    ensures
        is_begun(*old(slot), *final(slot), choice, owner, camera),
        step == (match choice {
            RouteChoice::Client => if owner is Some {
                BeginStep::TellClient
            } else {
                BeginStep::Nothing
            },
            RouteChoice::Compositor => if camera is Some {
                BeginStep::HoldCamera
            } else {
                BeginStep::Nothing
            },
            RouteChoice::Ignored => BeginStep::Nothing,
        }),
{
    match choice {
        RouteChoice::Client => match owner {
            Some(owner) => {
                *slot = Some(Sequence::Client(owner));
                BeginStep::TellClient
            },
            None => BeginStep::Nothing,
        },
        RouteChoice::Compositor => match camera {
            Some(output) => {
                *slot = Some(Sequence::Compositor(output.to_owned()));
                BeginStep::HoldCamera
            },
            None => {
                *slot = Some(Sequence::Ignored);
                BeginStep::Nothing
            },
        },
        RouteChoice::Ignored => {
            *slot = Some(Sequence::Ignored);
            BeginStep::Nothing
        },
    }
}

/// The gesture of a session that moves no camera: it goes to the client that has the
/// pointer, if clients get gestures at all.
pub fn client_route(enabled: bool, client_passthrough: bool, owner: Option<SurfaceId>) -> (sequence:
    Sequence)
    ensures
        sequence == (match owner {
            Some(owner) => if enabled && client_passthrough {
                Sequence::Client(owner)
            } else {
                Sequence::Ignored
            },
            None => Sequence::Ignored,
        }),
{
    if !enabled || !client_passthrough {
        return Sequence::Ignored;
    }
    match owner {
        Some(owner) => Sequence::Client(owner),
        None => Sequence::Ignored,
    }
}

/// The client of the gesture has the pointer.
pub open spec fn is_current(sequence: Sequence, focus: Option<SurfaceId>) -> bool {
    sequence matches Sequence::Client(owner) && focus == Some(owner)
}

pub fn owner_is_current(sequence: &Sequence, focus: Option<SurfaceId>) -> (r: bool)
    ensures
        r == is_current(*sequence, focus),
{
    match sequence {
        Sequence::Client(owner) => focus == Some(*owner),
        _ => false,
    }
}

/// What an event of a gesture does.
#[derive(Clone, Copy, Debug, PartialEq, Eq, Structural)]
pub enum GestureStep {
    Nothing,
    TellClient,
    MoveCamera,
}

/// A gesture goes on. One that has lost its client or its camera is ignored from then
/// on, even if either comes back.
pub fn update(slot: &mut Option<Sequence>, focus: Option<SurfaceId>, camera_known: bool) -> (step:
    GestureStep)
    ensures
        match *old(slot) {
            None => step == GestureStep::Nothing && *final(slot) == *old(slot),
            Some(Sequence::Client(owner)) => if focus == Some(owner) {
                step == GestureStep::TellClient && *final(slot) == *old(slot)
            } else {
                step == GestureStep::Nothing && *final(slot) == Some(Sequence::Ignored)
            },
            Some(Sequence::Compositor(_)) => if camera_known {
                step == GestureStep::MoveCamera && *final(slot) == *old(slot)
            } else {
                step == GestureStep::Nothing && *final(slot) == Some(Sequence::Ignored)
            },
            Some(Sequence::Ignored) => step == GestureStep::Nothing && *final(slot) == *old(slot),
        },
{
    let step = match &*slot {
        None => {
            return GestureStep::Nothing;
        },
        Some(Sequence::Client(owner)) => if focus == Some(*owner) {
            GestureStep::TellClient
        } else {
            GestureStep::Nothing
        },
        Some(Sequence::Compositor(_)) => if camera_known {
            GestureStep::MoveCamera
        } else {
            GestureStep::Nothing
        },
        Some(Sequence::Ignored) => GestureStep::Nothing,
    };
    if step == GestureStep::Nothing {
        *slot = Some(Sequence::Ignored);
    }
    step
}

/// What the end of a gesture does.
pub open spec fn end_step(sequence: Option<Sequence>, focus: Option<SurfaceId>, camera_known: bool)
    -> GestureStep {
    match sequence {
        Some(Sequence::Client(owner)) => if focus == Some(owner) {
            GestureStep::TellClient
        } else {
            GestureStep::Nothing
        },
        Some(Sequence::Compositor(_)) => if camera_known {
            GestureStep::MoveCamera
        } else {
            GestureStep::Nothing
        },
        _ => GestureStep::Nothing,
    }
}

/// A gesture ends.
pub fn end(slot: &mut Option<Sequence>, focus: Option<SurfaceId>, camera_known: bool) -> (step:
    GestureStep)
    ensures
        step == end_step(*old(slot), focus, camera_known),
        *final(slot) is None,
{
    match slot.take() {
        Some(Sequence::Client(owner)) => if focus == Some(owner) {
            GestureStep::TellClient
        } else {
            GestureStep::Nothing
        },
        Some(Sequence::Compositor(_)) => if camera_known {
            GestureStep::MoveCamera
        } else {
            GestureStep::Nothing
        },
        _ => GestureStep::Nothing,
    }
}

/// Two fingers that pan the field of an output.
#[derive(Debug)]
pub struct AxisPan {
    pub output: String,
    pub horizontal_active: bool,
    pub vertical_active: bool,
}

/// The gestures that are under way.
#[derive(Debug)]
pub struct GestureState {
    pub swipe: Option<Sequence>,
    pub pinch: Option<Sequence>,
    pub hold: Option<Sequence>,
    pub axis_pan: Option<AxisPan>,
}

impl Default for GestureState {
    fn default() -> (r: Self)
        ensures
            r.swipe is None,
            r.pinch is None,
            r.hold is None,
            r.axis_pan is None,
    {
        GestureState { swipe: None, pinch: None, hold: None, axis_pan: None }
    }
}

#[derive(Clone, Copy, Debug, PartialEq, Eq, Structural)]
pub enum GestureKind {
    Swipe,
    Pinch,
    Hold,
}

/// The clients that are told that their gestures were cancelled.
pub open spec fn cancelled(state: GestureState, focus: Option<SurfaceId>) -> Seq<GestureKind> {
    steps::when(
        state.swipe is Some && is_current(state.swipe->0, focus),
        seq![GestureKind::Swipe],
    ) + steps::when(
        state.pinch is Some && is_current(state.pinch->0, focus),
        seq![GestureKind::Pinch],
    ) + steps::when(
        state.hold is Some && is_current(state.hold->0, focus),
        seq![GestureKind::Hold],
    )
}

/// The gesture belongs to a window: the roots of the clients are handed in.
pub open spec fn belongs_to(sequence: Option<Sequence>, root_of: Option<SurfaceId>, root: SurfaceId)
    -> bool {
    sequence is Some && sequence->0 is Client && root_of == Some(root)
}

fn owned(sequence: &Option<Sequence>, root_of: Option<SurfaceId>, root: SurfaceId) -> (r: bool)
    ensures
        r == belongs_to(*sequence, root_of, root),
{
    match sequence {
        Some(Sequence::Client(_)) => root_of == Some(root),
        _ => false,
    }
}

/// The windows that the clients of the gestures belong to.
#[derive(Clone, Copy, Debug, PartialEq, Eq, Structural)]
pub struct GestureRoots {
    pub swipe: Option<SurfaceId>,
    pub pinch: Option<SurfaceId>,
    pub hold: Option<SurfaceId>,
}

/// The bits of a number that is not zero.
pub open spec fn is_nonzero(bits: u64) -> bool {
    bits != 0 && bits != 0x8000_0000_0000_0000
}

fn nonzero(bits: u64) -> (r: bool)
    ensures
        r == is_nonzero(bits),
{
    bits != 0 && bits != 0x8000_0000_0000_0000
}

/// An event of two fingers on a touchpad or of a wheel: the bits of how far it goes
/// along each axis that it is about.
#[derive(Clone, Copy, Debug, PartialEq, Eq, Structural)]
pub struct AxisEvent {
    pub finger: bool,
    pub horizontal: Option<u64>,
    pub vertical: Option<u64>,
}

pub open spec fn moves_along(amount: Option<u64>) -> bool {
    amount is Some && is_nonzero(amount->0)
}

/// What an axis event does.
#[derive(Clone, Copy, Debug, PartialEq, Eq, Structural)]
pub enum AxisStep {
    /// It is not about the field.
    Pass,
    /// It is, and nothing moves.
    Swallow,
    /// The camera of the output that is panned follows.
    Pan,
    /// It may start to pan: who it belongs to is to be found out.
    Route,
}

/// An axis stays as it was where the event says nothing of it.
pub open spec fn axis_after(active: bool, amount: Option<u64>) -> bool {
    match amount {
        Some(bits) => is_nonzero(bits),
        None => active,
    }
}

impl GestureState {
    /// Ends every gesture. The clients that are told are returned in order.
    pub fn cancel_all(&mut self, focus: Option<SurfaceId>) -> (told: Vec<GestureKind>)
        ensures
            told@ == cancelled(*old(self), focus),
            final(self).swipe is None,
            final(self).pinch is None,
            final(self).hold is None,
            final(self).axis_pan is None,
    {
        let ghost before = *self;
        let mut told: Vec<GestureKind> = Vec::new();
        if let Some(sequence) = self.swipe.take() {
            if owner_is_current(&sequence, focus) {
                told.push(GestureKind::Swipe);
            }
        }
        if let Some(sequence) = self.pinch.take() {
            if owner_is_current(&sequence, focus) {
                told.push(GestureKind::Pinch);
            }
        }
        if let Some(sequence) = self.hold.take() {
            if owner_is_current(&sequence, focus) {
                told.push(GestureKind::Hold);
            }
        }
        self.axis_pan = None;
        assert(told@ =~= cancelled(before, focus));
        told
    }

    /// Whether a window that goes away takes every gesture with it.
    pub fn cancel_surface(&self, roots: GestureRoots, root: SurfaceId) -> (cancels: bool)
        ensures
            cancels == (belongs_to(self.swipe, roots.swipe, root) || belongs_to(
                self.pinch,
                roots.pinch,
                root,
            ) || belongs_to(self.hold, roots.hold, root)),
    {
        owned(&self.swipe, roots.swipe, root) || owned(&self.pinch, roots.pinch, root) || owned(
            &self.hold,
            roots.hold,
            root,
        )
    }

    /// Two fingers move on the touchpad. What pans the field keeps it until both axes
    /// rest; `camera_known` says whether the output that is panned still has a camera.
    pub fn handle_axis_pan(&mut self, event: AxisEvent, scroll_pan: bool, camera_known: bool)
        -> (step: AxisStep)
        ensures
            !event.finger ==> step == AxisStep::Pass && final(self).axis_pan is None,
            event.finger && old(self).axis_pan is Some ==> {
                let pan = old(self).axis_pan->0;
                let horizontal = axis_after(pan.horizontal_active, event.horizontal);
                let vertical = axis_after(pan.vertical_active, event.vertical);
                if (!horizontal && !vertical) || !camera_known {
                    step == AxisStep::Swallow && final(self).axis_pan is None
                } else {
                    &&& step == AxisStep::Pan
                    &&& final(self).axis_pan is Some
                    &&& final(self).axis_pan->0.output == pan.output
                    &&& final(self).axis_pan->0.horizontal_active == horizontal
                    &&& final(self).axis_pan->0.vertical_active == vertical
                }
            },
            event.finger && old(self).axis_pan is None ==> {
                &&& final(self).axis_pan is None
                &&& step == (if scroll_pan && (moves_along(event.horizontal) || moves_along(
                    event.vertical,
                )) {
                    AxisStep::Route
                } else {
                    AxisStep::Pass
                })
            },
            final(self).swipe == old(self).swipe,
            final(self).pinch == old(self).pinch,
            final(self).hold == old(self).hold,
    {
        if !event.finger {
            self.axis_pan = None;
            return AxisStep::Pass;
        }
        let horizontal = match event.horizontal {
            Some(bits) => nonzero(bits),
            None => false,
        };
        let vertical = match event.vertical {
            Some(bits) => nonzero(bits),
            None => false,
        };
        match self.axis_pan.take() {
            Some(pan) => {
                let horizontal_active = match event.horizontal {
                    Some(_) => horizontal,
                    None => pan.horizontal_active,
                };
                let vertical_active = match event.vertical {
                    Some(_) => vertical,
                    None => pan.vertical_active,
                };
                if !horizontal_active && !vertical_active || !camera_known {
                    return AxisStep::Swallow;
                }
                self.axis_pan = Some(
                    AxisPan { output: pan.output, horizontal_active, vertical_active },
                );
                AxisStep::Pan
            },
            None => if scroll_pan && (horizontal || vertical) {
                AxisStep::Route
            } else {
                AxisStep::Pass
            },
        }
    }

    /// Starts to pan the field of an output, if the event belongs to the session and the
    /// output has a camera. The camera stops where it is first.
    pub fn start_axis_pan(&mut self, event: AxisEvent, choice: RouteChoice, camera: Option<&str>)
        -> (started: bool)
        ensures
            started == (choice == RouteChoice::Compositor && camera is Some),
            !started ==> *final(self) == *old(self),
            started ==> final(self).axis_pan is Some && final(self).axis_pan->0.output@
                == camera->0@ && final(self).axis_pan->0.horizontal_active == moves_along(
                event.horizontal,
            ) && final(self).axis_pan->0.vertical_active == moves_along(event.vertical),
            final(self).swipe == old(self).swipe,
            final(self).pinch == old(self).pinch,
            final(self).hold == old(self).hold,
    {
        if choice != RouteChoice::Compositor {
            return false;
        }
        match camera {
            Some(output) => {
                let horizontal_active = match event.horizontal {
                    Some(bits) => nonzero(bits),
                    None => false,
                };
                let vertical_active = match event.vertical {
                    Some(bits) => nonzero(bits),
                    None => false,
                };
                self.axis_pan = Some(
                    AxisPan { output: output.to_owned(), horizontal_active, vertical_active },
                );
                true
            },
            None => false,
        }
    }
}

/// A client that has first refusal never loses a gesture to the session.
pub proof fn clients_have_first_refusal(policy: RoutePolicy)
    requires
        policy.client_forced,
    ensures
        policy.choice() != RouteChoice::Compositor,
        policy.client_available && policy.client_passthrough && !policy.blocked
            ==> policy.choice() == RouteChoice::Client,
{
}

/// That clients get no gestures does not give the session theirs: a gesture over a
/// client goes to the session with or without.
pub proof fn passthrough_steals_nothing(policy: RoutePolicy)
    ensures
        ({
            let without = RoutePolicy { client_passthrough: false, ..policy };
            (without.choice() == RouteChoice::Compositor) == (policy.choice()
                == RouteChoice::Compositor)
        }),
{
}

/// The session takes a gesture only where it does something with it, nothing is in the way,
/// and no client has first refusal; over a client only if it takes gestures everywhere or the
/// modifier is held. What it does not take goes to the client if clients get gestures, and is
/// ignored otherwise.
pub proof fn gestures_go_to_the_session_or_the_client(policy: RoutePolicy)
    ensures
        policy.choice() == RouteChoice::Compositor <==> !policy.blocked && !policy.client_forced
            && policy.behavior_enabled && (!policy.client_available || policy.scope
            == GestureScope::Global || policy.modifier_forces),
        policy.choice() == RouteChoice::Client <==> !policy.blocked && policy.client_available
            && policy.client_passthrough && !(!policy.client_forced && policy.behavior_enabled && (
        policy.scope == GestureScope::Global || policy.modifier_forces)),
        policy.blocked ==> policy.choice() == RouteChoice::Ignored,
{
}

/// A capture or anything that the pointer holds is in the way of a gesture. A constraint or a
/// client's own grab gives the client first refusal. Gestures that are switched off do
/// nothing for the session.
pub proof fn gestures_yield_to_what_is_under_way(
    facts: RouteFacts,
    grab: Grab,
    enabled: bool,
    scope: GestureScope,
)
    ensures
        policy_of(facts, grab, enabled, scope).blocked <==> facts.capture_active || grab !is Idle,
        policy_of(facts, grab, enabled, scope).client_forced <==> facts.constrained
            || facts.pointer_grabbed,
        policy_of(facts, grab, enabled, scope).behavior_enabled <==> facts.gestures_enabled
            && enabled,
        policy_of(facts, grab, enabled, scope).client_available <==> facts.owner is Some,
        policy_of(facts, grab, enabled, scope).client_passthrough <==> facts.client_passthrough,
        policy_of(facts, grab, enabled, scope).modifier_forces <==> facts.modifier_forces,
        policy_of(facts, grab, enabled, scope).scope == scope,
{
}

/// A gesture of a client is the client's that has the pointer, one of the session is about
/// the output under the pointer, and any other is ignored until it ends.
pub proof fn gestures_belong_to_one(
    before: Option<Sequence>,
    after: Option<Sequence>,
    owner: SurfaceId,
    output: &str,
)
    ensures
        is_begun(before, after, RouteChoice::Client, Some(owner), None) ==> after == Some(
            Sequence::Client(owner),
        ),
        is_begun(before, after, RouteChoice::Client, None, None) ==> after == before,
        is_begun(before, after, RouteChoice::Compositor, None, Some(output)) ==> after is Some
            && after->0 is Compositor && (after->0)->Compositor_0@ == output@,
        is_begun(before, after, RouteChoice::Compositor, None, None) ==> after == Some(
            Sequence::Ignored,
        ),
        is_begun(before, after, RouteChoice::Ignored, Some(owner), Some(output)) ==> after == Some(
            Sequence::Ignored,
        ),
{
}

/// The end of a gesture is told to its client if that still has the pointer, and moves the
/// camera of one of the session if there still is one.
pub proof fn gestures_end_where_they_began(
    owner: SurfaceId,
    focus: Option<SurfaceId>,
    output: String,
    camera_known: bool,
)
    ensures
        end_step(Some(Sequence::Client(owner)), focus, camera_known) == GestureStep::TellClient
            <==> focus == Some(owner),
        end_step(Some(Sequence::Client(owner)), focus, camera_known) != GestureStep::MoveCamera,
        end_step(Some(Sequence::Compositor(output)), focus, camera_known) == GestureStep::MoveCamera
            <==> camera_known,
        end_step(Some(Sequence::Compositor(output)), focus, camera_known)
            != GestureStep::TellClient,
        end_step(Some(Sequence::Ignored), focus, camera_known) == GestureStep::Nothing,
        end_step(None, focus, camera_known) == GestureStep::Nothing,
        is_current(Sequence::Client(owner), focus) <==> focus == Some(owner),
        !is_current(Sequence::Compositor(output), focus),
        !is_current(Sequence::Ignored, focus),
{
}

/// A client is told of exactly those cancelled gestures that are its own while it has the
/// pointer.
pub proof fn clients_learn_of_their_cancelled_gestures(
    state: GestureState,
    focus: Option<SurfaceId>,
)
    ensures
        cancelled(state, focus).contains(GestureKind::Swipe) <==> state.swipe is Some
            && state.swipe->0 is Client && focus == Some((state.swipe->0)->Client_0),
        cancelled(state, focus).contains(GestureKind::Pinch) <==> state.pinch is Some
            && state.pinch->0 is Client && focus == Some((state.pinch->0)->Client_0),
        cancelled(state, focus).contains(GestureKind::Hold) <==> state.hold is Some && state.hold->0
            is Client && focus == Some((state.hold->0)->Client_0),
{
    broadcast use steps::group_steps;

}

/// Only a gesture of a client belongs to a window, and only to the one at its root.
pub proof fn gestures_of_clients_belong_to_their_window(
    owner: SurfaceId,
    output: String,
    root_of: Option<SurfaceId>,
    root: SurfaceId,
)
    ensures
        belongs_to(Some(Sequence::Client(owner)), root_of, root) <==> root_of == Some(root),
        !belongs_to(Some(Sequence::Compositor(output)), root_of, root),
        !belongs_to(Some(Sequence::Ignored), root_of, root),
        !belongs_to(None, root_of, root),
{
}

/// Neither zero moves along an axis, any other number does; and an axis that an event says
/// nothing of stays as it was.
pub proof fn axes_rest_at_zero(bits: u64, active: bool)
    ensures
        !moves_along(Some(0)),
        !moves_along(Some(0x8000_0000_0000_0000)),
        !moves_along(None),
        bits != 0 && bits != 0x8000_0000_0000_0000 ==> moves_along(Some(bits)),
        axis_after(active, None) == active,
        axis_after(active, Some(bits)) == moves_along(Some(bits)),
{
}

/// A swipe is cancelled before a pinch, and that before a hold.
pub proof fn gestures_are_cancelled_in_turn(state: GestureState, focus: Option<SurfaceId>)
    ensures
        steps::comes_before(cancelled(state, focus), GestureKind::Swipe, GestureKind::Pinch),
        steps::comes_before(cancelled(state, focus), GestureKind::Swipe, GestureKind::Hold),
        steps::comes_before(cancelled(state, focus), GestureKind::Pinch, GestureKind::Hold),
{
    broadcast use {steps::group_steps, steps::group_orders};

}

/// A modifier forces a gesture only where it is the one that is set and held, a swipe pans with
/// exactly its fingers, and a client gets what it may have and is under the pointer.
pub proof fn gestures_go_where_they_belong(keybind_held: bool, explicit_held: bool, disabled: bool, keybind: bool, explicit: bool, pan_fingers: u32, fingers: u32, pans: bool, enabled: bool, passthrough: bool, owner: Option<SurfaceId>, route: Sequence)
    requires
        call_ensures(modifier_forces, (GestureModifier::Disabled, keybind_held, explicit_held), disabled),
        call_ensures(modifier_forces, (GestureModifier::Keybind, keybind_held, explicit_held), keybind),
        call_ensures(modifier_forces, (GestureModifier::Explicit, keybind_held, explicit_held), explicit),
        call_ensures(swipe_pans, (pan_fingers, fingers), pans),
        call_ensures(client_route, (enabled, passthrough, owner), route),
    ensures
        !disabled,
        keybind == keybind_held,
        explicit == explicit_held,
        pans ==> fingers == pan_fingers && fingers > 0,
        fingers > 0 && fingers == pan_fingers ==> pans,
        route is Client <==> owner is Some && enabled && passthrough,
        route is Client ==> owner == Some(route->Client_0),
        !(route is Client) ==> route is Ignored,
{
}

} // verus!
