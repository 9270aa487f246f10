//! Lifecycle of the pointer constraint that may affect input.

use vstd::prelude::*;

use crate::ids::SurfaceId;

verus! {

#[derive(Clone, Copy, Debug, PartialEq, Eq, Structural)]
pub enum ConstraintKind {
    Confined,
    Locked,
}

/// A sub-pixel position, as the bits of its two coordinates.
#[derive(Clone, Copy, Debug, PartialEq, Eq, Structural)]
pub struct Position {
    pub x_bits: u64,
    pub y_bits: u64,
}

/// A recorded transform between a surface and the screen.
#[derive(Clone, Copy, Debug, PartialEq, Eq, Structural)]
pub struct GeometryId {
    pub raw: u64,
}

/// What becomes of a motion.
#[derive(Clone, Copy, Debug, PartialEq, Eq, Structural)]
pub enum MotionDisposition {
    Apply,
    /// The position left the confinement; the pointer goes here instead. Clamping
    /// rather than holding lets motion along a boundary go on.
    Clamp(Position),
    RelativeOnly,
}

/// A lock turns motion into relative motion, a confinement corrects a position that
/// left it.
pub fn motion_disposition(
    kind: Option<ConstraintKind>,
    confined_correction: Option<Position>,
) -> (disposition: MotionDisposition)
    ensures
        disposition == (match (kind, confined_correction) {
            (Some(ConstraintKind::Locked), _) => MotionDisposition::RelativeOnly,
            (Some(ConstraintKind::Confined), Some(position)) => MotionDisposition::Clamp(position),
            _ => MotionDisposition::Apply,
        }),
{
    match kind {
        Some(ConstraintKind::Locked) => MotionDisposition::RelativeOnly,
        Some(ConstraintKind::Confined) => match confined_correction {
            Some(position) => MotionDisposition::Clamp(position),
            None => MotionDisposition::Apply,
        },
        None => MotionDisposition::Apply,
    }
}

/// The constraint that may affect input now.
#[derive(Clone, Copy, Debug, PartialEq, Eq, Structural)]
pub struct TrackedConstraint {
    pub surface: SurfaceId,
    pub kind: ConstraintKind,
    pub position_hint: Option<Position>,
    pub geometry: GeometryId,
}

/// The constraint that a grab of its surface holds back.
#[derive(Clone, Copy, Debug, PartialEq, Eq, Structural)]
pub struct SuspendedConstraint {
    pub surface: SurfaceId,
    pub kind: ConstraintKind,
    /// Where a lock held the pointer, in the surface.
    pub lock_anchor: Option<Position>,
}

/// What the protocol knows of the constraint of a surface.
#[derive(Clone, Copy, Debug, PartialEq, Eq, Structural)]
pub struct ConstraintDescriptor {
    pub kind: ConstraintKind,
    pub active: bool,
    pub position_hint: Option<Position>,
}

/// The single record of the constraint that may affect input.
#[derive(Clone, Copy, Debug, PartialEq, Eq, Structural)]
pub struct PointerConstraintLifecycle {
    pub active: Option<TrackedConstraint>,
    pub suspended: Option<SuspendedConstraint>,
}

impl Default for PointerConstraintLifecycle {
    fn default() -> (r: Self)
        ensures
            r.active is None,
            r.suspended is None,
    {
        PointerConstraintLifecycle { active: None, suspended: None }
    }
}

#[derive(Clone, Copy, Debug, PartialEq, Eq, Structural)]
pub struct ReconcileDecision {
    pub deactivate_current: bool,
    pub activate_candidate: bool,
}

/// Why a constraint stops to affect input.
#[derive(Clone, Copy, Debug, PartialEq, Eq, Structural)]
pub enum DeactivationReason {
    SurfaceDestroyed,
    OwnerUnmapped,
    CompositorFocusChanged,
    KeyboardFocusChanged,
    PointerFocusChanged,
    ConstraintRemoved,
    ProtocolDeactivated,
    ConstraintKindChanged,
    CandidateChanged,
    RequestedKeyboardFocusChange,
    RequestedPointerFocusChange,
    RequestedOwnerUnmap,
    EffectiveRegionEmpty,
}

/// The current constraint goes when it is not the valid candidate, the candidate is
/// activated unless the protocol has it active.
pub fn reconcile_decision(
    current_present: bool,
    current_is_candidate: bool,
    current_valid: bool,
    candidate_present: bool,
    candidate_protocol_active: bool,
) -> (decision: ReconcileDecision)
    ensures
        decision.deactivate_current == (current_present && !(current_is_candidate
            && current_valid)),
        decision.activate_candidate == (candidate_present && !candidate_protocol_active),
{
    ReconcileDecision {
        deactivate_current: current_present && (!current_is_candidate || !current_valid),
        activate_candidate: candidate_present && !candidate_protocol_active,
    }
}

/// A request without a preferred surface matches any focus.
pub fn preferred_matches_focus(preferred_matches: Option<bool>) -> (matches_focus: bool)
    ensures
        matches_focus == (preferred_matches != Some(false)),
{
    match preferred_matches {
        Some(matches_focus) => matches_focus,
        None => true,
    }
}

/// The last geometry serves while the valid owner's is missing.
pub fn retain_cached_geometry(current_valid: bool, current_is_candidate: bool) -> (retain: bool)
    ensures
        retain == (current_valid && current_is_candidate),
{
    current_valid && current_is_candidate
}

/// A request of a surface without focus leaves the valid owner alone.
pub fn retain_while_unfocused_request_waits(
    current_valid: bool,
    preferred_present: bool,
    candidate_present: bool,
) -> (retain: bool)
    ensures
        retain == (current_valid && preferred_present && !candidate_present),
{
    current_valid && preferred_present && !candidate_present
}

/// What makes a surface the authority over its constraint.
#[derive(Clone, Copy, Debug, PartialEq, Eq, Structural)]
pub struct OwnerFacts {
    pub alive: bool,
    /// The window of its root is mapped.
    pub mapped: bool,
    /// The compositor's focus is on the surface that has authority over it.
    pub compositor_focus: bool,
    /// So is the keyboard's.
    pub keyboard_focus: bool,
}

/// The surface is alive, mapped and focused.
pub open spec fn is_authoritative(owner: OwnerFacts) -> bool {
    owner.alive && owner.mapped && owner.compositor_focus && owner.keyboard_focus
}

/// What a surface lacks to have authority: the first thing in this order.
pub open spec fn authority_loss_of(owner: OwnerFacts) -> Option<DeactivationReason> {
    if !owner.alive {
        Some(DeactivationReason::SurfaceDestroyed)
    } else if !owner.mapped {
        Some(DeactivationReason::OwnerUnmapped)
    } else if !owner.compositor_focus {
        Some(DeactivationReason::CompositorFocusChanged)
    } else if !owner.keyboard_focus {
        Some(DeactivationReason::KeyboardFocusChanged)
    } else {
        None
    }
}

/// What a surface lacks to have authority.
pub fn owner_authority_loss(owner: OwnerFacts) -> (loss: Option<DeactivationReason>)
    ensures
        loss == authority_loss_of(owner),
        loss is None <==> is_authoritative(owner),
{
    if !owner.alive {
        return Some(DeactivationReason::SurfaceDestroyed);
    }
    if !owner.mapped {
        return Some(DeactivationReason::OwnerUnmapped);
    }
    if !owner.compositor_focus {
        return Some(DeactivationReason::CompositorFocusChanged);
    }
    if !owner.keyboard_focus {
        return Some(DeactivationReason::KeyboardFocusChanged);
    }
    None
}

/// The tracked constraint may go on: the pointer is on its surface, the surface has
/// authority, and the protocol has the same constraint active.
pub open spec fn owner_stays(
    current: TrackedConstraint,
    pointer_focus: Option<SurfaceId>,
    owner: OwnerFacts,
    descriptor: Option<ConstraintDescriptor>,
) -> bool {
    &&& pointer_focus == Some(current.surface)
    &&& is_authoritative(owner)
    &&& descriptor matches Some(descriptor) && descriptor.active && descriptor.kind == current.kind
}

/// Why the tracked constraint may not go on: the first reason in this order.
pub open spec fn owner_loss_of(
    current: TrackedConstraint,
    pointer_focus: Option<SurfaceId>,
    owner: OwnerFacts,
    descriptor: Option<ConstraintDescriptor>,
) -> Option<DeactivationReason> {
    if pointer_focus != Some(current.surface) {
        Some(DeactivationReason::PointerFocusChanged)
    } else if authority_loss_of(owner) is Some {
        authority_loss_of(owner)
    } else {
        match descriptor {
            None => Some(DeactivationReason::ConstraintRemoved),
            Some(descriptor) => if !descriptor.active {
                Some(DeactivationReason::ProtocolDeactivated)
            } else if descriptor.kind != current.kind {
                Some(DeactivationReason::ConstraintKindChanged)
            } else {
                None
            },
        }
    }
}

/// Why the tracked constraint may not go on.
pub fn active_owner_loss(
    current: TrackedConstraint,
    pointer_focus: Option<SurfaceId>,
    owner: OwnerFacts,
    descriptor: Option<ConstraintDescriptor>,
) -> (loss: Option<DeactivationReason>)
    ensures
        loss == owner_loss_of(current, pointer_focus, owner, descriptor),
        loss is None <==> owner_stays(current, pointer_focus, owner, descriptor),
{
    let focused = match pointer_focus {
        Some(focus) => focus == current.surface,
        None => false,
    };
    if !focused {
        return Some(DeactivationReason::PointerFocusChanged);
    }
    if let Some(reason) = owner_authority_loss(owner) {
        return Some(reason);
    }
    match descriptor {
        None => Some(DeactivationReason::ConstraintRemoved),
        Some(descriptor) => {
            if !descriptor.active {
                Some(DeactivationReason::ProtocolDeactivated)
            } else if !(descriptor.kind == current.kind) {
                Some(DeactivationReason::ConstraintKindChanged)
            } else {
                None
            }
        },
    }
}

/// What a reconciliation reads.
#[derive(Clone, Copy, Debug, PartialEq, Eq, Structural)]
pub struct ReconcileFacts {
    /// The surface whose new request asks for the reconciliation.
    pub preferred: Option<SurfaceId>,
    pub pointer_focus: Option<SurfaceId>,
    /// Of the surface that has the pointer focus.
    pub focus_owner: OwnerFacts,
    pub focus_descriptor: Option<ConstraintDescriptor>,
    /// Of the surface whose constraint is tracked.
    pub tracked_owner: OwnerFacts,
    pub tracked_descriptor: Option<ConstraintDescriptor>,
}

/// The surface whose constraint may become active: it has the pointer focus already,
/// is the preferred one where there is one, has authority and a constraint.
pub open spec fn candidate_of(facts: ReconcileFacts) -> Option<SurfaceId> {
    match facts.pointer_focus {
        Some(focus) => if (facts.preferred is None || facts.preferred == Some(focus))
            && is_authoritative(facts.focus_owner) && facts.focus_descriptor is Some {
            Some(focus)
        } else {
            None
        },
        None => None,
    }
}

/// The surface whose constraint may become active.
pub fn candidate_surface(facts: &ReconcileFacts) -> (candidate: Option<SurfaceId>)
    ensures
        candidate == candidate_of(*facts),
{
    let focused = match facts.pointer_focus {
        Some(focused) => focused,
        None => {
            return None;
        },
    };
    let preferred_matches = match facts.preferred {
        Some(preferred) => Some(preferred == focused),
        None => None,
    };
    if !preferred_matches_focus(preferred_matches) {
        return None;
    }
    if owner_authority_loss(facts.focus_owner).is_none() && facts.focus_descriptor.is_some() {
        Some(focused)
    } else {
        None
    }
}

/// The tracked constraint may go on.
pub open spec fn current_valid(lifecycle: PointerConstraintLifecycle, facts: ReconcileFacts) -> bool {
    lifecycle.active matches Some(current) && owner_stays(
        current,
        facts.pointer_focus,
        facts.tracked_owner,
        facts.tracked_descriptor,
    )
}

/// The tracked constraint belongs to the candidate.
pub open spec fn current_is_candidate(
    lifecycle: PointerConstraintLifecycle,
    facts: ReconcileFacts,
) -> bool {
    lifecycle.active matches Some(current) && candidate_of(facts) == Some(current.surface)
}

/// A candidate whose geometry is to be found.
#[derive(Clone, Copy, Debug, PartialEq, Eq, Structural)]
pub struct PendingCandidate {
    pub surface: SurfaceId,
    /// The constraint tracked so far, if it belongs to the candidate and is valid.
    pub cached: Option<TrackedConstraint>,
    /// The protocol has the candidate's constraint inactive.
    pub activate: bool,
}

impl PendingCandidate {
    pub open spec fn wf(self) -> bool {
        self.cached matches Some(current) ==> current.surface == self.surface
    }
}

/// How a reconciliation goes on.
#[derive(Clone, Copy, Debug, PartialEq, Eq, Structural)]
pub enum ReconcileNext {
    /// The owner stays while a request of another surface waits for the focus.
    Retained,
    /// Nothing may affect input.
    Settled,
    /// The geometry of this candidate is needed.
    Measure(PendingCandidate),
}

/// First part of a reconciliation.
#[derive(Clone, Copy, Debug, PartialEq, Eq)]
pub struct ReconcileStart {
    /// The constraint to deactivate before anything else, and why.
    pub deactivate: Option<(TrackedConstraint, DeactivationReason)>,
    pub next: ReconcileNext,
}

/// What follows a reconciliation.
#[derive(Clone, Copy, Debug, PartialEq, Eq, Structural)]
pub enum PointerFollow {
    Nothing,
    /// The pointer is where the geometry has it.
    Follow,
    /// The pointer is projected into the confinement.
    Confine,
}

/// A candidate with its geometry.
#[derive(Clone, Copy, Debug, PartialEq, Eq, Structural)]
pub struct PreparedCandidate {
    pub surface: SurfaceId,
    pub descriptor: ConstraintDescriptor,
    pub geometry: GeometryId,
    pub activate: bool,
    pub cached: Option<TrackedConstraint>,
}

#[derive(Clone, Copy, Debug, PartialEq, Eq, Structural)]
pub enum GeometryNext {
    /// The constraint tracked so far stays, with its last geometry.
    KeptCached,
    /// Nothing may affect input.
    Settled,
    /// The candidate is ready, once the pointer has followed.
    Ready(PreparedCandidate, PointerFollow),
}

impl PointerConstraintLifecycle {
    pub open spec fn is_clear(self) -> bool {
        self.active is None && self.suspended is None
    }

    fn clear(&mut self)
        ensures
            final(self).is_clear(),
    {
        self.active = None;
        self.suspended = None;
    }

    /// Begins to reconcile the tracked owner with the protocol, the focus and the
    /// mapping. A constraint that may not go on is deactivated before another one
    /// can become active.
    pub fn begin_reconcile(&mut self, facts: &ReconcileFacts) -> (start: ReconcileStart)
        ensures
            final(self).active matches Some(current) ==> facts.pointer_focus == Some(
                current.surface,
            ),
            ({
                let valid = current_valid(*old(self), *facts);
                let is_candidate = current_is_candidate(*old(self), *facts);
                let candidate = candidate_of(*facts);
                let retained = valid && facts.preferred is Some && candidate is None;
                let goes = old(self).active is Some && !retained && !(valid && is_candidate);
                &&& start.next is Retained <==> retained
                &&& start.deactivate is Some <==> goes
                &&& (start.deactivate matches Some((current, reason)) ==> {
                    &&& Some(current) == old(self).active
                    &&& Some(reason) == (if valid {
                        Some(DeactivationReason::CandidateChanged)
                    } else {
                        owner_loss_of(
                            current,
                            facts.pointer_focus,
                            facts.tracked_owner,
                            facts.tracked_descriptor,
                        )
                    })
                })
                &&& retained ==> *final(self) == *old(self)
                &&& !retained && candidate is None ==> start.next is Settled
                    && final(self).is_clear()
                &&& !retained && candidate is Some ==> {
                    &&& start.next matches ReconcileNext::Measure(pending) && {
                        &&& pending.wf()
                        &&& Some(pending.surface) == candidate
                        &&& pending.cached == (if valid && is_candidate {
                            old(self).active
                        } else {
                            None
                        })
                        &&& pending.activate == !facts.focus_descriptor->0.active
                    }
                    &&& if goes {
                        final(self).is_clear()
                    } else {
                        *final(self) == *old(self)
                    }
                }
            }),
    {
        let candidate = candidate_surface(facts);
        let current_loss = match self.active {
            Some(current) => active_owner_loss(
                current,
                facts.pointer_focus,
                facts.tracked_owner,
                facts.tracked_descriptor,
            ),
            None => None,
        };
        let current_valid = self.active.is_some() && current_loss.is_none();
        if retain_while_unfocused_request_waits(
            current_valid,
            facts.preferred.is_some(),
            candidate.is_some(),
        ) {
            return ReconcileStart { deactivate: None, next: ReconcileNext::Retained };
        }
        let current_is_candidate = match (self.active, candidate) {
            (Some(current), Some(candidate)) => current.surface == candidate,
            _ => false,
        };
        let protocol_active = match facts.focus_descriptor {
            Some(descriptor) => candidate.is_some() && descriptor.active,
            None => false,
        };
        let decision = reconcile_decision(
            self.active.is_some(),
            current_is_candidate,
            current_valid,
            candidate.is_some(),
            protocol_active,
        );
        let current = self.active;
        let mut deactivate: Option<(TrackedConstraint, DeactivationReason)> = None;
        if decision.deactivate_current {
            if let Some(current) = current {
                let reason = match current_loss {
                    Some(reason) => reason,
                    None => DeactivationReason::CandidateChanged,
                };
                deactivate = Some((current, reason));
                self.clear();
            }
        }
        match candidate {
            None => {
                self.clear();
                ReconcileStart { deactivate, next: ReconcileNext::Settled }
            },
            Some(surface) => {
                let cached = if retain_cached_geometry(current_valid, current_is_candidate) {
                    current
                } else {
                    None
                };
                ReconcileStart {
                    deactivate,
                    next: ReconcileNext::Measure(
                        PendingCandidate {
                            surface,
                            cached,
                            activate: decision.activate_candidate,
                        },
                    ),
                }
            },
        }
    }

    /// Goes on with the candidate's geometry. Live geometry can be missing for a
    /// moment while an active owner is resized or changes output: its last geometry
    /// serves until then.
    pub fn resolve_geometry(
        &mut self,
        pending: PendingCandidate,
        owner_shown: bool,
        descriptor: Option<ConstraintDescriptor>,
        geometry: Option<GeometryId>,
        grab_owns: bool,
    ) -> (next: GeometryNext)
        requires
            pending.wf(),
        ensures
            ({
                let missing = !owner_shown || (descriptor is Some && geometry is None);
                let kept = missing && pending.cached is Some;
                let ready = owner_shown && descriptor is Some && geometry is Some;
                &&& next is KeptCached <==> kept
                &&& next is Settled <==> !kept && !ready
                &&& kept ==> final(self).active == pending.cached && final(self).suspended == old(
                    self,
                ).suspended
                &&& !kept && !ready ==> final(self).is_clear()
                &&& ready ==> *final(self) == *old(self)
                &&& ready ==> (next matches GeometryNext::Ready(prepared, follow) && {
                    let refreshing = pending.cached is Some && descriptor->0.active;
                    &&& prepared.surface == pending.surface
                    &&& Some(prepared.descriptor) == descriptor
                    &&& Some(prepared.geometry) == geometry
                    &&& prepared.activate == pending.activate
                    &&& prepared.cached == pending.cached
                    &&& follow == (if !refreshing {
                        PointerFollow::Nothing
                    } else if descriptor->0.kind == ConstraintKind::Confined && !grab_owns {
                        PointerFollow::Confine
                    } else {
                        PointerFollow::Follow
                    })
                })
            }),
    {
        let found = if owner_shown {
            match descriptor {
                None => {
                    self.clear();
                    return GeometryNext::Settled;
                },
                Some(descriptor) => match geometry {
                    Some(geometry) => Some((descriptor, geometry)),
                    None => None,
                },
            }
        } else {
            None
        };
        match found {
            None => {
                match pending.cached {
                    Some(_) => {
                        self.active = pending.cached;
                        GeometryNext::KeptCached
                    },
                    None => {
                        self.clear();
                        GeometryNext::Settled
                    },
                }
            },
            Some((descriptor, geometry)) => {
                let refreshing = pending.cached.is_some() && descriptor.active;
                let follow = if !refreshing {
                    PointerFollow::Nothing
                } else {
                    match descriptor.kind {
                        ConstraintKind::Locked => PointerFollow::Follow,
                        ConstraintKind::Confined => if grab_owns {
                            PointerFollow::Follow
                        } else {
                            PointerFollow::Confine
                        },
                    }
                };
                GeometryNext::Ready(
                    PreparedCandidate {
                        surface: pending.surface,
                        descriptor,
                        geometry,
                        activate: pending.activate,
                        cached: pending.cached,
                    },
                    follow,
                )
            },
        }
    }

    /// The confinement of the candidate has no pixel left: the constraint tracked so
    /// far is deactivated.
    pub fn confinement_is_empty(&mut self, prepared: PreparedCandidate) -> (deactivate: Option<
        (TrackedConstraint, DeactivationReason),
    >)
        ensures
            final(self).is_clear(),
            deactivate == (match prepared.cached {
                Some(current) => Some((current, DeactivationReason::EffectiveRegionEmpty)),
                None => None,
            }),
    {
        self.clear();
        match prepared.cached {
            Some(current) => Some((current, DeactivationReason::EffectiveRegionEmpty)),
            None => None,
        }
    }

    /// Ends a reconciliation: the candidate is tracked if its constraint is active and
    /// it still has the pointer focus. `activated` tells whether the protocol took the
    /// activation, where it was asked for.
    pub fn finish_reconcile(
        &mut self,
        prepared: PreparedCandidate,
        activated: bool,
        pointer_focus: Option<SurfaceId>,
    ) -> (tracking: bool)
        ensures
            tracking == ((if prepared.activate {
                activated
            } else {
                prepared.descriptor.active
            }) && pointer_focus == Some(prepared.surface)),
            tracking ==> final(self).active == Some(
                TrackedConstraint {
                    surface: prepared.surface,
                    kind: prepared.descriptor.kind,
                    position_hint: prepared.descriptor.position_hint,
                    geometry: prepared.geometry,
                },
            ) && final(self).suspended == old(self).suspended,
            !tracking ==> final(self).is_clear(),
    {
        if prepared.activate && !activated {
            self.clear();
            return false;
        }
        let focused = match pointer_focus {
            Some(focus) => focus == prepared.surface,
            None => false,
        };
        if focused && (prepared.activate || prepared.descriptor.active) {
            self.active =
            Some(
                TrackedConstraint {
                    surface: prepared.surface,
                    kind: prepared.descriptor.kind,
                    position_hint: prepared.descriptor.position_hint,
                    geometry: prepared.geometry,
                },
            );
            true
        } else {
            self.clear();
            false
        }
    }
}

/// What a grab of the constrained surface does to the constraint.
#[derive(Clone, Copy, Debug, PartialEq, Eq, Structural)]
pub enum GrabSync {
    Nothing,
    /// The lock holds the pointer here again, in this geometry.
    RestoreLock { anchor: Position, geometry: GeometryId },
}

/// Both constraints are the same one of the same surface.
pub open spec fn resumes(
    active: Option<TrackedConstraint>,
    suspended: Option<SuspendedConstraint>,
) -> bool {
    match (active, suspended) {
        (Some(current), Some(suspended)) => current.surface == suspended.surface && current.kind
            == suspended.kind,
        _ => false,
    }
}

impl PointerConstraintLifecycle {
    /// The active constraint is held back.
    pub open spec fn is_suspended(self) -> bool {
        match (self.active, self.suspended) {
            (Some(current), Some(suspended)) => current.surface == suspended.surface,
            _ => false,
        }
    }

    /// Holds the active constraint back while a grab owns its surface, and lets it go
    /// on afterwards. `anchor` is where the pointer is in the surface of a lock.
    pub fn sync_grab_suspension(&mut self, grab_owns: bool, anchor: Option<Position>) -> (sync:
        GrabSync)
        ensures
            final(self).active == old(self).active,
            ({
                let suspend = grab_owns && old(self).active is Some;
                &&& suspend ==> sync is Nothing && final(self).is_suspended()
                &&& suspend && old(self).is_suspended() ==> final(self).suspended == old(
                    self,
                ).suspended
                &&& suspend && !old(self).is_suspended() ==> final(self).suspended == Some(
                    SuspendedConstraint {
                        surface: old(self).active->0.surface,
                        kind: old(self).active->0.kind,
                        lock_anchor: if old(self).active->0.kind == ConstraintKind::Locked {
                            anchor
                        } else {
                            None
                        },
                    },
                )
                &&& !suspend ==> final(self).suspended is None
                &&& !suspend ==> sync == (if resumes(old(self).active, old(self).suspended) && old(
                    self,
                ).suspended->0.kind == ConstraintKind::Locked && old(self).suspended->0.lock_anchor
                    is Some {
                    GrabSync::RestoreLock {
                        anchor: old(self).suspended->0.lock_anchor->0,
                        geometry: old(self).active->0.geometry,
                    }
                } else {
                    GrabSync::Nothing
                })
            }),
    {
        if grab_owns {
            if let Some(current) = self.active {
                let already_suspended = match self.suspended {
                    Some(suspended) => suspended.surface == current.surface,
                    None => false,
                };
                if !already_suspended {
                    let lock_anchor = if current.kind == ConstraintKind::Locked {
                        anchor
                    } else {
                        None
                    };
                    self.suspended =
                    Some(
                        SuspendedConstraint {
                            surface: current.surface,
                            kind: current.kind,
                            lock_anchor,
                        },
                    );
                }
                return GrabSync::Nothing;
            }
        }
        let suspended = match self.suspended {
            Some(suspended) => suspended,
            None => {
                return GrabSync::Nothing;
            },
        };
        self.suspended = None;
        match self.active {
            Some(current) => {
                if current.surface == suspended.surface && current.kind == suspended.kind
                    && suspended.kind == ConstraintKind::Locked {
                    match suspended.lock_anchor {
                        Some(anchor) => GrabSync::RestoreLock {
                            anchor,
                            geometry: current.geometry,
                        },
                        None => GrabSync::Nothing,
                    }
                } else {
                    GrabSync::Nothing
                }
            },
            None => GrabSync::Nothing,
        }
    }

    /// The constraint that affects input, if its owner is still the one it was
    /// activated for.
    pub fn active(
        &self,
        pointer_focus: Option<SurfaceId>,
        owner: OwnerFacts,
        descriptor: Option<ConstraintDescriptor>,
    ) -> (active: Option<TrackedConstraint>)
        ensures
            active == (match self.active {
                Some(current) => if owner_stays(current, pointer_focus, owner, descriptor) {
                    Some(current)
                } else {
                    None
                },
                None => None,
            }),
    {
        match self.active {
            Some(current) => {
                if active_owner_loss(current, pointer_focus, owner, descriptor).is_none() {
                    Some(current)
                } else {
                    None
                }
            },
            None => None,
        }
    }

    /// Whether the constraint that affects input is held back by a grab.
    pub fn enforcement_suspended(
        &self,
        pointer_focus: Option<SurfaceId>,
        owner: OwnerFacts,
        descriptor: Option<ConstraintDescriptor>,
    ) -> (suspended: bool)
        ensures
            suspended == (self.is_suspended() && owner_stays(
                self.active->0,
                pointer_focus,
                owner,
                descriptor,
            )),
    {
        match self.active(pointer_focus, owner, descriptor) {
            Some(current) => match self.suspended {
                Some(suspended) => suspended.surface == current.surface,
                None => false,
            },
            None => false,
        }
    }

    fn take_active(&mut self, reason: DeactivationReason) -> (deactivate: Option<
        (TrackedConstraint, DeactivationReason),
    >)
        requires
            old(self).active is Some,
        ensures
            final(self).is_clear(),
            deactivate == Some((old(self).active->0, reason)),
    {
        let current = self.active;
        self.clear();
        match current {
            Some(current) => Some((current, reason)),
            None => None,
        }
    }

    /// Deactivates a constraint whose authority is about to lose the keyboard focus.
    /// `authority` is the surface with authority over the tracked constraint.
    pub fn deactivate_before_focus_change(
        &mut self,
        authority: SurfaceId,
        next_focused_root: Option<SurfaceId>,
    ) -> (deactivate: Option<(TrackedConstraint, DeactivationReason)>)
        ensures
            ({
                let goes = old(self).active is Some && next_focused_root != Some(authority);
                &&& goes ==> final(self).is_clear() && deactivate == Some(
                    (
                        old(self).active->0,
                        DeactivationReason::RequestedKeyboardFocusChange,
                    ),
                )
                &&& !goes ==> *final(self) == *old(self) && deactivate is None
            }),
    {
        let keeps = match next_focused_root {
            Some(next) => next == authority,
            None => false,
        };
        if self.active.is_some() && !keeps {
            self.take_active(DeactivationReason::RequestedKeyboardFocusChange)
        } else {
            None
        }
    }

    /// Deactivates a constraint whose surface is about to lose the pointer focus.
    pub fn deactivate_before_pointer_focus_change(&mut self, next_focus: Option<SurfaceId>)
        -> (deactivate: Option<(TrackedConstraint, DeactivationReason)>)
        ensures
            ({
                let goes = old(self).active matches Some(current) && next_focus != Some(
                    current.surface,
                );
                &&& goes ==> final(self).is_clear() && deactivate == Some(
                    (
                        old(self).active->0,
                        DeactivationReason::RequestedPointerFocusChange,
                    ),
                )
                &&& !goes ==> *final(self) == *old(self) && deactivate is None
            }),
    {
        let goes = match self.active {
            Some(current) => match next_focus {
                Some(next) => !(next == current.surface),
                None => true,
            },
            None => false,
        };
        if goes {
            self.take_active(DeactivationReason::RequestedPointerFocusChange)
        } else {
            None
        }
    }

    /// Deactivates a constraint whose root or authority is about to be unmapped.
    /// `root` and `authority` are those of the tracked constraint.
    pub fn deactivate_before_unmap(
        &mut self,
        root: SurfaceId,
        authority: SurfaceId,
        unmapped: SurfaceId,
    ) -> (deactivate: Option<(TrackedConstraint, DeactivationReason)>)
        ensures
            ({
                let goes = old(self).active is Some && (root == unmapped || authority == unmapped);
                &&& goes ==> final(self).is_clear() && deactivate == Some(
                    (old(self).active->0, DeactivationReason::RequestedOwnerUnmap),
                )
                &&& !goes ==> *final(self) == *old(self) && deactivate is None
            }),
    {
        if self.active.is_some() && (root == unmapped || authority == unmapped) {
            self.take_active(DeactivationReason::RequestedOwnerUnmap)
        } else {
            None
        }
    }

    /// Records where a lock wants the pointer once it ends.
    pub fn apply_position_hint(&mut self, surface: SurfaceId, location: Position)
        ensures
            final(self).suspended == old(self).suspended,
            final(self).active == (match old(self).active {
                Some(current) => if current.surface == surface {
                    Some(TrackedConstraint { position_hint: Some(location), ..current })
                } else {
                    old(self).active
                },
                None => None,
            }),
    {
        if let Some(current) = self.active {
            if current.surface == surface {
                self.active =
                Some(
                    TrackedConstraint {
                        surface: current.surface,
                        kind: current.kind,
                        position_hint: Some(location),
                        geometry: current.geometry,
                    },
                );
            }
        }
    }
}

/// Where a constraint that ends wants the pointer: its own hint, or else what the
/// protocol still knows.
pub fn deactivation_hint(
    current: TrackedConstraint,
    descriptor: Option<ConstraintDescriptor>,
) -> (hint: Option<Position>)
    ensures
        hint == (if current.position_hint is Some {
            current.position_hint
        } else {
            match descriptor {
                Some(descriptor) => descriptor.position_hint,
                None => None,
            }
        }),
{
    match current.position_hint {
        Some(hint) => Some(hint),
        None => match descriptor {
            Some(descriptor) => descriptor.position_hint,
            None => None,
        },
    }
}

/// What the hand-over of the pointer to a grab proxy reads.
#[derive(Clone, Copy, Debug, PartialEq, Eq, Structural)]
pub struct HandoffFacts {
    /// The surface with authority over the proxy, if the surface is one.
    pub proxy_authority: Option<SurfaceId>,
    /// The root of the surface that has the pointer focus.
    pub focus_root: Option<SurfaceId>,
    pub owner_shown: bool,
    pub descriptor: bool,
    /// The pointer is on a pixel of the proxy that its regions allow.
    pub pointer_allowed: bool,
    pub origin_known: bool,
}

/// Whether the pointer focus goes from a managed window to its grab proxy: nothing is
/// constrained yet, the window has the focus, and the pointer may be on the proxy.
pub fn handoff_xwayland_proxy_focus(
    lifecycle: &PointerConstraintLifecycle,
    facts: &HandoffFacts,
) -> (handoff: bool)
    ensures
        handoff == (lifecycle.active is None && facts.proxy_authority is Some && facts.focus_root
            == facts.proxy_authority && facts.owner_shown && facts.descriptor
            && facts.pointer_allowed && facts.origin_known),
{
    if lifecycle.active.is_some() {
        return false;
    }
    let authority = match facts.proxy_authority {
        Some(authority) => authority,
        None => {
            return false;
        },
    };
    let focused = match facts.focus_root {
        Some(root) => root == authority,
        None => false,
    };
    focused && facts.owner_shown && facts.descriptor && facts.pointer_allowed
        && facts.origin_known
}

/// A constraint ends for good: whatever ended it, a second call finds nothing to end.
pub proof fn deactivation_happens_once(lifecycle: PointerConstraintLifecycle)
    requires
        lifecycle.is_clear(),
    ensures
        !lifecycle.is_suspended(),
        forall|facts: ReconcileFacts| !#[trigger] current_valid(lifecycle, facts),
        forall|facts: ReconcileFacts| !#[trigger] current_is_candidate(lifecycle, facts),
{
}

/// Only the surface that has the pointer focus can become the owner of a constraint.
pub proof fn candidate_has_focus(facts: ReconcileFacts)
    ensures
        candidate_of(facts) is Some ==> candidate_of(facts) == facts.pointer_focus,
        facts.preferred is Some && candidate_of(facts) is Some ==> candidate_of(facts)
            == facts.preferred,
{
}

/// A surface has authority while it is alive, mapped, and both the session's and the
/// keyboard's focus are on it. What is named as lost is lost, and nothing that comes before
/// it is.
pub proof fn the_first_thing_lost_is_named(owner: OwnerFacts)
    ensures
        authority_loss_of(owner) is None <==> owner.alive && owner.mapped && owner.compositor_focus
            && owner.keyboard_focus,
        is_authoritative(owner) <==> authority_loss_of(owner) is None,
        authority_loss_of(owner) == Some(DeactivationReason::SurfaceDestroyed) <==> !owner.alive,
        authority_loss_of(owner) == Some(DeactivationReason::OwnerUnmapped) <==> owner.alive
            && !owner.mapped,
        authority_loss_of(owner) == Some(DeactivationReason::CompositorFocusChanged)
            <==> owner.alive && owner.mapped && !owner.compositor_focus,
        authority_loss_of(owner) == Some(DeactivationReason::KeyboardFocusChanged) <==> owner.alive
            && owner.mapped && owner.compositor_focus && !owner.keyboard_focus,
{
}

/// A constraint goes on only while the pointer is on its surface, the surface has authority,
/// and the protocol has a constraint of the same kind active for it. The reason why it ends
/// is the first of these that fails.
pub proof fn constraints_end_for_a_reason(
    current: TrackedConstraint,
    pointer_focus: Option<SurfaceId>,
    owner: OwnerFacts,
    descriptor: Option<ConstraintDescriptor>,
)
    ensures
        owner_loss_of(current, pointer_focus, owner, descriptor) is None <==> pointer_focus == Some(
            current.surface,
        ) && owner.alive && owner.mapped && owner.compositor_focus && owner.keyboard_focus
            && descriptor is Some && descriptor->0.active && descriptor->0.kind == current.kind,
        owner_stays(current, pointer_focus, owner, descriptor) <==> owner_loss_of(
            current,
            pointer_focus,
            owner,
            descriptor,
        ) is None,
        owner_loss_of(current, pointer_focus, owner, descriptor) == Some(
            DeactivationReason::PointerFocusChanged,
        ) <==> pointer_focus != Some(current.surface),
        pointer_focus == Some(current.surface) && !owner.alive ==> owner_loss_of(
            current,
            pointer_focus,
            owner,
            descriptor,
        ) == Some(DeactivationReason::SurfaceDestroyed),
        pointer_focus == Some(current.surface) && owner.alive && owner.mapped
            && owner.compositor_focus && owner.keyboard_focus ==> {
            let loss = owner_loss_of(current, pointer_focus, owner, descriptor);
            &&& loss == Some(DeactivationReason::ConstraintRemoved) <==> descriptor is None
            &&& loss == Some(DeactivationReason::ProtocolDeactivated) <==> descriptor is Some
                && !descriptor->0.active
            &&& loss == Some(DeactivationReason::ConstraintKindChanged) <==> descriptor is Some
                && descriptor->0.active && descriptor->0.kind != current.kind
        },
{
}

/// The surface under the pointer is a candidate exactly where no other one is preferred, it
/// has authority and a constraint.
pub proof fn the_focused_surface_is_the_candidate(facts: ReconcileFacts, surface: SurfaceId)
    ensures
        candidate_of(facts) == Some(surface) <==> facts.pointer_focus == Some(surface) && (
        facts.preferred is None || facts.preferred == Some(surface)) && facts.focus_owner.alive
            && facts.focus_owner.mapped && facts.focus_owner.compositor_focus
            && facts.focus_owner.keyboard_focus && facts.focus_descriptor is Some,
        facts.pointer_focus is None ==> candidate_of(facts) is None,
{
}

/// A constraint that was held back goes on only as the same constraint of the same surface,
/// and is held back only while it is the active one.
pub proof fn constraints_resume_as_what_they_were(
    active: TrackedConstraint,
    suspended: SuspendedConstraint,
)
    ensures
        resumes(Some(active), Some(suspended)) <==> active.surface == suspended.surface
            && active.kind == suspended.kind,
        !resumes(None, Some(suspended)),
        !resumes(Some(active), None),
        (PointerConstraintLifecycle {
            active: Some(active),
            suspended: Some(suspended),
        }).is_suspended() <==> active.surface == suspended.surface,
        !(PointerConstraintLifecycle { active: Some(active), suspended: None }).is_suspended(),
        !(PointerConstraintLifecycle { active: None, suspended: Some(suspended) }).is_suspended(),
        !(PointerConstraintLifecycle { active: Some(active), suspended: None }).is_clear(),
        !(PointerConstraintLifecycle { active: None, suspended: Some(suspended) }).is_clear(),
{
}

/// The tracked constraint is the candidate's where both are of the surface under the pointer,
/// and is valid while nothing ends it.
pub proof fn the_tracked_constraint_is_judged_by_its_surface(
    lifecycle: PointerConstraintLifecycle,
    facts: ReconcileFacts,
)
    requires
        lifecycle.active is Some,
    ensures
        current_is_candidate(lifecycle, facts) <==> candidate_of(facts) == Some(
            lifecycle.active->0.surface,
        ),
        current_valid(lifecycle, facts) <==> owner_loss_of(
            lifecycle.active->0,
            facts.pointer_focus,
            facts.tracked_owner,
            facts.tracked_descriptor,
        ) is None,
        current_is_candidate(lifecycle, facts) ==> facts.pointer_focus == Some(
            lifecycle.active->0.surface,
        ),
{
}

/// A locked pointer never moves, a confined one moves to where it is allowed, and a free one as
/// it likes.
pub proof fn locked_pointers_do_not_move(kind: Option<ConstraintKind>, correction: Option<Position>, disposition: MotionDisposition)
    requires
        call_ensures(motion_disposition, (kind, correction), disposition),
    ensures
        disposition is RelativeOnly <==> kind == Some(ConstraintKind::Locked),
        disposition is Clamp <==> kind == Some(ConstraintKind::Confined) && correction is Some,
        disposition is Clamp ==> correction == Some(disposition->Clamp_0),
        kind is None ==> disposition is Apply,
{
}

/// A constraint that is valid and still wanted is kept; any other ends. One that is wanted and
/// not active begins.
pub proof fn constraints_change_hands_once(current: bool, same: bool, valid: bool, wanted: bool, active: bool, decision: ReconcileDecision, kept: bool, waits: bool, preferred: bool)
    requires
        call_ensures(reconcile_decision, (current, same, valid, wanted, active), decision),
        call_ensures(retain_cached_geometry, (valid, same), kept),
        call_ensures(retain_while_unfocused_request_waits, (valid, preferred, wanted), waits),
    ensures
        current ==> (decision.deactivate_current <==> !kept),
        !current ==> !decision.deactivate_current,
        kept <==> valid && same,
        decision.activate_candidate ==> wanted && !active,
        wanted && !active ==> decision.activate_candidate,
        waits ==> valid && preferred && !wanted,
        valid && preferred && !wanted ==> waits,
{
}

/// The hint that was tracked counts before the one that the protocol has.
pub proof fn the_last_hint_counts(current: TrackedConstraint, descriptor: Option<ConstraintDescriptor>, hint: Option<Position>, preferred: Option<bool>, matches_focus: bool)
    requires
        call_ensures(deactivation_hint, (current, descriptor), hint),
        call_ensures(preferred_matches_focus, (preferred,), matches_focus),
    ensures
        current.position_hint is Some ==> hint == current.position_hint,
        current.position_hint is None && descriptor is Some ==> hint == descriptor->0.position_hint,
        current.position_hint is None && descriptor is None ==> hint is None,
        !matches_focus <==> preferred == Some(false),
{
}

} // verus!
