//! Pointer constraints along the chain from a focused surface to its root.

use vstd::prelude::*;

use crate::geometry::Point;
use crate::ids::SurfaceId;
use crate::region::{allows, region_allows, Region};
use crate::session::pointer::constraints::ConstraintKind;

verus! {

/// What becomes of a motion.
#[derive(Clone, Copy, Debug, PartialEq, Eq, Structural)]
pub enum MotionDisposition {
    Apply,
    Hold,
    RelativeOnly,
}

/// A lock turns motion into relative motion, a confinement holds a position that would
/// leave it.
pub fn motion_disposition(kind: Option<ConstraintKind>, confined_position_allowed: bool)
    -> (disposition: MotionDisposition)
    ensures
        disposition == (match kind {
            Some(ConstraintKind::Locked) => MotionDisposition::RelativeOnly,
            Some(ConstraintKind::Confined) => if confined_position_allowed {
                MotionDisposition::Apply
            } else {
                MotionDisposition::Hold
            },
            None => MotionDisposition::Apply,
        }),
{
    match kind {
        Some(ConstraintKind::Locked) => MotionDisposition::RelativeOnly,
        Some(ConstraintKind::Confined) => if confined_position_allowed {
            MotionDisposition::Apply
        } else {
            MotionDisposition::Hold
        },
        None => MotionDisposition::Apply,
    }
}

/// The constraint of one surface of a chain.
#[derive(Clone, Copy, Debug, PartialEq, Eq, Structural)]
pub struct LinkConstraint {
    pub kind: ConstraintKind,
    pub active: bool,
    /// Its region, where it has one, covers the pointer.
    pub covers_pointer: bool,
}

/// One surface of the chain from a focused surface to its root.
#[derive(Clone, Copy, Debug, PartialEq, Eq, Structural)]
pub struct ChainLink {
    pub surface: SurfaceId,
    pub constraint: Option<LinkConstraint>,
}

impl LinkConstraint {
    /// A constraint with its region, where it has one, for the pixel that the pointer is on.
    pub fn at(kind: ConstraintKind, active: bool, region: Option<&Region>, pixel: Point) -> (r:
        LinkConstraint)
        ensures
            r.kind == kind,
            r.active == active,
            r.covers_pointer == region_allows(region, pixel),
    {
        LinkConstraint { kind, active, covers_pointer: allows(region, pixel) }
    }
}

/// The link has a constraint that is active.
pub open spec fn link_active(link: ChainLink) -> bool {
    link.constraint matches Some(constraint) && constraint.active
}

/// The link has a lock that is active.
pub open spec fn link_locked(link: ChainLink) -> bool {
    link.constraint matches Some(constraint) && constraint.active && constraint.kind
        == ConstraintKind::Locked
}

/// The link has a constraint that can become active where the pointer is.
pub open spec fn link_ready(link: ChainLink) -> bool {
    link.constraint matches Some(constraint) && !constraint.active && constraint.covers_pointer
}

/// No link of the chain is active.
pub open spec fn chain_inactive(chain: Seq<ChainLink>) -> bool {
    forall|i: int| 0 <= i < chain.len() ==> !link_active(#[trigger] chain[i])
}

fn is_active(link: &ChainLink) -> (r: bool)
    ensures
        r == link_active(*link),
{
    match link.constraint {
        Some(constraint) => constraint.active,
        None => false,
    }
}

fn is_locked(link: &ChainLink) -> (r: bool)
    ensures
        r == link_locked(*link),
{
    match link.constraint {
        Some(constraint) => constraint.active && constraint.kind == ConstraintKind::Locked,
        None => false,
    }
}

fn activate_at(link: &ChainLink) -> (r: bool)
    ensures
        r == link_ready(*link),
{
    match link.constraint {
        Some(constraint) => !constraint.active && constraint.covers_pointer,
        None => false,
    }
}

/// Whether a link of the chain is active.
pub fn chain_has_active(chain: &Vec<ChainLink>) -> (r: bool)
    ensures
        r == !chain_inactive(chain@),
{
    let mut index: usize = 0;
    while index < chain.len()
        invariant
            index <= chain@.len(),
            forall|i: int| 0 <= i < index ==> !link_active(#[trigger] chain@[i]),
        decreases chain@.len() - index,
    {
        if is_active(&chain[index]) {
            assert(link_active(chain@[index as int]));
            return true;
        }
        index += 1;
    }
    false
}

/// `index` is the first link that the condition holds of.
pub open spec fn is_first(chain: Seq<ChainLink>, condition: spec_fn(ChainLink) -> bool, index: int)
    -> bool {
    &&& 0 <= index < chain.len()
    &&& condition(chain[index])
    &&& forall|i: int| 0 <= i < index ==> !condition(#[trigger] chain[i])
}

/// `index` is the first link of the surface.
pub open spec fn is_link_of(chain: Seq<ChainLink>, surface: SurfaceId, index: int) -> bool {
    &&& 0 <= index < chain.len()
    &&& chain[index].surface == surface
    &&& forall|i: int| 0 <= i < index ==> (#[trigger] chain[i]).surface != surface
}

/// The condition holds of no link.
pub open spec fn holds_nowhere(chain: Seq<ChainLink>, condition: spec_fn(ChainLink) -> bool)
    -> bool {
    forall|i: int| 0 <= i < chain.len() ==> !condition(#[trigger] chain[i])
}

/// The active lock nearest to the focused surface.
pub fn active_locked_for_focus(chain: &Vec<ChainLink>) -> (found: Option<usize>)
    ensures
        match found {
            Some(index) => is_first(chain@, |link: ChainLink| link_locked(link), index as int),
            None => holds_nowhere(chain@, |link: ChainLink| link_locked(link)),
        },
{
    let mut index: usize = 0;
    while index < chain.len()
        invariant
            index <= chain@.len(),
            forall|i: int| 0 <= i < index ==> !link_locked(#[trigger] chain@[i]),
        decreases chain@.len() - index,
    {
        if is_locked(&chain[index]) {
            return Some(index);
        }
        index += 1;
    }
    None
}

/// The active constraint nearest to the focused surface.
fn first_active(chain: &Vec<ChainLink>) -> (found: Option<usize>)
    ensures
        match found {
            Some(index) => is_first(chain@, |link: ChainLink| link_active(link), index as int),
            None => holds_nowhere(chain@, |link: ChainLink| link_active(link)),
        },
{
    let mut index: usize = 0;
    while index < chain.len()
        invariant
            index <= chain@.len(),
            forall|i: int| 0 <= i < index ==> !link_active(#[trigger] chain@[i]),
        decreases chain@.len() - index,
    {
        if is_active(&chain[index]) {
            return Some(index);
        }
        index += 1;
    }
    None
}

/// Where the constraint that affects input is found.
#[derive(Clone, Copy, Debug, PartialEq, Eq, Structural)]
pub enum ActiveLink {
    Nowhere,
    /// On the chain of the surface under the pointer.
    Routed(usize),
    /// On the chain of the focused surface.
    Focused(usize),
}

/// The constraint that affects input: the nearest active one of the surface under the
/// pointer, where that has the focus, or else the nearest lock of the focused surface.
pub fn active(routed: Option<&Vec<ChainLink>>, focused: &Vec<ChainLink>) -> (found: ActiveLink)
    ensures
        match found {
            ActiveLink::Routed(index) => routed is Some && is_first(
                routed->0@,
                |link: ChainLink| link_active(link),
                index as int,
            ),
            ActiveLink::Focused(index) => {
                &&& routed is None || chain_inactive(routed->0@)
                &&& is_first(focused@, |link: ChainLink| link_locked(link), index as int)
            },
            ActiveLink::Nowhere => {
                &&& routed is None || chain_inactive(routed->0@)
                &&& holds_nowhere(focused@, |link: ChainLink| link_locked(link))
            },
        },
{
    if let Some(chain) = routed {
        if let Some(index) = first_active(chain) {
            return ActiveLink::Routed(index);
        }
        assert(chain_inactive(chain@));
    }
    match active_locked_for_focus(focused) {
        Some(index) => ActiveLink::Focused(index),
        None => ActiveLink::Nowhere,
    }
}

/// The link whose new request becomes active: nothing on the chain is active, the
/// requesting surface is on it, and its constraint can become active.
pub fn activate_new(chain: Option<&Vec<ChainLink>>, requested: SurfaceId) -> (activated: Option<
    usize,
>)
    ensures
        match chain {
            None => activated is None,
            Some(chain) => match activated {
                Some(index) => {
                    &&& chain_inactive(chain@)
                    &&& is_link_of(chain@, requested, index as int)
                    &&& link_ready(chain@[index as int])
                },
                None => !chain_inactive(chain@) || forall|i: int| #[trigger]
                    is_link_of(chain@, requested, i) ==> !link_ready(chain@[i]),
            },
        },
{
    let links = match chain {
        Some(links) => links,
        None => {
            return None;
        },
    };
    if chain_has_active(links) {
        return None;
    }
    let mut index: usize = 0;
    while index < links.len()
        invariant
            chain == Some(links),
            index <= links@.len(),
            chain_inactive(links@),
            forall|i: int| 0 <= i < index ==> (#[trigger] links@[i]).surface != requested,
        decreases links@.len() - index,
    {
        if links[index].surface == requested {
            assert(is_link_of(links@, requested, index as int));
            if activate_at(&links[index]) {
                return Some(index);
            }
            return None;
        }
        index += 1;
    }
    None
}

/// The link that becomes active with the focus: the nearest that can, if nothing on
/// the chain is active.
pub fn activate_focused(chain: Option<&Vec<ChainLink>>) -> (activated: Option<usize>)
    ensures
        match chain {
            None => activated is None,
            Some(chain) => match activated {
                Some(index) => chain_inactive(chain@) && is_first(
                    chain@,
                    |link: ChainLink| link_ready(link),
                    index as int,
                ),
                None => !chain_inactive(chain@) || holds_nowhere(
                    chain@,
                    |link: ChainLink| link_ready(link),
                ),
            },
        },
{
    let links = match chain {
        Some(links) => links,
        None => {
            return None;
        },
    };
    if chain_has_active(links) {
        return None;
    }
    let mut index: usize = 0;
    while index < links.len()
        invariant
            chain == Some(links),
            index <= links@.len(),
            chain_inactive(links@),
            forall|i: int| 0 <= i < index ==> !link_ready(#[trigger] links@[i]),
        decreases links@.len() - index,
    {
        if activate_at(&links[index]) {
            return Some(index);
        }
        index += 1;
    }
    None
}

/// Whether a confinement allows where the pointer is: its surface is on the chain under
/// the pointer, and its region covers the pointer there.
pub fn allows_current_position(chain: Option<&Vec<ChainLink>>, constrained: SurfaceId)
    -> (allowed: bool)
    ensures
        allowed == (chain is Some && exists|i: int| #[trigger]
            is_link_of(chain->0@, constrained, i) && chain->0@[i].constraint is Some && chain->0@[i].constraint->0.covers_pointer),
{
    let links = match chain {
        Some(links) => links,
        None => {
            return false;
        },
    };
    let mut index: usize = 0;
    while index < links.len()
        invariant
            chain == Some(links),
            index <= links@.len(),
            forall|i: int| 0 <= i < index ==> (#[trigger] links@[i]).surface != constrained,
        decreases links@.len() - index,
    {
        if links[index].surface == constrained {
            let covered = match links[index].constraint {
                Some(constraint) => constraint.covers_pointer,
                None => false,
            };
            proof {
                assert(is_link_of(links@, constrained, index as int));
            }
            return covered;
        }
        index += 1;
    }
    false
}

/// A constraint can become active only while it is not, and only where it covers the pointer.
/// A lock is active only as a constraint that is.
pub proof fn constraints_wait_until_they_cover_the_pointer(
    surface: SurfaceId,
    constraint: LinkConstraint,
)
    ensures
        link_ready(ChainLink { surface, constraint: Some(constraint) }) <==> !constraint.active
            && constraint.covers_pointer,
        link_active(ChainLink { surface, constraint: Some(constraint) }) <==> constraint.active,
        link_locked(ChainLink { surface, constraint: Some(constraint) }) <==> constraint.active
            && constraint.kind == ConstraintKind::Locked,
        !link_ready(ChainLink { surface, constraint: None }),
        !link_active(ChainLink { surface, constraint: None }),
        !link_locked(ChainLink { surface, constraint: None }),
{
}

/// A chain is inactive exactly where none of its surfaces has an active constraint.
pub proof fn one_active_constraint_makes_a_chain_active(chain: Seq<ChainLink>, i: int)
    requires
        0 <= i < chain.len(),
        chain[i].constraint is Some,
        chain[i].constraint->0.active,
    ensures
        !chain_inactive(chain),
{
    assert(link_active(chain[i]));
}

/// The link of a surface is the first of its links on the chain.
pub proof fn links_are_found_from_the_focused_surface(
    chain: Seq<ChainLink>,
    surface: SurfaceId,
    index: int,
    other: int,
)
    requires
        is_link_of(chain, surface, index),
        0 <= other < chain.len(),
        chain[other].surface == surface,
    ensures
        chain[index].surface == surface,
        index <= other,
{
}

/// A locked pointer never moves, a confined one is held where it may not go, and a free one is
/// not.
pub proof fn locked_pointers_do_not_move(kind: Option<ConstraintKind>, allowed: bool, disposition: MotionDisposition)
    requires
        call_ensures(motion_disposition, (kind, allowed), disposition),
    ensures
        disposition is RelativeOnly <==> kind == Some(ConstraintKind::Locked),
        disposition is Hold <==> kind == Some(ConstraintKind::Confined) && !allowed,
        kind is None ==> disposition is Apply,
{
}

} // verus!
