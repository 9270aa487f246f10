//! State shared by the interactions that the session itself owns.

use vstd::prelude::*;

use crate::geometry::Size;
use crate::ids::{NodeId, SurfaceId};
use crate::session::pointer::constraints::PointerConstraintLifecycle;
use crate::session::suppressed::SuppressedCodes;

verus! {

/// What the pointer holds.
#[derive(Debug)]
pub enum Grab {
    Idle,
    /// A node was pressed and not yet dragged.
    PendingNode { id: NodeId, surface: SurfaceId },
    MoveWindow { node: Option<NodeId>, surface: SurfaceId },
    MoveNode { id: NodeId, surface: SurfaceId },
    /// The field of an output is panned.
    Pan { output: String },
    ResizeWindow { surface: SurfaceId, button: u32 },
}

/// The window that the grab holds.
pub open spec fn grabbed_surface(grab: Grab) -> Option<SurfaceId> {
    match grab {
        Grab::Idle => None,
        Grab::PendingNode { surface, .. } => Some(surface),
        Grab::MoveWindow { surface, .. } => Some(surface),
        Grab::MoveNode { surface, .. } => Some(surface),
        Grab::Pan { .. } => None,
        Grab::ResizeWindow { surface, .. } => Some(surface),
    }
}

pub fn belongs_to_surface(grab: &Grab, surface: SurfaceId) -> (r: bool)
    ensures
        r == (grabbed_surface(*grab) == Some(surface)),
{
    match grab {
        Grab::Idle => false,
        Grab::PendingNode { surface: held, .. } => *held == surface,
        Grab::MoveWindow { surface: held, .. } => *held == surface,
        Grab::MoveNode { surface: held, .. } => *held == surface,
        Grab::Pan { .. } => false,
        Grab::ResizeWindow { surface: held, .. } => *held == surface,
    }
}

#[derive(Clone, Copy, Debug, PartialEq, Eq, Structural)]
pub enum ResizePhase {
    Ongoing,
    /// The button is up, and the last size is still to be committed.
    Released,
}

/// The edge that stays in place while a window is resized.
#[derive(Clone, Copy, Debug, PartialEq, Eq, Structural)]
pub struct ResizeAnchor {
    pub surface: SurfaceId,
    pub phase: ResizePhase,
    pub last_configure: Option<u32>,
    pub last_size: Size,
}

/// The parts of a wheel step that have not made up a whole one, as the bits of two
/// numbers.
#[derive(Clone, Copy, Debug, PartialEq, Eq, Structural)]
pub struct WheelAccumulator {
    pub horizontal_bits: u64,
    pub vertical_bits: u64,
}

impl Default for WheelAccumulator {
    fn default() -> (r: Self)
        ensures
            r == (WheelAccumulator { horizontal_bits: 0, vertical_bits: 0 }),
    {
        WheelAccumulator { horizontal_bits: 0, vertical_bits: 0 }
    }
}

impl WheelAccumulator {
    pub fn reset_all(&mut self)
        ensures
            *final(self) == (WheelAccumulator { horizontal_bits: 0, vertical_bits: 0 }),
    {
        self.horizontal_bits = 0;
        self.vertical_bits = 0;
    }
}

/// Mutable state shared by compositor-owned input interactions.
///
/// These values advance and retire together across grabs, modal interception, focus
/// changes and pointer constraints.
#[derive(Debug)]
pub struct InteractionState {
    pub grab: Grab,
    pub resize_anchor: Option<ResizeAnchor>,
    pub suppressed_buttons: SuppressedCodes,
    pub suppressed_keys: SuppressedCodes,
    pub wheel_accumulator: WheelAccumulator,
    pub pointer_constraints: PointerConstraintLifecycle,
}

impl Default for InteractionState {
    fn default() -> (r: Self)
        ensures
            r.grab is Idle,
            r.resize_anchor is None,
            r.suppressed_buttons@ == Set::<u32>::empty(),
            r.suppressed_keys@ == Set::<u32>::empty(),
            r.wheel_accumulator == (WheelAccumulator { horizontal_bits: 0, vertical_bits: 0 }),
            r.pointer_constraints.active is None,
            r.pointer_constraints.suspended is None,
    {
        InteractionState {
            grab: Grab::Idle,
            resize_anchor: None,
            suppressed_buttons: SuppressedCodes::default(),
            suppressed_keys: SuppressedCodes::default(),
            wheel_accumulator: WheelAccumulator::default(),
            pointer_constraints: PointerConstraintLifecycle::default(),
        }
    }
}

impl InteractionState {
    /// All but the grab and the anchor is as it was.
    pub open spec fn same_but_grab(self, other: Self) -> bool {
        &&& self.suppressed_buttons == other.suppressed_buttons
        &&& self.suppressed_keys == other.suppressed_keys
        &&& self.wheel_accumulator == other.wheel_accumulator
        &&& self.pointer_constraints == other.pointer_constraints
    }

    /// Drops the anchor of a window that is gone or no longer resized.
    pub fn forget_resize_anchor(&mut self, surface: SurfaceId)
        ensures
            final(self).resize_anchor == (match old(self).resize_anchor {
                Some(anchor) => if anchor.surface == surface {
                    None
                } else {
                    Some(anchor)
                },
                None => None,
            }),
            final(self).grab == old(self).grab,
            final(self).same_but_grab(*old(self)),
    {
        let forget = match self.resize_anchor {
            Some(anchor) => anchor.surface == surface,
            None => false,
        };
        if forget {
            self.resize_anchor = None;
        }
    }

    /// Lets go of the window; `true` where it was held, and the image of the cursor is
    /// to be reset.
    pub fn cancel_grab_for_surface(&mut self, surface: SurfaceId) -> (cancelled: bool)
        ensures
            cancelled == (grabbed_surface(old(self).grab) == Some(surface)),
            cancelled ==> final(self).grab is Idle,
            !cancelled ==> *final(self) == *old(self),
            cancelled ==> final(self).resize_anchor == (match old(self).resize_anchor {
                Some(anchor) => if anchor.surface == surface {
                    None
                } else {
                    Some(anchor)
                },
                None => None,
            }),
            final(self).same_but_grab(*old(self)),
    {
        if belongs_to_surface(&self.grab, surface) {
            self.grab = Grab::Idle;
            self.forget_resize_anchor(surface);
            true
        } else {
            false
        }
    }

    /// Starts to resize a window that has a size and is not maximized. Windows that
    /// commit their own size keep an anchor until they have.
    pub fn begin_window_resize(
        &mut self,
        surface: SurfaceId,
        button: u32,
        maximized: bool,
        start_size: Option<Size>,
        commits_size: bool,
    ) -> (began: bool)
        ensures
            began == (!maximized && start_size is Some),
            !began ==> *final(self) == *old(self),
            began ==> {
                &&& final(self).grab == (Grab::ResizeWindow { surface, button })
                &&& final(self).resize_anchor == (if commits_size {
                    Some(
                        ResizeAnchor {
                            surface,
                            phase: ResizePhase::Ongoing,
                            last_configure: None,
                            last_size: start_size->0,
                        },
                    )
                } else {
                    None
                })
            },
            final(self).same_but_grab(*old(self)),
    {
        if maximized {
            return false;
        }
        let last_size = match start_size {
            Some(size) => size,
            None => {
                return false;
            },
        };
        self.grab = Grab::ResizeWindow { surface, button };
        self.resize_anchor = if commits_size {
            Some(
                ResizeAnchor {
                    surface,
                    phase: ResizePhase::Ongoing,
                    last_configure: None,
                    last_size,
                },
            )
        } else {
            None
        };
        true
    }

    /// Starts to resize the window under the pointer, as a client asked.
    pub fn begin_pointer_resize(
        &mut self,
        routed: Option<SurfaceId>,
        surface: SurfaceId,
        button: u32,
        maximized: bool,
        start_size: Option<Size>,
        commits_size: bool,
    ) -> (began: bool)
        ensures
            began == (routed == Some(surface) && !maximized && start_size is Some),
            !began ==> *final(self) == *old(self),
            began ==> final(self).grab == (Grab::ResizeWindow { surface, button }),
            began ==> final(self).resize_anchor == (if commits_size {
                Some(
                    ResizeAnchor {
                        surface,
                        phase: ResizePhase::Ongoing,
                        last_configure: None,
                        last_size: start_size->0,
                    },
                )
            } else {
                None
            }),
            final(self).same_but_grab(*old(self)),
    {
        if routed != Some(surface) {
            return false;
        }
        self.begin_window_resize(surface, button, maximized, start_size, commits_size)
    }

    /// Ends the resize that the button had started.
    pub fn release_resize(&mut self, button: u32) -> (released: bool)
        ensures
            released == (old(self).grab matches Grab::ResizeWindow { button: held, .. } && held
                == button),
            !released ==> *final(self) == *old(self),
            released ==> final(self).grab is Idle,
            released ==> final(self).resize_anchor == (match old(self).resize_anchor {
                Some(anchor) => Some(
                    ResizeAnchor { phase: ResizePhase::Released, ..anchor },
                ),
                None => None,
            }),
            final(self).same_but_grab(*old(self)),
    {
        let held = match &self.grab {
            Grab::ResizeWindow { button: held, .. } => *held == button,
            _ => false,
        };
        if held {
            self.grab = Grab::Idle;
            if let Some(anchor) = self.resize_anchor {
                self.resize_anchor = Some(
                    ResizeAnchor { phase: ResizePhase::Released, ..anchor },
                );
            }
        }
        held
    }
}

/// The pointer holds a window while it moves or resizes it, or holds its node; a field that
/// is panned is no window.
pub proof fn grabs_hold_their_window(
    surface: SurfaceId,
    id: NodeId,
    node: Option<NodeId>,
    button: u32,
    output: String,
)
    ensures
        grabbed_surface(Grab::MoveWindow { node, surface }) == Some(surface),
        grabbed_surface(Grab::MoveNode { id, surface }) == Some(surface),
        grabbed_surface(Grab::PendingNode { id, surface }) == Some(surface),
        grabbed_surface(Grab::ResizeWindow { surface, button }) == Some(surface),
        grabbed_surface(Grab::Pan { output }) is None,
        grabbed_surface(Grab::Idle) is None,
{
}

/// Where only the grab and the anchor change, what is swallowed, turned and constrained stays.
pub proof fn grabs_leave_the_rest(before: InteractionState, after: InteractionState)
    requires
        after.same_but_grab(before),
    ensures
        after.suppressed_buttons == before.suppressed_buttons,
        after.suppressed_keys == before.suppressed_keys,
        after.wheel_accumulator == before.wheel_accumulator,
        after.pointer_constraints == before.pointer_constraints,
{
}

} // verus!
