//! Where windows seem to come from when they open.

use std::collections::HashMap;

use vstd::prelude::*;

use crate::geometry::Rectangle;
use crate::ids::SurfaceId;
use crate::session::navigation::output_geometry_center;
use crate::session::pointer::constraints::Position;

verus! {

broadcast use vstd::std_specs::hash::group_hash_axioms;

/// The places that windows open from, before and after they are shown.
#[derive(Debug)]
pub struct OpeningOrigins {
    pending: HashMap<u64, Position>,
    active: HashMap<u64, Position>,
}

impl OpeningOrigins {
    /// The origins of windows that are not shown yet.
    pub closed spec fn pending_map(self) -> Map<u64, Position> {
        self.pending@
    }

    /// The origins of windows that are shown.
    pub closed spec fn active_map(self) -> Map<u64, Position> {
        self.active@
    }

    /// Notes an origin unless a better one is known.
    pub fn remember_fallback(&mut self, surface: SurfaceId, origin: Position)
        ensures
            final(self).pending_map() == (if old(self).pending_map().contains_key(surface.raw) {
                old(self).pending_map()
            } else {
                old(self).pending_map().insert(surface.raw, origin)
            }),
            final(self).active_map() == old(self).active_map(),
    {
        if !self.pending.contains_key(&surface.raw) {
            self.pending.insert(surface.raw, origin);
        }
    }

    /// Notes the place of the launcher, which is better than any other.
    pub fn remember_launcher(&mut self, surface: SurfaceId, origin: Position)
        ensures
            final(self).pending_map() == old(self).pending_map().insert(surface.raw, origin),
            final(self).active_map() == old(self).active_map(),
    {
        self.pending.insert(surface.raw, origin);
    }

    pub fn forget(&mut self, surface: SurfaceId)
        ensures
            final(self).pending_map() == old(self).pending_map().remove(surface.raw),
            final(self).active_map() == old(self).active_map().remove(surface.raw),
    {
        self.pending.remove(&surface.raw);
        self.active.remove(&surface.raw);
    }

    /// Takes the origin of a window that is shown now; without one, the fallback.
    pub fn activate(&mut self, surface: SurfaceId, fallback: Option<Position>) -> (origin: Option<
        Position,
    >)
        ensures
            origin == (if old(self).pending_map().contains_key(surface.raw) {
                Some(old(self).pending_map()[surface.raw])
            } else {
                fallback
            }),
            final(self).pending_map() == old(self).pending_map().remove(surface.raw),
            final(self).active_map() == (match origin {
                Some(origin) => old(self).active_map().insert(surface.raw, origin),
                None => old(self).active_map(),
            }),
    {
        let origin = match self.pending.remove(&surface.raw) {
            Some(origin) => Some(origin),
            None => fallback,
        };
        if let Some(origin) = origin {
            self.active.insert(surface.raw, origin);
        }
        origin
    }

    /// Starts to show a window. Where its output has a place, it opens from its own origin, or
    /// else from the fallback; where not, nothing is known of where it comes from.
    pub fn start(&mut self, surface: SurfaceId, output_placed: bool, fallback: Option<Position>)
        -> (origin: Option<Position>)
        ensures
            !output_placed ==> {
                &&& origin is None
                &&& final(self).pending_map() == old(self).pending_map().remove(surface.raw)
                &&& final(self).active_map() == old(self).active_map().remove(surface.raw)
            },
            output_placed ==> {
                &&& origin == (if old(self).pending_map().contains_key(surface.raw) {
                    Some(old(self).pending_map()[surface.raw])
                } else {
                    fallback
                })
                &&& final(self).pending_map() == old(self).pending_map().remove(surface.raw)
                &&& final(self).active_map() == (match origin {
                    Some(origin) => old(self).active_map().insert(surface.raw, origin),
                    None => old(self).active_map(),
                })
            },
    {
        if !output_placed {
            self.forget(surface);
            return None;
        }
        self.activate(surface, fallback)
    }

    /// Where a shown window came from, and goes back to.
    pub fn active(&self, surface: SurfaceId) -> (origin: Option<Position>)
        ensures
            origin == (if self.active_map().contains_key(surface.raw) {
                Some(self.active_map()[surface.raw])
            } else {
                None
            }),
    {
        match self.active.get(&surface.raw) {
            Some(origin) => Some(*origin),
            None => None,
        }
    }
}

impl Default for OpeningOrigins {
    fn default() -> (r: Self)
        ensures
            r.pending_map() == Map::<u64, Position>::empty(),
            r.active_map() == Map::<u64, Position>::empty(),
    {
        OpeningOrigins { pending: HashMap::new(), active: HashMap::new() }
    }
}

/// The launcher's place wins over a fallback that was noted before or is noted after.
pub proof fn launcher_origin_wins(
    pending: Map<u64, Position>,
    surface: SurfaceId,
    launcher: Position,
    fallback: Position,
)
    ensures
        pending.insert(surface.raw, fallback).insert(surface.raw, launcher)[surface.raw]
            == launcher,
        pending.insert(surface.raw, launcher).contains_key(surface.raw),
{
}

/// The bits of a number that is neither infinite nor no number: its exponent is not all
/// ones.
pub open spec fn finite_bits(bits: u64) -> bool {
    (bits / 0x10_0000_0000_0000) % 0x800 != 0x7ff
}

fn is_finite(bits: u64) -> (r: bool)
    ensures
        r == finite_bits(bits),
{
    (bits / 0x10_0000_0000_0000) % 0x800 != 0x7ff
}

/// A place that a window opens from.
#[derive(Clone, Copy, Debug, PartialEq, Eq, Structural)]
pub enum Origin {
    At(Position),
    /// The middle of the output, as twice its coordinates.
    Middle { twice_x: i64, twice_y: i64 },
}

/// The place that a window opens from where no launcher is known: the cursor, wherever
/// it is; without a usable one the focused window; else the middle of the output.
pub fn choose_fallback_origin(output: Rectangle, cursor: Position, focused_window: Option<Position>)
    -> (origin: Origin)
    ensures
        origin == (if finite_bits(cursor.x_bits) && finite_bits(cursor.y_bits) {
            Origin::At(cursor)
        } else {
            match focused_window {
                Some(position) => Origin::At(position),
                None => Origin::Middle {
                    twice_x: (2 * output.loc.x + output.size.w) as i64,
                    twice_y: (2 * output.loc.y + output.size.h) as i64,
                },
            }
        }),
{
    if is_finite(cursor.x_bits) && is_finite(cursor.y_bits) {
        Origin::At(cursor)
    } else {
        match focused_window {
            Some(position) => Origin::At(position),
            None => {
                let twice = output_geometry_center(output);
                Origin::Middle { twice_x: twice.0, twice_y: twice.1 }
            },
        }
    }
}

/// The output that a window opens on, by its place among the outputs: the one that it is
/// on, or else the selected one. `window` is the name of its output, if there is a window
/// and it has one.
pub fn output_for_surface(
    window_known: bool,
    window: Option<&str>,
    outputs: &Vec<String>,
    selected: Option<usize>,
) -> (output: Option<usize>)
    ensures
        !window_known ==> output is None,
        window_known && window is None ==> output == selected,
        window_known && window is Some ==> (output is Some && is_first_named(
            outputs@,
            window->0@,
            output->0 as int,
        )) || (output == selected && forall|i: int|
            0 <= i < outputs@.len() ==> (#[trigger] outputs@[i])@ != window->0@),
{
    if !window_known {
        return None;
    }
    let name = match window {
        Some(name) => name,
        None => {
            return selected;
        },
    };
    let mut index: usize = 0;
    while index < outputs.len()
        invariant
            index <= outputs@.len(),
            window_known,
            window == Some(name),
            forall|i: int| 0 <= i < index ==> (#[trigger] outputs@[i])@ != name@,
        decreases outputs@.len() - index,
    {
        if crate::text::same_text(outputs[index].as_str(), name) {
            return Some(index);
        }
        index += 1;
    }
    selected
}

/// `index` is the first of the outputs with this name.
pub open spec fn is_first_named(outputs: Seq<String>, name: Seq<char>, index: int) -> bool {
    &&& 0 <= index < outputs.len()
    &&& outputs[index]@ == name
    &&& forall|i: int| 0 <= i < index ==> (#[trigger] outputs[i])@ != name
}

/// The bits are those of a finite number exactly where they lie below those of infinity, the
/// sign aside.
pub proof fn infinities_and_beyond_are_not_finite(bits: u64)
    ensures
        bits < 0x8000_0000_0000_0000 ==> (finite_bits(bits) <==> bits < 0x7ff0_0000_0000_0000),
        bits >= 0x8000_0000_0000_0000 ==> (finite_bits(bits) <==> bits < 0xfff0_0000_0000_0000),
{
    assert(bits < 0x8000_0000_0000_0000u64 ==> ((bits / 0x10_0000_0000_0000u64) % 0x800u64
        != 0x7ffu64 <==> bits < 0x7ff0_0000_0000_0000u64)) by (bit_vector);
    assert(bits >= 0x8000_0000_0000_0000u64 ==> ((bits / 0x10_0000_0000_0000u64) % 0x800u64
        != 0x7ffu64 <==> bits < 0xfff0_0000_0000_0000u64)) by (bit_vector);
}

/// The output that is found is the first of its name.
pub proof fn outputs_are_found_by_name(outputs: Seq<String>, name: Seq<char>, index: int, i: int)
    requires
        is_first_named(outputs, name, index),
        0 <= i < outputs.len(),
        outputs[i]@ == name,
    ensures
        outputs[index]@ == name,
        index <= i,
{
}

} // verus!
