//! Touches on a touchscreen.

use std::collections::HashMap;

use vstd::prelude::*;

use vstd::std_specs::hash::spec_values_iter;
use vstd::std_specs::iter::IteratorSpec;

use crate::geometry::Size;
use crate::ids::SurfaceId;
use crate::session::output::Transform;
use crate::session::pointer::constraints::Position;

verus! {

broadcast use vstd::std_specs::hash::group_hash_axioms;

/// A finger. A screen that knows one finger only does not number it.
#[derive(Clone, Copy, Debug, PartialEq, Eq, Structural)]
pub struct TouchSlot {
    pub id: Option<u32>,
}

impl TouchSlot {
    /// The number that stands for the finger.
    pub open spec fn key(self) -> u64 {
        match self.id {
            Some(id) => (id + 1) as u64,
            None => 0,
        }
    }

    fn to_key(self) -> (key: u64)
        ensures
            key == self.key(),
    {
        match self.id {
            Some(id) => id as u64 + 1,
            None => 0,
        }
    }
}

/// How the positions of a touch are given to its client.
#[derive(Clone, Copy, Debug, PartialEq, Eq, Structural)]
pub enum CoordinateSpace {
    Screen,
    /// As the window of the surface is shown.
    Window(SurfaceId),
}

/// A touch that a client gets.
#[derive(Clone, Copy, Debug, PartialEq, Eq, Structural)]
pub struct TouchTarget {
    pub surface: SurfaceId,
    pub coordinates: CoordinateSpace,
}

/// A control of a titlebar.
#[derive(Clone, Copy, Debug, PartialEq, Eq, Structural)]
pub struct ButtonTarget {
    pub window: u64,
    /// The surface of the window, if it has one.
    pub surface: Option<SurfaceId>,
    pub control: u32,
}

/// A touch on a control of a titlebar, and where it was last.
#[derive(Clone, Copy, Debug, PartialEq, Eq, Structural)]
pub struct DecorationTouch {
    pub target: ButtonTarget,
    pub screen: Position,
}

/// What is touched at a place.
#[derive(Clone, Copy, Debug, PartialEq, Eq)]
pub enum TouchHit {
    Window,
    Layer,
    /// A titlebar, and the control that is touched, if any, with whether it can be used.
    Decoration(Option<(ButtonTarget, bool)>),
    Background,
}

/// What is touched, and the surface that gets the touch with the root of its tree.
#[derive(Clone, Copy, Debug, PartialEq, Eq)]
pub struct TouchRoute {
    pub hit: TouchHit,
    pub focus: Option<(SurfaceId, SurfaceId)>,
}

/// What is focused when a finger comes down.
#[derive(Clone, Copy, Debug, PartialEq, Eq, Structural)]
pub enum DownFocus {
    Window,
    Layer,
    NoLayer,
}

/// What a finger that comes down does.
#[derive(Clone, Copy, Debug, PartialEq, Eq, Structural)]
pub enum DownOutcome {
    Nothing,
    /// The output is selected and the target is focused. A control of a titlebar may be
    /// pressed: it is drawn so. A client may get the touch.
    Touched { focus: DownFocus, press: Option<ButtonTarget>, deliver: Option<SurfaceId> },
}

/// What a finger that moves does.
#[derive(Clone, Copy, Debug, PartialEq, Eq, Structural)]
pub enum MotionOutcome {
    Nothing,
    /// A control of a titlebar is drawn as pressed or not.
    Press(Option<ButtonTarget>),
    /// The client gets the position in its coordinates.
    Deliver(CoordinateSpace),
    /// The window is no longer shown: every touch is cancelled.
    Cancel,
}

/// What a finger that goes up does.
#[derive(Clone, Copy, Debug, PartialEq, Eq, Structural)]
pub enum UpOutcome {
    Nothing,
    /// A control of a titlebar is let go, and used if the finger is still on it.
    Release { target: ButtonTarget, activates: bool },
    Deliver,
}

/// The touches that are under way.
#[derive(Debug)]
pub struct TouchState {
    targets: HashMap<u64, TouchTarget>,
    decorations: HashMap<u64, DecorationTouch>,
}

/// The root of the tree of a surface. One that is not listed is its own root.
pub open spec fn root_in(roots: Map<u64, SurfaceId>, surface: SurfaceId) -> SurfaceId {
    if roots.contains_key(surface.raw) {
        roots[surface.raw]
    } else {
        surface
    }
}

fn find_root(roots: &HashMap<u64, SurfaceId>, surface: SurfaceId) -> (root: SurfaceId)
    ensures
        root == root_in(roots@, surface),
{
    match roots.get(&surface.raw) {
        Some(root) => *root,
        None => surface,
    }
}

/// A touch belongs to the window with this root.
pub open spec fn target_belongs(
    target: TouchTarget,
    roots: Map<u64, SurfaceId>,
    root: SurfaceId,
) -> bool {
    root_in(roots, target.surface) == root
}

/// A touch on a titlebar belongs to the window with this root.
pub open spec fn decoration_belongs(
    touch: DecorationTouch,
    roots: Map<u64, SurfaceId>,
    root: SurfaceId,
) -> bool {
    touch.target.surface is Some && root_in(roots, touch.target.surface->0) == root
}

/// The finger is on a control of a titlebar.
pub open spec fn is_on(route: Option<TouchRoute>, target: ButtonTarget) -> bool {
    match route {
        Some(TouchRoute { hit: TouchHit::Decoration(Some((found, _))), .. }) => found.window
            == target.window && found.control == target.control,
        _ => false,
    }
}

fn on(route: Option<TouchRoute>, target: ButtonTarget) -> (r: bool)
    ensures
        r == is_on(route, target),
{
    match route {
        Some(route) => match route.hit {
            TouchHit::Decoration(Some((found, _))) => found.window == target.window
                && found.control == target.control,
            _ => false,
        },
        None => false,
    }
}

/// The coordinates that a client gets.
pub open spec fn coordinates_for(hit: TouchHit, root: SurfaceId) -> CoordinateSpace {
    match hit {
        TouchHit::Window => CoordinateSpace::Window(root),
        _ => CoordinateSpace::Screen,
    }
}

/// The control that is pressed by a touch.
pub open spec fn pressed_by(hit: TouchHit) -> Option<ButtonTarget> {
    match hit {
        TouchHit::Decoration(Some((target, true))) => Some(target),
        _ => None,
    }
}

/// What a touch focuses.
pub open spec fn focus_for(hit: TouchHit) -> DownFocus {
    match hit {
        TouchHit::Window => DownFocus::Window,
        TouchHit::Decoration(_) => DownFocus::Window,
        TouchHit::Layer => DownFocus::Layer,
        TouchHit::Background => DownFocus::NoLayer,
    }
}

/// One of the touches belongs to the window with this root.
pub open spec fn some_target_belongs(
    touches: Map<u64, TouchTarget>,
    roots: Map<u64, SurfaceId>,
    root: SurfaceId,
) -> bool {
    exists|key: u64| #[trigger]
        touches.contains_key(key) && target_belongs(touches[key], roots, root)
}

fn any_target(
    touches: &HashMap<u64, TouchTarget>,
    roots: &HashMap<u64, SurfaceId>,
    root: SurfaceId,
) -> (found: bool)
    ensures
        found == some_target_belongs(touches@, roots@, root),
{
    let mut found = false;
    let ghost values = spec_values_iter(touches).remaining().unref();
    for touch in it: touches.values()
        invariant
            it.seq().unref() == values,
            found == exists|i: int|
                0 <= i < it.index() && target_belongs(#[trigger] values[i], roots@, root),
    {
        assert(*touch == values[it.index()]);
        if find_root(roots, touch.surface) == root {
            found = true;
        }
    }
    proof {
        assert(values.to_set() == touches@.values());
        if found {
            let i = choose|i: int|
                0 <= i < values.len() && target_belongs(#[trigger] values[i], roots@, root);
            assert(values.to_set().contains(values[i]));
            assert(touches@.values().contains(values[i]));
            let key = choose|key: u64| #[trigger]
                touches@.contains_key(key) && touches@[key] == values[i];
            assert(touches@.contains_key(key) && target_belongs(touches@[key], roots@, root));
        }
        if exists|key: u64| #[trigger]
            touches@.contains_key(key) && target_belongs(touches@[key], roots@, root) {
            let key = choose|key: u64| #[trigger]
                touches@.contains_key(key) && target_belongs(touches@[key], roots@, root);
            assert(touches@.values().contains(touches@[key]));
            assert(values.contains(touches@[key]));
            let i = choose|i: int| 0 <= i < values.len() && values[i] == touches@[key];
            assert(target_belongs(values[i], roots@, root));
        }
    }
    found
}

/// One of the touches belongs to the window with this root.
pub open spec fn some_decoration_belongs(
    touches: Map<u64, DecorationTouch>,
    roots: Map<u64, SurfaceId>,
    root: SurfaceId,
) -> bool {
    exists|key: u64| #[trigger]
        touches.contains_key(key) && decoration_belongs(touches[key], roots, root)
}

fn any_decoration(
    touches: &HashMap<u64, DecorationTouch>,
    roots: &HashMap<u64, SurfaceId>,
    root: SurfaceId,
) -> (found: bool)
    ensures
        found == some_decoration_belongs(touches@, roots@, root),
{
    let mut found = false;
    let ghost values = spec_values_iter(touches).remaining().unref();
    for touch in it: touches.values()
        invariant
            it.seq().unref() == values,
            found == exists|i: int|
                0 <= i < it.index() && decoration_belongs(#[trigger] values[i], roots@, root),
    {
        assert(*touch == values[it.index()]);
        if decoration_has_root(touch, roots, root) {
            found = true;
        }
    }
    proof {
        assert(values.to_set() == touches@.values());
        if found {
            let i = choose|i: int|
                0 <= i < values.len() && decoration_belongs(#[trigger] values[i], roots@, root);
            assert(values.to_set().contains(values[i]));
            assert(touches@.values().contains(values[i]));
            let key = choose|key: u64| #[trigger]
                touches@.contains_key(key) && touches@[key] == values[i];
            assert(touches@.contains_key(key) && decoration_belongs(touches@[key], roots@, root));
        }
        if exists|key: u64| #[trigger]
            touches@.contains_key(key) && decoration_belongs(touches@[key], roots@, root) {
            let key = choose|key: u64| #[trigger]
                touches@.contains_key(key) && decoration_belongs(touches@[key], roots@, root);
            assert(touches@.values().contains(touches@[key]));
            assert(values.contains(touches@[key]));
            let i = choose|i: int| 0 <= i < values.len() && values[i] == touches@[key];
            assert(decoration_belongs(values[i], roots@, root));
        }
    }
    found
}

fn decoration_has_root(
    touch: &DecorationTouch,
    roots: &HashMap<u64, SurfaceId>,
    root: SurfaceId,
) -> (r: bool)
    ensures
        r == decoration_belongs(*touch, roots@, root),
{
    match touch.target.surface {
        Some(surface) => find_root(roots, surface) == root,
        None => false,
    }
}

impl Default for TouchState {
    fn default() -> (r: Self)
        ensures
            r.target_map() == Map::<u64, TouchTarget>::empty(),
            r.decoration_map() == Map::<u64, DecorationTouch>::empty(),
    {
        TouchState { targets: HashMap::new(), decorations: HashMap::new() }
    }
}

impl TouchState {
    /// The touches that clients get.
    pub closed spec fn target_map(self) -> Map<u64, TouchTarget> {
        self.targets@
    }

    /// The touches on titlebars.
    pub closed spec fn decoration_map(self) -> Map<u64, DecorationTouch> {
        self.decorations@
    }

    pub fn begin(&mut self, slot: TouchSlot, target: TouchTarget)
        ensures
            final(self).target_map() == old(self).target_map().insert(slot.key(), target),
            final(self).decoration_map() == old(self).decoration_map(),
    {
        self.targets.insert(slot.to_key(), target);
    }

    /// Ends a touch of a client. Answers whether there was one.
    pub fn finish(&mut self, slot: TouchSlot) -> (found: bool)
        ensures
            found == old(self).target_map().contains_key(slot.key()),
            final(self).target_map() == old(self).target_map().remove(slot.key()),
            final(self).decoration_map() == old(self).decoration_map(),
    {
        let key: u64 = slot.to_key();
        match self.targets.remove(&key) {
            Some(_) => true,
            None => false,
        }
    }

    pub fn begin_decoration(&mut self, slot: TouchSlot, target: ButtonTarget, screen: Position)
        ensures
            final(self).decoration_map() == old(self).decoration_map().insert(
                slot.key(),
                DecorationTouch { target, screen },
            ),
            final(self).target_map() == old(self).target_map(),
    {
        self.decorations.insert(slot.to_key(), DecorationTouch { target, screen });
    }

    /// Ends a touch on a titlebar.
    pub fn finish_decoration(&mut self, slot: TouchSlot) -> (touch: Option<DecorationTouch>)
        ensures
            touch == (if old(self).decoration_map().contains_key(slot.key()) {
                Some(old(self).decoration_map()[slot.key()])
            } else {
                None
            }),
            final(self).decoration_map() == old(self).decoration_map().remove(slot.key()),
            final(self).target_map() == old(self).target_map(),
    {
        let key: u64 = slot.to_key();
        self.decorations.remove(&key)
    }

    /// Whether a touch belongs to a window.
    pub fn has_surface(&self, surface: SurfaceId, roots: &HashMap<u64, SurfaceId>) -> (found: bool)
        ensures
            found == (some_target_belongs(
                self.target_map(),
                roots@,
                root_in(roots@, surface),
            ) || some_decoration_belongs(
                self.decoration_map(),
                roots@,
                root_in(roots@, surface),
            )),
    {
        let root = find_root(roots, surface);
        any_target(&self.targets, roots, root) || any_decoration(&self.decorations, roots, root)
    }

    /// Forgets every touch. Answers whether there was any.
    pub fn clear(&mut self) -> (active: bool)
        ensures
            active == !(old(self).target_map() =~= Map::<u64, TouchTarget>::empty() && old(
                self,
            ).decoration_map() =~= Map::<u64, DecorationTouch>::empty()),
            final(self).target_map() == Map::<u64, TouchTarget>::empty(),
            final(self).decoration_map() == Map::<u64, DecorationTouch>::empty(),
    {
        let active = !self.targets.is_empty() || !self.decorations.is_empty();
        self.targets.clear();
        self.decorations.clear();
        active
    }

    /// A finger comes down.
    pub fn down(
        &mut self,
        slot: TouchSlot,
        has_touch: bool,
        screen: Option<Position>,
        route: Option<TouchRoute>,
        touch_passthrough: bool,
    ) -> (outcome: DownOutcome)
        ensures
            !has_touch || screen is None || route is None ==> outcome == DownOutcome::Nothing
                && *final(self) == *old(self),
            has_touch && screen is Some && route is Some ==> {
                let hit = route->0.hit;
                let focus = route->0.focus;
                let delivers = hit !is Decoration && touch_passthrough && focus is Some;
                &&& outcome == (DownOutcome::Touched {
                    focus: focus_for(hit),
                    press: pressed_by(hit),
                    deliver: if delivers {
                        Some((focus->0).0)
                    } else {
                        None
                    },
                })
                &&& final(self).decoration_map() == (match pressed_by(hit) {
                    Some(target) => old(self).decoration_map().insert(
                        slot.key(),
                        DecorationTouch { target, screen: screen->0 },
                    ),
                    None => old(self).decoration_map(),
                })
                &&& final(self).target_map() == (if delivers {
                    old(self).target_map().insert(
                        slot.key(),
                        TouchTarget {
                            surface: (focus->0).0,
                            coordinates: coordinates_for(hit, (focus->0).1),
                        },
                    )
                } else {
                    old(self).target_map()
                })
            },
    {
        let screen = match (has_touch, screen) {
            (true, Some(screen)) => screen,
            _ => {
                return DownOutcome::Nothing;
            },
        };
        let route = match route {
            Some(route) => route,
            None => {
                return DownOutcome::Nothing;
            },
        };
        let focus = match route.hit {
            TouchHit::Window => DownFocus::Window,
            TouchHit::Layer => DownFocus::Layer,
            TouchHit::Background => DownFocus::NoLayer,
            TouchHit::Decoration(control) => {
                let press = match control {
                    Some((target, true)) => {
                        self.begin_decoration(slot, target, screen);
                        Some(target)
                    },
                    _ => None,
                };
                return DownOutcome::Touched { focus: DownFocus::Window, press, deliver: None };
            },
        };
        if !touch_passthrough {
            return DownOutcome::Touched { focus, press: None, deliver: None };
        }
        match route.focus {
            Some((surface, root)) => {
                let coordinates = match route.hit {
                    TouchHit::Window => CoordinateSpace::Window(root),
                    _ => CoordinateSpace::Screen,
                };
                self.begin(slot, TouchTarget { surface, coordinates });
                DownOutcome::Touched { focus, press: None, deliver: Some(surface) }
            },
            None => DownOutcome::Touched { focus, press: None, deliver: None },
        }
    }

    /// A finger moves. `shown` says whether the window of its touch is still shown.
    pub fn motion(
        &mut self,
        slot: TouchSlot,
        has_touch: bool,
        screen: Option<Position>,
        route: Option<TouchRoute>,
        shown: bool,
    ) -> (outcome: MotionOutcome)
        ensures
            screen is None ==> outcome == MotionOutcome::Nothing && *final(self) == *old(self),
            screen is Some && old(self).decoration_map().contains_key(slot.key()) ==> {
                let target = old(self).decoration_map()[slot.key()].target;
                &&& outcome == MotionOutcome::Press(
                    if is_on(route, target) {
                        Some(target)
                    } else {
                        None
                    },
                )
                &&& final(self).decoration_map() == old(self).decoration_map().insert(
                    slot.key(),
                    DecorationTouch { target, screen: screen->0 },
                )
                &&& final(self).target_map() == old(self).target_map()
            },
            screen is Some && !old(self).decoration_map().contains_key(slot.key()) ==> {
                &&& *final(self) == *old(self)
                &&& outcome == (if !has_touch || !old(self).target_map().contains_key(slot.key()) {
                    MotionOutcome::Nothing
                } else {
                    let coordinates = old(self).target_map()[slot.key()].coordinates;
                    if coordinates is Window && !shown {
                        MotionOutcome::Cancel
                    } else {
                        MotionOutcome::Deliver(coordinates)
                    }
                })
            },
    {
        let screen = match screen {
            Some(screen) => screen,
            None => {
                return MotionOutcome::Nothing;
            },
        };
        let key: u64 = slot.to_key();
        let pressed = match self.decorations.get(&key) {
            Some(touch) => Some(touch.target),
            None => None,
        };
        if let Some(target) = pressed {
            self.begin_decoration(slot, target, screen);
            return MotionOutcome::Press(
                if on(route, target) {
                    Some(target)
                } else {
                    None
                },
            );
        }
        if !has_touch {
            return MotionOutcome::Nothing;
        }
        match self.targets.get(&key) {
            Some(target) => match target.coordinates {
                CoordinateSpace::Screen => MotionOutcome::Deliver(CoordinateSpace::Screen),
                CoordinateSpace::Window(surface) => if shown {
                    MotionOutcome::Deliver(CoordinateSpace::Window(surface))
                } else {
                    MotionOutcome::Cancel
                },
            },
            None => MotionOutcome::Nothing,
        }
    }

    /// Where the finger on a control of a titlebar was last, for what is found there.
    pub fn decoration(&self, slot: TouchSlot) -> (touch: Option<DecorationTouch>)
        ensures
            touch == (if self.decoration_map().contains_key(slot.key()) {
                Some(self.decoration_map()[slot.key()])
            } else {
                None
            }),
    {
        let key: u64 = slot.to_key();
        match self.decorations.get(&key) {
            Some(touch) => Some(*touch),
            None => None,
        }
    }

    /// A finger goes up. `route` is what is found where it was last.
    pub fn up(&mut self, slot: TouchSlot, has_touch: bool, route: Option<TouchRoute>) -> (outcome:
        UpOutcome)
        ensures
            final(self).decoration_map() == old(self).decoration_map().remove(slot.key()),
            old(self).decoration_map().contains_key(slot.key()) ==> {
                let target = old(self).decoration_map()[slot.key()].target;
                &&& outcome == (UpOutcome::Release { target, activates: is_on(route, target) })
                &&& final(self).target_map() == old(self).target_map()
            },
            !old(self).decoration_map().contains_key(slot.key()) ==> {
                &&& outcome == (if has_touch && old(self).target_map().contains_key(slot.key()) {
                    UpOutcome::Deliver
                } else {
                    UpOutcome::Nothing
                })
                &&& final(self).target_map() == (if has_touch {
                    old(self).target_map().remove(slot.key())
                } else {
                    old(self).target_map()
                })
            },
    {
        if let Some(touch) = self.finish_decoration(slot) {
            return UpOutcome::Release { target: touch.target, activates: on(route, touch.target) };
        }
        if has_touch && self.finish(slot) {
            UpOutcome::Deliver
        } else {
            UpOutcome::Nothing
        }
    }

    /// Whether clients are told that a set of touches is complete.
    pub fn frame(&self, has_touch: bool) -> (tells: bool)
        ensures
            tells == (has_touch && !(self.target_map() =~= Map::<u64, TouchTarget>::empty())),
    {
        has_touch && !self.targets.is_empty()
    }

    /// While the session is locked a finger comes down on a surface of the lock, if there
    /// is one. Answers whether it gets the touch, and with it the keyboard.
    pub fn lock_down(
        &mut self,
        slot: TouchSlot,
        has_touch: bool,
        screen: Option<Position>,
        surface: Option<SurfaceId>,
    ) -> (delivers: bool)
        ensures
            delivers == (has_touch && screen is Some && surface is Some),
            !delivers ==> *final(self) == *old(self),
            delivers ==> final(self).target_map() == old(self).target_map().insert(
                slot.key(),
                TouchTarget { surface: surface->0, coordinates: CoordinateSpace::Screen },
            ) && final(self).decoration_map() == old(self).decoration_map(),
    {
        if !has_touch || screen.is_none() {
            return false;
        }
        match surface {
            Some(surface) => {
                self.begin(slot, TouchTarget { surface, coordinates: CoordinateSpace::Screen });
                true
            },
            None => false,
        }
    }

    /// While the session is locked a finger moves: its client gets the position on the
    /// screen.
    pub fn lock_motion(&self, slot: TouchSlot, has_touch: bool, screen: Option<Position>)
        -> (delivers: bool)
        ensures
            delivers == (has_touch && screen is Some && self.target_map().contains_key(slot.key())),
    {
        let key: u64 = slot.to_key();
        has_touch && self.targets.contains_key(&key) && screen.is_some()
    }

    /// While the session is locked a finger goes up.
    pub fn lock_up(&mut self, slot: TouchSlot, has_touch: bool) -> (delivers: bool)
        ensures
            delivers == (has_touch && old(self).target_map().contains_key(slot.key())),
            final(self).target_map() == (if has_touch {
                old(self).target_map().remove(slot.key())
            } else {
                old(self).target_map()
            }),
            final(self).decoration_map() == old(self).decoration_map(),
    {
        has_touch && self.finish(slot)
    }
}

/// The output that a touchscreen is mapped to: the one that the settings ask for, by its
/// place among the outputs that there are, or else the primary one.
pub fn touchscreen_output(requested: Option<&str>, names: &Vec<String>) -> (index: Option<usize>)
    ensures
        match index {
            Some(i) => requested is Some && i < names@.len() && names@[i as int]@ == requested->0@
                && forall|j: int| 0 <= j < i ==> (#[trigger] names@[j])@ != requested->0@,
            None => requested is Some ==> forall|j: int|
                0 <= j < names@.len() ==> (#[trigger] names@[j])@ != requested->0@,
        },
{
    let name = match requested {
        Some(name) => name,
        None => {
            return None;
        },
    };
    let mut i: usize = 0;
    while i < names.len()
        invariant
            i <= names.len(),
            requested == Some(name),
            forall|j: int| 0 <= j < i ==> (#[trigger] names@[j])@ != name@,
        decreases names.len() - i,
    {
        if crate::text::same_text(names[i].as_str(), name) {
            return Some(i);
        }
        i += 1;
    }
    None
}

impl Transform {
    /// The transform that undoes this one.
    pub open spec fn inverse(self) -> Transform {
        match self {
            Transform::_90 => Transform::_270,
            Transform::_270 => Transform::_90,
            Transform::Flipped90 => Transform::Flipped270,
            Transform::Flipped270 => Transform::Flipped90,
            other => other,
        }
    }

    pub fn invert(self) -> (r: Transform)
        ensures
            r == self.inverse(),
    {
        match self {
            Transform::_90 => Transform::_270,
            Transform::_270 => Transform::_90,
            Transform::Flipped90 => Transform::Flipped270,
            Transform::Flipped270 => Transform::Flipped90,
            other => other,
        }
    }

    /// The transform lays the output on its side.
    pub open spec fn turns(self) -> bool {
        self is _90 || self is _270 || self is Flipped90 || self is Flipped270
    }

    /// The extent of what is transformed.
    pub open spec fn sized(self, size: Size) -> Size {
        if self.turns() {
            Size { w: size.h, h: size.w }
        } else {
            size
        }
    }

    pub fn transform_size(self, size: Size) -> (r: Size)
        ensures
            r == self.sized(size),
    {
        match self {
            Transform::_90
            | Transform::_270
            | Transform::Flipped90
            | Transform::Flipped270 => Size { w: size.h, h: size.w },
            _ => size,
        }
    }
}

/// The extent of a touchscreen that lies on an output, before the output is transformed.
pub fn touch_extent(transform: Transform, output: Size) -> (r: Size)
    ensures
        r == transform.inverse().sized(output),
{
    transform.invert().transform_size(output)
}

/// Every transform has an inverse, which undoes what it does to an extent.
pub proof fn transforms_have_an_inverse(transform: Transform, size: Size)
    ensures
        transform.inverse().inverse() == transform,
        transform.inverse().sized(transform.sized(size)) == size,
{
}

/// Fingers do not share a place: what one does leaves the touches of the others alone.
pub proof fn slots_are_apart(first: TouchSlot, second: TouchSlot)
    requires
        first != second,
    ensures
        first.key() != second.key(),
{
}

/// The root of a surface that is listed is what is listed for it; any other surface is its
/// own root.
pub proof fn unlisted_surfaces_are_their_own_root(
    roots: Map<u64, SurfaceId>,
    surface: SurfaceId,
    root: SurfaceId,
)
    ensures
        root_in(roots.insert(surface.raw, root), surface) == root,
        root_in(roots.remove(surface.raw), surface) == surface,
{
}

/// A touch belongs to a window exactly where its surface has the window's root, on a titlebar
/// as on a client.
pub proof fn touches_belong_to_the_window_they_are_on(
    touch: TouchTarget,
    decoration: DecorationTouch,
    roots: Map<u64, SurfaceId>,
    root: SurfaceId,
)
    ensures
        target_belongs(touch, roots, root_in(roots, touch.surface)),
        root != root_in(roots, touch.surface) ==> !target_belongs(touch, roots, root),
        decoration.target.surface is None ==> !decoration_belongs(decoration, roots, root),
        decoration.target.surface is Some ==> (decoration_belongs(decoration, roots, root)
            <==> root_in(roots, decoration.target.surface->0) == root),
{
}

/// A window has a touch exactly where one of the fingers is on it.
pub proof fn some_finger_is_on_the_window(
    touches: Map<u64, TouchTarget>,
    decorations: Map<u64, DecorationTouch>,
    roots: Map<u64, SurfaceId>,
    root: SurfaceId,
    slot: TouchSlot,
)
    ensures
        touches.contains_key(slot.key()) && root_in(roots, touches[slot.key()].surface) == root
            ==> some_target_belongs(touches, roots, root),
        decorations.contains_key(slot.key()) && decorations[slot.key()].target.surface is Some
            && root_in(roots, decorations[slot.key()].target.surface->0) == root
            ==> some_decoration_belongs(decorations, roots, root),
        !some_target_belongs(Map::<u64, TouchTarget>::empty(), roots, root),
        !some_decoration_belongs(Map::<u64, DecorationTouch>::empty(), roots, root),
        touches.contains_key(slot.key()) && !some_target_belongs(touches, roots, root) ==> root_in(
            roots,
            touches[slot.key()].surface,
        ) != root,
{
    if touches.contains_key(slot.key()) && root_in(roots, touches[slot.key()].surface) == root {
        assert(target_belongs(touches[slot.key()], roots, root));
    }
    if decorations.contains_key(slot.key()) && decorations[slot.key()].target.surface is Some
        && root_in(roots, decorations[slot.key()].target.surface->0) == root {
        assert(decoration_belongs(decorations[slot.key()], roots, root));
    }
}

/// A control stays pressed only while the finger is on that very control of that very
/// window.
pub proof fn a_control_is_pressed_while_the_finger_is_on_it(
    found: ButtonTarget,
    usable: bool,
    focus: Option<(SurfaceId, SurfaceId)>,
    target: ButtonTarget,
)
    ensures
        is_on(
            Some(TouchRoute { hit: TouchHit::Decoration(Some((found, usable))), focus }),
            target,
        ) <==> found.window == target.window && found.control == target.control,
        !is_on(Some(TouchRoute { hit: TouchHit::Decoration(None), focus }), target),
        !is_on(Some(TouchRoute { hit: TouchHit::Window, focus }), target),
        !is_on(Some(TouchRoute { hit: TouchHit::Layer, focus }), target),
        !is_on(Some(TouchRoute { hit: TouchHit::Background, focus }), target),
        !is_on(None, target),
{
}

/// A touch focuses the window that it or its titlebar is on, or the layer, and drops the
/// focus of layers in between. It presses a control that can be used. Windows get positions
/// as they are shown, layers those of the screen.
pub proof fn touches_act_on_what_they_hit(target: ButtonTarget, root: SurfaceId)
    ensures
        focus_for(TouchHit::Window) == DownFocus::Window,
        focus_for(TouchHit::Decoration(None)) == DownFocus::Window,
        focus_for(TouchHit::Decoration(Some((target, true)))) == DownFocus::Window,
        focus_for(TouchHit::Decoration(Some((target, false)))) == DownFocus::Window,
        focus_for(TouchHit::Layer) == DownFocus::Layer,
        focus_for(TouchHit::Background) == DownFocus::NoLayer,
        pressed_by(TouchHit::Decoration(Some((target, true)))) == Some(target),
        pressed_by(TouchHit::Decoration(Some((target, false)))) is None,
        pressed_by(TouchHit::Decoration(None)) is None,
        pressed_by(TouchHit::Window) is None,
        pressed_by(TouchHit::Layer) is None,
        pressed_by(TouchHit::Background) is None,
        coordinates_for(TouchHit::Window, root) == CoordinateSpace::Window(root),
        coordinates_for(TouchHit::Layer, root) == CoordinateSpace::Screen,
        coordinates_for(TouchHit::Background, root) == CoordinateSpace::Screen,
{
}

/// A quarter turn swaps width and height, any other transform keeps them. Quarter turns undo
/// each other; what is not turned, and what is mirrored, undoes itself.
pub proof fn quarter_turns_swap_the_sides(size: Size)
    ensures
        Transform::_90.sized(size) == (Size { w: size.h, h: size.w }),
        Transform::_270.sized(size) == (Size { w: size.h, h: size.w }),
        Transform::Flipped90.sized(size) == (Size { w: size.h, h: size.w }),
        Transform::Flipped270.sized(size) == (Size { w: size.h, h: size.w }),
        Transform::Normal.sized(size) == size,
        Transform::_180.sized(size) == size,
        Transform::Flipped.sized(size) == size,
        Transform::Flipped180.sized(size) == size,
        Transform::_90.inverse() == Transform::_270,
        Transform::_270.inverse() == Transform::_90,
        Transform::_180.inverse() == Transform::_180,
        Transform::Normal.inverse() == Transform::Normal,
        Transform::Flipped.inverse() == Transform::Flipped,
        Transform::Flipped180.inverse() == Transform::Flipped180,
{
}

} // verus!
