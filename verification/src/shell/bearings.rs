//! Bearings at the edges of the outputs, which point at what lies beyond.

use std::collections::HashSet;

use vstd::prelude::*;

use crate::geometry::{Point, Rectangle};
use crate::ids::{ClusterId, NodeId};
use crate::session::settings::Section;
use crate::shell::settle::{Endpoint, ONE_BITS};
use crate::text_map::TextMap;
use crate::time::{millis, Duration};

verus! {

broadcast use vstd::std_specs::hash::group_hash_axioms;

/// The longest time that a moment of the animation stands for.
pub const LONGEST_TICK_MS: u64 = 100;

#[derive(Clone, Copy, Debug, PartialEq, Eq, Structural)]
pub struct OutputAnimation {
    /// The bits of how much is seen.
    pub mix_bits: u32,
    pub last_tick: Duration,
}

/// What a bearing points at.
#[derive(Clone, Copy, Debug, PartialEq, Eq, Structural)]
pub enum BearingTarget {
    Node(NodeId),
    ClusterCore { cluster: ClusterId, core: NodeId },
}

#[derive(Clone, Copy, Debug, PartialEq, Eq, Structural)]
pub struct BearingHitbox {
    pub target: BearingTarget,
    pub rect: Rectangle,
}

/// A moment of the animation: from how much is seen to all or nothing.
#[derive(Clone, Copy, Debug, PartialEq, Eq, Structural)]
pub struct BearingTick {
    pub from_bits: u32,
    pub to: Endpoint,
    pub elapsed: Duration,
}

/// The bearings of every output.
#[derive(Debug)]
pub struct BearingsState {
    pub config: Section,
    pub visible: bool,
    pub held_show_keys: HashSet<u32>,
    pub animation: TextMap<OutputAnimation>,
    pub hitboxes: TextMap<Vec<BearingHitbox>>,
}

/// The bits of all or nothing.
pub open spec fn rest_bits(visible: bool) -> u32 {
    if visible {
        ONE_BITS
    } else {
        0
    }
}

/// The bits of a share that is enough to be aimed at.
pub open spec fn is_aimable(bits: u32) -> bool {
    0x3d4c_cccd < bits <= 0x7f80_0000
}

/// The first hitbox that holds the pixel.
pub open spec fn is_hit(hitboxes: Seq<BearingHitbox>, pixel: Point, target: Option<BearingTarget>)
    -> bool {
    match target {
        Some(target) => exists|i: int|
            #![trigger hitboxes[i]]
            0 <= i < hitboxes.len() && hitboxes[i].rect.holds_pixel(pixel) && hitboxes[i].target
                == target && forall|j: int|
                0 <= j < i ==> !(#[trigger] hitboxes[j]).rect.holds_pixel(pixel),
        None => forall|i: int|
            0 <= i < hitboxes.len() ==> !(#[trigger] hitboxes[i]).rect.holds_pixel(pixel),
    }
}

impl BearingsState {
    /// The keys that are held to show the bearings.
    pub open spec fn held(self) -> Set<u32> {
        self.held_show_keys@
    }

    pub open spec fn animations(self) -> Map<Seq<char>, OutputAnimation> {
        self.animation@
    }

    /// Where the bearings of each output are.
    pub open spec fn boxes(self) -> Map<Seq<char>, Vec<BearingHitbox>> {
        self.hitboxes@
    }

    pub fn new(config: Section) -> (r: Self)
        ensures
            r.config == config,
            !r.visible,
            r.held() == Set::<u32>::empty(),
            r.animations() == Map::<Seq<char>, OutputAnimation>::empty(),
            r.boxes() == Map::<Seq<char>, Vec<BearingHitbox>>::empty(),
    {
        BearingsState {
            config,
            visible: false,
            held_show_keys: HashSet::new(),
            animation: TextMap::new(),
            hitboxes: TextMap::new(),
        }
    }

    /// Follows new settings. Where the bearings are is no longer known then.
    pub fn reload(&mut self, config: Section) -> (changed: bool)
        ensures
            changed == (old(self).config != config),
            final(self).config == config,
            final(self).boxes() == (if changed {
                Map::empty()
            } else {
                old(self).boxes()
            }),
            final(self).visible == old(self).visible,
            final(self).held() == old(self).held(),
            final(self).animations() == old(self).animations(),
    {
        if self.config == config {
            return false;
        }
        self.config = config;
        self.hitboxes = TextMap::new();
        true
    }

    pub fn visible(&self) -> (r: bool)
        ensures
            r == self.visible,
    {
        self.visible
    }

    pub fn set_visible(&mut self, visible: bool) -> (changed: bool)
        ensures
            changed == (old(self).visible != visible),
            final(self).visible == visible,
            final(self).config == old(self).config,
            final(self).held() == old(self).held(),
            final(self).animations() == old(self).animations(),
            final(self).boxes() == old(self).boxes(),
    {
        if self.visible == visible {
            return false;
        }
        self.visible = visible;
        true
    }

    pub fn toggle(&mut self) -> (visible: bool)
        ensures
            visible == !old(self).visible,
            final(self).visible == visible,
            final(self).config == old(self).config,
            final(self).held() == old(self).held(),
            final(self).animations() == old(self).animations(),
            final(self).boxes() == old(self).boxes(),
    {
        let next = !self.visible;
        self.set_visible(next);
        self.visible
    }

    /// Shows the bearings for as long as the key is held.
    pub fn show_while_held(&mut self, keycode: u32) -> (changed: bool)
        ensures
            changed == !old(self).visible,
            final(self).visible,
            final(self).held() == old(self).held().insert(keycode),
            final(self).config == old(self).config,
            final(self).animations() == old(self).animations(),
            final(self).boxes() == old(self).boxes(),
    {
        self.held_show_keys.insert(keycode);
        self.set_visible(true)
    }

    /// Lets go of a key. The last one that was held hides the bearings.
    pub fn release_show_key(&mut self, keycode: u32) -> (released: bool)
        ensures
            released == old(self).held().contains(keycode),
            final(self).held() == old(self).held().remove(keycode),
            final(self).visible == (old(self).visible && !(released && old(self).held().remove(
                keycode,
            ).len() == 0)),
            final(self).config == old(self).config,
            final(self).animations() == old(self).animations(),
            final(self).boxes() == old(self).boxes(),
    {
        if !self.held_show_keys.remove(&keycode) {
            return false;
        }
        if self.held_show_keys.len() == 0 {
            self.set_visible(false);
        }
        true
    }

    pub fn is_show_key_held(&self, keycode: u32) -> (r: bool)
        ensures
            r == self.held().contains(keycode),
    {
        self.held_show_keys.contains(&keycode)
    }

    /// The moment since the last one on an output, at most a tenth of a second. An
    /// output that is new starts at rest.
    pub fn begin_tick(&mut self, output: &str, now: Duration) -> (tick: BearingTick)
        ensures
            tick.to == (if old(self).visible {
                Endpoint::Open
            } else {
                Endpoint::Closed
            }),
            old(self).animations().contains_key(output@) ==> {
                let last = old(self).animations()[output@];
                &&& tick.from_bits == last.mix_bits
                &&& tick.elapsed.nanos == (if now.nanos < last.last_tick.nanos {
                    0
                } else if now.nanos - last.last_tick.nanos > millis(100) {
                    millis(100)
                } else {
                    now.nanos - last.last_tick.nanos
                })
            },
            !old(self).animations().contains_key(output@) ==> tick.from_bits == rest_bits(
                old(self).visible,
            ) && tick.elapsed.nanos == 0,
            final(self).animations() == old(self).animations().insert(
                output@,
                OutputAnimation { mix_bits: tick.from_bits, last_tick: now },
            ),
            final(self).visible == old(self).visible,
            final(self).config == old(self).config,
            final(self).held() == old(self).held(),
            final(self).boxes() == old(self).boxes(),
    {
        let to = if self.visible {
            Endpoint::Open
        } else {
            Endpoint::Closed
        };
        let longest = Duration::from_millis(LONGEST_TICK_MS);
        let (from_bits, elapsed): (u32, Duration) = match self.animation.get(output) {
            Some(last) => {
                let passed = now.saturating_sub(last.last_tick);
                let elapsed = if passed.nanos > longest.nanos {
                    longest
                } else {
                    passed
                };
                (last.mix_bits, elapsed)
            },
            None => (
                if self.visible {
                    ONE_BITS
                } else {
                    0
                },
                Duration::zero(),
            ),
        };
        self.animation.insert(
            output.to_owned(),
            OutputAnimation { mix_bits: from_bits, last_tick: now },
        );
        BearingTick { from_bits, to, elapsed }
    }

    /// Notes how much is seen after the moment.
    pub fn finish_tick(&mut self, output: &str, mix_bits: u32, now: Duration)
        ensures
            final(self).animations() == old(self).animations().insert(
                output@,
                OutputAnimation { mix_bits, last_tick: now },
            ),
            final(self).visible == old(self).visible,
            final(self).config == old(self).config,
            final(self).held() == old(self).held(),
            final(self).boxes() == old(self).boxes(),
    {
        self.animation.insert(output.to_owned(), OutputAnimation { mix_bits, last_tick: now });
    }

    pub open spec fn spec_mix(self, output: Seq<char>) -> u32 {
        if self.animations().contains_key(output) {
            self.animations()[output].mix_bits
        } else {
            rest_bits(self.visible)
        }
    }

    /// The bits of how much is seen on an output.
    pub fn mix(&self, output: &str) -> (bits: u32)
        ensures
            bits == self.spec_mix(output@),
    {
        match self.animation.get(output) {
            Some(last) => last.mix_bits,
            None => if self.visible {
                ONE_BITS
            } else {
                0
            },
        }
    }

    /// Notes where the bearings of an output are.
    pub fn set_hitboxes(&mut self, output: &str, hitboxes: Vec<BearingHitbox>)
        ensures
            final(self).boxes() == old(self).boxes().insert(output@, hitboxes),
            final(self).visible == old(self).visible,
            final(self).config == old(self).config,
            final(self).held() == old(self).held(),
            final(self).animations() == old(self).animations(),
    {
        self.hitboxes.insert(output.to_owned(), hitboxes);
    }

    /// What the bearing under a pixel points at. Bearings that are as good as hidden
    /// cannot be aimed at.
    pub fn hit_test(&self, output: &str, pixel: Point) -> (target: Option<BearingTarget>)
        ensures
            if is_aimable(self.spec_mix(output@)) && self.boxes().contains_key(output@) {
                is_hit(self.boxes()[output@]@, pixel, target)
            } else {
                target is None
            },
    {
        let bits: u32 = self.mix(output);
        if !(0x3d4c_cccd < bits && bits <= 0x7f80_0000) {
            return None;
        }
        match self.hitboxes.get(output) {
            Some(hitboxes) => first_hit(hitboxes, pixel),
            None => None,
        }
    }
}

fn first_hit(hitboxes: &Vec<BearingHitbox>, pixel: Point) -> (target: Option<BearingTarget>)
    ensures
        is_hit(hitboxes@, pixel, target),
{
    let mut index: usize = 0;
    while index < hitboxes.len()
        invariant
            index <= hitboxes@.len(),
            forall|j: int| 0 <= j < index ==> !(#[trigger] hitboxes@[j]).rect.holds_pixel(pixel),
        decreases hitboxes@.len() - index,
    {
        if hitboxes[index].rect.contains_pixel(pixel) {
            assert(hitboxes@[index as int].rect.holds_pixel(pixel));
            return Some(hitboxes[index].target);
        }
        index += 1;
    }
    None
}

/// Bearings that a single key shows are hidden when it is let go, whatever happened to
/// the modifiers meanwhile.
pub proof fn a_held_key_hides_when_released(held: Set<u32>, keycode: u32)
    requires
        held == Set::<u32>::empty(),
    ensures
        held.insert(keycode).contains(keycode),
        held.insert(keycode).remove(keycode).len() == 0,
{
    assert(held.insert(keycode).remove(keycode) =~= Set::<u32>::empty());
}

/// Bearings that are shown are seen wholly at rest, and hidden ones not at all; they can be
/// aimed at where more than a twentieth of them is seen.
pub proof fn bearings_that_are_seen_can_be_aimed_at(bits: u32)
    ensures
        rest_bits(true) == 0x3f80_0000,
        rest_bits(false) == 0,
        is_aimable(rest_bits(true)),
        !is_aimable(rest_bits(false)),
        bits <= 0x3d4c_cccd ==> !is_aimable(bits),
        0x3d4c_cccd < bits <= 0x7f80_0000 ==> is_aimable(bits),
        0x7f80_0000 < bits ==> !is_aimable(bits),
{
}

/// The bearing that is hit holds the pixel, and so does none before it; where none is hit, none
/// holds it.
pub proof fn the_first_bearing_under_a_pixel_is_hit(
    hitboxes: Seq<BearingHitbox>,
    pixel: Point,
    i: int,
    target: Option<BearingTarget>,
)
    requires
        is_hit(hitboxes, pixel, target),
        0 <= i < hitboxes.len(),
        hitboxes[i].rect.loc.x <= pixel.x < hitboxes[i].rect.loc.x + hitboxes[i].rect.size.w,
        hitboxes[i].rect.loc.y <= pixel.y < hitboxes[i].rect.loc.y + hitboxes[i].rect.size.h,
        forall|j: int|
            0 <= j < i ==> {
                let rect = (#[trigger] hitboxes[j]).rect;
                !(rect.loc.x <= pixel.x < rect.loc.x + rect.size.w && rect.loc.y <= pixel.y
                    < rect.loc.y + rect.size.h)
            },
    ensures
        target == Some(hitboxes[i].target),
{
    assert(hitboxes[i].rect.holds_pixel(pixel));
    let found = target->0;
    let k = choose|k: int|
        #![trigger hitboxes[k]]
        0 <= k < hitboxes.len() && hitboxes[k].rect.holds_pixel(pixel) && hitboxes[k].target
            == found && forall|j: int|
            0 <= j < k ==> !(#[trigger] hitboxes[j]).rect.holds_pixel(pixel);
    assert(hitboxes[k].rect.holds_pixel(pixel));
    assert(k == i);
}

/// How much is seen on an output goes by its own animation, and by whether the bearings are
/// shown where it has none.
pub proof fn outputs_are_animated_apart(state: BearingsState, output: Seq<char>)
    ensures
        state.animations().contains_key(output) ==> state.spec_mix(output)
            == state.animations()[output].mix_bits,
        !state.animations().contains_key(output) && state.visible ==> state.spec_mix(output)
            == 0x3f80_0000,
        !state.animations().contains_key(output) && !state.visible ==> state.spec_mix(output) == 0,
{
}

} // verus!
