//! Tiles that a shell overview shows, and steps between them.

use vstd::prelude::*;

use crate::geometry::{Point, Rectangle};
use crate::ids::NodeId;
use crate::session::input::actions::Heading;

verus! {

/// A node and the place of its tile.
#[derive(Clone, Copy, Debug, PartialEq, Eq, Structural)]
pub struct Spot {
    pub id: NodeId,
    pub target: Rectangle,
}

/// Twice the centre of a tile, so that halves count.
pub open spec fn twice_center(rect: Rectangle) -> (int, int) {
    (2 * rect.loc.x + rect.size.w, 2 * rect.loc.y + rect.size.h)
}

/// How far a tile lies ahead of another, in half pixels between their centres.
pub open spec fn ahead(heading: Heading, from: Rectangle, to: Rectangle) -> int {
    let (fx, fy) = twice_center(from);
    let (tx, ty) = twice_center(to);
    match heading {
        Heading::Left => fx - tx,
        Heading::Right => tx - fx,
        Heading::Up => fy - ty,
        Heading::Down => ty - fy,
    }
}

pub open spec fn distance(a: int, b: int) -> int {
    if a < b {
        b - a
    } else {
        a - b
    }
}

/// How far a tile lies beside the way, in half pixels.
pub open spec fn aside(heading: Heading, from: Rectangle, to: Rectangle) -> int {
    let (fx, fy) = twice_center(from);
    let (tx, ty) = twice_center(to);
    match heading {
        Heading::Left => distance(fy, ty),
        Heading::Right => distance(fy, ty),
        Heading::Up => distance(fx, tx),
        Heading::Down => distance(fx, tx),
    }
}

/// A step to the tile is this long. What lies beside the way counts twice.
pub open spec fn step_length(heading: Heading, from: Rectangle, to: Rectangle) -> int {
    ahead(heading, from, to) + 2 * aside(heading, from, to)
}

/// The tile can be stepped to.
pub open spec fn in_reach(heading: Heading, from: Spot, to: Spot) -> bool {
    to.id != from.id && ahead(heading, from.target, to.target) > 0
}

/// The step goes to the nearest tile in the heading, the first of several.
pub open spec fn is_step(spots: Seq<Spot>, from: Spot, heading: Heading, index: int) -> bool {
    &&& 0 <= index < spots.len()
    &&& in_reach(heading, from, spots[index])
    &&& forall|j: int|
        0 <= j < spots.len() && in_reach(heading, from, #[trigger] spots[j]) ==> {
            &&& step_length(heading, from.target, spots[index].target) <= step_length(
                heading,
                from.target,
                spots[j].target,
            )
            &&& j < index ==> step_length(heading, from.target, spots[index].target)
                < step_length(heading, from.target, spots[j].target)
        }
}

/// No tile lies in the heading.
pub open spec fn is_edge(spots: Seq<Spot>, from: Spot, heading: Heading) -> bool {
    forall|j: int| 0 <= j < spots.len() ==> !in_reach(heading, from, #[trigger] spots[j])
}

fn ahead_of(heading: Heading, from: Rectangle, to: Rectangle) -> (r: i64)
    ensures
        r == ahead(heading, from, to),
        -0x4_0000_0000 <= r <= 0x4_0000_0000,
{
    let fx: i64 = 2 * (from.loc.x as i64) + from.size.w as i64;
    let fy: i64 = 2 * (from.loc.y as i64) + from.size.h as i64;
    let tx: i64 = 2 * (to.loc.x as i64) + to.size.w as i64;
    let ty: i64 = 2 * (to.loc.y as i64) + to.size.h as i64;
    match heading {
        Heading::Left => fx - tx,
        Heading::Right => tx - fx,
        Heading::Up => fy - ty,
        Heading::Down => ty - fy,
    }
}

fn aside_of(heading: Heading, from: Rectangle, to: Rectangle) -> (r: i64)
    ensures
        r == aside(heading, from, to),
        0 <= r <= 0x4_0000_0000,
{
    let cross = match heading {
        Heading::Left | Heading::Right => Heading::Down,
        Heading::Up | Heading::Down => Heading::Right,
    };
    let off: i64 = ahead_of(cross, from, to);
    if off < 0 {
        -off
    } else {
        off
    }
}

/// The tile that a step in the heading leads to.
pub fn step(spots: &Vec<Spot>, from: Spot, heading: Heading) -> (found: Option<usize>)
    ensures
        match found {
            Some(index) => is_step(spots@, from, heading, index as int),
            None => is_edge(spots@, from, heading),
        },
{
    let mut best: Option<(usize, i64)> = None;
    let mut index: usize = 0;
    while index < spots.len()
        invariant
            index <= spots@.len(),
            match best {
                Some((at, length)) => {
                    &&& at < index
                    &&& is_step(spots@.take(index as int), from, heading, at as int)
                    &&& length == step_length(heading, from.target, spots@[at as int].target)
                },
                None => is_edge(spots@.take(index as int), from, heading),
            },
        decreases spots@.len() - index,
    {
        let spot = spots[index];
        let forward: i64 = ahead_of(heading, from.target, spot.target);
        let ghost shorter = spots@.take(index as int);
        let ghost longer = spots@.take(index as int + 1);
        proof {
            assert(longer[index as int] == spot);
            assert forall|j: int| 0 <= j < index implies longer[j] == #[trigger] shorter[j] by {}
        }
        if spot.id != from.id && forward > 0 {
            let length: i64 = forward + 2 * aside_of(heading, from.target, spot.target);
            let better = match best {
                Some((_, shortest)) => length < shortest,
                None => true,
            };
            if better {
                best = Some((index, length));
                proof {
                    assert forall|j: int|
                        0 <= j < longer.len() && in_reach(heading, from, #[trigger] longer[j]) implies {
                        &&& step_length(heading, from.target, longer[index as int].target)
                            <= step_length(heading, from.target, longer[j].target)
                        &&& j < index ==> step_length(
                            heading,
                            from.target,
                            longer[index as int].target,
                        ) < step_length(heading, from.target, longer[j].target)
                    } by {
                        if j < index {
                            assert(in_reach(heading, from, shorter[j]));
                        }
                    }
                    assert(is_step(longer, from, heading, index as int));
                }
            } else {
                proof {
                    let at = (best->0).0 as int;
                    assert(longer[at] == shorter[at]);
                    assert forall|j: int|
                        0 <= j < longer.len() && in_reach(heading, from, #[trigger] longer[j]) implies {
                        &&& step_length(heading, from.target, longer[at].target) <= step_length(
                            heading,
                            from.target,
                            longer[j].target,
                        )
                        &&& j < at ==> step_length(heading, from.target, longer[at].target)
                            < step_length(heading, from.target, longer[j].target)
                    } by {
                        if j < index {
                            assert(in_reach(heading, from, shorter[j]));
                        }
                    }
                }
            }
        } else {
            proof {
                match best {
                    Some((at, length)) => {
                        let at = at as int;
                        assert(longer[at] == shorter[at]);
                        assert forall|j: int|
                            0 <= j < longer.len() && in_reach(
                                heading,
                                from,
                                #[trigger] longer[j],
                            ) implies {
                            &&& step_length(heading, from.target, longer[at].target)
                                <= step_length(heading, from.target, longer[j].target)
                            &&& j < at ==> step_length(heading, from.target, longer[at].target)
                                < step_length(heading, from.target, longer[j].target)
                        } by {
                            assert(j < index);
                            assert(in_reach(heading, from, shorter[j]));
                        }
                    },
                    None => {
                        assert forall|j: int| 0 <= j < longer.len() implies !in_reach(
                            heading,
                            from,
                            #[trigger] longer[j],
                        ) by {
                            if j < index {
                                assert(!in_reach(heading, from, shorter[j]));
                            }
                        }
                    },
                }
            }
        }
        index += 1;
    }
    assert(spots@.take(index as int) =~= spots@);
    match best {
        Some((at, _)) => Some(at),
        None => None,
    }
}

/// `a` comes before `b` in reading order: by row, then by column, then by identity.
pub open spec fn reads_before(a: Spot, b: Spot) -> bool {
    if a.target.loc.y != b.target.loc.y {
        a.target.loc.y < b.target.loc.y
    } else if a.target.loc.x != b.target.loc.x {
        a.target.loc.x < b.target.loc.x
    } else {
        a.id.raw < b.id.raw
    }
}

/// The tile is the first in reading order, the first of several.
pub open spec fn is_first_read(spots: Seq<Spot>, index: int) -> bool {
    &&& 0 <= index < spots.len()
    &&& forall|j: int|
        0 <= j < spots.len() ==> !reads_before(#[trigger] spots[j], spots[index]) && (j < index
            ==> reads_before(spots[index], spots[j]))
}

fn read_first(a: &Spot, b: &Spot) -> (r: bool)
    ensures
        r == reads_before(*a, *b),
{
    if a.target.loc.y != b.target.loc.y {
        a.target.loc.y < b.target.loc.y
    } else if a.target.loc.x != b.target.loc.x {
        a.target.loc.x < b.target.loc.x
    } else {
        a.id.raw < b.id.raw
    }
}

/// The first tile in reading order.
pub fn first_read(spots: &Vec<Spot>) -> (found: Option<usize>)
    ensures
        match found {
            Some(index) => is_first_read(spots@, index as int),
            None => spots@.len() == 0,
        },
{
    if spots.len() == 0 {
        return None;
    }
    let mut best: usize = 0;
    let mut index: usize = 1;
    while index < spots.len()
        invariant
            best < index <= spots@.len(),
            forall|j: int|
                0 <= j < index ==> !reads_before(#[trigger] spots@[j], spots@[best as int]) && (j
                    < best ==> reads_before(spots@[best as int], spots@[j])),
        decreases spots@.len() - index,
    {
        if read_first(&spots[index], &spots[best]) {
            best = index;
        }
        index += 1;
    }
    Some(best)
}

/// The tile holds the pixel, and is the first that does.
pub open spec fn is_hit(spots: Seq<Spot>, pixel: Point, index: int) -> bool {
    &&& 0 <= index < spots.len()
    &&& spots[index].target.holds_pixel(pixel)
    &&& forall|j: int| 0 <= j < index ==> !(#[trigger] spots[j]).target.holds_pixel(pixel)
}

/// The first tile that holds the pixel.
pub fn hit_test(spots: &Vec<Spot>, pixel: Point) -> (found: Option<usize>)
    ensures
        match found {
            Some(index) => is_hit(spots@, pixel, index as int),
            None => forall|j: int|
                0 <= j < spots@.len() ==> !(#[trigger] spots@[j]).target.holds_pixel(pixel),
        },
{
    let mut index: usize = 0;
    while index < spots.len()
        invariant
            index <= spots@.len(),
            forall|j: int| 0 <= j < index ==> !(#[trigger] spots@[j]).target.holds_pixel(pixel),
        decreases spots@.len() - index,
    {
        if spots[index].target.contains_pixel(pixel) {
            return Some(index);
        }
        index += 1;
    }
    None
}

/// `index` is the first tile of the node.
pub open spec fn is_tile_of(spots: Seq<Spot>, id: NodeId, index: int) -> bool {
    &&& 0 <= index < spots.len()
    &&& spots[index].id == id
    &&& forall|j: int| 0 <= j < index ==> (#[trigger] spots[j]).id != id
}

/// The node has a tile.
pub open spec fn has_tile(spots: Seq<Spot>, id: NodeId) -> bool {
    exists|i: int| 0 <= i < spots.len() && (#[trigger] spots[i]).id == id
}

/// The first tile of a node.
pub fn find(spots: &Vec<Spot>, id: NodeId) -> (found: Option<usize>)
    ensures
        match found {
            Some(index) => is_tile_of(spots@, id, index as int),
            None => !has_tile(spots@, id),
        },
{
    let mut index: usize = 0;
    while index < spots.len()
        invariant
            index <= spots@.len(),
            forall|j: int| 0 <= j < index ==> (#[trigger] spots@[j]).id != id,
        decreases spots@.len() - index,
    {
        if spots[index].id == id {
            return Some(index);
        }
        index += 1;
    }
    None
}

/// The node that has the focus once it was moved, and whether that changed anything.
/// Without a focus the first tile gets it; at the edge it stays.
pub open spec fn is_move(
    spots: Seq<Spot>,
    focused: Option<NodeId>,
    heading: Heading,
    next: Option<NodeId>,
    moved: bool,
) -> bool {
    if focused is Some && has_tile(spots, focused->0) {
        exists|i: int| #[trigger]
            is_tile_of(spots, focused->0, i) && (if is_edge(spots, spots[i], heading) {
                next == focused && !moved
            } else {
                moved && next is Some && exists|k: int| #[trigger]
                    is_step(spots, spots[i], heading, k) && next == Some(spots[k].id)
            })
    } else if spots.len() == 0 {
        next is None && moved == (focused is Some)
    } else {
        next is Some && moved == (focused != next) && exists|k: int| #[trigger]
            is_first_read(spots, k) && next == Some(spots[k].id)
    }
}

/// Moves the focus one tile in the heading.
pub fn move_focus(spots: &Vec<Spot>, focused: Option<NodeId>, heading: Heading) -> (r: (
    Option<NodeId>,
    bool,
))
    ensures
        is_move(spots@, focused, heading, r.0, r.1),
{
    let current = match focused {
        Some(id) => find(spots, id),
        None => None,
    };
    match current {
        Some(at) => {
            proof {
                assert(spots@[at as int].id == focused->0);
                assert(has_tile(spots@, focused->0));
            }
            match step(spots, spots[at], heading) {
                Some(index) => {
                    proof {
                        assert(!is_edge(spots@, spots@[at as int], heading)) by {
                            assert(in_reach(heading, spots@[at as int], spots@[index as int]));
                        }
                    }
                    (Some(spots[index].id), true)
                },
                None => (focused, false),
            }
        },
        None => match first_read(spots) {
            Some(index) => {
                let next = Some(spots[index].id);
                (next, focused != next)
            },
            None => (None, focused.is_some()),
        },
    }
}

/// A step always leads on: the tile that it leads to lies ahead, so that steps in one
/// heading come to an end.
pub proof fn steps_lead_on(spots: Seq<Spot>, from: Spot, heading: Heading, index: int)
    requires
        is_step(spots, from, heading, index),
    ensures
        ahead(heading, from.target, spots[index].target) > 0,
        spots[index].id != from.id,
{
}

/// A step and the step back: what lies ahead one way lies behind the other way.
pub proof fn headings_are_opposite(from: Rectangle, to: Rectangle)
    ensures
        ahead(Heading::Left, from, to) == -ahead(Heading::Right, from, to),
        ahead(Heading::Up, from, to) == -ahead(Heading::Down, from, to),
        ahead(Heading::Left, from, to) == ahead(Heading::Right, to, from),
        ahead(Heading::Up, from, to) == ahead(Heading::Down, to, from),
{
}

/// Of tiles of one size, those ahead lie to the left, to the right, above and below.
pub proof fn headings_point_as_they_say(from: Rectangle, to: Rectangle)
    requires
        from.size == to.size,
    ensures
        ahead(Heading::Left, from, to) > 0 <==> to.loc.x < from.loc.x,
        ahead(Heading::Right, from, to) > 0 <==> to.loc.x > from.loc.x,
        ahead(Heading::Up, from, to) > 0 <==> to.loc.y < from.loc.y,
        ahead(Heading::Down, from, to) > 0 <==> to.loc.y > from.loc.y,
{
}

/// What lies ahead goes by the middle of a tile: one that grows on all sides alike is as far
/// ahead, and as far aside, as before.
pub proof fn tiles_are_where_their_middle_is(
    heading: Heading,
    from: Rectangle,
    to: Rectangle,
    grown: Rectangle,
)
    requires
        grown.loc.x - to.loc.x == (to.loc.x + to.size.w) - (grown.loc.x + grown.size.w),
        grown.loc.y - to.loc.y == (to.loc.y + to.size.h) - (grown.loc.y + grown.size.h),
    ensures
        ahead(heading, from, grown) == ahead(heading, from, to),
        ahead(heading, grown, from) == ahead(heading, to, from),
        aside(heading, from, grown) == aside(heading, from, to),
        step_length(heading, from, grown) == step_length(heading, from, to),
{
}

/// A step to the right or left is two half pixels longer for each pixel that its tile lies
/// farther ahead, and four for each that it lies farther aside, above or below.
pub proof fn steps_to_the_side_grow(from: Rectangle, near: Rectangle, far: Rectangle)
    requires
        near.size == from.size,
        far.size == from.size,
    ensures
        step_length(Heading::Right, from, from) == 0,
        step_length(Heading::Left, from, from) == 0,
        near.loc.y == far.loc.y ==> {
            &&& step_length(Heading::Right, from, far) - step_length(Heading::Right, from, near)
                == 2 * (far.loc.x - near.loc.x)
            &&& step_length(Heading::Left, from, far) - step_length(Heading::Left, from, near) == 2
                * (near.loc.x - far.loc.x)
        },
        near.loc.x == far.loc.x && from.loc.y <= near.loc.y <= far.loc.y ==> {
            &&& step_length(Heading::Right, from, far) - step_length(Heading::Right, from, near)
                == 4 * (far.loc.y - near.loc.y)
            &&& step_length(Heading::Left, from, far) - step_length(Heading::Left, from, near) == 4
                * (far.loc.y - near.loc.y)
        },
        near.loc.x == far.loc.x && far.loc.y <= near.loc.y <= from.loc.y ==> {
            &&& step_length(Heading::Right, from, far) - step_length(Heading::Right, from, near)
                == 4 * (near.loc.y - far.loc.y)
            &&& step_length(Heading::Left, from, far) - step_length(Heading::Left, from, near) == 4
                * (near.loc.y - far.loc.y)
        },
{
}

/// A step up or down is two half pixels longer for each pixel that its tile lies farther
/// ahead, and four for each that it lies farther to the side.
pub proof fn steps_up_and_down_grow(from: Rectangle, near: Rectangle, far: Rectangle)
    requires
        near.size == from.size,
        far.size == from.size,
    ensures
        step_length(Heading::Down, from, from) == 0,
        step_length(Heading::Up, from, from) == 0,
        near.loc.x == far.loc.x ==> {
            &&& step_length(Heading::Down, from, far) - step_length(Heading::Down, from, near) == 2
                * (far.loc.y - near.loc.y)
            &&& step_length(Heading::Up, from, far) - step_length(Heading::Up, from, near) == 2 * (
            near.loc.y - far.loc.y)
        },
        near.loc.y == far.loc.y && from.loc.x <= near.loc.x <= far.loc.x ==> {
            &&& step_length(Heading::Down, from, far) - step_length(Heading::Down, from, near) == 4
                * (far.loc.x - near.loc.x)
            &&& step_length(Heading::Up, from, far) - step_length(Heading::Up, from, near) == 4 * (
            far.loc.x - near.loc.x)
        },
        near.loc.y == far.loc.y && far.loc.x <= near.loc.x <= from.loc.x ==> {
            &&& step_length(Heading::Down, from, far) - step_length(Heading::Down, from, near) == 4
                * (near.loc.x - far.loc.x)
            &&& step_length(Heading::Up, from, far) - step_length(Heading::Up, from, near) == 4 * (
            near.loc.x - far.loc.x)
        },
{
}

/// No tile of another node that lies ahead is a shorter step away, and none before it is as
/// short; so that there is one such tile, and none exactly where nothing lies ahead.
pub proof fn steps_lead_to_the_nearest(
    spots: Seq<Spot>,
    from: Spot,
    heading: Heading,
    index: int,
    other: int,
)
    requires
        is_step(spots, from, heading, index),
        0 <= other < spots.len(),
        spots[other].id != from.id,
        ahead(heading, from.target, spots[other].target) > 0,
    ensures
        step_length(heading, from.target, spots[index].target) <= step_length(
            heading,
            from.target,
            spots[other].target,
        ),
        step_length(heading, from.target, spots[index].target) == step_length(
            heading,
            from.target,
            spots[other].target,
        ) ==> index <= other,
        is_step(spots, from, heading, other) ==> other == index,
        !is_edge(spots, from, heading),
{
    assert(in_reach(heading, from, spots[other]));
    assert(in_reach(heading, from, spots[index]));
}

/// At an edge no tile of another node lies ahead.
pub proof fn nothing_lies_past_an_edge(spots: Seq<Spot>, from: Spot, heading: Heading, j: int)
    requires
        is_edge(spots, from, heading),
        0 <= j < spots.len(),
        spots[j].id != from.id,
    ensures
        ahead(heading, from.target, spots[j].target) <= 0,
{
    assert(!in_reach(heading, from, spots[j]));
}

/// The first tile in reading order is in the top row, is the leftmost of that row, and of
/// several at one place it has the lowest number.
pub proof fn the_first_tile_is_at_the_top_left(spots: Seq<Spot>, index: int, j: int)
    requires
        is_first_read(spots, index),
        0 <= j < spots.len(),
    ensures
        spots[index].target.loc.y <= spots[j].target.loc.y,
        spots[index].target.loc.y == spots[j].target.loc.y ==> spots[index].target.loc.x
            <= spots[j].target.loc.x,
        spots[index].target.loc == spots[j].target.loc ==> spots[index].id.raw
            <= spots[j].id.raw,
        spots[index].target.loc == spots[j].target.loc && spots[index].id == spots[j].id ==> index
            <= j,
        is_first_read(spots, j) ==> j == index,
{
    assert(!reads_before(spots[j], spots[index]));
}

/// The tile that is hit holds the pixel, and comes before all others that do.
pub proof fn the_first_tile_under_a_pixel_is_hit(
    spots: Seq<Spot>,
    pixel: Point,
    index: int,
    j: int,
)
    requires
        is_hit(spots, pixel, index),
        0 <= j < spots.len(),
        spots[j].target.loc.x <= pixel.x < spots[j].target.loc.x + spots[j].target.size.w,
        spots[j].target.loc.y <= pixel.y < spots[j].target.loc.y + spots[j].target.size.h,
    ensures
        index <= j,
        spots[index].target.loc.x <= pixel.x < spots[index].target.loc.x
            + spots[index].target.size.w,
        spots[index].target.loc.y <= pixel.y < spots[index].target.loc.y
            + spots[index].target.size.h,
{
}

/// Each node that a tile is listed for has a tile, the first of these.
pub proof fn the_first_tile_of_a_node_is_its_own(
    spots: Seq<Spot>,
    id: NodeId,
    index: int,
    j: int,
)
    requires
        0 <= j < spots.len(),
        spots[j].id == id,
        is_tile_of(spots, id, index),
    ensures
        has_tile(spots, id),
        spots[index].id == id,
        index <= j,
{
}

/// Where the focus goes is settled, it goes to a node with a tile, and it has moved exactly
/// where another node has it.
pub proof fn the_focus_moves_between_tiles(
    spots: Seq<Spot>,
    focused: Option<NodeId>,
    heading: Heading,
    next: Option<NodeId>,
    moved: bool,
)
    requires
        is_move(spots, focused, heading, next, moved),
    ensures
        moved <==> next != focused,
        next is None <==> spots.len() == 0,
        next is Some ==> exists|k: int| 0 <= k < spots.len() && (#[trigger] spots[k]).id == next->0,
{
    if focused is Some && has_tile(spots, focused->0) {
        let i = choose|i: int| #[trigger]
            is_tile_of(spots, focused->0, i) && (if is_edge(spots, spots[i], heading) {
                next == focused && !moved
            } else {
                moved && next is Some && exists|k: int| #[trigger]
                    is_step(spots, spots[i], heading, k) && next == Some(spots[k].id)
            });
        assert(spots[i].id == focused->0);
    }
}

/// A focus that moves off a tile goes to one that lies ahead, and one that stays has nothing
/// ahead.
pub proof fn the_focus_moves_ahead(
    spots: Seq<Spot>,
    focused: NodeId,
    heading: Heading,
    next: Option<NodeId>,
    moved: bool,
    i: int,
)
    requires
        is_move(spots, Some(focused), heading, next, moved),
        is_tile_of(spots, focused, i),
    ensures
        moved ==> exists|k: int|
            0 <= k < spots.len() && Some((#[trigger] spots[k]).id) == next && ahead(
                heading,
                spots[i].target,
                spots[k].target,
            ) > 0,
        !moved ==> forall|k: int|
            0 <= k < spots.len() && (#[trigger] spots[k]).id != focused ==> ahead(
                heading,
                spots[i].target,
                spots[k].target,
            ) <= 0,
{
    assert(spots[i].id == focused);
    assert(has_tile(spots, focused));
    let at = choose|at: int| #[trigger]
        is_tile_of(spots, focused, at) && (if is_edge(spots, spots[at], heading) {
            next == Some(focused) && !moved
        } else {
            moved && next is Some && exists|k: int| #[trigger]
                is_step(spots, spots[at], heading, k) && next == Some(spots[k].id)
        });
    assert(at == i);
    if !moved {
        assert forall|k: int| 0 <= k < spots.len() && (#[trigger] spots[k]).id != focused implies
            ahead(heading, spots[i].target, spots[k].target) <= 0 by {
            assert(!in_reach(heading, spots[i], spots[k]));
        }
    } else {
        let k = choose|k: int| #[trigger]
            is_step(spots, spots[at], heading, k) && next == Some(spots[k].id);
        assert(in_reach(heading, spots[i], spots[k]));
    }
}

} // verus!
