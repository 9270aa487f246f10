//! What an overview is made of: outputs, windows and cores of clusters in order.

use vstd::prelude::*;

use crate::geometry::Rectangle;
use crate::ids::{ClusterId, NodeId};
use crate::shell::apogee::{Tile, TileKind};
use crate::text::precedes;

verus! {

/// An output that an overview is shown on.
#[derive(Debug)]
pub struct OverviewOutput {
    pub name: String,
    pub geometry: Rectangle,
}

/// `a` comes before `b`: from left to right, then from top to bottom, then by name.
pub open spec fn output_before(a: OverviewOutput, b: OverviewOutput) -> bool {
    if a.geometry.loc.x != b.geometry.loc.x {
        a.geometry.loc.x < b.geometry.loc.x
    } else if a.geometry.loc.y != b.geometry.loc.y {
        a.geometry.loc.y < b.geometry.loc.y
    } else {
        crate::text::text_before(a.name@, b.name@)
    }
}

/// The outputs are at the same place and have the same name.
pub open spec fn same_key(a: OverviewOutput, b: OverviewOutput) -> bool {
    a.geometry.loc == b.geometry.loc && a.name@ == b.name@
}

fn goes_first(a: &OverviewOutput, b: &OverviewOutput) -> (r: bool)
    ensures
        r == output_before(*a, *b),
{
    if a.geometry.loc.x != b.geometry.loc.x {
        a.geometry.loc.x < b.geometry.loc.x
    } else if a.geometry.loc.y != b.geometry.loc.y {
        a.geometry.loc.y < b.geometry.loc.y
    } else {
        precedes(a.name.as_str(), b.name.as_str())
    }
}

proof fn output_order_is_transitive(a: OverviewOutput, b: OverviewOutput, c: OverviewOutput)
    requires
        output_before(a, b),
        output_before(b, c),
    ensures
        output_before(a, c),
{
    if a.geometry.loc == b.geometry.loc && b.geometry.loc == c.geometry.loc {
        crate::text::text_order_is_transitive(a.name@, b.name@, c.name@);
    }
}

/// The order holds the outputs `0..count`, each once, from the first to the last. Those
/// with the same key stay in the order they had.
pub open spec fn is_output_order(outputs: Seq<OverviewOutput>, count: int, order: Seq<usize>) -> bool {
    &&& order.len() == count
    &&& forall|i: int| 0 <= i < order.len() ==> 0 <= #[trigger] order[i] < count
    &&& forall|i: int, j: int|
        0 <= i < j < order.len() ==> {
            &&& #[trigger] order[i] != #[trigger] order[j]
            &&& !output_before(outputs[order[j] as int], outputs[order[i] as int])
            &&& same_key(outputs[order[i] as int], outputs[order[j] as int]) ==> order[i]
                < order[j]
        }
}

/// The order in which the outputs of an overview are looked at.
pub fn overview_outputs(outputs: &Vec<OverviewOutput>) -> (order: Vec<usize>)
    ensures
        is_output_order(outputs@, outputs@.len() as int, order@),
{
    let mut order: Vec<usize> = Vec::new();
    let mut next: usize = 0;
    while next < outputs.len()
        invariant
            next <= outputs@.len(),
            is_output_order(outputs@, next as int, order@),
        decreases outputs@.len() - next,
    {
        let mut place: usize = 0;
        while place < order.len() && !goes_first(&outputs[next], &outputs[order[place]])
            invariant
                next < outputs@.len(),
                place <= order@.len(),
                is_output_order(outputs@, next as int, order@),
                forall|i: int|
                    0 <= i < place ==> !output_before(
                        outputs@[next as int],
                        outputs@[#[trigger] order@[i] as int],
                    ),
            decreases order@.len() - place,
        {
            place += 1;
        }
        let ghost before = order@;
        order.insert(place, next);
        proof {
            let here = outputs@[next as int];
            assert forall|q: int| place <= q < before.len() implies !output_before(
                outputs@[#[trigger] before[q] as int],
                here,
            ) && !same_key(outputs@[before[q] as int], here) by {
                let first = outputs@[before[place as int] as int];
                let later = outputs@[before[q] as int];
                if q > place {
                    assert(before[place as int] != before[q]);
                    assert(!output_before(later, first));
                }
                if output_before(later, here) {
                    output_order_is_transitive(later, here, first);
                    crate::text::texts_are_ordered(first.name@, first.name@);
                }
                crate::text::texts_are_ordered(here.name@, here.name@);
            }
            assert forall|i: int, j: int| 0 <= i < j < order@.len() implies {
                &&& #[trigger] order@[i] != #[trigger] order@[j]
                &&& !output_before(outputs@[order@[j] as int], outputs@[order@[i] as int])
                &&& same_key(outputs@[order@[i] as int], outputs@[order@[j] as int]) ==> order@[i]
                    < order@[j]
            } by {
                let a = if i < place { i } else { i - 1 };
                let b = if j < place { j } else { j - 1 };
                if i == place {
                    assert(order@[j] == before[b]);
                } else if j == place {
                    assert(order@[i] == before[a]);
                } else {
                    assert(order@[i] == before[a]);
                    assert(order@[j] == before[b]);
                }
            }
            assert forall|i: int| 0 <= i < order@.len() implies 0 <= #[trigger] order@[i] < next
                + 1 by {
                if i < place {
                    assert(order@[i] == before[i]);
                } else if i > place {
                    assert(order@[i] == before[i - 1]);
                }
            }
        }
        next += 1;
    }
    order
}

/// Where a window stood in the stack before the overview, and in which layer: collapsed
/// windows lie below all others.
pub open spec fn stack_place(
    collapsed_index: Option<usize>,
    position: Option<usize>,
    collapsed: bool,
) -> (usize, u64) {
    let index = match collapsed_index {
        Some(index) => index,
        None => match position {
            Some(position) => position,
            None => usize::MAX,
        },
    };
    (index, if collapsed {
        0
    } else {
        u64::MAX
    })
}

/// Where a window stood in the stack before the overview.
pub fn stack_source(collapsed_index: Option<usize>, position: Option<usize>, collapsed: bool)
    -> (source: (usize, u64))
    ensures
        source == stack_place(collapsed_index, position, collapsed),
{
    let index: usize = match collapsed_index {
        Some(index) => index,
        None => match position {
            Some(position) => position,
            None => usize::MAX,
        },
    };
    let order: u64 = if collapsed {
        0
    } else {
        u64::MAX
    };
    (index, order)
}

/// A window in an overview, and where it goes.
#[derive(Clone, Copy, Debug, PartialEq, Eq, Structural)]
pub struct WindowSlot {
    pub id: NodeId,
    pub stack_index: usize,
    pub stack_order: u64,
    pub target: Rectangle,
}

/// The core of a cluster in an overview, and where it goes.
#[derive(Clone, Copy, Debug, PartialEq, Eq, Structural)]
pub struct CoreSlot {
    pub cluster: ClusterId,
    pub core: NodeId,
    pub target: Rectangle,
}

/// The tile shows the window.
pub open spec fn is_window_tile(tile: Tile, output: Seq<char>, slot: WindowSlot) -> bool {
    &&& tile.id == slot.id
    &&& tile.kind == TileKind::Window
    &&& tile.output@ == output
    &&& tile.target == slot.target
    &&& tile.source_stack_index == slot.stack_index
    &&& tile.source_stack_order == slot.stack_order
}

/// The tile shows the core, which lies above every window, in its order.
pub open spec fn is_core_tile(tile: Tile, output: Seq<char>, slot: CoreSlot, index: int) -> bool {
    &&& tile.id == slot.core
    &&& tile.kind == TileKind::ClusterCore(slot.cluster)
    &&& tile.output@ == output
    &&& tile.target == slot.target
    &&& tile.source_stack_index == usize::MAX
    &&& tile.source_stack_order == index
}

/// The tiles of an output: its windows, then the cores of its clusters.
pub fn layout_output(output: &str, windows: &Vec<WindowSlot>, cores: &Vec<CoreSlot>) -> (tiles: Vec<
    Tile,
>)
    ensures
        tiles@.len() == windows@.len() + cores@.len(),
        forall|i: int|
            0 <= i < windows@.len() ==> is_window_tile(#[trigger] tiles@[i], output@, windows@[i]),
        forall|i: int|
            windows@.len() <= i < tiles@.len() ==> is_core_tile(
                #[trigger] tiles@[i],
                output@,
                cores@[i - windows@.len()],
                i - windows@.len(),
            ),
{
    let mut tiles: Vec<Tile> = Vec::new();
    let mut index: usize = 0;
    while index < windows.len()
        invariant
            index <= windows@.len(),
            tiles@.len() == index,
            forall|i: int|
                0 <= i < index ==> is_window_tile(#[trigger] tiles@[i], output@, windows@[i]),
        decreases windows@.len() - index,
    {
        let slot = windows[index];
        tiles.push(
            Tile {
                id: slot.id,
                kind: TileKind::Window,
                output: output.to_owned(),
                target: slot.target,
                source_stack_index: slot.stack_index,
                source_stack_order: slot.stack_order,
            },
        );
        index += 1;
    }
    let mut rank: usize = 0;
    while rank < cores.len()
        invariant
            rank <= cores@.len(),
            tiles@.len() == windows@.len() + rank,
            forall|i: int|
                0 <= i < windows@.len() ==> is_window_tile(
                    #[trigger] tiles@[i],
                    output@,
                    windows@[i],
                ),
            forall|i: int|
                windows@.len() <= i < tiles@.len() ==> is_core_tile(
                    #[trigger] tiles@[i],
                    output@,
                    cores@[i - windows@.len()],
                    i - windows@.len(),
                ),
        decreases cores@.len() - rank,
    {
        let slot = cores[rank];
        tiles.push(
            Tile {
                id: slot.core,
                kind: TileKind::ClusterCore(slot.cluster),
                output: output.to_owned(),
                target: slot.target,
                source_stack_index: usize::MAX,
                source_stack_order: rank as u64,
            },
        );
        rank += 1;
    }
    tiles
}

/// The nodes in the order of their identities; those that are listed twice stay in the
/// order they had.
pub open spec fn is_node_order(ids: Seq<NodeId>, count: int, order: Seq<usize>) -> bool {
    &&& order.len() == count
    &&& forall|i: int| 0 <= i < order.len() ==> 0 <= #[trigger] order[i] < count
    &&& forall|i: int, j: int|
        0 <= i < j < order.len() ==> {
            &&& #[trigger] order[i] != #[trigger] order[j]
            &&& ids[order[i] as int].raw <= ids[order[j] as int].raw
            &&& ids[order[i] as int] == ids[order[j] as int] ==> order[i] < order[j]
        }
}

/// The order in which the windows of a cluster that is being made are laid out.
pub fn composer_order(ids: &Vec<NodeId>) -> (order: Vec<usize>)
    ensures
        is_node_order(ids@, ids@.len() as int, order@),
{
    let mut order: Vec<usize> = Vec::new();
    let mut next: usize = 0;
    while next < ids.len()
        invariant
            next <= ids@.len(),
            is_node_order(ids@, next as int, order@),
        decreases ids@.len() - next,
    {
        let mut place: usize = 0;
        while place < order.len() && ids[order[place]].raw <= ids[next].raw
            invariant
                next < ids@.len(),
                place <= order@.len(),
                is_node_order(ids@, next as int, order@),
                forall|i: int|
                    0 <= i < place ==> ids@[#[trigger] order@[i] as int].raw
                        <= ids@[next as int].raw,
            decreases order@.len() - place,
        {
            place += 1;
        }
        let ghost before = order@;
        order.insert(place, next);
        proof {
            assert forall|q: int| place <= q < before.len() implies ids@[#[trigger] before[q] as int].raw
                > ids@[next as int].raw by {
                if q > place {
                    assert(before[place as int] != before[q]);
                }
            }
            assert forall|i: int, j: int| 0 <= i < j < order@.len() implies {
                &&& #[trigger] order@[i] != #[trigger] order@[j]
                &&& ids@[order@[i] as int].raw <= ids@[order@[j] as int].raw
                &&& ids@[order@[i] as int] == ids@[order@[j] as int] ==> order@[i] < order@[j]
            } by {
                let a = if i < place { i } else { i - 1 };
                let b = if j < place { j } else { j - 1 };
                if i == place {
                    assert(order@[j] == before[b]);
                } else if j == place {
                    assert(order@[i] == before[a]);
                } else {
                    assert(order@[i] == before[a]);
                    assert(order@[j] == before[b]);
                }
            }
            assert forall|i: int| 0 <= i < order@.len() implies 0 <= #[trigger] order@[i] < next
                + 1 by {
                if i < place {
                    assert(order@[i] == before[i]);
                } else if i > place {
                    assert(order@[i] == before[i - 1]);
                }
            }
        }
        next += 1;
    }
    order
}

/// The outputs come from left to right; of those at one column the upper ones come first, and
/// of those at one place the ones whose name comes first.
pub proof fn outputs_come_from_left_to_right(
    outputs: Seq<OverviewOutput>,
    order: Seq<usize>,
    i: int,
    j: int,
)
    requires
        is_output_order(outputs, outputs.len() as int, order),
        0 <= i < j < order.len(),
    ensures
        ({
            let first = outputs[order[i] as int];
            let second = outputs[order[j] as int];
            &&& order.len() == outputs.len()
            &&& first.geometry.loc.x <= second.geometry.loc.x
            &&& first.geometry.loc.x == second.geometry.loc.x ==> first.geometry.loc.y
                <= second.geometry.loc.y
            &&& first.geometry.loc == second.geometry.loc ==> !crate::text::text_before(
                second.name@,
                first.name@,
            )
            &&& first.geometry.loc == second.geometry.loc && first.name@ == second.name@
                ==> order[i] < order[j]
        }),
{
    assert(!output_before(outputs[order[j] as int], outputs[order[i] as int]));
}

/// A window keeps the place that it had when it was collapsed, or else the one that it has; one
/// with neither is last. Collapsed windows are below all others.
pub proof fn windows_keep_their_place(index: usize, position: Option<usize>, collapsed: bool)
    ensures
        stack_place(Some(index), position, collapsed).0 == index,
        stack_place(None, Some(index), collapsed).0 == index,
        stack_place(None, None, collapsed).0 == usize::MAX,
        stack_place(Some(index), position, true).1 < stack_place(None, position, false).1,
        stack_place(None, position, true).1 == stack_place(Some(index), None, true).1,
        stack_place(None, position, true).1 == 0,
        stack_place(None, position, false).1 == 0xffff_ffff_ffff_ffff,
{
}

/// A tile shows its window or core at its place on the output; cores come after the windows in
/// the stack, in the order that they have.
pub proof fn tiles_show_what_they_stand_for(
    window: Tile,
    slot: WindowSlot,
    core: Tile,
    next: Tile,
    core_slot: CoreSlot,
    next_slot: CoreSlot,
    output: Seq<char>,
    index: int,
)
    requires
        is_window_tile(window, output, slot),
        is_core_tile(core, output, core_slot, index),
        is_core_tile(next, output, next_slot, index + 1),
    ensures
        window.id == slot.id && window.kind is Window && window.target == slot.target,
        window.output@ == output && core.output@ == output,
        window.source_stack_index == slot.stack_index && window.source_stack_order
            == slot.stack_order,
        core.id == core_slot.core && core.kind == TileKind::ClusterCore(core_slot.cluster)
            && core.target == core_slot.target,
        core.source_stack_index >= window.source_stack_index,
        core.source_stack_index == next.source_stack_index,
        core.source_stack_order + 1 == next.source_stack_order,
{
}

/// The windows of a cluster come by their numbers, each once; those with one number as they
/// were.
pub proof fn nodes_come_by_their_numbers(ids: Seq<NodeId>, order: Seq<usize>, i: int, j: int)
    requires
        is_node_order(ids, ids.len() as int, order),
        0 <= i < j < order.len(),
    ensures
        order.len() == ids.len(),
        order[i] != order[j],
        ids[order[i] as int].raw <= ids[order[j] as int].raw,
        ids[order[i] as int].raw == ids[order[j] as int].raw ==> order[i] < order[j],
{
}

/// No output is looked at twice.
pub proof fn outputs_are_looked_at_once(
    outputs: Seq<OverviewOutput>,
    order: Seq<usize>,
    i: int,
    j: int,
)
    requires
        is_output_order(outputs, outputs.len() as int, order),
        0 <= i < order.len(),
        0 <= j < order.len(),
        order[i] == order[j],
    ensures
        i == j,
        order[i] < outputs.len(),
{
}

} // verus!
