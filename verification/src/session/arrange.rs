//! Arranging the windows of the visible field into a mosaic.

use vstd::prelude::*;

use crate::geometry::center_of;
use crate::geometry::half_of;
use crate::geometry::has_center;
use crate::geometry::rect_center;
use crate::geometry::Point;
use crate::geometry::Rectangle;
use crate::geometry::Size;
use crate::ids::SurfaceId;
use crate::num::clamp_i32;
use crate::num::clamp_i64;
use crate::num::saturating_add_i32;
use crate::num::saturating_add_i64;
use crate::num::saturating_square_i64;
use crate::num::sum_of;
use crate::session::assignment::assignment_cost;
use crate::session::assignment::choices;
use crate::session::assignment::is_assignment;
use crate::session::assignment::minimum_cost_assignment;
use crate::session::assignment::valid_costs;
use crate::session::assignment::INFEASIBLE_COST;
use crate::session::mosaic::is_mosaic;
use crate::session::mosaic::mosaic_divides_field;
use crate::session::mosaic::mosaic_fits;
use crate::session::mosaic::mosaic_regions;
use crate::text::same_text;

verus! {

/// The most windows that one arrangement holds: their costs are a square table.
pub const MAX_CANDIDATES: usize = 0x4000_0000;

/// A geometry that a surface is asked to take on an output.
#[derive(Debug)]
pub struct FieldRestore {
    pub surface: SurfaceId,
    pub geometry: Rectangle,
    pub output: String,
}

/// Geometries that undo the last arrangement.
#[derive(Debug)]
pub struct UndoSnapshot {
    pub restores: Vec<FieldRestore>,
}

impl Default for UndoSnapshot {
    fn default() -> (r: Self)
        ensures
            r.restores@ == Seq::<FieldRestore>::empty(),
    {
        UndoSnapshot { restores: Vec::new() }
    }
}

impl UndoSnapshot {
    /// Forgets the last arrangement.
    pub fn clear(&mut self)
        ensures
            final(self).restores@ == Seq::<FieldRestore>::empty(),
    {
        self.restores.clear();
    }
}

/// What the arrangement reads of a window node.
#[derive(Debug)]
pub struct NodeFacts {
    pub surface: SurfaceId,
    pub output: String,
    pub attached: bool,
    pub collapsed: bool,
    pub visible: bool,
    pub cluster_member: bool,
    pub user_pinned: bool,
    pub fullscreen: bool,
    pub maximized: bool,
    pub grabbed: bool,
    /// Where the window is mapped, and the same with its decorations.
    pub placement: Option<(Rectangle, Rectangle)>,
}

/// A window that takes part in the arrangement.
#[derive(Clone, Copy, Debug, PartialEq, Eq, Structural)]
pub struct Candidate {
    pub surface: SurfaceId,
    pub current: Rectangle,
    pub center: Point,
}

/// Sizes that a window agrees to.
#[derive(Clone, Copy, Debug, PartialEq, Eq, Structural)]
pub enum SizePolicy {
    /// An X11 window, with what its hints make of the requested size.
    X11 { constrained: Size },
    /// A toplevel with its least and greatest size; zero and below is no bound.
    Toplevel { min: Size, max: Size },
    /// A window without a role that can be sized.
    Unsized,
}

/// The rectangle that a window would get in a region, and the sizes it agrees to.
#[derive(Clone, Copy, Debug, PartialEq, Eq, Structural)]
pub struct Measured {
    pub target: Rectangle,
    pub policy: SizePolicy,
}

/// The window agrees to the requested size.
pub open spec fn size_accepted(policy: SizePolicy, requested: Size) -> bool {
    &&& requested.w >= 1
    &&& requested.h >= 1
    &&& match policy {
        SizePolicy::X11 { constrained } => constrained == requested,
        SizePolicy::Toplevel { min, max } => {
            &&& min.w <= 0 || requested.w >= min.w
            &&& min.h <= 0 || requested.h >= min.h
            &&& max.w <= 0 || requested.w <= max.w
            &&& max.h <= 0 || requested.h <= max.h
        },
        SizePolicy::Unsized => false,
    }
}

/// Whether a window agrees to the requested size.
pub fn window_size_is_accepted(policy: SizePolicy, requested: Size) -> (accepted: bool)
    ensures
        accepted == size_accepted(policy, requested),
{
    if requested.w < 1 || requested.h < 1 {
        return false;
    }
    match policy {
        SizePolicy::X11 { constrained } => constrained == requested,
        SizePolicy::Toplevel { min, max } => {
            let minimum_ok = (min.w <= 0 || requested.w >= min.w) && (min.h <= 0 || requested.h
                >= min.h);
            let maximum_ok = (max.w <= 0 || requested.w <= max.w) && (max.h <= 0 || requested.h
                <= max.h);
            minimum_ok && maximum_ok
        },
        SizePolicy::Unsized => false,
    }
}

/// Squared distance of two positions, held below the infeasible cost.
pub open spec fn distance_cost(a: Point, b: Point) -> int {
    let dx = a.x - b.x;
    let dy = a.y - b.y;
    let sum = clamp_i64(clamp_i64(dx * dx) + clamp_i64(dy * dy));
    if sum < INFEASIBLE_COST - 1 {
        sum
    } else {
        INFEASIBLE_COST - 1
    }
}

/// Squared distance of two positions, held below the infeasible cost.
pub fn squared_distance(a: Point, b: Point) -> (distance: i64)
    ensures
        distance == distance_cost(a, b),
        0 <= distance < INFEASIBLE_COST,
{
    let dx: i64 = a.x as i64 - b.x as i64;
    let dy: i64 = a.y as i64 - b.y as i64;
    let sum: i64 = saturating_add_i64(saturating_square_i64(dx), saturating_square_i64(dy));
    if sum < INFEASIBLE_COST - 1 {
        sum
    } else {
        INFEASIBLE_COST - 1
    }
}

/// Work area of an output on the screen, `gap` pixels in from its edges, unless
/// less than two pixels are left of it. Sums of coordinates are held in their range.
pub open spec fn screen_area(output: Rectangle, work: Rectangle, gap: int) -> Option<Rectangle> {
    let g = if gap > 0 {
        gap
    } else {
        0
    };
    if 2 * g <= i32::MAX && work.size.w - 2 * g >= 2 && work.size.h - 2 * g >= 2 {
        Some(
            Rectangle {
                loc: Point {
                    x: clamp_i32(clamp_i32(output.loc.x + work.loc.x) + g) as i32,
                    y: clamp_i32(clamp_i32(output.loc.y + work.loc.y) + g) as i32,
                },
                size: Size { w: (work.size.w - 2 * g) as i32, h: (work.size.h - 2 * g) as i32 },
            },
        )
    } else {
        None
    }
}

/// The part of an output that an arrangement may fill, on the screen.
pub fn screen_work_area(output: Rectangle, work: Rectangle, gap: i32) -> (area: Option<Rectangle>)
    ensures
        area == screen_area(output, work, gap as int),
{
    let gap: i32 = if gap > 0 {
        gap
    } else {
        0
    };
    let double: i32 = match gap.checked_mul(2) {
        Some(double) => double,
        None => {
            return None;
        },
    };
    let width: i32 = match work.size.w.checked_sub(double) {
        Some(width) => width,
        None => {
            return None;
        },
    };
    let height: i32 = match work.size.h.checked_sub(double) {
        Some(height) => height,
        None => {
            return None;
        },
    };
    if width < 2 || height < 2 {
        return None;
    }
    Some(
        Rectangle::new(
            Point::new(
                saturating_add_i32(saturating_add_i32(output.loc.x, work.loc.x), gap),
                saturating_add_i32(saturating_add_i32(output.loc.y, work.loc.y), gap),
            ),
            Size::new(width, height),
        ),
    )
}

/// The rectangle between two corners in the field, unless it spans less than two
/// pixels or more than the range of coordinates.
pub open spec fn world_area(top_left: Point, bottom_right: Point) -> Option<Rectangle> {
    let w = bottom_right.x - top_left.x;
    let h = bottom_right.y - top_left.y;
    if 2 <= w <= i32::MAX && 2 <= h <= i32::MAX {
        Some(Rectangle { loc: top_left, size: Size { w: w as i32, h: h as i32 } })
    } else {
        None
    }
}

/// The part of the field between the two corners of the work area.
pub fn visible_work_area_outer(top_left: Point, bottom_right: Point) -> (area: Option<Rectangle>)
    ensures
        area == world_area(top_left, bottom_right),
{
    let width: i32 = match bottom_right.x.checked_sub(top_left.x) {
        Some(width) => width,
        None => {
            return None;
        },
    };
    let height: i32 = match bottom_right.y.checked_sub(top_left.y) {
        Some(height) => height,
        None => {
            return None;
        },
    };
    if width < 2 || height < 2 {
        return None;
    }
    Some(Rectangle::new(top_left, Size::new(width, height)))
}

/// The node may take part in an arrangement of `output`.
pub open spec fn may_arrange(node: NodeFacts, output: Seq<char>) -> bool {
    &&& node.attached
    &&& !node.collapsed
    &&& node.output@ == output
    &&& node.visible
    &&& !node.cluster_member
    &&& !node.user_pinned
    &&& !node.fullscreen
    &&& !node.maximized
    &&& !node.grabbed
}

/// A node that may take part has the middle of its window in range.
pub open spec fn center_in_range(node: NodeFacts, output: Seq<char>) -> bool {
    may_arrange(node, output) ==> match node.placement {
        Some((current, decorated)) => has_center(decorated),
        None => true,
    }
}

/// The candidate that a node gives: it may take part, is mapped, and the middle
/// of its decorated window is in the visible field.
pub open spec fn candidate_of(node: NodeFacts, output: Seq<char>, outer: Rectangle) -> Option<
    Candidate,
> {
    match node.placement {
        Some((current, decorated)) => {
            let center = Point {
                x: center_of(decorated).0 as i32,
                y: center_of(decorated).1 as i32,
            };
            if may_arrange(node, output) && outer.spec_contains(center) {
                Some(Candidate { surface: node.surface, current, center })
            } else {
                None
            }
        },
        None => None,
    }
}

/// The candidates among the first `count` nodes, in their order.
pub open spec fn candidates_of(
    nodes: Seq<NodeFacts>,
    output: Seq<char>,
    outer: Rectangle,
    count: nat,
) -> Seq<Candidate>
    decreases count,
{
    if count == 0 {
        Seq::empty()
    } else {
        let before = candidates_of(nodes, output, outer, (count - 1) as nat);
        match candidate_of(nodes[count - 1], output, outer) {
            Some(candidate) => before.push(candidate),
            None => before,
        }
    }
}

fn node_may_arrange(node: &NodeFacts, output: &str) -> (r: bool)
    ensures
        r == may_arrange(*node, output@),
{
    node.attached && !node.collapsed && same_text(node.output.as_str(), output) && node.visible
        && !node.cluster_member && !node.user_pinned && !node.fullscreen && !node.maximized
        && !node.grabbed
}

/// The windows of the visible field that an arrangement places.
pub fn collect_candidates(nodes: &Vec<NodeFacts>, output: &str, outer: Rectangle) -> (candidates:
    Vec<Candidate>)
    requires
        forall|i: int|
            0 <= i < nodes@.len() ==> center_in_range(#[trigger] nodes@[i], output@),
    ensures
        candidates@ == candidates_of(nodes@, output@, outer, nodes@.len()),
{
    let mut candidates: Vec<Candidate> = Vec::new();
    let mut index: usize = 0;
    while index < nodes.len()
        invariant
            index <= nodes@.len(),
            forall|i: int|
                0 <= i < nodes@.len() ==> center_in_range(#[trigger] nodes@[i], output@),
            candidates@ == candidates_of(nodes@, output@, outer, index as nat),
        decreases nodes@.len() - index,
    {
        let node = &nodes[index];
        if let Some((current, decorated)) = node.placement {
            if node_may_arrange(node, output) {
                let center = rect_center(decorated);
                if outer.contains(center) {
                    candidates.push(Candidate { surface: node.surface, current, center });
                }
            }
        }
        index += 1;
    }
    candidates
}

/// An arrangement under way: the windows still in it and a region for each.
#[derive(Debug)]
pub struct Arrangement {
    pub outer: Rectangle,
    pub gap: i32,
    pub output: String,
    pub candidates: Vec<Candidate>,
    pub regions: Vec<Rectangle>,
}

/// What becomes of an arrangement once its windows are measured.
#[derive(Debug)]
pub enum ArrangeOutcome {
    /// Every window takes its region; `undo` leads back.
    Placed { requests: Vec<FieldRestore>, undo: UndoSnapshot },
    /// One window was left out; the others are measured again.
    Narrowed(Arrangement),
    /// Too few windows are left, or the field has no room for them.
    Abandoned,
}

impl Arrangement {
    pub open spec fn wf(self) -> bool {
        let count = self.candidates@.len() as int;
        &&& 2 <= count <= MAX_CANDIDATES
        &&& mosaic_fits(self.outer, count, self.gap as int)
        &&& is_mosaic(self.outer, count, self.gap as int, self.regions@)
    }

    /// Each window of the arrangement is measured against each region.
    pub open spec fn measures(self, measured: Seq<Vec<Measured>>) -> bool {
        &&& measured.len() == self.candidates@.len()
        &&& forall|i: int|
            0 <= i < measured.len() ==> (#[trigger] measured[i])@.len() == self.candidates@.len()
    }
}

/// An arrangement of these windows, if there are two of them and room for all.
pub open spec fn arrangement_fits(outer: Rectangle, gap: int, count: int) -> bool {
    count >= 2 && mosaic_fits(outer, count, gap)
}

/// Starts an arrangement of `candidates`.
pub fn plan_arrangement(outer: Rectangle, gap: i32, output: String, candidates: Vec<Candidate>)
    -> (arrangement: Option<Arrangement>)
    requires
        candidates@.len() <= MAX_CANDIDATES,
    ensures
        arrangement is Some <==> arrangement_fits(outer, gap as int, candidates@.len() as int),
        arrangement matches Some(plan) ==> {
            &&& plan.wf()
            &&& plan.outer == outer
            &&& plan.gap == gap
            &&& plan.output@ == output@
            &&& plan.candidates@ == candidates@
        },
{
    if candidates.len() < 2 {
        return None;
    }
    match mosaic_regions(outer, candidates.len(), gap) {
        Some(regions) => Some(Arrangement { outer, gap, output, candidates, regions }),
        None => None,
    }
}

/// Begins to arrange the windows of an output's visible field. An active cluster
/// or a grab leaves everything as it is; otherwise the last arrangement can no
/// longer be undone. `area` is the visible field and the gap in it, where the
/// output has one.
pub fn arrange_visible(
    cluster_active: bool,
    grab_active: bool,
    undo: &mut UndoSnapshot,
    area: Option<(Rectangle, i32)>,
    nodes: &Vec<NodeFacts>,
    output: &str,
) -> (arrangement: Option<Arrangement>)
    requires
        nodes@.len() <= MAX_CANDIDATES,
        forall|i: int|
            0 <= i < nodes@.len() ==> center_in_range(#[trigger] nodes@[i], output@),
    ensures
        cluster_active || grab_active ==> *final(undo) == *old(undo) && arrangement is None,
        !(cluster_active || grab_active) ==> final(undo).restores@ == Seq::<FieldRestore>::empty(),
        !(cluster_active || grab_active) ==> match area {
            Some((outer, gap)) => {
                let candidates = candidates_of(nodes@, output@, outer, nodes@.len());
                &&& arrangement is Some <==> arrangement_fits(
                    outer,
                    gap as int,
                    candidates.len() as int,
                )
                &&& (arrangement matches Some(plan) ==> {
                    &&& plan.wf()
                    &&& plan.outer == outer
                    &&& plan.gap == gap
                    &&& plan.output@ == output@
                    &&& plan.candidates@ == candidates
                })
            },
            None => arrangement is None,
        },
{
    if cluster_active || grab_active {
        return None;
    }
    undo.clear();
    match area {
        Some((outer, gap)) => {
            let candidates = collect_candidates(nodes, output, outer);
            proof {
                lemma_candidates_bound(nodes@, output@, outer, nodes@.len());
            }
            plan_arrangement(outer, gap, output.to_owned(), candidates)
        },
        None => None,
    }
}

proof fn lemma_candidates_bound(
    nodes: Seq<NodeFacts>,
    output: Seq<char>,
    outer: Rectangle,
    count: nat,
)
    ensures
        candidates_of(nodes, output, outer, count).len() <= count,
    decreases count,
{
    if count > 0 {
        lemma_candidates_bound(nodes, output, outer, (count - 1) as nat);
    }
}

/// The greatest cost of a window that takes its region: all of them together stay
/// below a single infeasible one.
pub open spec fn feasible_ceiling(count: int) -> int {
    INFEASIBLE_COST as int / (count + 1) - 1
}

/// What it costs to put a window into a region.
pub open spec fn placement_cost(
    count: int,
    center: Point,
    region: Rectangle,
    measured: Measured,
) -> int {
    if size_accepted(measured.policy, measured.target.size) {
        let middle = Point { x: center_of(region).0 as i32, y: center_of(region).1 as i32 };
        let distance = distance_cost(center, middle);
        if distance < feasible_ceiling(count) {
            distance
        } else {
            feasible_ceiling(count)
        }
    } else {
        INFEASIBLE_COST as int
    }
}

/// `costs` holds what each placement costs.
pub open spec fn is_cost_table(
    plan: Arrangement,
    measured: Seq<Vec<Measured>>,
    costs: Seq<Vec<i64>>,
) -> bool {
    let count = plan.candidates@.len() as int;
    &&& costs.len() == count
    &&& forall|i: int|
        0 <= i < count ==> {
            &&& (#[trigger] costs[i])@.len() == count
            &&& forall|j: int|
                0 <= j < count ==> #[trigger] costs[i]@[j] == placement_cost(
                    count,
                    plan.candidates@[i].center,
                    plan.regions@[j],
                    measured[i]@[j],
                )
        }
}

/// Every window agrees to the region that `choice` gives it.
pub open spec fn all_accepted(measured: Seq<Vec<Measured>>, choice: Seq<int>) -> bool {
    forall|i: int|
        0 <= i < choice.len() ==> {
            let cell = measured[i]@[#[trigger] choice[i]];
            size_accepted(cell.policy, cell.target.size)
        }
}

/// How many of the first `count` regions a window agrees to.
pub open spec fn accepted_regions(measured: Seq<Measured>, count: nat) -> nat
    decreases count,
{
    if count == 0 {
        0
    } else {
        let cell = measured[count - 1];
        accepted_regions(measured, (count - 1) as nat) + (if size_accepted(
            cell.policy,
            cell.target.size,
        ) {
            1nat
        } else {
            0
        })
    }
}

/// The pixels that a window covers now.
pub open spec fn covered(candidate: Candidate) -> int {
    candidate.current.size.w * candidate.current.size.h
}

/// Window `a` is left out rather than window `b`: it agrees to fewer regions, or to
/// as many and covers more.
pub open spec fn leaves_before(
    plan: Arrangement,
    measured: Seq<Vec<Measured>>,
    a: int,
    b: int,
) -> bool {
    let count = plan.candidates@.len();
    let fewer = accepted_regions(measured[a]@, count);
    let more = accepted_regions(measured[b]@, count);
    fewer < more || (fewer == more && covered(plan.candidates@[a]) > covered(
        plan.candidates@[b],
    ))
}

/// Window `k` is the first that no other one leaves before.
pub open spec fn leaves_first(
    plan: Arrangement,
    measured: Seq<Vec<Measured>>,
    k: int,
) -> bool {
    &&& 0 <= k < plan.candidates@.len()
    &&& forall|i: int|
        0 <= i < plan.candidates@.len() ==> !#[trigger] leaves_before(plan, measured, i, k)
    &&& forall|i: int| 0 <= i < k ==> #[trigger] leaves_before(plan, measured, k, i)
}

proof fn lemma_regions_have_center(plan: Arrangement)
    requires
        plan.wf(),
    ensures
        forall|j: int| 0 <= j < plan.regions@.len() ==> has_center(#[trigger] plan.regions@[j]),
{
    let count = plan.candidates@.len() as int;
    mosaic_divides_field(plan.outer, count, plan.gap as int, plan.regions@);
    assert forall|j: int| 0 <= j < plan.regions@.len() implies has_center(
        #[trigger] plan.regions@[j],
    ) by {
        let region = plan.regions@[j];
        assert(region.within(plan.outer));
        assert(region.size.w >= 1 && region.size.h >= 1);
        lemma_field_in_range(plan.outer, count, plan.gap as int);
    }
}

/// A field that can be divided ends within the range of coordinates.
proof fn lemma_field_in_range(outer: Rectangle, count: int, gap: int)
    requires
        mosaic_fits(outer, count, gap),
    ensures
        outer.loc.x + outer.size.w <= i32::MAX,
        outer.loc.y + outer.size.h <= i32::MAX,
{
    if count != 3 {
        assert(crate::session::mosaic::axis_splits(
            outer.loc.x as int,
            outer.size.w as int,
            crate::session::mosaic::row_population(count, 0),
            gap,
        )) by {
            crate::session::mosaic::mosaic_has_rows(count);
        }
    }
}

proof fn lemma_ceiling(count: int)
    requires
        0 <= count <= MAX_CANDIDATES,
    ensures
        0 <= feasible_ceiling(count) < INFEASIBLE_COST,
        count * feasible_ceiling(count) < INFEASIBLE_COST,
{
    let ceiling = feasible_ceiling(count);
    let cost = INFEASIBLE_COST as int;
    vstd::arithmetic::div_mod::lemma_fundamental_div_mod(cost, count + 1);
    vstd::arithmetic::div_mod::lemma_mod_bound(cost, count + 1);
    let q = cost / (count + 1);
    assert(q >= 1) by (nonlinear_arith)
        requires
            cost == (count + 1) * q + cost % (count + 1),
            cost % (count + 1) < count + 1,
            cost >= 2 * (count + 1),
            count >= 0,
    ;
    assert(q <= cost) by (nonlinear_arith)
        requires
            cost == (count + 1) * q + cost % (count + 1),
            cost % (count + 1) >= 0,
            q >= 1,
            count >= 0,
    ;
    assert(count * (q - 1) < cost) by (nonlinear_arith)
        requires
            cost == (count + 1) * q + cost % (count + 1),
            cost % (count + 1) >= 0,
            q >= 1,
            count >= 0,
    ;
}

/// The cost of one placement, and that it tells whether the window agrees.
fn cell_cost(count: usize, center: Point, region: Rectangle, measured: Measured) -> (cost: i64)
    requires
        count <= MAX_CANDIDATES,
        has_center(region),
    ensures
        cost == placement_cost(count as int, center, region, measured),
        0 <= cost <= INFEASIBLE_COST,
        cost < INFEASIBLE_COST <==> size_accepted(measured.policy, measured.target.size),
{
    proof {
        lemma_ceiling(count as int);
    }
    if !window_size_is_accepted(measured.policy, measured.target.size) {
        INFEASIBLE_COST
    } else {
        let ceiling: i64 = INFEASIBLE_COST / (count as i64 + 1) - 1;
        let distance: i64 = squared_distance(center, rect_center(region));
        if distance < ceiling {
            distance
        } else {
            ceiling
        }
    }
}

fn cost_table(plan: &Arrangement, measured: &Vec<Vec<Measured>>) -> (costs: Vec<Vec<i64>>)
    requires
        plan.wf(),
        plan.measures(measured@),
    ensures
        is_cost_table(*plan, measured@, costs@),
        valid_costs(costs@),
{
    let count: usize = plan.candidates.len();
    proof {
        lemma_regions_have_center(*plan);
        lemma_ceiling(count as int);
    }
    let mut costs: Vec<Vec<i64>> = Vec::new();
    let mut i: usize = 0;
    while i < count
        invariant
            count == plan.candidates@.len(),
            count <= MAX_CANDIDATES,
            plan.regions@.len() == count,
            forall|j: int| 0 <= j < count ==> has_center(#[trigger] plan.regions@[j]),
            plan.measures(measured@),
            i <= count,
            costs@.len() == i,
            forall|a: int|
                0 <= a < i ==> {
                    &&& (#[trigger] costs@[a])@.len() == count
                    &&& forall|j: int|
                        0 <= j < count ==> 0 <= #[trigger] costs@[a]@[j] <= INFEASIBLE_COST
                            && costs@[a]@[j] == placement_cost(
                            count as int,
                            plan.candidates@[a].center,
                            plan.regions@[j],
                            measured@[a]@[j],
                        )
                },
        decreases count - i,
    {
        let mut row: Vec<i64> = Vec::new();
        let mut j: usize = 0;
        assert(measured@[i as int]@.len() == count);
        while j < count
            invariant
                count == plan.candidates@.len(),
                count <= MAX_CANDIDATES,
                i < count,
                plan.regions@.len() == count,
                measured@.len() == count,
                measured@[i as int]@.len() == count,
                forall|j: int| 0 <= j < count ==> has_center(#[trigger] plan.regions@[j]),
                j <= count,
                row@.len() == j,
                forall|b: int|
                    0 <= b < j ==> 0 <= #[trigger] row@[b] <= INFEASIBLE_COST && row@[b]
                        == placement_cost(
                        count as int,
                        plan.candidates@[i as int].center,
                        plan.regions@[b],
                        measured@[i as int]@[b],
                    ),
            decreases count - j,
        {
            row.push(
                cell_cost(count, plan.candidates[i].center, plan.regions[j], measured[i][j]),
            );
            j += 1;
        }
        costs.push(row);
        i += 1;
    }
    costs
}

/// An assignment costs no more than its rows at the greatest cost, and no less
/// than one of its cells.
proof fn lemma_assignment_cost_bounds(
    costs: Seq<Vec<i64>>,
    choice: Seq<int>,
    rows: nat,
    greatest: int,
)
    requires
        is_assignment(choice, costs.len()),
        rows <= costs.len(),
        forall|i: int| 0 <= i < rows ==> 0 <= costs[i]@[#[trigger] choice[i]],
    ensures
        (forall|i: int| 0 <= i < rows ==> costs[i]@[#[trigger] choice[i]] <= greatest)
            ==> assignment_cost(costs, choice, rows) <= rows * greatest,
        assignment_cost(costs, choice, rows) >= 0,
        forall|i: int|
            0 <= i < rows ==> costs[i]@[#[trigger] choice[i]] <= assignment_cost(
                costs,
                choice,
                rows,
            ),
    decreases rows,
{
    if rows > 0 {
        lemma_assignment_cost_bounds(costs, choice, (rows - 1) as nat, greatest);
        assert(0 <= costs[rows - 1]@[choice[rows - 1]]);
        assert(rows * greatest == (rows - 1) * greatest + greatest) by (nonlinear_arith);
    } else {
        assert(0 * greatest == 0) by (nonlinear_arith);
    }
}

/// A least-cost assignment avoids every infeasible placement if any assignment
/// does.
proof fn lemma_least_cost_is_accepted(
    plan: Arrangement,
    measured: Seq<Vec<Measured>>,
    costs: Seq<Vec<i64>>,
    choice: Seq<int>,
    other: Seq<int>,
)
    requires
        plan.wf(),
        plan.measures(measured),
        is_cost_table(plan, measured, costs),
        is_assignment(choice, costs.len()),
        is_assignment(other, costs.len()),
        all_accepted(measured, other),
        assignment_cost(costs, choice, costs.len()) <= assignment_cost(costs, other, costs.len()),
    ensures
        all_accepted(measured, choice),
{
    let count = plan.candidates@.len() as int;
    let ceiling = feasible_ceiling(count);
    lemma_ceiling(count);
    assert forall|i: int, j: int| 0 <= i < count && 0 <= j < count implies 0
        <= #[trigger] costs[i]@[j] by {
        lemma_distance_cost_sign(
            plan.candidates@[i].center,
            Point {
                x: center_of(plan.regions@[j]).0 as i32,
                y: center_of(plan.regions@[j]).1 as i32,
            },
        );
        assert(costs[i]@.len() == count);
    }
    assert forall|i: int| 0 <= i < count implies costs[i]@[#[trigger] other[i]] <= ceiling by {
        assert(costs[i]@.len() == count);
        let cell = measured[i]@[other[i]];
        assert(size_accepted(cell.policy, cell.target.size));
    }
    lemma_assignment_cost_bounds(costs, other, costs.len(), ceiling);
    lemma_assignment_cost_bounds(costs, choice, costs.len(), ceiling);
    assert forall|i: int| 0 <= i < choice.len() implies {
        let cell = measured[i]@[#[trigger] choice[i]];
        size_accepted(cell.policy, cell.target.size)
    } by {
        assert(costs[i]@.len() == count);
        assert(costs[i]@[choice[i]] < INFEASIBLE_COST);
    }
}

proof fn lemma_distance_cost_sign(a: Point, b: Point)
    ensures
        0 <= distance_cost(a, b),
{
    let dx = a.x - b.x;
    let dy = a.y - b.y;
    assert(dx * dx >= 0) by (nonlinear_arith);
    assert(dy * dy >= 0) by (nonlinear_arith);
}

fn count_accepted(measured: &Vec<Measured>) -> (count: usize)
    ensures
        count == accepted_regions(measured@, measured@.len()),
        count <= measured@.len(),
{
    let mut count: usize = 0;
    let mut index: usize = 0;
    while index < measured.len()
        invariant
            index <= measured@.len(),
            count <= index,
            count == accepted_regions(measured@, index as nat),
        decreases measured@.len() - index,
    {
        if window_size_is_accepted(measured[index].policy, measured[index].target.size) {
            count += 1;
        }
        index += 1;
    }
    count
}

fn area_of(candidate: &Candidate) -> (area: i64)
    ensures
        area == covered(*candidate),
{
    let w: i64 = candidate.current.size.w as i64;
    let h: i64 = candidate.current.size.h as i64;
    assert(-0x4000_0000_0000_0000 <= w * h <= 0x4000_0000_0000_0000) by (nonlinear_arith)
        requires
            -0x8000_0000 <= w < 0x8000_0000,
            -0x8000_0000 <= h < 0x8000_0000,
    ;
    w * h
}

/// The window that is left out of an arrangement that does not work out.
fn first_to_leave(plan: &Arrangement, measured: &Vec<Vec<Measured>>) -> (k: usize)
    requires
        plan.wf(),
        plan.measures(measured@),
    ensures
        leaves_first(*plan, measured@, k as int),
{
    let count: usize = plan.candidates.len();
    let mut best: usize = 0;
    assert(measured@[0]@.len() == count);
    let mut best_accepted: usize = count_accepted(&measured[0]);
    let mut best_area: i64 = area_of(&plan.candidates[0]);
    let mut i: usize = 1;
    while i < count
        invariant
            count == plan.candidates@.len(),
            plan.measures(measured@),
            best < i <= count,
            best_accepted == accepted_regions(measured@[best as int]@, count as nat),
            best_area == covered(plan.candidates@[best as int]),
            forall|a: int|
                0 <= a < i ==> !#[trigger] leaves_before(*plan, measured@, a, best as int),
            forall|a: int|
                0 <= a < best ==> #[trigger] leaves_before(*plan, measured@, best as int, a),
        decreases count - i,
    {
        assert(measured@[i as int]@.len() == count);
        let accepted: usize = count_accepted(&measured[i]);
        let area: i64 = area_of(&plan.candidates[i]);
        if accepted < best_accepted || (accepted == best_accepted && area > best_area) {
            assert forall|a: int| 0 <= a < i implies #[trigger] leaves_before(
                *plan,
                measured@,
                i as int,
                a,
            ) by {
                assert(!leaves_before(*plan, measured@, a, best as int));
            }
            assert forall|a: int| 0 <= a <= i implies !#[trigger] leaves_before(
                *plan,
                measured@,
                a,
                i as int,
            ) by {
                if a < i {
                    assert(leaves_before(*plan, measured@, i as int, a));
                }
            }
            best = i;
            best_accepted = accepted;
            best_area = area;
        }
        i += 1;
    }
    best
}

fn restore(surface: SurfaceId, geometry: Rectangle, output: &String) -> (r: FieldRestore)
    ensures
        r == (FieldRestore { surface, geometry, output: *output }),
{
    FieldRestore { surface, geometry, output: output.clone() }
}

/// `requests` ask each window to take the rectangle it gets in its region.
pub open spec fn are_requests(
    plan: Arrangement,
    measured: Seq<Vec<Measured>>,
    choice: Seq<int>,
    requests: Seq<FieldRestore>,
) -> bool {
    &&& requests.len() == plan.candidates@.len()
    &&& forall|i: int|
        0 <= i < requests.len() ==> {
            &&& (#[trigger] requests[i]).surface == plan.candidates@[i].surface
            &&& requests[i].geometry == measured[i]@[choice[i]].target
            &&& requests[i].output@ == plan.output@
        }
}

/// `restores` lead each window back to where it was.
pub open spec fn are_restores(plan: Arrangement, restores: Seq<FieldRestore>) -> bool {
    &&& restores.len() == plan.candidates@.len()
    &&& forall|i: int|
        0 <= i < restores.len() ==> {
            &&& (#[trigger] restores[i]).surface == plan.candidates@[i].surface
            &&& restores[i].geometry == plan.candidates@[i].current
            &&& restores[i].output@ == plan.output@
        }
}

/// `choice` places every window in a region that it agrees to, and no assignment
/// moves the windows less.
pub open spec fn is_best_placement(
    plan: Arrangement,
    measured: Seq<Vec<Measured>>,
    choice: Seq<int>,
) -> bool {
    &&& is_assignment(choice, plan.candidates@.len())
    &&& all_accepted(measured, choice)
    &&& exists|costs: Seq<Vec<i64>>| #[trigger]
        is_cost_table(plan, measured, costs) && forall|other: Seq<int>|
            is_assignment(other, plan.candidates@.len()) ==> assignment_cost(
                costs,
                choice,
                plan.candidates@.len(),
            ) <= #[trigger] assignment_cost(costs, other, plan.candidates@.len())
}

/// Some assignment gives every window a region that it agrees to.
pub open spec fn can_place(plan: Arrangement, measured: Seq<Vec<Measured>>) -> bool {
    exists|choice: Seq<int>| #[trigger]
        is_assignment(choice, plan.candidates@.len()) && all_accepted(measured, choice)
}

impl Arrangement {
    /// Places the windows if some assignment suits all of them, and leaves one of
    /// them out otherwise.
    pub fn advance(self, measured: &Vec<Vec<Measured>>) -> (outcome: ArrangeOutcome)
        requires
            self.wf(),
            self.measures(measured@),
        ensures
            outcome is Placed <==> can_place(self, measured@),
            match outcome {
                ArrangeOutcome::Placed { requests, undo } => {
                    &&& are_restores(self, undo.restores@)
                    &&& exists|choice: Seq<int>| #[trigger]
                        is_best_placement(self, measured@, choice) && are_requests(
                            self,
                            measured@,
                            choice,
                            requests@,
                        )
                },
                ArrangeOutcome::Narrowed(next) => {
                    &&& next.wf()
                    &&& next.outer == self.outer
                    &&& next.gap == self.gap
                    &&& next.output@ == self.output@
                    &&& exists|k: int| #[trigger]
                        leaves_first(self, measured@, k) && next.candidates@
                            == self.candidates@.remove(k)
                },
                ArrangeOutcome::Abandoned => !arrangement_fits(
                    self.outer,
                    self.gap as int,
                    self.candidates@.len() - 1,
                ),
            },
    {
        let count: usize = self.candidates.len();
        let costs = cost_table(&self, measured);
        let assignment = minimum_cost_assignment(costs.as_slice());
        let ghost choice = choices(assignment@);
        let mut accepted = true;
        let mut i: usize = 0;
        while i < count && accepted
            invariant
                count == self.candidates@.len(),
                self.measures(measured@),
                choice == choices(assignment@),
                is_assignment(choice, count as nat),
                i <= count,
                accepted ==> forall|a: int|
                    0 <= a < i ==> {
                        let cell = measured@[a]@[#[trigger] choice[a]];
                        size_accepted(cell.policy, cell.target.size)
                    },
                !accepted ==> !all_accepted(measured@, choice),
            decreases count - i,
        {
            assert(measured@[i as int]@.len() == count);
            assert(choice[i as int] == assignment@[i as int]);
            let cell = measured[i][assignment[i]];
            accepted = window_size_is_accepted(cell.policy, cell.target.size);
            i += 1;
        }
        if accepted {
            let mut requests: Vec<FieldRestore> = Vec::new();
            let mut restores: Vec<FieldRestore> = Vec::new();
            let mut j: usize = 0;
            while j < count
                invariant
                    count == self.candidates@.len(),
                    self.measures(measured@),
                    choice == choices(assignment@),
                    is_assignment(choice, count as nat),
                    j <= count,
                    requests@.len() == j,
                    restores@.len() == j,
                    forall|a: int|
                        0 <= a < j ==> {
                            &&& (#[trigger] requests@[a]).surface == self.candidates@[a].surface
                            &&& requests@[a].geometry == measured@[a]@[choice[a]].target
                            &&& requests@[a].output@ == self.output@
                        },
                    forall|a: int|
                        0 <= a < j ==> {
                            &&& (#[trigger] restores@[a]).surface == self.candidates@[a].surface
                            &&& restores@[a].geometry == self.candidates@[a].current
                            &&& restores@[a].output@ == self.output@
                        },
                decreases count - j,
            {
                assert(measured@[j as int]@.len() == count);
                assert(choice[j as int] == assignment@[j as int]);
                let candidate = self.candidates[j];
                requests.push(
                    restore(candidate.surface, measured[j][assignment[j]].target, &self.output),
                );
                restores.push(restore(candidate.surface, candidate.current, &self.output));
                j += 1;
            }
            assert(is_cost_table(self, measured@, costs@));
            assert(is_best_placement(self, measured@, choice));
            return ArrangeOutcome::Placed { requests, undo: UndoSnapshot { restores } };
        }
        proof {
            if can_place(self, measured@) {
                let other = choose|other: Seq<int>| #[trigger]
                    is_assignment(other, self.candidates@.len()) && all_accepted(measured@, other);
                lemma_least_cost_is_accepted(self, measured@, costs@, choice, other);
            }
        }
        let leaving: usize = first_to_leave(&self, measured);
        let Arrangement { outer, gap, output, mut candidates, regions: _ } = self;
        candidates.remove(leaving);
        match plan_arrangement(outer, gap, output, candidates) {
            Some(next) => ArrangeOutcome::Narrowed(next),
            None => ArrangeOutcome::Abandoned,
        }
    }
}

/// What an undo reads of the surface it restores, where its node still exists.
#[derive(Clone, Copy, Debug, PartialEq, Eq, Structural)]
pub struct RestoreFacts {
    pub attached: bool,
    pub collapsed: bool,
    pub cluster_member: bool,
    pub fullscreen: bool,
    pub maximized: bool,
}

/// The surface may still be put back where it was.
pub open spec fn may_restore(facts: Option<RestoreFacts>) -> bool {
    match facts {
        Some(facts) => facts.attached && !facts.collapsed && !facts.cluster_member
            && !facts.fullscreen && !facts.maximized,
        None => false,
    }
}

/// Those of the first `count` restores whose surface may still be put back.
pub open spec fn restorable(
    restores: Seq<FieldRestore>,
    facts: Seq<Option<RestoreFacts>>,
    count: nat,
) -> Seq<FieldRestore>
    decreases count,
{
    if count == 0 {
        Seq::empty()
    } else {
        let before = restorable(restores, facts, (count - 1) as nat);
        if may_restore(facts[count - 1]) {
            before.push(restores[count - 1])
        } else {
            before
        }
    }
}

/// Undoes the last arrangement: it can be undone once, and only surfaces that are
/// still free in the field are put back. `facts` tells of each surface of the
/// snapshot.
pub fn undo_last(snapshot: &mut UndoSnapshot, facts: &Vec<Option<RestoreFacts>>) -> (requests: Vec<
    FieldRestore,
>)
    requires
        facts@.len() == old(snapshot).restores@.len(),
    ensures
        final(snapshot).restores@ == Seq::<FieldRestore>::empty(),
        requests@ == restorable(old(snapshot).restores@, facts@, facts@.len()),
{
    let mut requests: Vec<FieldRestore> = Vec::new();
    let mut index: usize = 0;
    while index < facts.len()
        invariant
            index <= facts@.len(),
            facts@.len() == snapshot.restores@.len(),
            snapshot.restores@ == old(snapshot).restores@,
            requests@ == restorable(snapshot.restores@, facts@, index as nat),
        decreases facts@.len() - index,
    {
        let eligible = match facts[index] {
            Some(facts) => facts.attached && !facts.collapsed && !facts.cluster_member
                && !facts.fullscreen && !facts.maximized,
            None => false,
        };
        if eligible {
            let request = &snapshot.restores[index];
            requests.push(restore(request.surface, request.geometry, &request.output));
        }
        index += 1;
    }
    snapshot.clear();
    requests
}

/// `request` is one of the first `count` restores, of a surface that may be put back.
pub open spec fn is_free_restore(
    restores: Seq<FieldRestore>,
    facts: Seq<Option<RestoreFacts>>,
    count: int,
    request: FieldRestore,
) -> bool {
    exists|j: int|
        0 <= j < count && may_restore(#[trigger] facts[j]) && request == restores[j]
}

/// An undo leads every window that is still free in the field back to where it was before
/// the windows were arranged, and asks nothing of the others.
pub proof fn undo_leads_back(
    plan: Arrangement,
    restores: Seq<FieldRestore>,
    facts: Seq<Option<RestoreFacts>>,
    i: int,
)
    requires
        are_restores(plan, restores),
        facts.len() == restores.len(),
        0 <= i < restores.len(),
    ensures
        may_restore(facts[i]) ==> {
            let requests = restorable(restores, facts, facts.len());
            &&& requests.contains(restores[i])
            &&& restores[i].surface == plan.candidates@[i].surface
            &&& restores[i].geometry == plan.candidates@[i].current
        },
        forall|k: int|
            #![trigger restorable(restores, facts, facts.len())[k]]
            0 <= k < restorable(restores, facts, facts.len()).len() ==> is_free_restore(
                restores,
                facts,
                facts.len() as int,
                restorable(restores, facts, facts.len())[k],
            ),
{
    lemma_restorable(restores, facts, facts.len());
}

proof fn lemma_restorable(
    restores: Seq<FieldRestore>,
    facts: Seq<Option<RestoreFacts>>,
    count: nat,
)
    requires
        facts.len() == restores.len(),
        count <= facts.len(),
    ensures
        forall|i: int|
            0 <= i < count && may_restore(#[trigger] facts[i]) ==> restorable(
                restores,
                facts,
                count,
            ).contains(restores[i]),
        forall|k: int|
            #![trigger restorable(restores, facts, count)[k]]
            0 <= k < restorable(restores, facts, count).len() ==> is_free_restore(
                restores,
                facts,
                count as int,
                restorable(restores, facts, count)[k],
            ),
    decreases count,
{
    if count > 0 {
        lemma_restorable(restores, facts, (count - 1) as nat);
        let before = restorable(restores, facts, (count - 1) as nat);
        let all = restorable(restores, facts, count);
        assert forall|i: int| 0 <= i < count && may_restore(#[trigger] facts[i]) implies all.contains(
            restores[i],
        ) by {
            if i < count - 1 {
                assert(before.contains(restores[i]));
                let k = choose|k: int| 0 <= k < before.len() && before[k] == restores[i];
                assert(all[k] == restores[i]);
            } else {
                assert(all[all.len() - 1] == restores[i]);
            }
        }
        assert forall|k: int| #![trigger all[k]] 0 <= k < all.len() implies is_free_restore(
            restores,
            facts,
            count as int,
            all[k],
        ) by {
            if k < before.len() {
                assert(all[k] == before[k]);
                let j = choose|j: int|
                    0 <= j < count - 1 && may_restore(#[trigger] facts[j]) && before[k]
                        == restores[j];
                assert(may_restore(facts[j]) && all[k] == restores[j]);
            } else {
                assert(may_restore(facts[count - 1]) && all[k] == restores[count - 1]);
            }
        }
    }
}

/// Putting a window into a region that it agrees to costs the square of the way from the
/// window's middle to the region's, both its parts counted. That holds up to a bound of
/// which every window of the arrangement has an equal share.
pub proof fn placements_cost_the_squared_way(
    count: int,
    center: Point,
    region: Rectangle,
    measured: Measured,
)
    requires
        0 <= count <= MAX_CANDIDATES,
        size_accepted(measured.policy, measured.target.size),
        region.size.w >= 0,
        region.size.h >= 0,
        region.loc.x + region.size.w / 2 <= i32::MAX,
        region.loc.y + region.size.h / 2 <= i32::MAX,
        (center.x - (region.loc.x + region.size.w / 2)) * (center.x - (region.loc.x + region.size.w
            / 2)) + (center.y - (region.loc.y + region.size.h / 2)) * (center.y - (region.loc.y
            + region.size.h / 2)) < 0x7ff_ffff_ffff_ffffint / (count + 1),
    ensures
        placement_cost(count, center, region, measured) == (center.x - (region.loc.x
            + region.size.w / 2)) * (center.x - (region.loc.x + region.size.w / 2)) + (center.y - (
        region.loc.y + region.size.h / 2)) * (center.y - (region.loc.y + region.size.h / 2)),
{
    let dx = center.x - (region.loc.x + region.size.w / 2);
    let dy = center.y - (region.loc.y + region.size.h / 2);
    assert(dx * dx >= 0) by (nonlinear_arith);
    assert(dy * dy >= 0) by (nonlinear_arith);
    lemma_ceiling(count);
    assert(center_of(region).0 as i32 == region.loc.x + region.size.w / 2);
    assert(center_of(region).1 as i32 == region.loc.y + region.size.h / 2);
}

/// Of two regions that a window agrees to, the one whose middle is nearer to the window's is
/// never the dearer one. In a column that is the one nearer in height, in a row the one
/// nearer in width.
pub proof fn nearer_regions_cost_less(
    count: int,
    center: Point,
    near: Rectangle,
    far: Rectangle,
    in_near: Measured,
    in_far: Measured,
)
    requires
        0 <= count <= MAX_CANDIDATES,
        size_accepted(in_near.policy, in_near.target.size),
        size_accepted(in_far.policy, in_far.target.size),
        near.size.w >= 0 && near.size.h >= 0 && far.size.w >= 0 && far.size.h >= 0,
        near.loc.x + near.size.w / 2 <= i32::MAX,
        near.loc.y + near.size.h / 2 <= i32::MAX,
        far.loc.x + far.size.w / 2 <= i32::MAX,
        far.loc.y + far.size.h / 2 <= i32::MAX,
        (center.x - (near.loc.x + near.size.w / 2)) * (center.x - (near.loc.x + near.size.w / 2)) + (
        center.y - (near.loc.y + near.size.h / 2)) * (center.y - (near.loc.y + near.size.h / 2)) < (
        center.x - (far.loc.x + far.size.w / 2)) * (center.x - (far.loc.x + far.size.w / 2)) + (
        center.y - (far.loc.y + far.size.h / 2)) * (center.y - (far.loc.y + far.size.h / 2)),
    ensures
        placement_cost(count, center, near, in_near) <= placement_cost(count, center, far, in_far),
        (center.x - (near.loc.x + near.size.w / 2)) * (center.x - (near.loc.x + near.size.w / 2)) + (
        center.y - (near.loc.y + near.size.h / 2)) * (center.y - (near.loc.y + near.size.h / 2)) + 1
            < 0x7ff_ffff_ffff_ffffint / (count + 1) ==> placement_cost(count, center, near, in_near)
            < placement_cost(count, center, far, in_far),
{
    let nx = center.x - (near.loc.x + near.size.w / 2);
    let ny = center.y - (near.loc.y + near.size.h / 2);
    let fx = center.x - (far.loc.x + far.size.w / 2);
    let fy = center.y - (far.loc.y + far.size.h / 2);
    assert(nx * nx >= 0) by (nonlinear_arith);
    assert(ny * ny >= 0) by (nonlinear_arith);
    assert(fx * fx >= 0) by (nonlinear_arith);
    assert(fy * fy >= 0) by (nonlinear_arith);
    lemma_ceiling(count);
    assert(center_of(near).0 as i32 == near.loc.x + near.size.w / 2);
    assert(center_of(near).1 as i32 == near.loc.y + near.size.h / 2);
    assert(center_of(far).0 as i32 == far.loc.x + far.size.w / 2);
    assert(center_of(far).1 as i32 == far.loc.y + far.size.h / 2);
}

/// A region that a window refuses costs more than all windows of the arrangement together
/// in regions that they agree to.
pub proof fn refused_regions_cost_most(
    count: int,
    center: Point,
    region: Rectangle,
    measured: Measured,
    refused_center: Point,
    refused_region: Rectangle,
    refused: Measured,
)
    requires
        0 <= count <= MAX_CANDIDATES,
        size_accepted(measured.policy, measured.target.size),
        !size_accepted(refused.policy, refused.target.size),
    ensures
        0 <= placement_cost(count, center, region, measured),
        count * placement_cost(count, center, region, measured) < placement_cost(
            count,
            refused_center,
            refused_region,
            refused,
        ),
{
    lemma_ceiling(count);
    lemma_distance_cost_sign(
        center,
        Point { x: center_of(region).0 as i32, y: center_of(region).1 as i32 },
    );
    let cost = placement_cost(count, center, region, measured);
    let ceiling = feasible_ceiling(count);
    assert(count * cost <= count * ceiling) by (nonlinear_arith)
        requires
            cost <= ceiling,
            0 <= count,
    ;
}

/// A window agrees to no size without a pixel. A toplevel agrees to the sizes between its
/// least and its greatest, an X11 window to those that its hints leave as they are.
pub proof fn windows_agree_to_sizes_within_their_bounds(requested: Size, min: Size, max: Size)
    ensures
        size_accepted(SizePolicy::Toplevel { min, max }, requested) ==> {
            &&& requested.w >= 1
            &&& requested.h >= 1
            &&& requested.w >= min.w
            &&& requested.h >= min.h
            &&& max.w > 0 ==> requested.w <= max.w
            &&& max.h > 0 ==> requested.h <= max.h
        },
        requested.w >= 1 && requested.h >= 1 && requested.w >= min.w && requested.h >= min.h && (
        max.w <= 0 || requested.w <= max.w) && (max.h <= 0 || requested.h <= max.h)
            ==> size_accepted(SizePolicy::Toplevel { min, max }, requested),
        size_accepted(SizePolicy::X11 { constrained: requested }, requested) <==> requested.w >= 1
            && requested.h >= 1,
        max != requested ==> !size_accepted(SizePolicy::X11 { constrained: max }, requested),
        !size_accepted(SizePolicy::Unsized, requested),
{
}

proof fn lemma_cost_sum(costs: Seq<Vec<i64>>, choice: Seq<int>, rows: nat, terms: Seq<int>)
    requires
        terms.len() == rows,
        forall|i: int| 0 <= i < rows ==> #[trigger] terms[i] == costs[i]@[choice[i]],
    ensures
        assignment_cost(costs, choice, rows) == sum_of(terms),
    decreases rows,
{
    if rows > 0 {
        lemma_cost_sum(costs, choice, (rows - 1) as nat, terms.drop_last());
        assert(terms.last() == costs[rows - 1]@[choice[rows - 1]]);
    }
}

/// No other way to give every window a region that it agrees to moves the windows less: the
/// squares of the ways from the windows' middles to the regions' middles have the least sum.
pub proof fn windows_move_least(
    plan: Arrangement,
    measured: Seq<Vec<Measured>>,
    choice: Seq<int>,
    other: Seq<int>,
)
    requires
        plan.wf(),
        plan.measures(measured),
        is_best_placement(plan, measured, choice),
        is_assignment(other, plan.candidates@.len()),
        all_accepted(measured, other),
        forall|i: int, j: int|
            #![trigger plan.candidates@[i], plan.regions@[j]]
            0 <= i < plan.candidates@.len() && 0 <= j < plan.candidates@.len() ==> {
                let center = plan.candidates@[i].center;
                let region = plan.regions@[j];
                (center.x - (region.loc.x + region.size.w / 2)) * (center.x - (region.loc.x
                    + region.size.w / 2)) + (center.y - (region.loc.y + region.size.h / 2)) * (
                center.y - (region.loc.y + region.size.h / 2)) < 0x7ff_ffff_ffff_ffffint / (
                plan.candidates@.len() as int + 1)
            },
    ensures
        sum_of(
            Seq::new(
                plan.candidates@.len(),
                |i: int|
                    {
                        let center = plan.candidates@[i].center;
                        let region = plan.regions@[choice[i]];
                        (center.x - (region.loc.x + region.size.w / 2)) * (center.x - (region.loc.x
                            + region.size.w / 2)) + (center.y - (region.loc.y + region.size.h / 2))
                            * (center.y - (region.loc.y + region.size.h / 2))
                    },
            ),
        ) <= sum_of(
            Seq::new(
                plan.candidates@.len(),
                |i: int|
                    {
                        let center = plan.candidates@[i].center;
                        let region = plan.regions@[other[i]];
                        (center.x - (region.loc.x + region.size.w / 2)) * (center.x - (region.loc.x
                            + region.size.w / 2)) + (center.y - (region.loc.y + region.size.h / 2))
                            * (center.y - (region.loc.y + region.size.h / 2))
                    },
            ),
        ),
{
    let count = plan.candidates@.len();
    let costs = choose|costs: Seq<Vec<i64>>| #[trigger]
        is_cost_table(plan, measured, costs) && forall|other: Seq<int>|
            is_assignment(other, count) ==> assignment_cost(costs, choice, count)
                <= #[trigger] assignment_cost(costs, other, count);
    lemma_regions_have_center(plan);
    mosaic_divides_field(plan.outer, count as int, plan.gap as int, plan.regions@);
    lemma_field_in_range(plan.outer, count as int, plan.gap as int);
    lemma_travel_terms(plan, measured, costs, choice);
    lemma_travel_terms(plan, measured, costs, other);
    lemma_cost_sum(
        costs,
        choice,
        count,
        Seq::new(
            count,
            |i: int|
                {
                    let center = plan.candidates@[i].center;
                    let region = plan.regions@[choice[i]];
                    (center.x - (region.loc.x + region.size.w / 2)) * (center.x - (region.loc.x
                        + region.size.w / 2)) + (center.y - (region.loc.y + region.size.h / 2)) * (
                    center.y - (region.loc.y + region.size.h / 2))
                },
        ),
    );
    lemma_cost_sum(
        costs,
        other,
        count,
        Seq::new(
            count,
            |i: int|
                {
                    let center = plan.candidates@[i].center;
                    let region = plan.regions@[other[i]];
                    (center.x - (region.loc.x + region.size.w / 2)) * (center.x - (region.loc.x
                        + region.size.w / 2)) + (center.y - (region.loc.y + region.size.h / 2)) * (
                    center.y - (region.loc.y + region.size.h / 2))
                },
        ),
    );
}

proof fn lemma_travel_terms(
    plan: Arrangement,
    measured: Seq<Vec<Measured>>,
    costs: Seq<Vec<i64>>,
    choice: Seq<int>,
)
    requires
        plan.wf(),
        plan.measures(measured),
        is_cost_table(plan, measured, costs),
        is_assignment(choice, plan.candidates@.len()),
        all_accepted(measured, choice),
        forall|i: int, j: int|
            #![trigger plan.candidates@[i], plan.regions@[j]]
            0 <= i < plan.candidates@.len() && 0 <= j < plan.candidates@.len() ==> {
                let center = plan.candidates@[i].center;
                let region = plan.regions@[j];
                (center.x - (region.loc.x + region.size.w / 2)) * (center.x - (region.loc.x
                    + region.size.w / 2)) + (center.y - (region.loc.y + region.size.h / 2)) * (
                center.y - (region.loc.y + region.size.h / 2)) < 0x7ff_ffff_ffff_ffffint / (
                plan.candidates@.len() as int + 1)
            },
    ensures
        forall|i: int|
            #![trigger costs[i]@[choice[i]]]
            #![trigger plan.candidates@[i]]
            0 <= i < plan.candidates@.len() ==> {
                let center = plan.candidates@[i].center;
                let region = plan.regions@[choice[i]];
                costs[i]@[choice[i]] == (center.x - (region.loc.x + region.size.w / 2)) * (center.x
                    - (region.loc.x + region.size.w / 2)) + (center.y - (region.loc.y
                    + region.size.h / 2)) * (center.y - (region.loc.y + region.size.h / 2))
            },
{
    let count = plan.candidates@.len() as int;
    lemma_regions_have_center(plan);
    mosaic_divides_field(plan.outer, count, plan.gap as int, plan.regions@);
    assert forall|i: int|
        #![trigger plan.candidates@[i]]
        0 <= i < count implies {
        let center = plan.candidates@[i].center;
        let region = plan.regions@[choice[i]];
        costs[i]@[choice[i]] == (center.x - (region.loc.x + region.size.w / 2)) * (center.x - (
        region.loc.x + region.size.w / 2)) + (center.y - (region.loc.y + region.size.h / 2)) * (
        center.y - (region.loc.y + region.size.h / 2))
    } by {
        let j = choice[i];
        let region = plan.regions@[j];
        let cell = measured[i]@[j];
        assert(size_accepted(cell.policy, cell.target.size));
        assert(has_center(region));
        assert(region.size.w >= 1 && region.size.h >= 1);
        assert(costs[i]@.len() == count);
        assert(costs[i]@[j] == placement_cost(count, plan.candidates@[i].center, region, cell));
        placements_cost_the_squared_way(count, plan.candidates@[i].center, region, cell);
    }
    assert forall|i: int|
        #![trigger costs[i]@[choice[i]]]
        0 <= i < count implies {
        let center = plan.candidates@[i].center;
        let region = plan.regions@[choice[i]];
        costs[i]@[choice[i]] == (center.x - (region.loc.x + region.size.w / 2)) * (center.x - (
        region.loc.x + region.size.w / 2)) + (center.y - (region.loc.y + region.size.h / 2)) * (
        center.y - (region.loc.y + region.size.h / 2))
    } by {
        assert(plan.candidates@[i] == plan.candidates@[i]);
    }
}

proof fn lemma_cost_of_change(
    costs: Seq<Vec<i64>>,
    choice: Seq<int>,
    rows: nat,
    at: int,
    column: int,
)
    requires
        0 <= at < choice.len(),
        rows <= choice.len(),
    ensures
        assignment_cost(costs, choice.update(at, column), rows) == assignment_cost(
            costs,
            choice,
            rows,
        ) + (if at < rows {
            costs[at]@[column] - costs[at]@[choice[at]]
        } else {
            0
        }),
    decreases rows,
{
    if rows > 0 {
        lemma_cost_of_change(costs, choice, (rows - 1) as nat, at, column);
    }
}

/// Two windows never gain by trading the regions that they got, where each agrees to the
/// other's: they do not cross without need.
pub proof fn windows_do_not_gain_by_trading(
    plan: Arrangement,
    measured: Seq<Vec<Measured>>,
    choice: Seq<int>,
    a: int,
    b: int,
)
    requires
        plan.wf(),
        plan.measures(measured),
        is_best_placement(plan, measured, choice),
        0 <= a < plan.candidates@.len(),
        0 <= b < plan.candidates@.len(),
        a != b,
        size_accepted(
            measured[a]@[choice[b]].policy,
            measured[a]@[choice[b]].target.size,
        ),
        size_accepted(
            measured[b]@[choice[a]].policy,
            measured[b]@[choice[a]].target.size,
        ),
        forall|i: int, j: int|
            #![trigger plan.candidates@[i], plan.regions@[j]]
            0 <= i < plan.candidates@.len() && 0 <= j < plan.candidates@.len() ==> {
                let center = plan.candidates@[i].center;
                let region = plan.regions@[j];
                (center.x - (region.loc.x + region.size.w / 2)) * (center.x - (region.loc.x
                    + region.size.w / 2)) + (center.y - (region.loc.y + region.size.h / 2)) * (
                center.y - (region.loc.y + region.size.h / 2)) < 0x7ff_ffff_ffff_ffffint / (
                plan.candidates@.len() as int + 1)
            },
    ensures
        ({
            let ca = plan.candidates@[a].center;
            let cb = plan.candidates@[b].center;
            let ra = plan.regions@[choice[a]];
            let rb = plan.regions@[choice[b]];
            (ca.x - (ra.loc.x + ra.size.w / 2)) * (ca.x - (ra.loc.x + ra.size.w / 2)) + (ca.y - (
            ra.loc.y + ra.size.h / 2)) * (ca.y - (ra.loc.y + ra.size.h / 2)) + ((cb.x - (rb.loc.x
                + rb.size.w / 2)) * (cb.x - (rb.loc.x + rb.size.w / 2)) + (cb.y - (rb.loc.y
                + rb.size.h / 2)) * (cb.y - (rb.loc.y + rb.size.h / 2))) <= (ca.x - (rb.loc.x
                + rb.size.w / 2)) * (ca.x - (rb.loc.x + rb.size.w / 2)) + (ca.y - (rb.loc.y
                + rb.size.h / 2)) * (ca.y - (rb.loc.y + rb.size.h / 2)) + ((cb.x - (ra.loc.x
                + ra.size.w / 2)) * (cb.x - (ra.loc.x + ra.size.w / 2)) + (cb.y - (ra.loc.y
                + ra.size.h / 2)) * (cb.y - (ra.loc.y + ra.size.h / 2)))
        }),
{
    let count = plan.candidates@.len();
    let costs = choose|costs: Seq<Vec<i64>>| #[trigger]
        is_cost_table(plan, measured, costs) && forall|other: Seq<int>|
            is_assignment(other, count) ==> assignment_cost(costs, choice, count)
                <= #[trigger] assignment_cost(costs, other, count);
    let once = choice.update(a, choice[b]);
    let other = once.update(b, choice[a]);
    assert(is_assignment(other, count)) by {
        assert forall|i: int, j: int|
            #![trigger other[i], other[j]]
            0 <= i < count && 0 <= j < count && other[i] == other[j] implies i == j by {
            let from_i = if i == a {
                b
            } else if i == b {
                a
            } else {
                i
            };
            let from_j = if j == a {
                b
            } else if j == b {
                a
            } else {
                j
            };
            assert(other[i] == choice[from_i]);
            assert(other[j] == choice[from_j]);
        }
    }
    assert forall|i: int| 0 <= i < other.len() implies {
        let cell = measured[i]@[#[trigger] other[i]];
        size_accepted(cell.policy, cell.target.size)
    } by {
        if i != a && i != b {
            assert(other[i] == choice[i]);
        }
    }
    lemma_travel_terms(plan, measured, costs, choice);
    lemma_travel_terms(plan, measured, costs, other);
    lemma_cost_of_change(costs, choice, count, a, choice[b]);
    lemma_cost_of_change(costs, once, count, b, choice[a]);
    assert(other[a] == choice[b] && other[b] == choice[a] && once[b] == choice[b]);
    assert(assignment_cost(costs, choice, count) <= assignment_cost(costs, other, count));
    assert(costs[a]@[choice[a]] + costs[b]@[choice[b]] <= costs[a]@[other[a]] + costs[b]@[other[b]]);
    let (pa, pb) = (plan.candidates@[a], plan.candidates@[b]);
}

/// Every window of an arrangement is one of the output that can be seen in its field, is free
/// to move, and has its middle in the part of the field that is divided.
pub proof fn arranged_windows_are_free_and_in_view(
    nodes: Seq<NodeFacts>,
    output: Seq<char>,
    outer: Rectangle,
    candidate: Candidate,
)
    requires
        forall|i: int| 0 <= i < nodes.len() ==> center_in_range(#[trigger] nodes[i], output),
        outer.size.w >= 0 && outer.size.h >= 0,
        candidates_of(nodes, output, outer, nodes.len()).contains(candidate),
    ensures
        outer.loc.x <= candidate.center.x < outer.loc.x + outer.size.w,
        outer.loc.y <= candidate.center.y < outer.loc.y + outer.size.h,
        exists|i: int|
            {
                let node = #[trigger] nodes[i];
                &&& 0 <= i < nodes.len()
                &&& node.surface == candidate.surface
                &&& node.output@ == output
                &&& node.attached && node.visible
                &&& !node.collapsed && !node.cluster_member && !node.user_pinned
                &&& !node.fullscreen && !node.maximized && !node.grabbed
                &&& node.placement is Some
                &&& candidate.current == (node.placement->0).0
                &&& candidate.center.x == (node.placement->0).1.loc.x + half_of(
                    (node.placement->0).1.size.w as int,
                )
                &&& candidate.center.y == (node.placement->0).1.loc.y + half_of(
                    (node.placement->0).1.size.h as int,
                )
            },
{
    let all = candidates_of(nodes, output, outer, nodes.len());
    lemma_candidates_come_from_nodes(nodes, output, outer, nodes.len());
    let c = all.index_of(candidate);
    assert(all[c] == candidate);
    let i = choose|i: int|
        0 <= i < nodes.len() && candidate_of(#[trigger] nodes[i], output, outer) == Some(all[c]);
    assert(center_in_range(nodes[i], output));
    let node = nodes[i];
}

/// Every window of the output that can be seen in its field, is free to move, and has its
/// middle in the part of the field that is divided, is arranged.
pub proof fn free_windows_in_view_are_arranged(
    nodes: Seq<NodeFacts>,
    output: Seq<char>,
    outer: Rectangle,
    i: int,
)
    requires
        forall|i: int| 0 <= i < nodes.len() ==> center_in_range(#[trigger] nodes[i], output),
        outer.loc.x + outer.size.w <= i32::MAX,
        outer.loc.y + outer.size.h <= i32::MAX,
        outer.size.w >= 0 && outer.size.h >= 0,
        0 <= i < nodes.len(),
        nodes[i].output@ == output,
        nodes[i].attached && nodes[i].visible,
        !nodes[i].collapsed && !nodes[i].cluster_member && !nodes[i].user_pinned,
        !nodes[i].fullscreen && !nodes[i].maximized && !nodes[i].grabbed,
        nodes[i].placement is Some,
        outer.loc.x <= (nodes[i].placement->0).1.loc.x + half_of(
            (nodes[i].placement->0).1.size.w as int,
        ) < outer.loc.x + outer.size.w,
        outer.loc.y <= (nodes[i].placement->0).1.loc.y + half_of(
            (nodes[i].placement->0).1.size.h as int,
        ) < outer.loc.y + outer.size.h,
    ensures
        exists|candidate: Candidate| #[trigger]
            candidates_of(nodes, output, outer, nodes.len()).contains(candidate)
                && candidate.surface == nodes[i].surface && candidate.current == (
            nodes[i].placement->0).0,
{
    lemma_candidates_come_from_nodes(nodes, output, outer, nodes.len());
    assert(center_in_range(nodes[i], output));
    assert(candidate_of(nodes[i], output, outer) is Some);
    assert(candidates_of(nodes, output, outer, nodes.len()).contains(
        candidate_of(nodes[i], output, outer)->0,
    ));
}

proof fn lemma_candidates_come_from_nodes(
    nodes: Seq<NodeFacts>,
    output: Seq<char>,
    outer: Rectangle,
    count: nat,
)
    requires
        count <= nodes.len(),
    ensures
        forall|c: int|
            #![trigger candidates_of(nodes, output, outer, count)[c]]
            0 <= c < candidates_of(nodes, output, outer, count).len() ==> exists|i: int|
                0 <= i < count && candidate_of(#[trigger] nodes[i], output, outer) == Some(
                    candidates_of(nodes, output, outer, count)[c],
                ),
        forall|i: int|
            0 <= i < count && candidate_of(#[trigger] nodes[i], output, outer) is Some
                ==> candidates_of(nodes, output, outer, count).contains(
                candidate_of(nodes[i], output, outer)->0,
            ),
    decreases count,
{
    if count > 0 {
        lemma_candidates_come_from_nodes(nodes, output, outer, (count - 1) as nat);
        let before = candidates_of(nodes, output, outer, (count - 1) as nat);
        let all = candidates_of(nodes, output, outer, count);
        assert forall|c: int| #![trigger all[c]] 0 <= c < all.len() implies exists|i: int|
            0 <= i < count && candidate_of(#[trigger] nodes[i], output, outer) == Some(all[c]) by {
            if c < before.len() {
                assert(all[c] == before[c]);
                let i = choose|i: int|
                    0 <= i < count - 1 && candidate_of(#[trigger] nodes[i], output, outer) == Some(
                        before[c],
                    );
                assert(candidate_of(nodes[i], output, outer) == Some(all[c]));
            } else {
                assert(candidate_of(nodes[count - 1], output, outer) == Some(all[c]));
            }
        }
        assert forall|i: int|
            0 <= i < count && candidate_of(#[trigger] nodes[i], output, outer) is Some implies all.contains(
            candidate_of(nodes[i], output, outer)->0,
        ) by {
            let candidate = candidate_of(nodes[i], output, outer)->0;
            if i < count - 1 {
                assert(before.contains(candidate));
                assert(all[before.index_of(candidate)] == candidate);
            } else {
                assert(all[all.len() - 1] == candidate);
            }
        }
    }
}

/// The window that is left out agrees to no more regions than any other: one that agrees to
/// all stays as long as another refuses one.
pub proof fn windows_that_agree_to_all_stay(
    plan: Arrangement,
    measured: Seq<Vec<Measured>>,
    k: int,
    other: int,
    refused: int,
)
    requires
        plan.measures(measured),
        leaves_first(plan, measured, k),
        0 <= other < plan.candidates@.len(),
        0 <= refused < plan.candidates@.len(),
        !size_accepted(
            measured[other]@[refused].policy,
            measured[other]@[refused].target.size,
        ),
    ensures
        exists|j: int|
            0 <= j < plan.candidates@.len() && !size_accepted(
                (#[trigger] measured[k]@[j]).policy,
                measured[k]@[j].target.size,
            ),
{
    let count = plan.candidates@.len();
    assert(!leaves_before(plan, measured, other, k));
    lemma_accepted_regions(measured[other]@, count, refused);
    if forall|j: int|
        0 <= j < count ==> size_accepted(
            (#[trigger] measured[k]@[j]).policy,
            measured[k]@[j].target.size,
        ) {
        lemma_all_regions(measured[k]@, count);
    }
}

/// Of windows that agree to the same regions the one that covers most is left out, and of
/// equal ones the first.
pub proof fn of_equal_windows_the_largest_leaves(
    plan: Arrangement,
    measured: Seq<Vec<Measured>>,
    k: int,
    other: int,
)
    requires
        plan.measures(measured),
        leaves_first(plan, measured, k),
        0 <= other < plan.candidates@.len(),
        forall|j: int|
            0 <= j < plan.candidates@.len() ==> (size_accepted(
                (#[trigger] measured[k]@[j]).policy,
                measured[k]@[j].target.size,
            ) <==> size_accepted(measured[other]@[j].policy, measured[other]@[j].target.size)),
    ensures
        plan.candidates@[other].current.size.w * plan.candidates@[other].current.size.h
            <= plan.candidates@[k].current.size.w * plan.candidates@[k].current.size.h,
        other < k ==> plan.candidates@[other].current.size.w
            * plan.candidates@[other].current.size.h < plan.candidates@[k].current.size.w
            * plan.candidates@[k].current.size.h,
{
    lemma_same_regions(measured[k]@, measured[other]@, plan.candidates@.len());
    assert(!leaves_before(plan, measured, other, k));
    if other < k {
        assert(leaves_before(plan, measured, k, other));
    }
}

proof fn lemma_accepted_regions(measured: Seq<Measured>, count: nat, refused: int)
    ensures
        accepted_regions(measured, count) <= count,
        0 <= refused < count && !size_accepted(
            measured[refused].policy,
            measured[refused].target.size,
        ) ==> accepted_regions(measured, count) < count,
    decreases count,
{
    if count > 0 {
        lemma_accepted_regions(measured, (count - 1) as nat, refused);
    }
}

proof fn lemma_all_regions(measured: Seq<Measured>, count: nat)
    requires
        forall|j: int|
            0 <= j < count ==> size_accepted(
                (#[trigger] measured[j]).policy,
                measured[j].target.size,
            ),
    ensures
        accepted_regions(measured, count) == count,
    decreases count,
{
    if count > 0 {
        lemma_all_regions(measured, (count - 1) as nat);
        assert(size_accepted(measured[count - 1].policy, measured[count - 1].target.size));
    }
}

proof fn lemma_same_regions(a: Seq<Measured>, b: Seq<Measured>, count: nat)
    requires
        forall|j: int|
            0 <= j < count ==> (size_accepted((#[trigger] a[j]).policy, a[j].target.size)
                <==> size_accepted(b[j].policy, b[j].target.size)),
    ensures
        accepted_regions(a, count) == accepted_regions(b, count),
    decreases count,
{
    if count > 0 {
        lemma_same_regions(a, b, (count - 1) as nat);
        let last = a[count - 1];
    }
}

/// An undo puts back exactly the windows that still have their node, are attached, and are
/// neither collapsed, nor in a cluster, nor full, nor maximized.
pub proof fn undo_spares_windows_that_are_not_free(
    restores: Seq<FieldRestore>,
    facts: Seq<Option<RestoreFacts>>,
    i: int,
)
    requires
        facts.len() == restores.len(),
        0 <= i < facts.len(),
    ensures
        facts[i] is Some && facts[i]->0.attached && !facts[i]->0.collapsed
            && !facts[i]->0.cluster_member && !facts[i]->0.fullscreen && !facts[i]->0.maximized
            ==> restorable(restores, facts, facts.len()).contains(restores[i]),
        restorable(restores, facts, facts.len()).contains(restores[i]) ==> exists|j: int|
            #![trigger facts[j]]
            0 <= j < facts.len() && restores[j] == restores[i] && facts[j] is Some
                && facts[j]->0.attached && !facts[j]->0.collapsed && !facts[j]->0.cluster_member
                && !facts[j]->0.fullscreen && !facts[j]->0.maximized,
{
    lemma_restorable(restores, facts, facts.len());
    let all = restorable(restores, facts, facts.len());
    if all.contains(restores[i]) {
        let k = all.index_of(restores[i]);
        assert(is_free_restore(restores, facts, facts.len() as int, all[k]));
    }
}

/// The part of an output that an arrangement fills keeps the gap from all four sides of the
/// work area, as far as the coordinates are in their range.
pub proof fn the_screen_area_keeps_the_gap(output: Rectangle, work: Rectangle, gap: int)
    requires
        gap >= 0,
        i32::MIN <= output.loc.x + work.loc.x,
        i32::MIN <= output.loc.y + work.loc.y,
        output.loc.x + work.loc.x + gap <= i32::MAX,
        output.loc.y + work.loc.y + gap <= i32::MAX,
    ensures
        screen_area(output, work, gap) is Some <==> 2 * gap <= i32::MAX && work.size.w >= 2 * gap + 2
            && work.size.h >= 2 * gap + 2,
        screen_area(output, work, gap) matches Some(area) ==> {
            &&& area.loc.x == output.loc.x + work.loc.x + gap
            &&& area.loc.y == output.loc.y + work.loc.y + gap
            &&& area.loc.x + area.size.w + gap == output.loc.x + work.loc.x + work.size.w
            &&& area.loc.y + area.size.h + gap == output.loc.y + work.loc.y + work.size.h
        },
        forall|below: int| below <= 0 ==> #[trigger] screen_area(output, work, below) == screen_area(
            output,
            work,
            0,
        ),
{
}

/// The part of the field that is divided has its two corners where they are asked for.
pub proof fn the_field_spans_its_corners(top_left: Point, bottom_right: Point)
    ensures
        world_area(top_left, bottom_right) matches Some(area) ==> {
            &&& area.loc == top_left
            &&& area.loc.x + area.size.w == bottom_right.x
            &&& area.loc.y + area.size.h == bottom_right.y
            &&& area.size.w >= 2
            &&& area.size.h >= 2
        },
        top_left.x + 2 <= bottom_right.x <= top_left.x + i32::MAX && top_left.y + 2
            <= bottom_right.y <= top_left.y + i32::MAX ==> world_area(top_left, bottom_right) is Some,
{
}

/// No two windows are placed in the same region, and each one agrees to what it is asked for.
pub proof fn every_window_gets_a_region_of_its_own(
    plan: Arrangement,
    measured: Seq<Vec<Measured>>,
    choice: Seq<int>,
    requests: Seq<FieldRestore>,
    a: int,
    b: int,
)
    requires
        plan.wf(),
        plan.measures(measured),
        is_best_placement(plan, measured, choice),
        are_requests(plan, measured, choice, requests),
        0 <= a < plan.candidates@.len(),
        0 <= b < plan.candidates@.len(),
    ensures
        0 <= choice[a] < plan.regions@.len(),
        a != b ==> choice[a] != choice[b],
        requests[a].surface == plan.candidates@[a].surface,
        requests[a].geometry == measured[a]@[choice[a]].target,
        requests[a].geometry.size.w >= 1,
        requests[a].geometry.size.h >= 1,
        requests[a].output@ == plan.output@,
{
    let cell = measured[a]@[choice[a]];
    assert(size_accepted(cell.policy, cell.target.size));
    let (first, second) = (choice[a], choice[b]);
    let request = requests[a];
}

/// A squared distance is that of the coordinates, whichever way it is measured; only one that
/// would reach the infeasible cost is held just below it.
pub proof fn distances_are_squared(a: Point, b: Point)
    ensures
        ({
            let squared = (a.x - b.x) * (a.x - b.x) + (a.y - b.y) * (a.y - b.y);
            &&& squared < 0x7ff_ffff_ffff_fffe ==> distance_cost(a, b) == squared
            &&& squared >= 0x7ff_ffff_ffff_fffe ==> distance_cost(a, b) == 0x7ff_ffff_ffff_fffe
            &&& distance_cost(a, b) == distance_cost(b, a)
        }),
{
    let dx = a.x - b.x;
    let dy = a.y - b.y;
    assert(dx * dx >= 0) by (nonlinear_arith);
    assert(dy * dy >= 0) by (nonlinear_arith);
    assert((b.x - a.x) * (b.x - a.x) == dx * dx) by (nonlinear_arith)
        requires
            dx == a.x - b.x,
    ;
    assert((b.y - a.y) * (b.y - a.y) == dy * dy) by (nonlinear_arith)
        requires
            dy == a.y - b.y,
    ;
}

/// One window is not arranged, and two are where the field has room for both side by side.
pub proof fn two_windows_are_arranged(outer: Rectangle, gap: int, count: int)
    ensures
        count < 2 ==> !arrangement_fits(outer, gap, count),
        arrangement_fits(outer, gap, 2) <==> mosaic_fits(outer, 2, gap),
        count >= 2 ==> (arrangement_fits(outer, gap, count) <==> mosaic_fits(outer, count, gap)),
{
}

} // verus!
