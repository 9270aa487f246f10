//! Moving the focus through the field.

use vstd::prelude::*;

use crate::geometry::Rectangle;
use crate::ids::{NodeId, SurfaceId};
use crate::session::input::actions::Heading;
use crate::steps;
use crate::text::same_text;

verus! {

/// A side of the field.
#[derive(Clone, Copy, Debug, PartialEq, Eq, Structural)]
pub enum PortalDir {
    N,
    E,
    S,
    W,
}

pub fn portal_direction(direction: Heading) -> (side: PortalDir)
    ensures
        side == (match direction {
            Heading::Left => PortalDir::W,
            Heading::Right => PortalDir::E,
            Heading::Up => PortalDir::N,
            Heading::Down => PortalDir::S,
        }),
{
    match direction {
        Heading::Left => PortalDir::W,
        Heading::Right => PortalDir::E,
        Heading::Up => PortalDir::N,
        Heading::Down => PortalDir::S,
    }
}

/// Twice the centre of an output in the layout, so that the halves of odd sizes count.
pub fn output_geometry_center(geometry: Rectangle) -> (twice: (i64, i64))
    ensures
        twice.0 == 2 * geometry.loc.x + geometry.size.w,
        twice.1 == 2 * geometry.loc.y + geometry.size.h,
{
    (
        2 * (geometry.loc.x as i64) + geometry.size.w as i64,
        2 * (geometry.loc.y as i64) + geometry.size.h as i64,
    )
}

/// What moves the pointer without its device.
#[derive(Clone, Copy, Debug, PartialEq, Eq, Structural)]
pub enum WarpStep {
    /// A constraint that would hold the pointer is released.
    ReleaseConstraint,
    /// The pointer goes to the half of `twice_x` and `twice_y`.
    SetPosition { twice_x: i64, twice_y: i64 },
    /// The cursor may come back.
    PointerActivity,
    /// Clients are told where the pointer is.
    UpdateClients,
    /// The output is drawn again.
    RedrawOutput,
}

/// The pointer goes to the middle of a rectangle, if there is one.
pub open spec fn warp_steps(area: Option<Rectangle>) -> Seq<WarpStep> {
    match area {
        Some(area) => seq![
            WarpStep::ReleaseConstraint,
            WarpStep::SetPosition {
                twice_x: (2 * area.loc.x + area.size.w) as i64,
                twice_y: (2 * area.loc.y + area.size.h) as i64,
            },
            WarpStep::PointerActivity,
            WarpStep::UpdateClients,
            WarpStep::RedrawOutput,
        ],
        None => Seq::empty(),
    }
}

/// Moves the pointer to the middle of an output, so that a jump to another output does
/// not leave it behind. An output that is not in the layout has no geometry.
pub fn center_pointer_on_output(geometry: Option<Rectangle>) -> (list: Vec<WarpStep>)
    ensures
        list@ == warp_steps(geometry),
{
    let mut list: Vec<WarpStep> = Vec::new();
    if let Some(geometry) = geometry {
        list.push(WarpStep::ReleaseConstraint);
        let (twice_x, twice_y) = output_geometry_center(geometry);
        list.push(WarpStep::SetPosition { twice_x, twice_y });
        list.push(WarpStep::PointerActivity);
        list.push(WarpStep::UpdateClients);
        list.push(WarpStep::RedrawOutput);
    }
    list
}

/// Moves the pointer to the middle of a window, where it is shown. A window that no
/// output shows has no geometry.
pub fn warp_pointer_to_window_center(visual_geometry: Option<Rectangle>) -> (list: Vec<WarpStep>)
    ensures
        list@ == warp_steps(visual_geometry),
{
    center_pointer_on_output(visual_geometry)
}

/// Whether a node of the field can be reached on an output: it is visible, it is not a
/// member of a cluster, and it is the output's own, as a window's node or as the core
/// of a cluster.
pub open spec fn is_eligible(
    output_name: Seq<char>,
    field_visible: bool,
    cluster_member: bool,
    record: Option<(&str, bool)>,
    core_output: Option<&str>,
) -> bool {
    &&& field_visible
    &&& !cluster_member
    &&& {
        ||| record is Some && (record->0).1 && (record->0).0@ == output_name
        ||| core_output is Some && core_output->0@ == output_name
    }
}

pub fn directional_field_node_is_eligible(
    output_name: &str,
    field_visible: bool,
    cluster_member: bool,
    record: Option<(&str, bool)>,
    core_output: Option<&str>,
) -> (r: bool)
    ensures
        r == is_eligible(output_name@, field_visible, cluster_member, record, core_output),
{
    let window = match record {
        Some((output, attached)) => attached && same_text(output, output_name),
        None => false,
    };
    let core = match core_output {
        Some(output) => same_text(output, output_name),
        None => false,
    };
    field_visible && !cluster_member && (window || core)
}

/// The node from which the search starts: the focused one, else the one that had the
/// focus on the output, as far as they can be reached there.
pub fn directional_start(
    focused: Option<NodeId>,
    focused_eligible: bool,
    on_output: Option<NodeId>,
    on_output_eligible: bool,
) -> (start: Option<NodeId>)
    ensures
        start == (if focused is Some && focused_eligible {
            focused
        } else if on_output_eligible {
            on_output
        } else {
            None
        }),
{
    if focused.is_some() && focused_eligible {
        focused
    } else if on_output_eligible {
        on_output
    } else {
        None
    }
}

/// How far a node lies off the direction, in four parts of falling weight. The parts
/// are ordered as integers.
#[derive(Clone, Copy, Debug, PartialEq, Eq, Structural)]
pub struct DirectionalScore {
    pub first: i32,
    pub second: i32,
    pub third: i32,
    pub fourth: i32,
}

/// A node in the direction of the search.
#[derive(Clone, Copy, Debug, PartialEq, Eq, Structural)]
pub struct DirectionalCandidate {
    pub score: DirectionalScore,
    pub id: NodeId,
}

/// `a` goes before `b`: by the parts of the score in turn, and at last by the identity.
pub open spec fn goes_before(a: DirectionalCandidate, b: DirectionalCandidate) -> bool {
    if a.score.first != b.score.first {
        a.score.first < b.score.first
    } else if a.score.second != b.score.second {
        a.score.second < b.score.second
    } else if a.score.third != b.score.third {
        a.score.third < b.score.third
    } else if a.score.fourth != b.score.fourth {
        a.score.fourth < b.score.fourth
    } else {
        a.id.raw < b.id.raw
    }
}

fn precedes(a: &DirectionalCandidate, b: &DirectionalCandidate) -> (r: bool)
    ensures
        r == goes_before(*a, *b),
{
    if a.score.first != b.score.first {
        a.score.first < b.score.first
    } else if a.score.second != b.score.second {
        a.score.second < b.score.second
    } else if a.score.third != b.score.third {
        a.score.third < b.score.third
    } else if a.score.fourth != b.score.fourth {
        a.score.fourth < b.score.fourth
    } else {
        a.id.raw < b.id.raw
    }
}

/// `id` is a candidate that none goes before.
pub open spec fn is_best(candidates: Seq<DirectionalCandidate>, id: NodeId) -> bool {
    exists|i: int|
        #![trigger candidates[i]]
        0 <= i < candidates.len() && candidates[i].id == id && forall|j: int|
            0 <= j < candidates.len() ==> !goes_before(#[trigger] candidates[j], candidates[i])
}

/// The candidate that lies best in the direction.
fn best_candidate(candidates: &Vec<DirectionalCandidate>) -> (target: Option<NodeId>)
    ensures
        match target {
            Some(id) => is_best(candidates@, id),
            None => candidates@.len() == 0,
        },
{
    if candidates.len() == 0 {
        return None;
    }
    let mut best: usize = 0;
    let mut index: usize = 1;
    while index < candidates.len()
        invariant
            best < index <= candidates@.len(),
            forall|j: int|
                0 <= j < index ==> !goes_before(#[trigger] candidates@[j], candidates@[best as int]),
        decreases candidates@.len() - index,
    {
        if precedes(&candidates[index], &candidates[best]) {
            best = index;
        }
        index += 1;
    }
    Some(candidates[best].id)
}

/// What is known of a node of the field in a search.
#[derive(Debug)]
pub struct FieldNode {
    pub id: NodeId,
    pub visible: bool,
    pub cluster_member: bool,
    /// The output of its window, and whether the window is there.
    pub record: Option<(String, bool)>,
    /// The output of the cluster whose core it is.
    pub core_output: Option<String>,
    /// How far it lies off the direction, from the start of the search. A node that has no
    /// place, or does not lie in the direction, has no score.
    pub score: Option<DirectionalScore>,
}

/// The node can be reached on the output.
pub open spec fn reachable(node: FieldNode, output: Seq<char>) -> bool {
    &&& node.visible
    &&& !node.cluster_member
    &&& {
        ||| node.record is Some && (node.record->0).1 && (node.record->0).0@ == output
        ||| node.core_output is Some && node.core_output->0@ == output
    }
}

/// The node is one to choose from: another than the start, that can be reached on the
/// output and lies in the direction.
pub open spec fn is_choice(node: FieldNode, output: Seq<char>, start: NodeId) -> bool {
    node.id != start && reachable(node, output) && node.score is Some
}

/// The nodes to choose from, with their scores.
pub open spec fn choices_of(nodes: Seq<FieldNode>, output: Seq<char>, start: NodeId) -> Seq<
    DirectionalCandidate,
>
    decreases nodes.len(),
{
    if nodes.len() == 0 {
        Seq::empty()
    } else {
        let before = choices_of(nodes.drop_last(), output, start);
        let last = nodes.last();
        if is_choice(last, output, start) {
            before.push(DirectionalCandidate { score: last.score->0, id: last.id })
        } else {
            before
        }
    }
}

/// The node of the field that gets the focus in a direction. `start` is where the search
/// starts, with whether that node has a place. While something else owns the camera of the
/// output nothing does.
pub fn focus_directional_field(
    camera_free: bool,
    output: &str,
    start: Option<(NodeId, bool)>,
    nodes: &Vec<FieldNode>,
) -> (target: Option<NodeId>)
    ensures
        match target {
            Some(id) => camera_free && start is Some && (start->0).1 && is_best(
                choices_of(nodes@, output@, (start->0).0),
                id,
            ),
            None => !camera_free || start is None || !(start->0).1 || choices_of(
                nodes@,
                output@,
                (start->0).0,
            ).len() == 0,
        },
{
    if !camera_free {
        return None;
    }
    let from = match start {
        Some((id, true)) => id,
        _ => {
            return None;
        },
    };
    let mut candidates: Vec<DirectionalCandidate> = Vec::new();
    let mut index: usize = 0;
    while index < nodes.len()
        invariant
            index <= nodes@.len(),
            candidates@ == choices_of(nodes@.take(index as int), output@, from),
        decreases nodes@.len() - index,
    {
        let node = &nodes[index];
        proof {
            let longer = nodes@.take(index as int + 1);
            assert(longer.drop_last() =~= nodes@.take(index as int));
            assert(longer.last() == nodes@[index as int]);
        }
        let record = match &node.record {
            Some((name, attached)) => Some((name.as_str(), *attached)),
            None => None,
        };
        let core_output = match &node.core_output {
            Some(name) => Some(name.as_str()),
            None => None,
        };
        let eligible = directional_field_node_is_eligible(
            output,
            node.visible,
            node.cluster_member,
            record,
            core_output,
        );
        if let Some(score) = node.score {
            if node.id != from && eligible {
                candidates.push(DirectionalCandidate { score, id: node.id });
            }
        }
        index += 1;
    }
    assert(nodes@.take(index as int) =~= nodes@);
    best_candidate(&candidates)
}

/// Of two different nodes exactly one goes before the other, so that the choice does
/// not depend on the order in which the nodes come.
pub proof fn the_best_is_unique(candidates: Seq<DirectionalCandidate>, a: NodeId, b: NodeId)
    requires
        is_best(candidates, a),
        is_best(candidates, b),
    ensures
        a == b,
{
    let i = choose|i: int|
        #![trigger candidates[i]]
        0 <= i < candidates.len() && candidates[i].id == a && forall|j: int|
            0 <= j < candidates.len() ==> !goes_before(#[trigger] candidates[j], candidates[i]);
    let k = choose|k: int|
        #![trigger candidates[k]]
        0 <= k < candidates.len() && candidates[k].id == b && forall|j: int|
            0 <= j < candidates.len() ==> !goes_before(#[trigger] candidates[j], candidates[k]);
    assert(!goes_before(candidates[i], candidates[k]));
    assert(!goes_before(candidates[k], candidates[i]));
}

/// How a node that was found gets the focus.
#[derive(Clone, Copy, Debug, PartialEq, Eq, Structural)]
pub enum TargetReveal {
    ClusterCore,
    Window,
    CollapsedNode,
}

pub fn focus_directional_field_target(is_core: bool, collapsed: bool) -> (reveal: TargetReveal)
    ensures
        reveal == (if is_core {
            TargetReveal::ClusterCore
        } else if collapsed {
            TargetReveal::CollapsedNode
        } else {
            TargetReveal::Window
        }),
{
    if is_core {
        TargetReveal::ClusterCore
    } else if collapsed {
        TargetReveal::CollapsedNode
    } else {
        TargetReveal::Window
    }
}

/// What is known of the node that last had the focus on an output.
#[derive(Clone, Copy, Debug, PartialEq, Eq, Structural)]
pub struct LastFocused {
    pub cluster_member: bool,
    /// It has a record and a place in the field.
    pub recorded: bool,
    pub attached: bool,
    /// It is still the output's own.
    pub on_output: bool,
    pub collapsed: bool,
    /// The output is there, and its camera is its own.
    pub camera_free: bool,
}

/// What centring the camera on it does.
#[derive(Clone, Copy, Debug, PartialEq, Eq, Structural)]
pub enum CenterStep {
    /// The camera's own motion ends.
    StopPan,
    /// The camera goes to the middle of the node.
    PanToNode,
    /// No window has the focus any more.
    ClearWindowFocus,
    FocusNode,
    SyncKeyboard,
    FocusWindow,
    Redraw,
}

/// The camera can be centred on the node.
pub open spec fn can_center(last: LastFocused) -> bool {
    !last.cluster_member && last.recorded && last.attached && last.on_output && last.camera_free
}

pub open spec fn center_steps(last: Option<LastFocused>) -> Seq<CenterStep> {
    steps::when(
        last is Some && can_center(last->0),
        seq![CenterStep::StopPan, CenterStep::PanToNode] + (if last->0.collapsed {
            seq![CenterStep::ClearWindowFocus, CenterStep::FocusNode, CenterStep::SyncKeyboard]
        } else {
            seq![CenterStep::FocusWindow]
        }) + seq![CenterStep::Redraw],
    )
}

/// Pans an output's camera to the node that last had the focus there, and focuses it. A
/// collapsed node stays collapsed. Clusters, full and maximized windows own the camera:
/// then nothing is done.
pub fn center_last_focused(last: Option<LastFocused>) -> (list: Vec<CenterStep>)
    ensures
        list@ == center_steps(last),
{
    let mut list: Vec<CenterStep> = Vec::new();
    if let Some(last) = last {
        if last.cluster_member || !last.recorded || !last.attached || !last.on_output
            || !last.camera_free {
            return list;
        }
        list.push(CenterStep::StopPan);
        list.push(CenterStep::PanToNode);
        if last.collapsed {
            list.push(CenterStep::ClearWindowFocus);
            list.push(CenterStep::FocusNode);
            list.push(CenterStep::SyncKeyboard);
        } else {
            list.push(CenterStep::FocusWindow);
        }
        list.push(CenterStep::Redraw);
    }
    list
}

/// What a step to another tile of a cluster asks the cluster for.
#[derive(Clone, Copy, Debug, PartialEq, Eq, Structural)]
pub enum TileStep {
    Nothing,
    /// The focused tile and its neighbour change places.
    Swap,
    Target,
}

/// A step to another tile of the cluster on an output.
pub fn navigate_cluster_tile(output_known: bool, swap: bool) -> (step: TileStep)
    ensures
        step == (if !output_known {
            TileStep::Nothing
        } else if swap {
            TileStep::Swap
        } else {
            TileStep::Target
        }),
{
    if !output_known {
        TileStep::Nothing
    } else if swap {
        TileStep::Swap
    } else {
        TileStep::Target
    }
}

/// What is done about the cluster's answer to such a step.
#[derive(Clone, Copy, Debug, PartialEq, Eq, Structural)]
pub enum TileFocusStep {
    FocusWindow(SurfaceId),
    Redraw,
}

/// Focuses the window of the tile that a step leads to, if it leads to one.
pub fn focus_cluster_tile(target: Option<SurfaceId>) -> (list: Vec<TileFocusStep>)
    ensures
        list@ == steps::when(
            target is Some,
            seq![TileFocusStep::FocusWindow(target->0), TileFocusStep::Redraw],
        ),
{
    let mut list: Vec<TileFocusStep> = Vec::new();
    if let Some(surface) = target {
        list.push(TileFocusStep::FocusWindow(surface));
        list.push(TileFocusStep::Redraw);
    }
    list
}

/// The node that gets the focus is one that can be seen on the output, other than the start,
/// and lies in the direction. Of all such nodes it has the least first part of the score, of
/// those with that first part the least second, then the least third, the least fourth, and
/// at last the least identity.
pub proof fn the_nearest_node_gets_the_focus(
    nodes: Seq<FieldNode>,
    output: Seq<char>,
    start: NodeId,
    target: NodeId,
)
    requires
        is_best(choices_of(nodes, output, start), target),
    ensures
        exists|i: int|
            {
                let node = #[trigger] nodes[i];
                &&& 0 <= i < nodes.len()
                &&& node.id == target
                &&& node.id != start
                &&& node.visible
                &&& !node.cluster_member
                &&& (node.record is Some && (node.record->0).1 && (node.record->0).0@ == output) || (
                node.core_output is Some && node.core_output->0@ == output)
                &&& node.score is Some
                &&& forall|j: int|
                    {
                        let other = #[trigger] nodes[j];
                        0 <= j < nodes.len() && other.id != start && other.visible
                            && !other.cluster_member && ((other.record is Some && (other.record->0).1
                            && (other.record->0).0@ == output) || (other.core_output is Some
                            && other.core_output->0@ == output)) && other.score is Some ==> {
                            let best = node.score->0;
                            let rival = other.score->0;
                            &&& best.first <= rival.first
                            &&& best.first == rival.first ==> best.second <= rival.second
                            &&& best.first == rival.first && best.second == rival.second
                                ==> best.third <= rival.third
                            &&& best.first == rival.first && best.second == rival.second
                                && best.third == rival.third ==> best.fourth <= rival.fourth
                            &&& best == rival ==> target.raw <= other.id.raw
                        }
                    }
            },
{
    let choices = choices_of(nodes, output, start);
    let c = choose|c: int|
        #![trigger choices[c]]
        0 <= c < choices.len() && choices[c].id == target && forall|j: int|
            0 <= j < choices.len() ==> !goes_before(#[trigger] choices[j], choices[c]);
    lemma_choices(nodes, output, start);
    assert(is_choice_at(nodes, output, start, choices[c]));
    let i = choose|i: int|
        0 <= i < nodes.len() && is_choice(#[trigger] nodes[i], output, start) && choices[c] == (
        DirectionalCandidate { score: nodes[i].score->0, id: nodes[i].id });
    let node = nodes[i];
    assert forall|j: int|
        {
            let other = #[trigger] nodes[j];
            0 <= j < nodes.len() && other.id != start && other.visible && !other.cluster_member && ((
            other.record is Some && (other.record->0).1 && (other.record->0).0@ == output) || (
            other.core_output is Some && other.core_output->0@ == output)) && other.score is Some
        } implies {
        let best = node.score->0;
        let rival = nodes[j].score->0;
        &&& best.first <= rival.first
        &&& best.first == rival.first ==> best.second <= rival.second
        &&& best.first == rival.first && best.second == rival.second ==> best.third <= rival.third
        &&& best.first == rival.first && best.second == rival.second && best.third == rival.third
            ==> best.fourth <= rival.fourth
        &&& best == rival ==> target.raw <= nodes[j].id.raw
    } by {
        assert(is_choice(nodes[j], output, start));
        let rival = DirectionalCandidate { score: nodes[j].score->0, id: nodes[j].id };
        assert(choices.contains(rival));
        let k = choices.index_of(rival);
        assert(!goes_before(choices[k], choices[c]));
    }
}

/// No node gets the focus only where none other than the start can be seen on the output
/// and lies in the direction.
pub proof fn some_node_gets_the_focus(
    nodes: Seq<FieldNode>,
    output: Seq<char>,
    start: NodeId,
    i: int,
)
    requires
        choices_of(nodes, output, start).len() == 0,
        0 <= i < nodes.len(),
    ensures
        nodes[i].id == start || !nodes[i].visible || nodes[i].cluster_member || nodes[i].score is None
            || !((nodes[i].record is Some && (nodes[i].record->0).1 && (nodes[i].record->0).0@
            == output) || (nodes[i].core_output is Some && nodes[i].core_output->0@ == output)),
{
    lemma_choices(nodes, output, start);
    if is_choice(nodes[i], output, start) {
        assert(choices_of(nodes, output, start).contains(
            DirectionalCandidate { score: nodes[i].score->0, id: nodes[i].id },
        ));
    }
}

/// The candidate stands for one of the nodes to choose from.
spec fn is_choice_at(
    nodes: Seq<FieldNode>,
    output: Seq<char>,
    start: NodeId,
    candidate: DirectionalCandidate,
) -> bool {
    exists|i: int|
        0 <= i < nodes.len() && is_choice(#[trigger] nodes[i], output, start) && candidate == (
        DirectionalCandidate { score: nodes[i].score->0, id: nodes[i].id })
}

proof fn lemma_choices(nodes: Seq<FieldNode>, output: Seq<char>, start: NodeId)
    ensures
        forall|c: int|
            0 <= c < choices_of(nodes, output, start).len() ==> is_choice_at(
                nodes,
                output,
                start,
                #[trigger] choices_of(nodes, output, start)[c],
            ),
        forall|i: int|
            0 <= i < nodes.len() && is_choice(#[trigger] nodes[i], output, start) ==> choices_of(
                nodes,
                output,
                start,
            ).contains(DirectionalCandidate { score: nodes[i].score->0, id: nodes[i].id }),
    decreases nodes.len(),
{
    let all = choices_of(nodes, output, start);
    if nodes.len() > 0 {
        let shorter = nodes.drop_last();
        let before = choices_of(shorter, output, start);
        lemma_choices(shorter, output, start);
        assert forall|c: int| 0 <= c < all.len() implies is_choice_at(
            nodes,
            output,
            start,
            #[trigger] all[c],
        ) by {
            if c < before.len() {
                assert(is_choice_at(shorter, output, start, before[c]));
                let i = choose|i: int|
                    0 <= i < shorter.len() && is_choice(#[trigger] shorter[i], output, start)
                        && before[c] == (DirectionalCandidate {
                        score: shorter[i].score->0,
                        id: shorter[i].id,
                    });
                assert(nodes[i] == shorter[i]);
            } else {
                assert(is_choice(nodes[nodes.len() - 1], output, start));
            }
        }
        assert forall|i: int|
            0 <= i < nodes.len() && is_choice(#[trigger] nodes[i], output, start) implies all.contains(
            DirectionalCandidate { score: nodes[i].score->0, id: nodes[i].id },
        ) by {
            let candidate = DirectionalCandidate { score: nodes[i].score->0, id: nodes[i].id };
            if i < nodes.len() - 1 {
                assert(shorter[i] == nodes[i]);
                assert(before.contains(candidate));
                let k = before.index_of(candidate);
                assert(all[k] == candidate);
            } else {
                assert(all[all.len() - 1] == candidate);
            }
        }
    }
}

/// The pointer is let go of before it is moved, and clients learn of it afterwards. It goes
/// to the middle: as far from the left side as from the right, and from the top as from the
/// bottom.
pub proof fn the_pointer_goes_to_the_middle(area: Rectangle)
    ensures
        warp_steps(None).len() == 0,
        warp_steps(Some(area)).len() == 5,
        warp_steps(Some(area))[0] == WarpStep::ReleaseConstraint,
        warp_steps(Some(area))[1] matches WarpStep::SetPosition { twice_x, twice_y } && twice_x - 2
            * area.loc.x == 2 * (area.loc.x + area.size.w) - twice_x && twice_y - 2 * area.loc.y == 2
            * (area.loc.y + area.size.h) - twice_y,
        warp_steps(Some(area))[2] == WarpStep::PointerActivity,
        warp_steps(Some(area))[3] == WarpStep::UpdateClients,
        warp_steps(Some(area))[4] == WarpStep::RedrawOutput,
{
}

/// Something is centred exactly where the node that last had the focus is there, is attached
/// to the output, is in no cluster, and nothing else owns the camera. The camera then stops
/// and pans. A window gets the focus as a window, a collapsed node as a node.
pub proof fn centring_pans_and_focuses(last: LastFocused)
    ensures
        center_steps(None).len() == 0,
        center_steps(Some(last)).contains(CenterStep::PanToNode) <==> last.recorded && last.attached
            && last.on_output && last.camera_free && !last.cluster_member,
        center_steps(Some(last)).len() > 0 <==> center_steps(Some(last)).contains(
            CenterStep::PanToNode,
        ),
        center_steps(Some(last)).len() > 0 ==> {
            &&& center_steps(Some(last))[0] == CenterStep::StopPan
            &&& center_steps(Some(last))[1] == CenterStep::PanToNode
            &&& center_steps(Some(last)).last() == CenterStep::Redraw
            &&& center_steps(Some(last)).contains(CenterStep::FocusWindow) <==> !last.collapsed
            &&& center_steps(Some(last)).contains(CenterStep::FocusNode) <==> last.collapsed
            &&& center_steps(Some(last)).contains(CenterStep::ClearWindowFocus) <==> last.collapsed
            &&& center_steps(Some(last)).contains(CenterStep::SyncKeyboard) <==> last.collapsed
        },
{
    broadcast use steps::group_steps;

}

/// A node can be reached on an output exactly where it is visible, in no cluster, and is the
/// output's own as an attached window or as the core of a cluster.
pub proof fn nodes_are_reached_on_their_own_output(
    output: Seq<char>,
    visible: bool,
    member: bool,
    record: Option<(&str, bool)>,
    core: Option<&str>,
)
    ensures
        is_eligible(output, visible, member, record, core) ==> visible && !member,
        visible && !member && core is Some && core->0@ == output ==> is_eligible(
            output,
            visible,
            member,
            record,
            core,
        ),
        visible && !member && record is Some && (record->0).1 && (record->0).0@ == output
            ==> is_eligible(output, visible, member, record, core),
        record is None && core is None ==> !is_eligible(output, visible, member, record, core),
        core is None && record is Some && (!(record->0).1 || (record->0).0@ != output)
            ==> !is_eligible(output, visible, member, record, core),
        record is None && core is Some && core->0@ != output ==> !is_eligible(
            output,
            visible,
            member,
            record,
            core,
        ),
{
}

/// The pointer is let go before it is put anywhere, and clients learn of it before the output
/// is drawn.
#[verifier::rlimit(50)]
pub proof fn the_pointer_is_free_before_it_moves(area: Rectangle, twice_x: i64, twice_y: i64)
    ensures
        steps::comes_before(warp_steps(Some(area)), WarpStep::ReleaseConstraint, WarpStep::SetPosition { twice_x, twice_y }),
        steps::comes_before(warp_steps(Some(area)), WarpStep::ReleaseConstraint, WarpStep::PointerActivity),
        steps::comes_before(warp_steps(Some(area)), WarpStep::SetPosition { twice_x, twice_y }, WarpStep::PointerActivity),
        steps::comes_before(warp_steps(Some(area)), WarpStep::SetPosition { twice_x, twice_y }, WarpStep::UpdateClients),
        steps::comes_before(warp_steps(Some(area)), WarpStep::PointerActivity, WarpStep::UpdateClients),
        steps::comes_before(warp_steps(Some(area)), WarpStep::PointerActivity, WarpStep::RedrawOutput),
        steps::comes_before(warp_steps(Some(area)), WarpStep::UpdateClients, WarpStep::RedrawOutput),
{
    broadcast use {steps::group_steps, steps::group_orders};

}

/// A pan that is under way ends before the next, the old focus goes before the new one comes,
/// and the keyboard follows before anything is drawn.
#[verifier::rlimit(50)]
pub proof fn centring_pans_before_it_focuses(last: Option<LastFocused>)
    ensures
        steps::comes_before(center_steps(last), CenterStep::StopPan, CenterStep::PanToNode),
        steps::comes_before(center_steps(last), CenterStep::StopPan, CenterStep::ClearWindowFocus),
        steps::comes_before(center_steps(last), CenterStep::PanToNode, CenterStep::ClearWindowFocus),
        steps::comes_before(center_steps(last), CenterStep::PanToNode, CenterStep::FocusNode),
        steps::comes_before(center_steps(last), CenterStep::ClearWindowFocus, CenterStep::FocusNode),
        steps::comes_before(center_steps(last), CenterStep::ClearWindowFocus, CenterStep::SyncKeyboard),
        steps::comes_before(center_steps(last), CenterStep::FocusNode, CenterStep::SyncKeyboard),
        steps::comes_before(center_steps(last), CenterStep::FocusNode, CenterStep::Redraw),
        steps::comes_before(center_steps(last), CenterStep::SyncKeyboard, CenterStep::Redraw),
        steps::comes_before(center_steps(last), CenterStep::StopPan, CenterStep::PanToNode),
        steps::comes_before(center_steps(last), CenterStep::StopPan, CenterStep::FocusWindow),
        steps::comes_before(center_steps(last), CenterStep::StopPan, CenterStep::Redraw),
        steps::comes_before(center_steps(last), CenterStep::PanToNode, CenterStep::FocusWindow),
        steps::comes_before(center_steps(last), CenterStep::PanToNode, CenterStep::Redraw),
        steps::comes_before(center_steps(last), CenterStep::FocusWindow, CenterStep::Redraw),
{
    broadcast use {steps::group_steps, steps::group_orders};

}

/// A heading leads through the portal on its side, opposite headings through opposite ones.
pub proof fn portals_lie_where_headings_point(direction: Heading, side: PortalDir)
    requires
        call_ensures(portal_direction, (direction,), side),
    ensures
        direction is Left <==> side is W,
        direction is Right <==> side is E,
        direction is Up <==> side is N,
        direction is Down <==> side is S,
{
}

/// The way starts at the focus where that can be left, and else at the last one of the output
/// that can.
pub proof fn navigation_starts_at_the_focus(focused: Option<NodeId>, eligible: bool, on_output: Option<NodeId>, output_eligible: bool, start: Option<NodeId>)
    requires
        call_ensures(directional_start, (focused, eligible, on_output, output_eligible), start),
    ensures
        focused is Some && eligible ==> start == focused,
        (focused is None || !eligible) && output_eligible ==> start == on_output,
        (focused is None || !eligible) && !output_eligible ==> start is None,
{
}

/// A core is shown as one, whether or not it is collapsed; of the others the collapsed ones are
/// nodes.
pub proof fn targets_are_shown_as_what_they_are(is_core: bool, collapsed: bool, reveal: TargetReveal, output_known: bool, swap: bool, step: TileStep)
    requires
        call_ensures(focus_directional_field_target, (is_core, collapsed), reveal),
        call_ensures(navigate_cluster_tile, (output_known, swap), step),
    ensures
        reveal is ClusterCore <==> is_core,
        reveal is CollapsedNode <==> !is_core && collapsed,
        reveal is Window <==> !is_core && !collapsed,
        step is Nothing <==> !output_known,
        step is Swap <==> output_known && swap,
        step is Target <==> output_known && !swap,
{
}

} // verus!
