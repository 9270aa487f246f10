//! Which window, node or layer has the focus.

use vstd::prelude::*;

use crate::ids::{NodeId, SurfaceId};
use crate::session::input::actions::FocusMode;
use crate::session::interaction::Grab;
use crate::steps;

verus! {

/// Where a change of the focus comes from.
#[derive(Clone, Copy, Debug, PartialEq, Eq, Structural)]
pub enum FocusOrigin {
    Explicit,
    Pointer,
    Hover,
}

pub open spec fn raises(origin: FocusOrigin, raise_on_click: bool) -> bool {
    match origin {
        FocusOrigin::Explicit => true,
        FocusOrigin::Pointer => raise_on_click,
        FocusOrigin::Hover => false,
    }
}

/// Explicit activation raises, a click as it is configured, hover never.
pub fn should_raise(origin: FocusOrigin, raise_on_click: bool) -> (r: bool)
    ensures
        r == raises(origin, raise_on_click),
{
    match origin {
        FocusOrigin::Explicit => true,
        FocusOrigin::Pointer => raise_on_click,
        FocusOrigin::Hover => false,
    }
}

#[derive(Clone, Copy, Debug, PartialEq, Eq, Structural)]
pub enum ClusterWorkspaceLayoutKind {
    Tiling,
    Stacking,
}

pub fn should_redirect_to_stacking_front(
    layout: ClusterWorkspaceLayoutKind,
    cluster_active: bool,
    requested_floating: bool,
) -> (r: bool)
    ensures
        r == (layout == ClusterWorkspaceLayoutKind::Stacking && cluster_active
            && !requested_floating),
{
    layout == ClusterWorkspaceLayoutKind::Stacking && cluster_active && !requested_floating
}

/// A member of a cluster, in the order of the layout.
#[derive(Clone, Copy, Debug, PartialEq, Eq, Structural)]
pub struct StackMember {
    pub id: NodeId,
    pub surface: SurfaceId,
    pub attached: bool,
    pub collapsed: bool,
    pub floating: bool,
    pub mapped: bool,
}

/// The member can be the front card of a stack.
pub open spec fn can_be_front(member: StackMember) -> bool {
    member.attached && !member.collapsed && !member.floating && member.mapped
}

/// `front` is the first member that can be the front card.
pub open spec fn is_front(members: Seq<StackMember>, front: SurfaceId) -> bool {
    exists|i: int|
        #![trigger members[i]]
        0 <= i < members.len() && can_be_front(members[i]) && members[i].surface == front && (
        forall|j: int| 0 <= j < i ==> !can_be_front(#[trigger] members[j]))
}

/// A stack has one card that can have the focus: its front member. Hover, the
/// succession after a close and activation go there rather than to a card behind it.
/// Floating members keep their own focus.
pub fn stacking_front_window(
    layout: ClusterWorkspaceLayoutKind,
    cluster_active: bool,
    requested_floating: bool,
    members: &Vec<StackMember>,
) -> (front: Option<SurfaceId>)
    ensures
        match front {
            Some(front) => layout == ClusterWorkspaceLayoutKind::Stacking && cluster_active
                && !requested_floating && is_front(members@, front),
            None => layout != ClusterWorkspaceLayoutKind::Stacking || !cluster_active
                || requested_floating || forall|i: int|
                0 <= i < members@.len() ==> !can_be_front(#[trigger] members@[i]),
        },
{
    if !should_redirect_to_stacking_front(layout, cluster_active, requested_floating) {
        return None;
    }
    let mut index: usize = 0;
    while index < members.len()
        invariant
            index <= members@.len(),
            layout == ClusterWorkspaceLayoutKind::Stacking && cluster_active
                && !requested_floating,
            forall|i: int| 0 <= i < index ==> !can_be_front(#[trigger] members@[i]),
        decreases members@.len() - index,
    {
        let member = members[index];
        if member.attached && !member.collapsed && !member.floating && member.mapped {
            assert(can_be_front(members@[index as int]));
            return Some(member.surface);
        }
        index += 1;
    }
    None
}

/// What gives a window the focus.
#[derive(Clone, Copy, Debug, PartialEq, Eq, Structural)]
pub enum WindowFocusStep {
    Focus { raise: bool },
    FocusNode,
    /// The X server raises it too.
    RaiseX11,
    SyncKeyboard,
}

pub open spec fn window_focus_steps(raise: bool, accepts_focus: bool, has_surface: bool) -> Seq<
    WindowFocusStep,
> {
    steps::when(
        accepts_focus,
        seq![WindowFocusStep::Focus { raise }] + steps::when(
            has_surface,
            seq![WindowFocusStep::FocusNode],
        ) + steps::when(raise, seq![WindowFocusStep::RaiseX11])
            + seq![WindowFocusStep::SyncKeyboard],
    )
}

/// Gives a window the focus, if it takes it at all.
pub fn focus_window(
    origin: FocusOrigin,
    raise_on_click: bool,
    accepts_focus: bool,
    has_surface: bool,
) -> (list: Vec<WindowFocusStep>)
    ensures
        list@ == window_focus_steps(raises(origin, raise_on_click), accepts_focus, has_surface),
{
    let raise = should_raise(origin, raise_on_click);
    let mut list: Vec<WindowFocusStep> = Vec::new();
    if accepts_focus {
        list.push(WindowFocusStep::Focus { raise });
        if has_surface {
            list.push(WindowFocusStep::FocusNode);
        }
        if raise {
            list.push(WindowFocusStep::RaiseX11);
        }
        list.push(WindowFocusStep::SyncKeyboard);
    }
    list
}

/// What can keep hover from changing the focus.
#[derive(Clone, Copy, Debug, PartialEq, Eq, Structural)]
pub struct HoverFacts {
    pub focus_mode: FocusMode,
    pub pointer_grabbed: bool,
    pub capture_active: bool,
    pub apogee_active: bool,
    pub focus_cycle_open: bool,
    pub constrained: bool,
    /// A layer has the keyboard to itself.
    pub exclusive_layer: bool,
}

pub open spec fn hover_blocked(facts: HoverFacts, grab: Grab) -> bool {
    facts.pointer_grabbed || grab !is Idle || facts.capture_active || facts.apogee_active
        || facts.focus_cycle_open || facts.constrained || facts.exclusive_layer
}

/// Hover changes the focus.
pub open spec fn hover_focuses(facts: HoverFacts, grab: Grab) -> bool {
    facts.focus_mode == FocusMode::Hover && !hover_blocked(facts, grab)
}

pub fn hover_is_blocked(facts: HoverFacts, grab: &Grab) -> (blocked: bool)
    ensures
        blocked == hover_blocked(facts, *grab),
{
    let held = match grab {
        Grab::Idle => false,
        _ => true,
    };
    facts.pointer_grabbed || held || facts.capture_active || facts.apogee_active
        || facts.focus_cycle_open || facts.constrained || facts.exclusive_layer
}

/// What is known of a node under the pointer.
#[derive(Clone, Copy, Debug, PartialEq, Eq, Structural)]
pub struct HoveredNode {
    pub id: NodeId,
    /// It is a window's node that is attached and collapsed.
    pub collapsed: bool,
    /// It is the core of a cluster.
    pub core: bool,
}

/// What gives a collapsed node the focus.
#[derive(Clone, Copy, Debug, PartialEq, Eq, Structural)]
pub enum CollapsedFocusStep {
    SelectOutput,
    /// No window has the focus any more.
    ClearWindowFocus,
    FocusNode(NodeId),
    SyncKeyboard,
    Redraw,
}

pub open spec fn node_focus_steps(focuses: bool, id: NodeId) -> Seq<CollapsedFocusStep> {
    steps::when(
        focuses,
        seq![
            CollapsedFocusStep::SelectOutput,
            CollapsedFocusStep::ClearWindowFocus,
            CollapsedFocusStep::FocusNode(id),
            CollapsedFocusStep::SyncKeyboard,
            CollapsedFocusStep::Redraw,
        ],
    )
}

fn focus_collapsed_node(focuses: bool, id: NodeId) -> (list: Vec<CollapsedFocusStep>)
    ensures
        list@ == node_focus_steps(focuses, id),
{
    let mut list: Vec<CollapsedFocusStep> = Vec::new();
    if focuses {
        list.push(CollapsedFocusStep::SelectOutput);
        list.push(CollapsedFocusStep::ClearWindowFocus);
        list.push(CollapsedFocusStep::FocusNode(id));
        list.push(CollapsedFocusStep::SyncKeyboard);
        list.push(CollapsedFocusStep::Redraw);
    }
    list
}

/// Gives a collapsed node under the pointer the focus, unless it has it.
pub fn focus_node_from_hover(
    facts: HoverFacts,
    grab: &Grab,
    focused: Option<NodeId>,
    node: HoveredNode,
) -> (list: Vec<CollapsedFocusStep>)
    ensures
        list@ == node_focus_steps(
            hover_focuses(facts, *grab) && focused != Some(node.id) && node.collapsed,
            node.id,
        ),
{
    let focuses = facts.focus_mode == FocusMode::Hover && !hover_is_blocked(facts, grab) && focused
        != Some(node.id) && node.collapsed;
    focus_collapsed_node(focuses, node.id)
}

/// Gives the core of a cluster under the pointer the focus, as a collapsed node gets it.
pub fn focus_cluster_core_from_hover(
    facts: HoverFacts,
    grab: &Grab,
    focused: Option<NodeId>,
    node: HoveredNode,
) -> (list: Vec<CollapsedFocusStep>)
    ensures
        list@ == node_focus_steps(
            hover_focuses(facts, *grab) && focused != Some(node.id) && node.core,
            node.id,
        ),
{
    let focuses = facts.focus_mode == FocusMode::Hover && !hover_is_blocked(facts, grab) && focused
        != Some(node.id) && node.core;
    focus_collapsed_node(focuses, node.id)
}

/// Gives a pressed node the focus, if it is collapsed.
pub fn focus_node_from_pointer(node: HoveredNode) -> (list: Vec<CollapsedFocusStep>)
    ensures
        list@ == node_focus_steps(node.collapsed, node.id),
{
    focus_collapsed_node(node.collapsed, node.id)
}

/// What is under a pointer that hovers.
#[derive(Clone, Copy, Debug, PartialEq, Eq, Structural)]
pub enum HoverTarget {
    /// The window, or the front card of its stack.
    Window { surface: Option<SurfaceId>, node: Option<NodeId> },
    Layer { on_demand: bool, focused: bool },
    Background,
}

/// What hover does.
#[derive(Clone, Copy, Debug, PartialEq, Eq, Structural)]
pub enum HoverStep {
    Nothing,
    /// The output is selected, and nothing more.
    SelectOutput,
    /// The output is selected, and the window gets the focus.
    FocusWindow,
    /// The output is selected, and the layer gets the focus.
    FocusLayer,
}

pub open spec fn hover_step(
    target: HoverTarget,
    focused_window: Option<SurfaceId>,
    focused_node: Option<NodeId>,
) -> HoverStep {
    match target {
        HoverTarget::Window { surface, node } => if surface is Some && (focused_window != surface
            || focused_node != node) {
            HoverStep::FocusWindow
        } else {
            HoverStep::SelectOutput
        },
        HoverTarget::Layer { on_demand, focused } => if on_demand && !focused {
            HoverStep::FocusLayer
        } else {
            HoverStep::SelectOutput
        },
        HoverTarget::Background => HoverStep::SelectOutput,
    }
}

/// Lets the focus follow the pointer. The window or layer that has it already keeps it
/// without being focused again.
pub fn update_hover(
    facts: HoverFacts,
    grab: &Grab,
    target: HoverTarget,
    focused_window: Option<SurfaceId>,
    focused_node: Option<NodeId>,
) -> (step: HoverStep)
    ensures
        step == (if hover_focuses(facts, *grab) {
            hover_step(target, focused_window, focused_node)
        } else {
            HoverStep::Nothing
        }),
{
    if facts.focus_mode != FocusMode::Hover || hover_is_blocked(facts, grab) {
        return HoverStep::Nothing;
    }
    match target {
        HoverTarget::Window { surface, node } => if surface.is_some() && (focused_window != surface
            || focused_node != node) {
            HoverStep::FocusWindow
        } else {
            HoverStep::SelectOutput
        },
        HoverTarget::Layer { on_demand, focused } => if on_demand && !focused {
            HoverStep::FocusLayer
        } else {
            HoverStep::SelectOutput
        },
        HoverTarget::Background => HoverStep::SelectOutput,
    }
}

/// Who the keyboard belongs to.
#[derive(Clone, Copy, Debug, PartialEq, Eq, Structural)]
pub enum KeyboardFocus {
    Window(SurfaceId),
    ExclusiveLayer(SurfaceId),
    OnDemandLayer(SurfaceId),
}

/// What a change of the focus does to the nodes.
#[derive(Clone, Copy, Debug, PartialEq, Eq, Structural)]
pub enum NodeFocusStep {
    Keep,
    FocusSurface(SurfaceId),
    Clear,
}

/// The keyboard focus, and what goes before it.
#[derive(Clone, Copy, Debug, PartialEq, Eq, Structural)]
pub struct KeyboardFocusPlan {
    pub node: NodeFocusStep,
    /// The surface that gets the keyboard.
    pub target: Option<SurfaceId>,
    /// The root whose pointer constraint may stay.
    pub constraint_root: Option<SurfaceId>,
    /// Constraints are looked at again afterwards.
    pub reconcile: bool,
}

pub open spec fn focus_surface_of(focus: Option<KeyboardFocus>) -> Option<SurfaceId> {
    match focus {
        Some(KeyboardFocus::Window(surface)) => Some(surface),
        Some(KeyboardFocus::ExclusiveLayer(surface)) => Some(surface),
        Some(KeyboardFocus::OnDemandLayer(surface)) => Some(surface),
        None => None,
    }
}

pub open spec fn unlocked_plan(
    focused_window: Option<SurfaceId>,
    focused_node_shown: bool,
    current: Option<KeyboardFocus>,
) -> KeyboardFocusPlan {
    let target = focus_surface_of(current);
    KeyboardFocusPlan {
        node: match focused_window {
            Some(surface) => NodeFocusStep::FocusSurface(surface),
            None => if focused_node_shown {
                NodeFocusStep::Clear
            } else {
                NodeFocusStep::Keep
            },
        },
        target,
        constraint_root: if target == focused_window {
            target
        } else {
            None
        },
        reconcile: true,
    }
}

/// Brings the keyboard to where the focus is. The lock screen's surface has it while
/// the session is locked; then no constraint may stay.
pub fn sync_keyboard_focus(
    lock: Option<Option<SurfaceId>>,
    focused_window: Option<SurfaceId>,
    focused_node_shown: bool,
    current: Option<KeyboardFocus>,
) -> (plan: KeyboardFocusPlan)
    ensures
        plan == (match lock {
            Some(surface) => KeyboardFocusPlan {
                node: NodeFocusStep::Keep,
                target: surface,
                constraint_root: None,
                reconcile: false,
            },
            None => unlocked_plan(focused_window, focused_node_shown, current),
        }),
{
    if let Some(surface) = lock {
        return KeyboardFocusPlan {
            node: NodeFocusStep::Keep,
            target: surface,
            constraint_root: None,
            reconcile: false,
        };
    }
    let node = match focused_window {
        Some(surface) => NodeFocusStep::FocusSurface(surface),
        None => if focused_node_shown {
            NodeFocusStep::Clear
        } else {
            NodeFocusStep::Keep
        },
    };
    let target = match current {
        Some(KeyboardFocus::Window(surface)) => Some(surface),
        Some(KeyboardFocus::ExclusiveLayer(surface)) => Some(surface),
        Some(KeyboardFocus::OnDemandLayer(surface)) => Some(surface),
        None => None,
    };
    let constraint_root = if target == focused_window {
        target
    } else {
        None
    };
    KeyboardFocusPlan { node, target, constraint_root, reconcile: true }
}

/// Hover never raises, and nothing that the pointer holds lets it change the focus.
pub proof fn hover_is_gentle(facts: HoverFacts, grab: Grab, raise_on_click: bool)
    ensures
        !raises(FocusOrigin::Hover, raise_on_click),
        grab !is Idle ==> !hover_focuses(facts, grab),
        facts.focus_mode == FocusMode::Click ==> !hover_focuses(facts, grab),
{
}

/// While the session is not locked, the keyboard goes to the very surface that has the
/// focus, be it a window or a layer of either kind, and to none only where nothing has
/// the focus. A pointer constraint may stay exactly where that is the focused window.
pub proof fn the_keyboard_follows_the_focus(
    focused_window: Option<SurfaceId>,
    focused_node_shown: bool,
    surface: SurfaceId,
)
    ensures
        unlocked_plan(
            focused_window,
            focused_node_shown,
            Some(KeyboardFocus::Window(surface)),
        ).target == Some(surface),
        unlocked_plan(
            focused_window,
            focused_node_shown,
            Some(KeyboardFocus::ExclusiveLayer(surface)),
        ).target == Some(surface),
        unlocked_plan(
            focused_window,
            focused_node_shown,
            Some(KeyboardFocus::OnDemandLayer(surface)),
        ).target == Some(surface),
        unlocked_plan(focused_window, focused_node_shown, None).target is None,
        forall|current: Option<KeyboardFocus>|
            {
                let plan = #[trigger] unlocked_plan(focused_window, focused_node_shown, current);
                &&& plan.target is None <==> current is None
                &&& plan.reconcile
                &&& plan.constraint_root is Some <==> (plan.target is Some && focused_window
                    == plan.target)
                &&& plan.constraint_root is Some ==> plan.constraint_root == focused_window
            },
{
}

/// The node of the focused window has the focus among the nodes. Where no window has it, a
/// node that is shown as focused loses it, and no other change is made.
pub proof fn the_nodes_follow_the_focus(
    focused_window: Option<SurfaceId>,
    shown: bool,
    current: Option<KeyboardFocus>,
)
    ensures
        focused_window is Some ==> unlocked_plan(focused_window, shown, current).node
            == NodeFocusStep::FocusSurface(focused_window->0),
        focused_window is None && shown ==> unlocked_plan(focused_window, shown, current).node
            == NodeFocusStep::Clear,
        focused_window is None && !shown ==> unlocked_plan(focused_window, shown, current).node
            == NodeFocusStep::Keep,
{
}

/// What is activated on purpose is raised, what the pointer hovers over never, and what is
/// clicked as it is configured.
pub proof fn only_hover_never_raises(raise_on_click: bool)
    ensures
        raises(FocusOrigin::Explicit, raise_on_click),
        raises(FocusOrigin::Pointer, raise_on_click) <==> raise_on_click,
        !raises(FocusOrigin::Hover, raise_on_click),
{
}

/// The front of a stack is its first member that is attached, mapped, and neither collapsed
/// nor floating.
pub proof fn the_front_card_is_the_first_that_can_be(members: Seq<StackMember>, front: SurfaceId)
    requires
        is_front(members, front),
    ensures
        exists|i: int|
            {
                let member = #[trigger] members[i];
                &&& 0 <= i < members.len()
                &&& member.surface == front
                &&& member.attached && member.mapped && !member.collapsed && !member.floating
                &&& forall|j: int|
                    0 <= j < i ==> !((#[trigger] members[j]).attached && members[j].mapped
                        && !members[j].collapsed && !members[j].floating)
            },
{
    let i = choose|i: int|
        #![trigger members[i]]
        0 <= i < members.len() && can_be_front(members[i]) && members[i].surface == front && (
        forall|j: int| 0 <= j < i ==> !can_be_front(#[trigger] members[j]));
    let member = members[i];
    assert forall|j: int| 0 <= j < i implies !((#[trigger] members[j]).attached && members[j].mapped
        && !members[j].collapsed && !members[j].floating) by {
        assert(!can_be_front(members[j]));
    }
}

/// A window that takes no focus is left alone. Any other one gets it, the X server raises it
/// exactly where it is raised, and at last the keyboard follows.
pub proof fn windows_get_the_focus_they_take(raise: bool, accepts: bool, has_surface: bool)
    ensures
        !accepts ==> window_focus_steps(raise, accepts, has_surface).len() == 0,
        accepts ==> {
            let list = window_focus_steps(raise, accepts, has_surface);
            &&& list[0] == (WindowFocusStep::Focus { raise })
            &&& list.contains(WindowFocusStep::FocusNode) <==> has_surface
            &&& list.contains(WindowFocusStep::RaiseX11) <==> raise
            &&& list.last() == WindowFocusStep::SyncKeyboard
        },
{
    broadcast use steps::group_steps;

}

/// Hover changes the focus exactly where it is set to, the pointer is free, and nothing else
/// has the pointer or the keyboard to itself.
pub proof fn hover_waits_for_everything_else(facts: HoverFacts, grab: Grab)
    ensures
        hover_focuses(facts, grab) ==> facts.focus_mode == FocusMode::Hover && grab is Idle
            && !facts.pointer_grabbed && !facts.capture_active && !facts.apogee_active
            && !facts.focus_cycle_open && !facts.constrained && !facts.exclusive_layer,
        facts.focus_mode == FocusMode::Hover && grab is Idle && !facts.pointer_grabbed
            && !facts.capture_active && !facts.apogee_active && !facts.focus_cycle_open
            && !facts.constrained && !facts.exclusive_layer ==> hover_focuses(facts, grab),
        hover_blocked(facts, grab) && facts.focus_mode == FocusMode::Hover <==> facts.focus_mode
            == FocusMode::Hover && !hover_focuses(facts, grab),
{
}

/// The node that gets the focus is the one that is asked for; no window keeps it, and the
/// keyboard follows before anything is drawn.
pub proof fn nodes_take_the_focus_from_windows(id: NodeId, other: NodeId)
    ensures
        node_focus_steps(false, id).len() == 0,
        node_focus_steps(true, id).contains(CollapsedFocusStep::FocusNode(other)) <==> id == other,
        node_focus_steps(true, id)[0] == CollapsedFocusStep::SelectOutput,
        node_focus_steps(true, id)[1] == CollapsedFocusStep::ClearWindowFocus,
        node_focus_steps(true, id)[3] == CollapsedFocusStep::SyncKeyboard,
        node_focus_steps(true, id).last() == CollapsedFocusStep::Redraw,
{
    broadcast use steps::group_steps;

}

/// Hover focuses the window under the pointer unless it and its node have the focus, and a
/// layer that takes the focus on demand unless it has it. Otherwise the output is selected.
pub proof fn hover_focuses_what_is_under_it(
    surface: SurfaceId,
    node: Option<NodeId>,
    focused_window: Option<SurfaceId>,
    focused_node: Option<NodeId>,
    on_demand: bool,
    focused: bool,
)
    ensures
        hover_step(
            HoverTarget::Window { surface: Some(surface), node },
            focused_window,
            focused_node,
        ) == HoverStep::FocusWindow <==> !(focused_window == Some(surface) && focused_node == node),
        hover_step(
            HoverTarget::Window { surface: Some(surface), node },
            Some(surface),
            node,
        ) == HoverStep::SelectOutput,
        hover_step(HoverTarget::Window { surface: None, node }, focused_window, focused_node)
            == HoverStep::SelectOutput,
        hover_step(HoverTarget::Layer { on_demand, focused }, focused_window, focused_node)
            == HoverStep::FocusLayer <==> on_demand && !focused,
        hover_step(HoverTarget::Layer { on_demand, focused }, focused_window, focused_node)
            == HoverStep::SelectOutput <==> !(on_demand && !focused),
        hover_step(HoverTarget::Background, focused_window, focused_node)
            == HoverStep::SelectOutput,
{
}

/// The output is chosen and the window loses the focus before the node gets it; then the
/// keyboard follows, and the output is drawn.
#[verifier::rlimit(50)]
pub proof fn nodes_get_the_focus_in_turn(focuses: bool, id: NodeId)
    ensures
        steps::comes_before(node_focus_steps(focuses, id), CollapsedFocusStep::SelectOutput, CollapsedFocusStep::ClearWindowFocus),
        steps::comes_before(node_focus_steps(focuses, id), CollapsedFocusStep::SelectOutput, CollapsedFocusStep::FocusNode(id)),
        steps::comes_before(node_focus_steps(focuses, id), CollapsedFocusStep::ClearWindowFocus, CollapsedFocusStep::FocusNode(id)),
        steps::comes_before(node_focus_steps(focuses, id), CollapsedFocusStep::ClearWindowFocus, CollapsedFocusStep::SyncKeyboard),
        steps::comes_before(node_focus_steps(focuses, id), CollapsedFocusStep::FocusNode(id), CollapsedFocusStep::SyncKeyboard),
        steps::comes_before(node_focus_steps(focuses, id), CollapsedFocusStep::FocusNode(id), CollapsedFocusStep::Redraw),
        steps::comes_before(node_focus_steps(focuses, id), CollapsedFocusStep::SyncKeyboard, CollapsedFocusStep::Redraw),
{
    broadcast use {steps::group_steps, steps::group_orders};

}

/// A window gets the focus, then its node, then it is raised; the keyboard follows at last.
#[verifier::rlimit(50)]
pub proof fn windows_get_the_focus_in_turn(raise: bool, accepts_focus: bool, has_surface: bool)
    ensures
        steps::comes_before(window_focus_steps(raise, accepts_focus, has_surface), WindowFocusStep::Focus { raise }, WindowFocusStep::FocusNode),
        steps::comes_before(window_focus_steps(raise, accepts_focus, has_surface), WindowFocusStep::Focus { raise }, WindowFocusStep::RaiseX11),
        steps::comes_before(window_focus_steps(raise, accepts_focus, has_surface), WindowFocusStep::Focus { raise }, WindowFocusStep::SyncKeyboard),
        steps::comes_before(window_focus_steps(raise, accepts_focus, has_surface), WindowFocusStep::FocusNode, WindowFocusStep::RaiseX11),
        steps::comes_before(window_focus_steps(raise, accepts_focus, has_surface), WindowFocusStep::FocusNode, WindowFocusStep::SyncKeyboard),
        steps::comes_before(window_focus_steps(raise, accepts_focus, has_surface), WindowFocusStep::RaiseX11, WindowFocusStep::SyncKeyboard),
{
    broadcast use {steps::group_steps, steps::group_orders};

}

/// The focus goes to the front exactly for a member that lies in the stack of an active cluster.
pub proof fn only_stacked_members_redirect_the_focus(layout: ClusterWorkspaceLayoutKind, active: bool, floating: bool, r: bool)
    requires
        call_ensures(should_redirect_to_stacking_front, (layout, active, floating), r),
    ensures
        r ==> layout is Stacking && active && !floating,
        layout is Stacking && active && !floating ==> r,
{
}

} // verus!
