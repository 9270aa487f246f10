//! Who takes a button of the pointer.

use vstd::prelude::*;

use crate::ids::{NodeId, SurfaceId};
use crate::session::input::pointer::{
    cluster_modal_button, modal_buttons, release_node, ButtonState, InputEvent, NodeRelease, BTN_LEFT,
    BTN_RIGHT,
};
use crate::session::interaction::{Grab, InteractionState};
use crate::session::suppressed::SuppressedCodes;
use crate::steps;

verus! {

/// The takers of a button, in the order in which they are asked.
#[derive(Clone, Copy, Debug, PartialEq, Eq, Structural)]
pub enum Taker {
    /// A member that does not fit its cluster's layout.
    Overflow,
    /// The core of a cluster.
    ClusterCore,
    /// A bearing at the edge of an output.
    Bearing,
    /// The bindings of the pointer.
    Binding,
    /// A collapsed node.
    Node,
    /// The window, layer or background under the pointer, and what it holds.
    Surface,
    /// A resize that the button had started.
    Resize,
    /// The client.
    Client,
    Done,
}

/// A button on its way to the one that takes it.
#[derive(Clone, Copy, Debug, PartialEq, Eq, Structural)]
pub struct ButtonLadder {
    pub button: u32,
    pub state: ButtonState,
    pub focus_cycle_open: bool,
    /// Someone has taken it.
    pub intercepted: bool,
    /// The one who is asked.
    pub taker: Taker,
}

/// The place of a taker in the order.
pub open spec fn rank(taker: Taker) -> int {
    match taker {
        Taker::Overflow => 0,
        Taker::ClusterCore => 1,
        Taker::Bearing => 2,
        Taker::Binding => 3,
        Taker::Node => 4,
        Taker::Surface => 5,
        Taker::Resize => 6,
        Taker::Client => 7,
        Taker::Done => 8,
    }
}

impl ButtonLadder {
    pub open spec fn left_press(self) -> bool {
        self.button == BTN_LEFT && self.state == ButtonState::Pressed
    }

    /// Whether the taker is asked at all. A bearing is asked even of a press that a
    /// cluster has taken.
    pub open spec fn asks(self, taker: Taker) -> bool {
        match taker {
            Taker::Overflow => self.left_press() && !self.focus_cycle_open,
            Taker::ClusterCore => self.left_press() && !self.focus_cycle_open && !self.intercepted,
            Taker::Bearing => self.left_press() && !self.focus_cycle_open,
            Taker::Binding => !self.intercepted,
            Taker::Node => !self.intercepted && self.left_press(),
            Taker::Surface => !self.intercepted && (self.button == BTN_LEFT || (self.button
                == BTN_RIGHT && self.state == ButtonState::Pressed)),
            Taker::Resize => !self.intercepted && self.state == ButtonState::Released,
            Taker::Client => !self.intercepted,
            Taker::Done => true,
        }
    }

    /// The taker is the next one to be asked, from the place `from` on.
    pub open spec fn is_next(self, from: int, taker: Taker) -> bool {
        &&& rank(taker) >= from
        &&& self.asks(taker)
        &&& forall|other: Taker|
            from <= #[trigger] rank(other) < rank(taker) ==> !self.asks(other)
    }

    fn applies(&self, taker: Taker) -> (r: bool)
        ensures
            r == self.asks(taker),
    {
        let left_press = self.button == BTN_LEFT && self.state == ButtonState::Pressed;
        match taker {
            Taker::Overflow => left_press && !self.focus_cycle_open,
            Taker::ClusterCore => left_press && !self.focus_cycle_open && !self.intercepted,
            Taker::Bearing => left_press && !self.focus_cycle_open,
            Taker::Binding => !self.intercepted,
            Taker::Node => !self.intercepted && left_press,
            Taker::Surface => !self.intercepted && (self.button == BTN_LEFT || (self.button
                == BTN_RIGHT && self.state == ButtonState::Pressed)),
            Taker::Resize => !self.intercepted && self.state == ButtonState::Released,
            Taker::Client => !self.intercepted,
            Taker::Done => true,
        }
    }

    /// The first taker that is asked, from `first` on.
    fn settle(&self, first: Taker) -> (taker: Taker)
        ensures
            self.is_next(rank(first), taker),
        decreases 8 - rank(first),
    {
        if self.applies(first) {
            return first;
        }
        let second = match first {
            Taker::Overflow => Taker::ClusterCore,
            Taker::ClusterCore => Taker::Bearing,
            Taker::Bearing => Taker::Binding,
            Taker::Binding => Taker::Node,
            Taker::Node => Taker::Surface,
            Taker::Surface => Taker::Resize,
            Taker::Resize => Taker::Client,
            Taker::Client | Taker::Done => Taker::Done,
        };
        let taker = self.settle(second);
        assert forall|other: Taker| rank(first) <= #[trigger] rank(other) < rank(taker) implies !self.asks(
            other,
        ) by {
            if rank(other) == rank(first) {
                assert(other == first);
            } else {
                assert(rank(second) <= rank(other));
            }
        }
        taker
    }

    /// A button that nobody has taken yet.
    pub fn new(button: u32, state: ButtonState, focus_cycle_open: bool) -> (ladder: ButtonLadder)
        ensures
            ladder.button == button,
            ladder.state == state,
            ladder.focus_cycle_open == focus_cycle_open,
            !ladder.intercepted,
            ladder.is_next(0, ladder.taker),
    {
        let mut ladder = ButtonLadder {
            button,
            state,
            focus_cycle_open,
            intercepted: false,
            taker: Taker::Overflow,
        };
        ladder.taker = ladder.settle(Taker::Overflow);
        ladder
    }

    /// Records whether the one who was asked took the button, and asks the next. A
    /// press that the shell took is suppressed until its release.
    pub fn answer(&mut self, took: bool, buttons: &mut SuppressedCodes)
        requires
            old(self).taker != Taker::Done,
        ensures
            final(self).button == old(self).button,
            final(self).state == old(self).state,
            final(self).focus_cycle_open == old(self).focus_cycle_open,
            final(self).intercepted == (old(self).intercepted || took),
            final(self).is_next(rank(old(self).taker) + 1, final(self).taker),
            final(buttons)@ == (if took && rank(old(self).taker) <= rank(Taker::Bearing) {
                old(buttons)@.insert(old(self).button)
            } else {
                old(buttons)@
            }),
    {
        let shell = match self.taker {
            Taker::Overflow | Taker::ClusterCore | Taker::Bearing => true,
            _ => false,
        };
        if took && shell {
            buttons.suppress(self.button);
        }
        let second = match self.taker {
            Taker::Overflow => Taker::ClusterCore,
            Taker::ClusterCore => Taker::Bearing,
            Taker::Bearing => Taker::Binding,
            Taker::Binding => Taker::Node,
            Taker::Node => Taker::Surface,
            Taker::Surface => Taker::Resize,
            Taker::Resize => Taker::Client,
            Taker::Client | Taker::Done => Taker::Done,
        };
        self.intercepted = self.intercepted || took;
        self.taker = self.settle(second);
    }
}

/// A client is told of a button only where nobody else has taken it.
pub proof fn clients_see_what_nobody_took(ladder: ButtonLadder, from: int)
    requires
        ladder.is_next(from, Taker::Client),
    ensures
        !ladder.intercepted,
{
}

/// Once a button is taken, only the bearings may still be asked.
pub proof fn a_taken_button_ends_the_search(ladder: ButtonLadder, from: int, taker: Taker)
    requires
        ladder.intercepted,
        ladder.is_next(from, taker),
    ensures
        taker == Taker::Overflow || taker == Taker::Bearing || taker == Taker::Done,
{
}

/// A release passes by the shell.
pub proof fn releases_pass_the_shell(ladder: ButtonLadder, from: int, taker: Taker)
    requires
        ladder.state == ButtonState::Released,
        ladder.is_next(from, taker),
    ensures
        rank(taker) >= rank(Taker::Binding),
        taker != Taker::Node,
{
}

/// What is under the pointer.
#[derive(Clone, Copy, Debug, PartialEq, Eq, Structural)]
pub enum PointerTarget {
    Window {
        surface: SurfaceId,
        /// The window can be moved and resized, and does not fill its output.
        grabbable: bool,
    },
    Layer,
    Background,
}

/// What a press on what is under the pointer does.
#[derive(Clone, Copy, Debug, PartialEq, Eq, Structural)]
pub enum PressStep {
    Nothing,
    BeginResize(SurfaceId),
    BeginMove(SurfaceId),
    FocusWindow(SurfaceId),
    FocusLayer,
    /// The layer focus is dropped, and the field follows the pointer.
    Pan,
}

pub open spec fn press_step_of(button: u32, target: Option<PointerTarget>, mod_held: bool)
    -> PressStep {
    if button == BTN_RIGHT {
        match target {
            Some(PointerTarget::Window { surface, grabbable }) if mod_held && grabbable
                => PressStep::BeginResize(surface),
            _ => PressStep::Nothing,
        }
    } else if button == BTN_LEFT {
        match target {
            Some(PointerTarget::Window { surface, grabbable }) => if mod_held && grabbable {
                PressStep::BeginMove(surface)
            } else {
                PressStep::FocusWindow(surface)
            },
            Some(PointerTarget::Layer) => PressStep::FocusLayer,
            Some(PointerTarget::Background) => PressStep::Pan,
            None => PressStep::Nothing,
        }
    } else {
        PressStep::Nothing
    }
}

/// A press on what is under the pointer.
pub fn press_step(button: u32, target: Option<PointerTarget>, mod_held: bool) -> (step: PressStep)
    ensures
        step == press_step_of(button, target, mod_held),
{
    if button == BTN_RIGHT {
        match target {
            Some(PointerTarget::Window { surface, grabbable }) => if mod_held && grabbable {
                PressStep::BeginResize(surface)
            } else {
                PressStep::Nothing
            },
            _ => PressStep::Nothing,
        }
    } else if button == BTN_LEFT {
        match target {
            Some(PointerTarget::Window { surface, grabbable }) => if mod_held && grabbable {
                PressStep::BeginMove(surface)
            } else {
                PressStep::FocusWindow(surface)
            },
            Some(PointerTarget::Layer) => PressStep::FocusLayer,
            Some(PointerTarget::Background) => PressStep::Pan,
            None => PressStep::Nothing,
        }
    } else {
        PressStep::Nothing
    }
}

/// Whether the step takes the press from the client: a grab that has begun does, the
/// focus alone does not.
pub fn press_takes(step: PressStep, began: bool) -> (r: bool)
    ensures
        r == (step == PressStep::Pan || (began && (step is BeginResize || step is BeginMove))),
{
    match step {
        PressStep::Pan => true,
        PressStep::BeginResize(_) | PressStep::BeginMove(_) => began,
        _ => false,
    }
}

/// Takes hold of a pressed node: at once with the modifier, else when it is dragged.
pub fn press_node(grab: &mut Grab, id: NodeId, surface: SurfaceId, mod_held: bool)
    ensures
        *final(grab) == (if mod_held {
            Grab::MoveNode { id, surface }
        } else {
            Grab::PendingNode { id, surface }
        }),
{
    *grab = if mod_held {
        Grab::MoveNode { id, surface }
    } else {
        Grab::PendingNode { id, surface }
    };
}

/// What the left release lets go of.
#[derive(Clone, Copy, Debug, PartialEq, Eq, Structural)]
pub enum LeftRelease {
    Nothing,
    Window { node: Option<NodeId> },
    Pan,
}

/// Lets go of a moved window or of the field.
pub fn release_left(grab: &mut Grab) -> (released: LeftRelease)
    ensures
        match *old(grab) {
            Grab::MoveWindow { node, .. } => released == (LeftRelease::Window { node })
                && *final(grab) is Idle,
            Grab::Pan { .. } => released == LeftRelease::Pan && *final(grab) is Idle,
            _ => released == LeftRelease::Nothing && *final(grab) == *old(grab),
        },
{
    let released = match grab {
        Grab::MoveWindow { node, .. } => LeftRelease::Window { node: *node },
        Grab::Pan { .. } => LeftRelease::Pan,
        _ => LeftRelease::Nothing,
    };
    match released {
        LeftRelease::Nothing => {},
        _ => {
            *grab = Grab::Idle;
        },
    }
    released
}

/// What happens to a window that was let go.
#[derive(Clone, Copy, Debug, PartialEq, Eq, Structural)]
pub enum ReleasedWindow {
    /// It joined the cluster it was dropped on.
    Joined(NodeId),
    /// It stays where it was dropped for a while.
    Locked(NodeId),
    Nothing,
}

/// A window without a node cannot have joined anything.
pub fn released_window(node: Option<NodeId>, joined: bool, physics: bool) -> (r: ReleasedWindow)
    ensures
        r == (match node {
            Some(id) => if joined {
                ReleasedWindow::Joined(id)
            } else if physics {
                ReleasedWindow::Locked(id)
            } else {
                ReleasedWindow::Nothing
            },
            None => ReleasedWindow::Nothing,
        }),
{
    match node {
        Some(id) => if joined {
            ReleasedWindow::Joined(id)
        } else if physics {
            ReleasedWindow::Locked(id)
        } else {
            ReleasedWindow::Nothing
        },
        None => ReleasedWindow::Nothing,
    }
}

/// What is known of a window that is to be moved.
#[derive(Clone, Copy, Debug, PartialEq, Eq, Structural)]
pub struct MoveFacts {
    /// The window can be moved and does not fill its output.
    pub grabbable: bool,
    /// The window under the pointer.
    pub routed: Option<SurfaceId>,
    /// The window has a place in the field.
    pub placed: bool,
    pub camera_known: bool,
    /// The window is maximized.
    pub maximized: bool,
    pub node: Option<NodeId>,
}

pub open spec fn may_move(facts: MoveFacts, surface: SurfaceId) -> bool {
    facts.grabbable && facts.routed == Some(surface) && facts.placed && facts.camera_known
}

#[derive(Clone, Copy, Debug, PartialEq, Eq, Structural)]
pub enum MoveStep {
    /// The texture of the maximized window goes.
    DropTexture,
    /// The window gets its own size back.
    Restore,
    /// The camera leaves the maximized window.
    ReleaseCamera,
    /// The pointer keeps its share of the window's width and height.
    KeepRatio,
    /// The pointer keeps its distance to the window's corner.
    KeepOffset,
    Focus,
    ClearMotion(NodeId),
    GrabbingCursor,
}

pub open spec fn move_steps(facts: MoveFacts) -> Seq<MoveStep> {
    (if facts.maximized {
        seq![MoveStep::DropTexture, MoveStep::Restore, MoveStep::ReleaseCamera, MoveStep::KeepRatio]
    } else {
        seq![MoveStep::KeepOffset]
    }) + seq![MoveStep::Focus] + (match facts.node {
        Some(id) => seq![MoveStep::ClearMotion(id)],
        None => Seq::empty(),
    }) + seq![MoveStep::GrabbingCursor]
}

/// Starts to move the window under the pointer. A maximized one is restored under the
/// pointer first.
pub fn begin_pointer_move(interaction: &mut InteractionState, surface: SurfaceId, facts: MoveFacts)
    -> (begun: Option<Vec<MoveStep>>)
    ensures
        begun is Some == may_move(facts, surface),
        begun is None ==> *final(interaction) == *old(interaction),
        begun matches Some(list) ==> {
            &&& list@ == move_steps(facts)
            &&& final(interaction).grab == (Grab::MoveWindow { node: facts.node, surface })
            &&& final(interaction).resize_anchor == old(interaction).resize_anchor
        },
        final(interaction).same_but_grab(*old(interaction)),
{
    if !facts.grabbable || facts.routed != Some(surface) || !facts.placed || !facts.camera_known {
        return None;
    }
    let mut list: Vec<MoveStep> = Vec::new();
    if facts.maximized {
        list.push(MoveStep::DropTexture);
        list.push(MoveStep::Restore);
        list.push(MoveStep::ReleaseCamera);
        list.push(MoveStep::KeepRatio);
    } else {
        list.push(MoveStep::KeepOffset);
    }
    list.push(MoveStep::Focus);
    if let Some(id) = facts.node {
        list.push(MoveStep::ClearMotion(id));
    }
    list.push(MoveStep::GrabbingCursor);
    interaction.grab = Grab::MoveWindow { node: facts.node, surface };
    assert(list@ =~= move_steps(facts));
    Some(list)
}

/// One thing that is done about a button of the pointer.
#[derive(Clone, Copy, Debug, PartialEq, Eq, Structural)]
pub enum ButtonStage {
    /// A node that was held is let go.
    ReleaseNode(NodeRelease),
    /// What is under the pointer is looked up.
    Route,
    /// The window under the pointer joins or leaves what a new cluster is made of. Where
    /// that changes anything, its output is selected and something is drawn.
    ToggleMember(NodeId),
    /// The output under the pointer is selected.
    SelectOutput,
    /// Those who may take the button are asked in turn.
    AskTakers,
    /// What was told to the client is complete.
    FinishFrame,
}

/// What is known when a button of the pointer goes down or up.
#[derive(Clone, Copy, Debug, PartialEq, Eq, Structural)]
pub struct ButtonFacts {
    /// Nodes move on their own.
    pub physics: bool,
    /// The dialog of a new cluster is open.
    pub cluster_modal: bool,
    /// Something is under the pointer.
    pub routed: bool,
    /// The node of the window under the pointer.
    pub window_under_pointer: Option<NodeId>,
    pub focus_cycle_open: bool,
}

/// The node that a button lets go of.
pub open spec fn node_release(grab: Grab, button: u32, state: ButtonState, physics: bool) -> Option<
    NodeRelease,
> {
    if button == BTN_LEFT && state == ButtonState::Released {
        match grab {
            Grab::PendingNode { id, .. } => Some(NodeRelease::Restore(id)),
            Grab::MoveNode { id, .. } => Some(NodeRelease::Settle { id, tick_physics: physics }),
            _ => None,
        }
    } else {
        None
    }
}

/// A node that is held comes first, then the dialog of a new cluster. Nobody else sees what
/// they take. The frame is finished last.
pub open spec fn button_stages(grab: Grab, button: u32, state: ButtonState, facts: ButtonFacts)
    -> Seq<ButtonStage> {
    let left_press = button == BTN_LEFT && state == ButtonState::Pressed;
    (match node_release(grab, button, state, facts.physics) {
        Some(release) => seq![ButtonStage::ReleaseNode(release)],
        None => seq![ButtonStage::Route] + (if facts.cluster_modal {
            match facts.window_under_pointer {
                Some(id) => steps::when(left_press, seq![ButtonStage::ToggleMember(id)]),
                None => Seq::empty(),
            }
        } else {
            steps::when(left_press && facts.routed, seq![ButtonStage::SelectOutput]) + seq![
                ButtonStage::AskTakers,
            ]
        }),
    }) + seq![ButtonStage::FinishFrame]
}

/// Begins with a button of the pointer. Where those who may take it are asked, the ladder
/// that asks them is handed out.
pub fn begin_button(
    interaction: &mut InteractionState,
    button: u32,
    state: ButtonState,
    facts: ButtonFacts,
) -> (r: (Vec<ButtonStage>, Option<ButtonLadder>))
    ensures
        ({
            let release = node_release(old(interaction).grab, button, state, facts.physics);
            let asks = release is None && !facts.cluster_modal;
            &&& r.0@ == button_stages(old(interaction).grab, button, state, facts)
            &&& release is Some ==> final(interaction).grab is Idle
            &&& release is None ==> final(interaction).grab == old(interaction).grab
            &&& final(interaction).suppressed_buttons@ == (if release is None
                && facts.cluster_modal {
                modal_buttons(
                    old(interaction).suppressed_buttons@,
                    InputEvent::PointerButton { button, state },
                )
            } else {
                old(interaction).suppressed_buttons@
            })
            &&& r.1 is Some == asks
            &&& asks ==> {
                let ladder = r.1->0;
                &&& ladder.button == button
                &&& ladder.state == state
                &&& ladder.focus_cycle_open == facts.focus_cycle_open
                &&& !ladder.intercepted
                &&& ladder.is_next(0, ladder.taker)
            }
        }),
        final(interaction).resize_anchor == old(interaction).resize_anchor,
        final(interaction).suppressed_keys == old(interaction).suppressed_keys,
        final(interaction).wheel_accumulator == old(interaction).wheel_accumulator,
        final(interaction).pointer_constraints == old(interaction).pointer_constraints,
{
    let ghost grab = interaction.grab;
    let mut list: Vec<ButtonStage> = Vec::new();
    if let Some(release) = release_node(&mut interaction.grab, button, state, facts.physics) {
        list.push(ButtonStage::ReleaseNode(release));
        list.push(ButtonStage::FinishFrame);
        assert(list@ =~= button_stages(grab, button, state, facts));
        return (list, None);
    }
    list.push(ButtonStage::Route);
    if facts.cluster_modal {
        let toggled = cluster_modal_button(
            &mut interaction.suppressed_buttons,
            button,
            state,
            facts.window_under_pointer,
        );
        if let Some(id) = toggled {
            list.push(ButtonStage::ToggleMember(id));
        }
        list.push(ButtonStage::FinishFrame);
        assert(list@ =~= button_stages(grab, button, state, facts));
        return (list, None);
    }
    if button == BTN_LEFT && state == ButtonState::Pressed && facts.routed {
        list.push(ButtonStage::SelectOutput);
    }
    list.push(ButtonStage::AskTakers);
    list.push(ButtonStage::FinishFrame);
    assert(list@ =~= button_stages(grab, button, state, facts));
    (list, Some(ButtonLadder::new(button, state, facts.focus_cycle_open)))
}

/// While a node is held, or the dialog of a new cluster is open, no one else is asked.
pub proof fn held_nodes_and_dialogs_come_first(
    grab: Grab,
    button: u32,
    state: ButtonState,
    facts: ButtonFacts,
)
    requires
        node_release(grab, button, state, facts.physics) is Some || facts.cluster_modal,
    ensures
        !button_stages(grab, button, state, facts).contains(ButtonStage::AskTakers),
        button_stages(grab, button, state, facts).last() == ButtonStage::FinishFrame,
{
}

/// The focus that follows a cluster which has been opened or closed.
#[derive(Clone, Copy, Debug, PartialEq, Eq, Structural)]
pub enum ActivationFocus {
    Nothing,
    /// The cluster is open: its first member's window, where it has one.
    Window(NodeId),
    /// The cluster is closed: the node that stands for it.
    Node(NodeId),
}

/// The first member gets the focus, as a window in an open cluster and as a node in a
/// closed one.
pub fn sync_cluster_activation_focus(
    first_member: Option<NodeId>,
    active: bool,
    has_window: bool,
) -> (focus: ActivationFocus)
    ensures
        focus == (match first_member {
            None => ActivationFocus::Nothing,
            Some(member) => if !active {
                ActivationFocus::Node(member)
            } else if has_window {
                ActivationFocus::Window(member)
            } else {
                ActivationFocus::Nothing
            },
        }),
{
    match first_member {
        None => ActivationFocus::Nothing,
        Some(member) => if !active {
            ActivationFocus::Node(member)
        } else if has_window {
            ActivationFocus::Window(member)
        } else {
            ActivationFocus::Nothing
        },
    }
}

/// The takers are asked in their order: what does not fit a cluster, the core of a cluster,
/// a bearing, the bindings, a node, what is under the pointer, a resize, and the client.
pub proof fn takers_are_asked_in_their_order()
    ensures
        rank(Taker::Overflow) < rank(Taker::ClusterCore) < rank(Taker::Bearing) < rank(
            Taker::Binding,
        ) < rank(Taker::Node) < rank(Taker::Surface) < rank(Taker::Resize) < rank(Taker::Client)
            < rank(Taker::Done),
{
}

/// The shell's own things are asked of left presses alone, and not while the focus cycle is
/// open. A button that was taken goes on to nobody but a bearing.
pub proof fn the_shell_is_asked_of_left_presses(ladder: ButtonLadder)
    ensures
        ladder.asks(Taker::Overflow) <==> ladder.button == 0x110 && ladder.state
            == ButtonState::Pressed && !ladder.focus_cycle_open,
        ladder.asks(Taker::Bearing) <==> ladder.button == 0x110 && ladder.state
            == ButtonState::Pressed && !ladder.focus_cycle_open,
        ladder.asks(Taker::ClusterCore) <==> ladder.button == 0x110 && ladder.state
            == ButtonState::Pressed && !ladder.focus_cycle_open && !ladder.intercepted,
        ladder.asks(Taker::Node) <==> ladder.button == 0x110 && ladder.state
            == ButtonState::Pressed && !ladder.intercepted,
        ladder.asks(Taker::Binding) <==> !ladder.intercepted,
        ladder.asks(Taker::Client) <==> !ladder.intercepted,
        ladder.asks(Taker::Resize) <==> ladder.state == ButtonState::Released
            && !ladder.intercepted,
        ladder.asks(Taker::Surface) <==> !ladder.intercepted && (ladder.button == 0x110 || (
        ladder.button == 0x111 && ladder.state == ButtonState::Pressed)),
{
}

/// With the modifier the left button moves the window under the pointer and the right one
/// resizes it, where it can be. Without it the left one focuses the window, and the right one
/// does nothing. A press on the background pans the field.
pub proof fn the_modifier_grabs_windows(
    surface: SurfaceId,
    grabbable: bool,
    mod_held: bool,
    button: u32,
    target: Option<PointerTarget>,
)
    ensures
        press_step_of(0x110, Some(PointerTarget::Window { surface, grabbable: true }), true)
            == PressStep::BeginMove(surface),
        press_step_of(0x111, Some(PointerTarget::Window { surface, grabbable: true }), true)
            == PressStep::BeginResize(surface),
        !(mod_held && grabbable) ==> press_step_of(
            0x110,
            Some(PointerTarget::Window { surface, grabbable }),
            mod_held,
        ) == PressStep::FocusWindow(surface),
        !(mod_held && grabbable) ==> press_step_of(
            0x111,
            Some(PointerTarget::Window { surface, grabbable }),
            mod_held,
        ) == PressStep::Nothing,
        press_step_of(0x110, Some(PointerTarget::Layer), mod_held) == PressStep::FocusLayer,
        press_step_of(0x110, Some(PointerTarget::Background), mod_held) == PressStep::Pan,
        press_step_of(0x111, Some(PointerTarget::Layer), mod_held) == PressStep::Nothing,
        press_step_of(0x111, Some(PointerTarget::Background), mod_held) == PressStep::Nothing,
        press_step_of(button, None, mod_held) == PressStep::Nothing,
        button != 0x110 && button != 0x111 ==> press_step_of(button, target, mod_held)
            == PressStep::Nothing,
{
}

/// A window is moved only where it is the one under the pointer, can be moved, and is in
/// view.
pub proof fn only_the_window_under_the_pointer_is_moved(facts: MoveFacts, surface: SurfaceId)
    ensures
        may_move(facts, surface) ==> facts.routed is Some && facts.routed->0 == surface
            && facts.grabbable && facts.placed && facts.camera_known,
        facts.routed == Some(surface) && facts.grabbable && facts.placed && facts.camera_known
            ==> may_move(facts, surface),
{
}

/// A maximized window is restored before it is moved, with the pointer at the same share of
/// it; any other one keeps its corner where it is. It gets the focus, its node comes to rest,
/// and the cursor shows that it is held.
pub proof fn maximized_windows_are_restored_before_they_move(facts: MoveFacts, id: NodeId)
    ensures
        move_steps(facts).contains(MoveStep::Restore) <==> facts.maximized,
        move_steps(facts).contains(MoveStep::DropTexture) <==> facts.maximized,
        move_steps(facts).contains(MoveStep::ReleaseCamera) <==> facts.maximized,
        move_steps(facts).contains(MoveStep::KeepRatio) <==> facts.maximized,
        move_steps(facts).contains(MoveStep::KeepOffset) <==> !facts.maximized,
        move_steps(facts).contains(MoveStep::Focus),
        move_steps(facts).contains(MoveStep::ClearMotion(id)) <==> facts.node == Some(id),
        move_steps(facts).last() == MoveStep::GrabbingCursor,
        facts.maximized ==> move_steps(facts)[1] == MoveStep::Restore && move_steps(facts)[3]
            == MoveStep::KeepRatio,
{
    broadcast use steps::group_steps;

}

/// Only the release of the left button lets go of a node: one that was merely pressed comes
/// back as a window, one that was dragged stays where it is.
pub proof fn the_left_release_lets_go_of_nodes(
    id: NodeId,
    surface: SurfaceId,
    grab: Grab,
    button: u32,
    state: ButtonState,
    physics: bool,
)
    ensures
        node_release(Grab::PendingNode { id, surface }, 0x110, ButtonState::Released, physics)
            == Some(NodeRelease::Restore(id)),
        node_release(Grab::MoveNode { id, surface }, 0x110, ButtonState::Released, physics) == Some(
            NodeRelease::Settle { id, tick_physics: physics },
        ),
        node_release(grab, button, state, physics) is Some <==> button == 0x110 && state
            == ButtonState::Released && (grab is PendingNode || grab is MoveNode),
{
}

/// Where no node is let go of, what is under the pointer is looked up first. The dialog of a
/// new cluster then takes the window that a left press is on; without it a left press selects
/// the output, and the takers are asked.
pub proof fn buttons_begin_with_what_is_under_them(
    grab: Grab,
    button: u32,
    state: ButtonState,
    facts: ButtonFacts,
    id: NodeId,
)
    requires
        !(button == 0x110 && state == ButtonState::Released && (grab is PendingNode || grab
            is MoveNode)),
    ensures
        button_stages(grab, button, state, facts)[0] == ButtonStage::Route,
        button_stages(grab, button, state, facts).contains(ButtonStage::AskTakers)
            <==> !facts.cluster_modal,
        button_stages(grab, button, state, facts).contains(ButtonStage::SelectOutput)
            <==> !facts.cluster_modal && button == 0x110 && state == ButtonState::Pressed
            && facts.routed,
        button_stages(grab, button, state, facts).contains(ButtonStage::ToggleMember(id))
            <==> facts.cluster_modal && button == 0x110 && state == ButtonState::Pressed
            && facts.window_under_pointer == Some(id),
        button_stages(grab, button, state, facts).last() == ButtonStage::FinishFrame,
{
    broadcast use steps::group_steps;

}

/// A node that is let go of is all that its release is about.
pub proof fn a_released_node_is_the_whole_event(
    grab: Grab,
    facts: ButtonFacts,
    id: NodeId,
    surface: SurfaceId,
)
    ensures
        button_stages(
            Grab::PendingNode { id, surface },
            0x110,
            ButtonState::Released,
            facts,
        ) == seq![
            ButtonStage::ReleaseNode(NodeRelease::Restore(id)),
            ButtonStage::FinishFrame,
        ],
        button_stages(Grab::MoveNode { id, surface }, 0x110, ButtonState::Released, facts) == seq![
            ButtonStage::ReleaseNode(NodeRelease::Settle { id, tick_physics: facts.physics }),
            ButtonStage::FinishFrame,
        ],
{
}

/// A maximized window is restored before it keeps its place under the pointer; it gets the focus
/// then, its motion ends, and the cursor grabs at last.
#[verifier::rlimit(50)]
pub proof fn moves_begin_in_turn(facts: MoveFacts, id: NodeId)
    ensures
        steps::comes_before(move_steps(facts), MoveStep::DropTexture, MoveStep::Restore),
        steps::comes_before(move_steps(facts), MoveStep::DropTexture, MoveStep::ReleaseCamera),
        steps::comes_before(move_steps(facts), MoveStep::Restore, MoveStep::ReleaseCamera),
        steps::comes_before(move_steps(facts), MoveStep::Restore, MoveStep::KeepRatio),
        steps::comes_before(move_steps(facts), MoveStep::ReleaseCamera, MoveStep::KeepRatio),
        steps::comes_before(move_steps(facts), MoveStep::ReleaseCamera, MoveStep::Focus),
        steps::comes_before(move_steps(facts), MoveStep::KeepRatio, MoveStep::Focus),
        steps::comes_before(move_steps(facts), MoveStep::KeepRatio, MoveStep::ClearMotion(id)),
        steps::comes_before(move_steps(facts), MoveStep::Focus, MoveStep::ClearMotion(id)),
        steps::comes_before(move_steps(facts), MoveStep::Focus, MoveStep::GrabbingCursor),
        steps::comes_before(move_steps(facts), MoveStep::ClearMotion(id), MoveStep::GrabbingCursor),
        steps::comes_before(move_steps(facts), MoveStep::KeepOffset, MoveStep::Focus),
        steps::comes_before(move_steps(facts), MoveStep::KeepOffset, MoveStep::ClearMotion(id)),
        steps::comes_before(move_steps(facts), MoveStep::KeepOffset, MoveStep::GrabbingCursor),
        steps::comes_before(move_steps(facts), MoveStep::Focus, MoveStep::ClearMotion(id)),
        steps::comes_before(move_steps(facts), MoveStep::Focus, MoveStep::GrabbingCursor),
        steps::comes_before(move_steps(facts), MoveStep::ClearMotion(id), MoveStep::GrabbingCursor),
{
    broadcast use {steps::group_steps, steps::group_orders};

}

/// What is under the pointer is looked for before the output is chosen or a member is, takers
/// are asked then, and what was told is complete at last.
#[verifier::rlimit(50)]
pub proof fn buttons_are_handled_in_turn(grab: Grab, button: u32, state: ButtonState, facts: ButtonFacts, id: NodeId, release: NodeRelease)
    ensures
        steps::comes_before(button_stages(grab, button, state, facts), ButtonStage::Route, ButtonStage::SelectOutput),
        steps::comes_before(button_stages(grab, button, state, facts), ButtonStage::Route, ButtonStage::AskTakers),
        steps::comes_before(button_stages(grab, button, state, facts), ButtonStage::Route, ButtonStage::FinishFrame),
        steps::comes_before(button_stages(grab, button, state, facts), ButtonStage::SelectOutput, ButtonStage::AskTakers),
        steps::comes_before(button_stages(grab, button, state, facts), ButtonStage::SelectOutput, ButtonStage::FinishFrame),
        steps::comes_before(button_stages(grab, button, state, facts), ButtonStage::AskTakers, ButtonStage::FinishFrame),
        steps::comes_before(button_stages(grab, button, state, facts), ButtonStage::Route, ButtonStage::ToggleMember(id)),
        steps::comes_before(button_stages(grab, button, state, facts), ButtonStage::Route, ButtonStage::FinishFrame),
        steps::comes_before(button_stages(grab, button, state, facts), ButtonStage::ToggleMember(id), ButtonStage::FinishFrame),
        steps::comes_before(button_stages(grab, button, state, facts), ButtonStage::ReleaseNode(release), ButtonStage::FinishFrame),
{
    broadcast use {steps::group_steps, steps::group_orders};

}

/// A press that pans is taken, one that moves or resizes is where that began, and no other is.
pub proof fn presses_that_begin_something_are_taken(step: PressStep, began: bool, r: bool)
    requires
        call_ensures(press_takes, (step, began), r),
    ensures
        step is Pan ==> r,
        step is BeginMove || step is BeginResize ==> r == began,
        !(step is Pan) && !(step is BeginMove) && !(step is BeginResize) ==> !r,
{
}

/// A window that is let go has joined a cluster, or rests where physics move it.
pub proof fn released_windows_join_or_rest(node: Option<NodeId>, joined: bool, physics: bool, r: ReleasedWindow)
    requires
        call_ensures(released_window, (node, joined, physics), r),
    ensures
        r is Joined <==> node is Some && joined,
        r is Locked <==> node is Some && !joined && physics,
        r is Joined ==> Some(r->Joined_0) == node,
        r is Locked ==> Some(r->Locked_0) == node,
        node is None ==> r is Nothing,
{
}

/// The first member of a cluster gets the focus: its node where that closes, and its window where
/// that opens and there is one.
pub proof fn the_first_member_gets_the_focus(member: Option<NodeId>, active: bool, has_window: bool, focus: ActivationFocus)
    requires
        call_ensures(sync_cluster_activation_focus, (member, active, has_window), focus),
    ensures
        focus is Node <==> member is Some && !active,
        focus is Window <==> member is Some && active && has_window,
        focus is Node ==> member == Some(focus->Node_0),
        focus is Window ==> member == Some(focus->Window_0),
        member is None ==> focus is Nothing,
{
}

} // verus!
