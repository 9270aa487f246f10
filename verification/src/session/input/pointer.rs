//! Events of the pointer, in the order in which their takers are asked.

use vstd::prelude::*;

use crate::ids::NodeId;
use crate::session::interaction::{Grab, InteractionState};
use crate::session::pointer::ConstrainedMotion;
use crate::session::suppressed::SuppressedCodes;
use crate::steps;

verus! {

pub const BTN_LEFT: u32 = 0x110;

pub const BTN_RIGHT: u32 = 0x111;

#[derive(Clone, Copy, Debug, PartialEq, Eq, Structural)]
pub enum ButtonState {
    Pressed,
    Released,
}

/// Events as far as their routing tells them apart.
#[derive(Clone, Copy, Debug, PartialEq, Eq, Structural)]
pub enum InputEvent {
    DeviceAdded,
    DeviceRemoved,
    Keyboard,
    PointerMotion,
    PointerMotionAbsolute,
    PointerButton { button: u32, state: ButtonState },
    PointerAxis,
    Gesture,
    Touch,
    Tablet,
    SwitchToggle,
    Special,
}

pub open spec fn is_motion_event(event: InputEvent) -> bool {
    event is PointerMotion || event is PointerMotionAbsolute
}

pub open spec fn is_pointer_event(event: InputEvent) -> bool {
    is_motion_event(event) || event is PointerButton || event is PointerAxis
}

pub open spec fn is_left_button(event: InputEvent) -> bool {
    event matches InputEvent::PointerButton { button, .. } && button == BTN_LEFT
}

/// Whether someone touched a device, which keeps the session from idling.
pub fn is_user_activity(event: InputEvent) -> (r: bool)
    ensures
        r == !(event is DeviceAdded || event is DeviceRemoved || event is SwitchToggle
            || event is Special),
{
    match event {
        InputEvent::DeviceAdded | InputEvent::DeviceRemoved | InputEvent::SwitchToggle
        | InputEvent::Special => false,
        _ => true,
    }
}

pub fn is_motion(event: InputEvent) -> (r: bool)
    ensures
        r == is_motion_event(event),
{
    match event {
        InputEvent::PointerMotion | InputEvent::PointerMotionAbsolute => true,
        _ => false,
    }
}

/// Whether the event shows a cursor that was hidden for want of use.
pub fn is_pointer(event: InputEvent) -> (r: bool)
    ensures
        r == is_pointer_event(event),
{
    match event {
        InputEvent::PointerMotion | InputEvent::PointerMotionAbsolute
        | InputEvent::PointerButton { .. } | InputEvent::PointerAxis => true,
        _ => false,
    }
}

pub fn shortcut_policy_allows_bindings(focus_bypasses_shortcuts: bool, inhibitor_active: bool)
    -> (r: bool)
    ensures
        r == (!focus_bypasses_shortcuts && !inhibitor_active),
{
    !focus_bypasses_shortcuts && !inhibitor_active
}

/// Who takes an event before anyone else is asked.
#[derive(Clone, Copy, Debug, PartialEq, Eq, Structural)]
pub enum Admission {
    /// The lock screen.
    SessionLock,
    /// The question whether to leave, which only follows the pointer.
    ExitModalMotion,
    /// The same question, to which the event says nothing.
    ExitModal,
    /// Nobody: touch and gestures are asked next.
    Proceed,
}

pub open spec fn admission(event: InputEvent, locked: bool, exit_modal: bool) -> Admission {
    if locked {
        Admission::SessionLock
    } else if exit_modal && event !is Keyboard {
        if is_motion_event(event) {
            Admission::ExitModalMotion
        } else {
            Admission::ExitModal
        }
    } else {
        Admission::Proceed
    }
}

/// The buttons that stay suppressed once a modal has taken the event.
pub open spec fn modal_buttons(buttons: Set<u32>, event: InputEvent) -> Set<u32> {
    match event {
        InputEvent::PointerButton { button, state } => match state {
            ButtonState::Pressed => buttons.insert(button),
            ButtonState::Released => buttons.remove(button),
        },
        _ => buttons,
    }
}

fn track_modal_button(buttons: &mut SuppressedCodes, button: u32, state: ButtonState)
    ensures
        final(buttons)@ == modal_buttons(old(buttons)@, InputEvent::PointerButton { button, state }),
{
    match state {
        ButtonState::Pressed => {
            buttons.suppress(button);
        },
        ButtonState::Released => {
            buttons.release_is_suppressed(button);
        },
    }
}

/// The first gate: the lock screen takes everything, the question whether to leave
/// everything but keys. The question swallows presses with their releases and drops
/// what was left of a wheel step.
pub fn first_taker(interaction: &mut InteractionState, event: InputEvent, locked: bool, exit_modal: bool)
    -> (taken_by: Admission)
    ensures
        taken_by == admission(event, locked, exit_modal),
        final(interaction).suppressed_buttons@ == (if taken_by == Admission::ExitModal {
            modal_buttons(old(interaction).suppressed_buttons@, event)
        } else {
            old(interaction).suppressed_buttons@
        }),
        taken_by == Admission::ExitModal && event is PointerAxis ==> {
            &&& final(interaction).wheel_accumulator.horizontal_bits == 0
            &&& final(interaction).wheel_accumulator.vertical_bits == 0
        },
        !(taken_by == Admission::ExitModal && event is PointerAxis)
            ==> final(interaction).wheel_accumulator == old(interaction).wheel_accumulator,
        final(interaction).grab == old(interaction).grab,
        final(interaction).resize_anchor == old(interaction).resize_anchor,
        final(interaction).suppressed_keys == old(interaction).suppressed_keys,
        final(interaction).pointer_constraints == old(interaction).pointer_constraints,
{
    if locked {
        return Admission::SessionLock;
    }
    if exit_modal && event != InputEvent::Keyboard {
        match event {
            InputEvent::PointerMotion | InputEvent::PointerMotionAbsolute => {
                return Admission::ExitModalMotion;
            },
            InputEvent::PointerButton { button, state } => {
                track_modal_button(&mut interaction.suppressed_buttons, button, state);
            },
            InputEvent::PointerAxis => {
                interaction.wheel_accumulator.reset_all();
            },
            _ => {},
        }
        return Admission::ExitModal;
    }
    Admission::Proceed
}

/// What an overlay that owns the pointer makes of an event.
#[derive(Clone, Copy, Debug, PartialEq, Eq, Structural)]
pub enum ModalPointer {
    /// No overlay owns it.
    Pass,
    CaptureMotion,
    CapturePress,
    CaptureRelease,
    /// A button that the capture does not use.
    CaptureButton,
    CaptureAxis,
    ApogeeMotion,
    ApogeePress,
    /// Swallowed by the overview.
    ApogeeIntercept,
}

pub open spec fn modal_pointer_of(event: InputEvent, capture_active: bool, apogee_accepts: bool)
    -> ModalPointer {
    if capture_active && is_pointer_event(event) {
        match event {
            InputEvent::PointerButton { button, state } => if button != BTN_LEFT {
                ModalPointer::CaptureButton
            } else if state == ButtonState::Pressed {
                ModalPointer::CapturePress
            } else {
                ModalPointer::CaptureRelease
            },
            InputEvent::PointerAxis => ModalPointer::CaptureAxis,
            _ => ModalPointer::CaptureMotion,
        }
    } else if apogee_accepts && is_pointer_event(event) {
        match event {
            InputEvent::PointerButton { button, state } => if button == BTN_LEFT && state
                == ButtonState::Pressed {
                ModalPointer::ApogeePress
            } else {
                ModalPointer::ApogeeIntercept
            },
            InputEvent::PointerAxis => ModalPointer::ApogeeIntercept,
            _ => ModalPointer::ApogeeMotion,
        }
    } else {
        ModalPointer::Pass
    }
}

/// The second gate: a capture, and else the overview, owns the pointer. A left press
/// that one of them takes is suppressed until its release.
pub fn modal_pointer(
    buttons: &mut SuppressedCodes,
    event: InputEvent,
    capture_active: bool,
    apogee_accepts: bool,
) -> (taken: ModalPointer)
    ensures
        taken == modal_pointer_of(event, capture_active, apogee_accepts),
        final(buttons)@ == (if taken != ModalPointer::Pass && is_left_button(event) {
            modal_buttons(old(buttons)@, event)
        } else {
            old(buttons)@
        }),
{
    if capture_active {
        match event {
            InputEvent::PointerMotion | InputEvent::PointerMotionAbsolute => {
                return ModalPointer::CaptureMotion;
            },
            InputEvent::PointerButton { button, state } => {
                if button != BTN_LEFT {
                    return ModalPointer::CaptureButton;
                }
                track_modal_button(buttons, button, state);
                return match state {
                    ButtonState::Pressed => ModalPointer::CapturePress,
                    ButtonState::Released => ModalPointer::CaptureRelease,
                };
            },
            InputEvent::PointerAxis => {
                return ModalPointer::CaptureAxis;
            },
            _ => {},
        }
    }
    if apogee_accepts {
        match event {
            InputEvent::PointerMotion | InputEvent::PointerMotionAbsolute => {
                return ModalPointer::ApogeeMotion;
            },
            InputEvent::PointerButton { button, state } => {
                if button == BTN_LEFT {
                    track_modal_button(buttons, button, state);
                    if state == ButtonState::Pressed {
                        return ModalPointer::ApogeePress;
                    }
                }
                return ModalPointer::ApogeeIntercept;
            },
            InputEvent::PointerAxis => {
                return ModalPointer::ApogeeIntercept;
            },
            _ => {},
        }
    }
    ModalPointer::Pass
}

/// What a press in a capture asked for.
#[derive(Clone, Copy, Debug, PartialEq, Eq, Structural)]
pub enum CapturePress {
    ActivateScreenshot,
    ActivateSource,
    Accept,
    Consumed,
}

/// Whether what is under the pointer is to be looked up again: a press has just turned
/// the menu into a selection.
pub fn capture_press_moves_pointer(press: Option<CapturePress>, activated: bool) -> (r: bool)
    ensures
        r == (activated && (press == Some(CapturePress::ActivateScreenshot) || press == Some(
            CapturePress::ActivateSource,
        ))),
{
    match press {
        Some(CapturePress::ActivateScreenshot) | Some(CapturePress::ActivateSource) => activated,
        _ => false,
    }
}

/// What a capture selects.
#[derive(Clone, Copy, Debug, PartialEq, Eq, Structural)]
pub enum CaptureKind {
    Menu,
    Area,
    Screen,
    Window,
    Source,
}

/// What the capture is told of where the pointer is.
#[derive(Clone, Copy, Debug, PartialEq, Eq, Structural)]
pub enum CaptureHover {
    Nothing,
    /// The position alone.
    Position,
    /// The screen under the pointer.
    Screen,
    /// The screen under the pointer, and the window on it if there is one.
    Source { window: bool },
    /// The window under the pointer, or that there is none.
    Window { found: bool },
}

/// The route that a capture looks at.
#[derive(Clone, Copy, Debug, PartialEq, Eq, Structural)]
pub struct CaptureRoute {
    pub output_known: bool,
    /// The target is a window with a surface whose shape on the screen is known.
    pub window_shown: bool,
}

/// Tells the capture what is under the pointer, each kind what it can select.
pub fn update_capture_pointer(
    kind: Option<CaptureKind>,
    menu_active: bool,
    screen_under_pointer: bool,
    route: Option<CaptureRoute>,
) -> (hover: CaptureHover)
    ensures
        hover == (match kind {
            None => CaptureHover::Nothing,
            Some(CaptureKind::Menu) | Some(CaptureKind::Area) => CaptureHover::Position,
            Some(CaptureKind::Screen) => if screen_under_pointer {
                CaptureHover::Screen
            } else {
                CaptureHover::Nothing
            },
            Some(CaptureKind::Source) => if menu_active {
                CaptureHover::Position
            } else if route is Some && route->0.output_known {
                CaptureHover::Source { window: route->0.window_shown }
            } else {
                CaptureHover::Nothing
            },
            Some(CaptureKind::Window) => CaptureHover::Window {
                found: route is Some && route->0.window_shown,
            },
        }),
{
    match kind {
        None => CaptureHover::Nothing,
        Some(CaptureKind::Menu) | Some(CaptureKind::Area) => CaptureHover::Position,
        Some(CaptureKind::Screen) => if screen_under_pointer {
            CaptureHover::Screen
        } else {
            CaptureHover::Nothing
        },
        Some(CaptureKind::Source) => if menu_active {
            CaptureHover::Position
        } else {
            match route {
                Some(route) => if route.output_known {
                    CaptureHover::Source { window: route.window_shown }
                } else {
                    CaptureHover::Nothing
                },
                None => CaptureHover::Nothing,
            }
        },
        Some(CaptureKind::Window) => CaptureHover::Window {
            found: match route {
                Some(route) => route.window_shown,
                None => false,
            },
        },
    }
}

/// What a constraint leaves of an event.
#[derive(Clone, Copy, Debug, PartialEq, Eq, Structural)]
pub enum MotionGate {
    /// The pointer goes back, and the surface is told the relative motion alone.
    RelativeOnly,
    /// The pointer goes back, and the event is handled there.
    Hold,
    Apply,
}

pub fn motion_gate(constrained: ConstrainedMotion, event: InputEvent) -> (gate: MotionGate)
    ensures
        gate == (if constrained is RelativeOnly && is_motion_event(event) {
            MotionGate::RelativeOnly
        } else if constrained == ConstrainedMotion::Hold {
            MotionGate::Hold
        } else {
            MotionGate::Apply
        }),
{
    match constrained {
        ConstrainedMotion::RelativeOnly { .. } => if is_motion(event) {
            MotionGate::RelativeOnly
        } else {
            MotionGate::Apply
        },
        ConstrainedMotion::Hold => MotionGate::Hold,
        ConstrainedMotion::Apply => MotionGate::Apply,
    }
}

/// Starts to drag a node that was pressed, once the pointer has moved far enough and is
/// over an output with a camera.
pub fn start_node_drag(grab: &mut Grab, event: InputEvent, far_enough: bool, output_known: bool)
    -> (dragged: Option<NodeId>)
    ensures
        match *old(grab) {
            Grab::PendingNode { id, surface } if is_motion_event(event) && far_enough
                && output_known => {
                &&& dragged == Some(id)
                &&& *final(grab) == (Grab::MoveNode { id, surface })
            },
            _ => dragged is None && *final(grab) == *old(grab),
        },
{
    if is_motion(event) && far_enough && output_known {
        let pending = match grab {
            Grab::PendingNode { id, surface } => Some((*id, *surface)),
            _ => None,
        };
        if let Some((id, surface)) = pending {
            *grab = Grab::MoveNode { id, surface };
            return Some(id);
        }
    }
    None
}

/// What is known of the place under the pointer while something is held.
#[derive(Clone, Copy, Debug, PartialEq, Eq, Structural)]
pub struct DragFacts {
    /// There is an output under the pointer, or for a resize the output of the window.
    pub output_known: bool,
    pub camera_known: bool,
    /// The window has just come from another output.
    pub output_changed: bool,
    pub physics: bool,
    /// The window takes sizes from its toplevel role.
    pub toplevel: bool,
}

/// What a drag does.
#[derive(Clone, Copy, Debug, PartialEq, Eq, Structural)]
pub enum DragStep {
    /// The rest of the event is dropped.
    Abandon,
    SetWindowOutput,
    SetNodeOutput(NodeId),
    /// Moves the body to where it is wanted and pushes others away.
    MoveRigid(NodeId),
    /// Offers the window to the cluster under it.
    UpdateJoinCandidate(NodeId),
    CancelJoinCandidate,
    MapWindow,
    /// Remembers where and how fast the drag goes.
    RecordSample,
    Redraw,
    UpdatePopups,
    PanCamera,
    ConfigureToplevel,
    ConfigureX11,
}

pub open spec fn drag_steps(grab: Grab, facts: DragFacts) -> Seq<DragStep> {
    match grab {
        Grab::Idle => Seq::empty(),
        Grab::PendingNode { .. } => Seq::empty(),
        Grab::MoveWindow { node, .. } => if !facts.output_known {
            Seq::empty()
        } else if !facts.camera_known {
            seq![DragStep::Abandon]
        } else {
            seq![DragStep::SetWindowOutput] + (match node {
                Some(id) => steps::when(!facts.physics, seq![DragStep::MoveRigid(id)])
                    + seq![DragStep::UpdateJoinCandidate(id)],
                None => seq![DragStep::CancelJoinCandidate, DragStep::MapWindow],
            }) + seq![DragStep::RecordSample] + steps::when(
                node is Some && facts.physics,
                seq![DragStep::Redraw],
            ) + steps::when(facts.output_changed, seq![DragStep::UpdatePopups])
        },
        Grab::MoveNode { id, .. } => steps::when(
            facts.output_known && facts.camera_known,
            seq![DragStep::SetNodeOutput(id)] + steps::when(
                !facts.physics,
                seq![DragStep::MoveRigid(id)],
            ) + seq![DragStep::RecordSample] + steps::when(facts.physics, seq![DragStep::Redraw]),
        ),
        Grab::Pan { .. } => steps::when(facts.camera_known, seq![DragStep::PanCamera]),
        Grab::ResizeWindow { .. } => if !facts.output_known || !facts.camera_known {
            seq![DragStep::Abandon]
        } else if facts.toplevel {
            seq![DragStep::ConfigureToplevel]
        } else {
            seq![DragStep::ConfigureX11]
        },
    }
}

/// What is held follows the pointer.
pub fn drag(grab: &Grab, facts: DragFacts) -> (list: Vec<DragStep>)
    ensures
        list@ == drag_steps(*grab, facts),
{
    let mut list: Vec<DragStep> = Vec::new();
    match grab {
        Grab::Idle => {},
        Grab::PendingNode { .. } => {},
        Grab::MoveWindow { node, .. } => {
            if facts.output_known {
                if !facts.camera_known {
                    list.push(DragStep::Abandon);
                } else {
                    list.push(DragStep::SetWindowOutput);
                    match node {
                        Some(id) => {
                            if !facts.physics {
                                list.push(DragStep::MoveRigid(*id));
                            }
                            list.push(DragStep::UpdateJoinCandidate(*id));
                        },
                        None => {
                            list.push(DragStep::CancelJoinCandidate);
                            list.push(DragStep::MapWindow);
                        },
                    }
                    list.push(DragStep::RecordSample);
                    if node.is_some() && facts.physics {
                        list.push(DragStep::Redraw);
                    }
                    if facts.output_changed {
                        list.push(DragStep::UpdatePopups);
                    }
                }
            }
        },
        Grab::MoveNode { id, .. } => {
            if facts.output_known && facts.camera_known {
                list.push(DragStep::SetNodeOutput(*id));
                if !facts.physics {
                    list.push(DragStep::MoveRigid(*id));
                }
                list.push(DragStep::RecordSample);
                if facts.physics {
                    list.push(DragStep::Redraw);
                }
            }
        },
        Grab::Pan { .. } => {
            if facts.camera_known {
                list.push(DragStep::PanCamera);
            }
        },
        Grab::ResizeWindow { .. } => {
            if !facts.output_known || !facts.camera_known {
                list.push(DragStep::Abandon);
            } else if facts.toplevel {
                list.push(DragStep::ConfigureToplevel);
            } else {
                list.push(DragStep::ConfigureX11);
            }
        },
    }
    list
}

/// Whether nodes show that the pointer is over them: not while one is held.
pub fn nodes_take_hover(grab: &Grab) -> (r: bool)
    ensures
        r == !(grab is PendingNode || grab is MoveNode),
{
    match grab {
        Grab::PendingNode { .. } | Grab::MoveNode { .. } => false,
        _ => true,
    }
}

/// What the release of a held node does.
#[derive(Clone, Copy, Debug, PartialEq, Eq, Structural)]
pub enum NodeRelease {
    /// It was pressed and let go: its window comes back.
    Restore(NodeId),
    /// It was dragged: it stays where it is.
    Settle { id: NodeId, tick_physics: bool },
}

/// Lets go of a node; the rest of the event is dropped where one was held.
pub fn release_node(grab: &mut Grab, button: u32, state: ButtonState, physics: bool) -> (released:
    Option<NodeRelease>)
    ensures
        match *old(grab) {
            Grab::PendingNode { id, .. } if button == BTN_LEFT && state == ButtonState::Released
                => released == Some(NodeRelease::Restore(id)) && *final(grab) is Idle,
            Grab::MoveNode { id, .. } if button == BTN_LEFT && state == ButtonState::Released
                => released == Some(NodeRelease::Settle { id, tick_physics: physics })
                && *final(grab) is Idle,
            _ => released is None && *final(grab) == *old(grab),
        },
{
    if button != BTN_LEFT || state != ButtonState::Released {
        return None;
    }
    let released = match grab {
        Grab::PendingNode { id, .. } => Some(NodeRelease::Restore(*id)),
        Grab::MoveNode { id, .. } => Some(NodeRelease::Settle { id: *id, tick_physics: physics }),
        _ => None,
    };
    if released.is_some() {
        *grab = Grab::Idle;
    }
    released
}

/// The member that a press in a cluster's own dialog adds or removes. The dialog
/// swallows every button.
pub fn cluster_modal_button(
    buttons: &mut SuppressedCodes,
    button: u32,
    state: ButtonState,
    window_under_pointer: Option<NodeId>,
) -> (toggled: Option<NodeId>)
    ensures
        toggled == (if button == BTN_LEFT && state == ButtonState::Pressed {
            window_under_pointer
        } else {
            None
        }),
        final(buttons)@ == modal_buttons(old(buttons)@, InputEvent::PointerButton { button, state }),
{
    track_modal_button(buttons, button, state);
    if button == BTN_LEFT && state == ButtonState::Pressed {
        window_under_pointer
    } else {
        None
    }
}

/// A locked session gives every event to the lock screen. The question whether to leave
/// takes all but keys, and follows the pointer. Nothing else comes in between.
pub proof fn the_lock_screen_comes_first(event: InputEvent, locked: bool, exit_modal: bool)
    ensures
        admission(event, locked, exit_modal) == Admission::SessionLock <==> locked,
        admission(event, locked, exit_modal) == Admission::ExitModalMotion <==> !locked && exit_modal
            && (event is PointerMotion || event is PointerMotionAbsolute),
        admission(event, locked, exit_modal) == Admission::ExitModal <==> !locked && exit_modal
            && !(event is PointerMotion || event is PointerMotionAbsolute || event is Keyboard),
        admission(event, locked, exit_modal) == Admission::Proceed <==> !locked && (!exit_modal
            || event is Keyboard),
{
}

/// The pointer's own events are its motions, its buttons and its axes.
pub proof fn pointer_events_are_motions_buttons_and_axes(event: InputEvent)
    ensures
        is_motion_event(event) <==> event is PointerMotion || event is PointerMotionAbsolute,
        is_pointer_event(event) <==> event is PointerMotion || event is PointerMotionAbsolute
            || event is PointerButton || event is PointerAxis,
        is_left_button(event) <==> event is PointerButton && event->button == 0x110,
{
}

/// A button that a modal takes is held back from its press until its release, and no other
/// button is touched.
pub proof fn modals_hold_buttons_until_their_release(buttons: Set<u32>, button: u32, other: u32)
    ensures
        modal_buttons(
            buttons,
            InputEvent::PointerButton { button, state: ButtonState::Pressed },
        ).contains(button),
        !modal_buttons(
            buttons,
            InputEvent::PointerButton { button, state: ButtonState::Released },
        ).contains(button),
        other != button ==> (modal_buttons(
            buttons,
            InputEvent::PointerButton { button, state: ButtonState::Pressed },
        ).contains(other) <==> buttons.contains(other)),
        other != button ==> (modal_buttons(
            buttons,
            InputEvent::PointerButton { button, state: ButtonState::Released },
        ).contains(other) <==> buttons.contains(other)),
        modal_buttons(buttons, InputEvent::PointerAxis) == buttons,
        modal_buttons(buttons, InputEvent::PointerMotion) == buttons,
{
}

/// A capture owns the pointer before the overview does. It is told of motions, of the left
/// button going down and up, of other buttons and of the wheel, each as what it is.
pub proof fn a_capture_owns_the_pointer(event: InputEvent, apogee_accepts: bool)
    ensures
        event is PointerMotion || event is PointerMotionAbsolute ==> modal_pointer_of(
            event,
            true,
            apogee_accepts,
        ) == ModalPointer::CaptureMotion,
        event is PointerAxis ==> modal_pointer_of(event, true, apogee_accepts)
            == ModalPointer::CaptureAxis,
        event matches InputEvent::PointerButton { button, state } ==> {
            let taken = modal_pointer_of(event, true, apogee_accepts);
            &&& taken == ModalPointer::CapturePress <==> button == 0x110 && state
                == ButtonState::Pressed
            &&& taken == ModalPointer::CaptureRelease <==> button == 0x110 && state
                == ButtonState::Released
            &&& taken == ModalPointer::CaptureButton <==> button != 0x110
        },
        !is_pointer_event(event) ==> modal_pointer_of(event, true, apogee_accepts)
            == ModalPointer::Pass,
{
}

/// While nothing is captured the overview owns the pointer: it follows motions, is pressed
/// with the left button, and swallows everything else of the pointer.
pub proof fn the_overview_owns_the_pointer(event: InputEvent)
    ensures
        modal_pointer_of(event, false, true) == ModalPointer::ApogeeMotion <==> event
            is PointerMotion || event is PointerMotionAbsolute,
        modal_pointer_of(event, false, true) == ModalPointer::ApogeePress <==> event
            == (InputEvent::PointerButton { button: 0x110, state: ButtonState::Pressed }),
        modal_pointer_of(event, false, true) == ModalPointer::ApogeeIntercept <==> event
            is PointerAxis || (event is PointerButton && event != (InputEvent::PointerButton {
            button: 0x110,
            state: ButtonState::Pressed,
        })),
        modal_pointer_of(event, false, true) == ModalPointer::Pass <==> !(event is PointerMotion
            || event is PointerMotionAbsolute || event is PointerButton || event is PointerAxis),
        modal_pointer_of(event, false, false) == ModalPointer::Pass,
{
}

/// A window that is moved goes to the output under the pointer. One with a node is offered to
/// the cluster under it, and is moved as a body unless nodes move on their own; one without
/// a node is mapped where it is dragged to.
pub proof fn moved_windows_follow_the_pointer(
    grab: Grab,
    facts: DragFacts,
    id: crate::ids::NodeId,
)
    requires
        grab is MoveWindow,
        facts.output_known,
        facts.camera_known,
    ensures
        drag_steps(grab, facts)[0] == DragStep::SetWindowOutput,
        drag_steps(grab, facts).contains(DragStep::RecordSample),
        drag_steps(grab, facts).contains(DragStep::UpdateJoinCandidate(id))
            <==> grab->MoveWindow_node == Some(id),
        drag_steps(grab, facts).contains(DragStep::MoveRigid(id)) <==> grab->MoveWindow_node == Some(
            id,
        ) && !facts.physics,
        drag_steps(grab, facts).contains(DragStep::MapWindow) <==> grab->MoveWindow_node is None,
        drag_steps(grab, facts).contains(DragStep::CancelJoinCandidate)
            <==> grab->MoveWindow_node is None,
        drag_steps(grab, facts).contains(DragStep::Redraw) <==> grab->MoveWindow_node is Some
            && facts.physics,
        drag_steps(grab, facts).contains(DragStep::UpdatePopups) <==> facts.output_changed,
        !drag_steps(grab, facts).contains(DragStep::Abandon),
{
    broadcast use steps::group_steps;

}

/// A node that is moved goes to the output under the pointer, and is moved as a body unless
/// nodes move on their own. A held field pans, a resized window is configured the way its
/// kind is. A node that is merely pressed does not move.
pub proof fn what_is_held_follows_the_pointer(grab: Grab, facts: DragFacts, id: NodeId)
    ensures
        grab is MoveNode && facts.output_known && facts.camera_known ==> {
            &&& drag_steps(grab, facts).contains(DragStep::SetNodeOutput(id))
                <==> grab->MoveNode_id == id
            &&& drag_steps(grab, facts).contains(DragStep::MoveRigid(id)) <==> grab->MoveNode_id
                == id && !facts.physics
            &&& drag_steps(grab, facts).contains(DragStep::Redraw) <==> facts.physics
            &&& drag_steps(grab, facts).contains(DragStep::RecordSample)
        },
        grab is MoveNode && !(facts.output_known && facts.camera_known) ==> drag_steps(grab, facts)
            == Seq::<DragStep>::empty(),
        grab is Pan ==> (drag_steps(grab, facts).contains(DragStep::PanCamera)
            <==> facts.camera_known),
        grab is ResizeWindow && facts.output_known && facts.camera_known ==> {
            &&& facts.toplevel ==> drag_steps(grab, facts) == seq![DragStep::ConfigureToplevel]
            &&& !facts.toplevel ==> drag_steps(grab, facts) == seq![DragStep::ConfigureX11]
        },
        grab is ResizeWindow && !(facts.output_known && facts.camera_known) ==> drag_steps(
            grab,
            facts,
        ) == seq![DragStep::Abandon],
        grab is Idle || grab is PendingNode ==> drag_steps(grab, facts) == Seq::<DragStep>::empty(),
{
    broadcast use steps::group_steps;

}

/// What is dragged is on its output before it moves, its motion is noted once it has, and popups
/// follow at last.
#[verifier::rlimit(50)]
pub proof fn drags_follow_in_turn(grab: Grab, facts: DragFacts, id: NodeId)
    ensures
        steps::comes_before(drag_steps(grab, facts), DragStep::SetWindowOutput, DragStep::MoveRigid(id)),
        steps::comes_before(drag_steps(grab, facts), DragStep::SetWindowOutput, DragStep::UpdateJoinCandidate(id)),
        steps::comes_before(drag_steps(grab, facts), DragStep::MoveRigid(id), DragStep::UpdateJoinCandidate(id)),
        steps::comes_before(drag_steps(grab, facts), DragStep::MoveRigid(id), DragStep::RecordSample),
        steps::comes_before(drag_steps(grab, facts), DragStep::UpdateJoinCandidate(id), DragStep::RecordSample),
        steps::comes_before(drag_steps(grab, facts), DragStep::UpdateJoinCandidate(id), DragStep::Redraw),
        steps::comes_before(drag_steps(grab, facts), DragStep::RecordSample, DragStep::Redraw),
        steps::comes_before(drag_steps(grab, facts), DragStep::RecordSample, DragStep::UpdatePopups),
        steps::comes_before(drag_steps(grab, facts), DragStep::Redraw, DragStep::UpdatePopups),
        steps::comes_before(drag_steps(grab, facts), DragStep::SetWindowOutput, DragStep::CancelJoinCandidate),
        steps::comes_before(drag_steps(grab, facts), DragStep::SetWindowOutput, DragStep::MapWindow),
        steps::comes_before(drag_steps(grab, facts), DragStep::SetWindowOutput, DragStep::RecordSample),
        steps::comes_before(drag_steps(grab, facts), DragStep::CancelJoinCandidate, DragStep::MapWindow),
        steps::comes_before(drag_steps(grab, facts), DragStep::CancelJoinCandidate, DragStep::RecordSample),
        steps::comes_before(drag_steps(grab, facts), DragStep::MapWindow, DragStep::RecordSample),
        steps::comes_before(drag_steps(grab, facts), DragStep::RecordSample, DragStep::UpdatePopups),
        steps::comes_before(drag_steps(grab, facts), DragStep::SetNodeOutput(id), DragStep::MoveRigid(id)),
        steps::comes_before(drag_steps(grab, facts), DragStep::SetNodeOutput(id), DragStep::RecordSample),
        steps::comes_before(drag_steps(grab, facts), DragStep::SetNodeOutput(id), DragStep::Redraw),
        steps::comes_before(drag_steps(grab, facts), DragStep::MoveRigid(id), DragStep::RecordSample),
        steps::comes_before(drag_steps(grab, facts), DragStep::MoveRigid(id), DragStep::Redraw),
        steps::comes_before(drag_steps(grab, facts), DragStep::RecordSample, DragStep::Redraw),
{
    broadcast use {steps::group_steps, steps::group_orders};

}

/// Bindings work exactly where neither the focus nor an inhibitor keeps them out.
pub proof fn inhibitors_keep_the_bindings_out(bypasses: bool, inhibited: bool, r: bool)
    requires
        call_ensures(shortcut_policy_allows_bindings, (bypasses, inhibited), r),
    ensures
        bypasses || inhibited ==> !r,
        !bypasses && !inhibited ==> r,
{
}

/// Menus and areas follow the pointer, a screen is picked where one is under it, and a window or
/// a source by what the pointer leads to.
pub proof fn captures_show_what_is_under_the_pointer(kind: Option<CaptureKind>, menu: bool, screen: bool, route: Option<CaptureRoute>, hover: CaptureHover)
    requires
        call_ensures(update_capture_pointer, (kind, menu, screen, route), hover),
    ensures
        kind is None ==> hover is Nothing,
        kind == Some(CaptureKind::Menu) || kind == Some(CaptureKind::Area) ==> hover is Position,
        hover is Screen <==> kind == Some(CaptureKind::Screen) && screen,
        hover is Source <==> kind == Some(CaptureKind::Source) && !menu && route is Some && route->0.output_known,
        kind == Some(CaptureKind::Source) && menu ==> hover is Position,
        hover is Window <==> kind == Some(CaptureKind::Window),
        hover is Window ==> (hover->found <==> route is Some && route->0.window_shown),
        hover is Source ==> hover->Source_window == route->0.window_shown,
{
}

/// A node that is pressed or moved keeps others from being hovered; nothing else does.
pub proof fn held_nodes_are_not_hovered(grab: &Grab, r: bool)
    requires
        call_ensures(nodes_take_hover, (grab,), r),
    ensures
        grab is PendingNode || grab is MoveNode ==> !r,
        grab is Idle || grab is MoveWindow || grab is Pan || grab is ResizeWindow ==> r,
{
}

} // verus!
