//! The order in which an event of an input device is handled.

use vstd::prelude::*;

use crate::session::input::pointer::{
    admission, drag_steps, first_taker, is_motion, is_motion_event, is_pointer, is_pointer_event,
    is_user_activity, modal_buttons, modal_pointer, modal_pointer_of, motion_gate, Admission,
    DragFacts, DragStep, InputEvent, ModalPointer, MotionGate,
};
use crate::session::interaction::{Grab, InteractionState, WheelAccumulator};
use crate::session::pointer::ConstrainedMotion;
use crate::steps;

verus! {

/// One thing that is done about an event.
#[derive(Clone, Copy, Debug, PartialEq, Eq, Structural)]
pub enum HandleStage {
    /// The session does not idle.
    NotifyActivity,
    /// The lock screen handles it.
    SessionLock,
    Touch,
    Gesture,
    /// The cursor may come back.
    PointerActivity,
    /// What was told to the client before is complete.
    FinishFrame,
    /// The pointer goes where the event says.
    MovePointer,
    /// Constraints are looked at, and the event goes on.
    Continue,
    /// An overlay that owns the pointer handles it.
    Modal(ModalPointer),
    /// The pointer goes back to where it was.
    GoBack,
    /// The client is told the motion alone, not where the pointer is.
    TellRelative,
    Redraw,
    /// What is held follows the pointer.
    Drag,
    /// The client under the pointer is told where it is.
    RouteMotion,
    /// What is under the pointer may get the focus.
    Hover,
    /// Those who may take the button are asked in turn.
    Button,
    /// The field is panned, or what is bound to the wheel happens, or the client gets it.
    Axis,
    Keyboard,
}

/// What is done about an event before the pointer is where the event says.
pub open spec fn first_stages(event: InputEvent, locked: bool, exit_modal: bool) -> Seq<HandleStage> {
    let activity = !(event is DeviceAdded || event is DeviceRemoved || event is SwitchToggle
        || event is Special);
    steps::when(activity, seq![HandleStage::NotifyActivity]) + (match admission(
        event,
        locked,
        exit_modal,
    ) {
        Admission::SessionLock => seq![HandleStage::SessionLock],
        Admission::ExitModalMotion => seq![
            HandleStage::MovePointer,
            HandleStage::PointerActivity,
            HandleStage::Redraw,
        ],
        Admission::ExitModal => Seq::empty(),
        Admission::Proceed => match event {
            InputEvent::Touch => seq![HandleStage::Touch],
            InputEvent::Gesture => seq![HandleStage::Gesture],
            _ => steps::when(is_pointer_event(event), seq![HandleStage::PointerActivity]) + seq![
                HandleStage::FinishFrame,
                HandleStage::MovePointer,
                HandleStage::Continue,
            ],
        },
    })
}

/// What an event is about once nothing else has taken it.
pub open spec fn own_stages(event: InputEvent) -> Seq<HandleStage> {
    match event {
        InputEvent::PointerMotion => seq![
            HandleStage::RouteMotion,
            HandleStage::TellRelative,
            HandleStage::FinishFrame,
            HandleStage::Hover,
        ],
        InputEvent::PointerMotionAbsolute => seq![
            HandleStage::RouteMotion,
            HandleStage::TellRelative,
            HandleStage::FinishFrame,
            HandleStage::Hover,
        ],
        InputEvent::PointerButton { .. } => seq![HandleStage::Button],
        InputEvent::PointerAxis => seq![HandleStage::Axis],
        InputEvent::Keyboard => seq![HandleStage::Keyboard],
        _ => Seq::empty(),
    }
}

/// Where what is held is in no view, the event ends with it.
pub open spec fn drag_ends(grab: Grab, facts: DragFacts) -> bool {
    match grab {
        Grab::MoveWindow { .. } => facts.output_known && !facts.camera_known,
        Grab::ResizeWindow { .. } => !facts.output_known || !facts.camera_known,
        _ => false,
    }
}

/// What is done about an event once the pointer is where the event says. `lost` tells
/// that the event ends with what is held.
pub open spec fn last_stages(
    event: InputEvent,
    capture_active: bool,
    apogee_accepts: bool,
    constrained: ConstrainedMotion,
    lost: bool,
) -> Seq<HandleStage> {
    let modal = modal_pointer_of(event, capture_active, apogee_accepts);
    if modal != ModalPointer::Pass {
        seq![HandleStage::Modal(modal)]
    } else if constrained is RelativeOnly && is_motion_event(event) {
        seq![HandleStage::GoBack, HandleStage::TellRelative, HandleStage::FinishFrame]
    } else {
        steps::when(constrained == ConstrainedMotion::Hold, seq![HandleStage::GoBack]) + seq![
            HandleStage::Redraw,
            HandleStage::Drag,
        ] + steps::when(!lost, own_stages(event))
    }
}

/// Whether what is held is in no view.
fn loses_drag(grab: &Grab, facts: DragFacts) -> (r: bool)
    ensures
        r == drag_ends(*grab, facts),
{
    match grab {
        Grab::MoveWindow { .. } => facts.output_known && !facts.camera_known,
        Grab::ResizeWindow { .. } => !facts.output_known || !facts.camera_known,
        _ => false,
    }
}

/// Handles an event of an input device as far as the pointer. Where the last stage is to
/// go on, `handle_moved` says how.
pub fn handle(interaction: &mut InteractionState, event: InputEvent, locked: bool, exit_modal: bool)
    -> (list: Vec<HandleStage>)
    ensures
        list@ == first_stages(event, locked, exit_modal),
        final(interaction).suppressed_buttons@ == (if admission(event, locked, exit_modal)
            == Admission::ExitModal {
            modal_buttons(old(interaction).suppressed_buttons@, event)
        } else {
            old(interaction).suppressed_buttons@
        }),
        final(interaction).grab == old(interaction).grab,
        final(interaction).resize_anchor == old(interaction).resize_anchor,
        final(interaction).suppressed_keys == old(interaction).suppressed_keys,
        final(interaction).pointer_constraints == old(interaction).pointer_constraints,
        final(interaction).wheel_accumulator == (if event is PointerAxis && admission(
            event,
            locked,
            exit_modal,
        ) == Admission::ExitModal {
            (WheelAccumulator { horizontal_bits: 0, vertical_bits: 0 })
        } else {
            old(interaction).wheel_accumulator
        }),
{
    let mut list: Vec<HandleStage> = Vec::new();
    if is_user_activity(event) {
        list.push(HandleStage::NotifyActivity);
    }
    match first_taker(interaction, event, locked, exit_modal) {
        Admission::SessionLock => {
            list.push(HandleStage::SessionLock);
        },
        Admission::ExitModalMotion => {
            list.push(HandleStage::MovePointer);
            list.push(HandleStage::PointerActivity);
            list.push(HandleStage::Redraw);
        },
        Admission::ExitModal => {},
        Admission::Proceed => {
            match event {
                InputEvent::Touch => {
                    list.push(HandleStage::Touch);
                },
                InputEvent::Gesture => {
                    list.push(HandleStage::Gesture);
                },
                _ => {
                    if is_pointer(event) {
                        list.push(HandleStage::PointerActivity);
                    }
                    list.push(HandleStage::FinishFrame);
                    list.push(HandleStage::MovePointer);
                    list.push(HandleStage::Continue);
                },
            }
        },
    }
    assert(list@ =~= first_stages(event, locked, exit_modal));
    list
}

/// Handles an event once the pointer is where the event says. A key drops what was left of
/// a wheel step.
pub fn handle_moved(
    interaction: &mut InteractionState,
    event: InputEvent,
    capture_active: bool,
    apogee_accepts: bool,
    constrained: ConstrainedMotion,
    facts: DragFacts,
) -> (list: Vec<HandleStage>)
    ensures
        list@ == last_stages(
            event,
            capture_active,
            apogee_accepts,
            constrained,
            drag_ends(old(interaction).grab, facts),
        ),
        final(interaction).suppressed_buttons@ == (if modal_pointer_of(
            event,
            capture_active,
            apogee_accepts,
        ) != ModalPointer::Pass && crate::session::input::pointer::is_left_button(event) {
            modal_buttons(old(interaction).suppressed_buttons@, event)
        } else {
            old(interaction).suppressed_buttons@
        }),
        final(interaction).grab == old(interaction).grab,
        final(interaction).resize_anchor == old(interaction).resize_anchor,
        final(interaction).suppressed_keys == old(interaction).suppressed_keys,
        final(interaction).pointer_constraints == old(interaction).pointer_constraints,
        final(interaction).wheel_accumulator == (if event is Keyboard && !drag_ends(
            old(interaction).grab,
            facts,
        ) {
            (WheelAccumulator { horizontal_bits: 0, vertical_bits: 0 })
        } else {
            old(interaction).wheel_accumulator
        }),
{
    let mut list: Vec<HandleStage> = Vec::new();
    let lost = loses_drag(&interaction.grab, facts);
    let modal = modal_pointer(
        &mut interaction.suppressed_buttons,
        event,
        capture_active,
        apogee_accepts,
    );
    if modal != ModalPointer::Pass {
        list.push(HandleStage::Modal(modal));
        assert(list@ =~= last_stages(event, capture_active, apogee_accepts, constrained, lost));
        return list;
    }
    match motion_gate(constrained, event) {
        MotionGate::RelativeOnly => {
            list.push(HandleStage::GoBack);
            list.push(HandleStage::TellRelative);
            list.push(HandleStage::FinishFrame);
            assert(list@ =~= last_stages(event, capture_active, apogee_accepts, constrained, lost));
            return list;
        },
        MotionGate::Hold => {
            list.push(HandleStage::GoBack);
        },
        MotionGate::Apply => {},
    }
    list.push(HandleStage::Redraw);
    list.push(HandleStage::Drag);
    if lost {
        assert(list@ =~= last_stages(event, capture_active, apogee_accepts, constrained, lost));
        return list;
    }
    if is_motion(event) {
        list.push(HandleStage::RouteMotion);
        list.push(HandleStage::TellRelative);
        list.push(HandleStage::FinishFrame);
        list.push(HandleStage::Hover);
    }
    match event {
        InputEvent::PointerButton { .. } => {
            list.push(HandleStage::Button);
        },
        InputEvent::PointerAxis => {
            list.push(HandleStage::Axis);
        },
        InputEvent::Keyboard => {
            interaction.wheel_accumulator.reset_all();
            list.push(HandleStage::Keyboard);
        },
        _ => {},
    }
    assert(list@ =~= last_stages(event, capture_active, apogee_accepts, constrained, lost));
    list
}

/// The stage can reach a client.
pub open spec fn reaches_clients(stage: HandleStage) -> bool {
    stage is Touch || stage is Gesture || stage is TellRelative || stage is RouteMotion
        || stage is Button || stage is Axis || stage is Keyboard || stage is Continue
}

/// While the session is locked, or asks whether to leave, no event but a key in the
/// second case reaches a client.
pub proof fn modal_sessions_keep_clients_out(
    event: InputEvent,
    locked: bool,
    exit_modal: bool,
    index: int,
)
    requires
        locked || (exit_modal && event !is Keyboard),
        0 <= index < first_stages(event, locked, exit_modal).len(),
    ensures
        !reaches_clients(first_stages(event, locked, exit_modal)[index]),
{
}

/// What an overlay takes of the pointer reaches no client.
pub proof fn overlays_keep_the_pointer(
    event: InputEvent,
    capture_active: bool,
    apogee_accepts: bool,
    constrained: ConstrainedMotion,
    lost: bool,
    index: int,
)
    requires
        capture_active || apogee_accepts,
        is_pointer_event(event),
        0 <= index < last_stages(event, capture_active, apogee_accepts, constrained, lost).len(),
    ensures
        !reaches_clients(
            last_stages(event, capture_active, apogee_accepts, constrained, lost)[index],
        ),
{
}

/// The event ends with what is held exactly where the drag is abandoned.
pub proof fn abandoned_drags_end_the_event(grab: Grab, facts: DragFacts)
    ensures
        drag_ends(grab, facts) == drag_steps(grab, facts).contains(DragStep::Abandon),
{
    let list = drag_steps(grab, facts);
    if drag_ends(grab, facts) {
        assert(list[0] == DragStep::Abandon);
    } else {
        assert forall|i: int| 0 <= i < list.len() implies list[i] != DragStep::Abandon by {}
    }
}

/// One thing that is done about a turn of the wheel.
#[derive(Clone, Copy, Debug, PartialEq, Eq, Structural)]
pub enum AxisStage {
    /// What is under the pointer is looked for.
    Route,
    /// What is bound to the wheel happens, on the output under the pointer.
    DispatchActions,
    /// The client gets the axes that nothing is bound to.
    Forward { horizontal: bool, vertical: bool },
    FinishFrame,
}

pub open spec fn axis_stages(panned: bool, horizontal: bool, vertical: bool) -> Seq<AxisStage> {
    steps::when(
        !panned,
        seq![AxisStage::Route, AxisStage::DispatchActions] + steps::when(
            horizontal || vertical,
            seq![AxisStage::Forward { horizontal, vertical }],
        ),
    ) + seq![AxisStage::FinishFrame]
}

/// What is done about a turn of the wheel. Where it pans the field, nothing else comes
/// of it. `horizontal` and `vertical` tell which axes nothing is bound to.
pub fn handle_axis(panned: bool, horizontal: bool, vertical: bool) -> (list: Vec<AxisStage>)
    ensures
        list@ == axis_stages(panned, horizontal, vertical),
{
    let mut list: Vec<AxisStage> = Vec::new();
    if !panned {
        list.push(AxisStage::Route);
        list.push(AxisStage::DispatchActions);
        if horizontal || vertical {
            list.push(AxisStage::Forward { horizontal, vertical });
        }
    }
    list.push(AxisStage::FinishFrame);
    list
}

/// A locked pointer stays where it was, and its client is told the motion.
pub proof fn locked_pointers_go_back(event: InputEvent, constrained: ConstrainedMotion, lost: bool)
    requires
        is_motion_event(event),
        constrained is RelativeOnly,
    ensures
        last_stages(event, false, false, constrained, lost) == seq![
            HandleStage::GoBack,
            HandleStage::TellRelative,
            HandleStage::FinishFrame,
        ],
{
}

/// Every event that someone causes keeps the session from idling, and that comes first.
pub proof fn use_keeps_the_session_awake(event: InputEvent, locked: bool, exit_modal: bool)
    ensures
        first_stages(event, locked, exit_modal).contains(HandleStage::NotifyActivity)
            <==> !(event is DeviceAdded || event is DeviceRemoved || event is SwitchToggle || event
            is Special),
        first_stages(event, locked, exit_modal).contains(HandleStage::NotifyActivity)
            ==> first_stages(event, locked, exit_modal)[0] == HandleStage::NotifyActivity,
        first_stages(event, locked, exit_modal).contains(HandleStage::SessionLock) <==> locked,
{
    broadcast use steps::group_steps;

}

/// In a session that is neither locked nor about to end, touches and gestures go to those who
/// handle them. Every other event completes what clients were told before, moves the pointer
/// and goes on; only the pointer's own events bring the cursor back.
pub proof fn events_go_where_they_belong(event: InputEvent)
    ensures
        first_stages(event, false, false).contains(HandleStage::Touch) <==> event is Touch,
        first_stages(event, false, false).contains(HandleStage::Gesture) <==> event is Gesture,
        first_stages(event, false, false).contains(HandleStage::Continue) <==> !(event is Touch
            || event is Gesture),
        first_stages(event, false, false).contains(HandleStage::MovePointer) <==> !(event is Touch
            || event is Gesture),
        first_stages(event, false, false).contains(HandleStage::FinishFrame) <==> !(event is Touch
            || event is Gesture),
        first_stages(event, false, false).contains(HandleStage::PointerActivity) <==> event
            is PointerMotion || event is PointerMotionAbsolute || event is PointerButton || event
            is PointerAxis,
        !(event is Touch || event is Gesture) ==> first_stages(event, false, false).last()
            == HandleStage::Continue,
{
    broadcast use steps::group_steps;

}

/// While the question whether to leave is open, only the pointer's motion does anything: it
/// moves the pointer and is drawn.
pub proof fn the_exit_question_follows_the_pointer(event: InputEvent)
    ensures
        event is PointerMotion || event is PointerMotionAbsolute ==> first_stages(event, false, true)
            == seq![
            HandleStage::NotifyActivity,
            HandleStage::MovePointer,
            HandleStage::PointerActivity,
            HandleStage::Redraw,
        ],
        event is PointerButton || event is PointerAxis || event is Touch || event is Gesture || event
            is Tablet ==> first_stages(event, false, true) == seq![HandleStage::NotifyActivity],
{
}

/// An event that nothing takes lets what is held follow the pointer, and is then about what
/// it is: a motion reaches the client and may move the focus, a button asks its takers, the
/// wheel and the keys go their own way.
pub proof fn free_events_are_about_themselves(event: InputEvent, constrained: ConstrainedMotion)
    requires
        constrained == ConstrainedMotion::Apply,
    ensures
        last_stages(event, false, false, constrained, false)[0] == HandleStage::Redraw,
        last_stages(event, false, false, constrained, false)[1] == HandleStage::Drag,
        event is PointerMotion || event is PointerMotionAbsolute ==> last_stages(
            event,
            false,
            false,
            constrained,
            false,
        ) == seq![
            HandleStage::Redraw,
            HandleStage::Drag,
            HandleStage::RouteMotion,
            HandleStage::TellRelative,
            HandleStage::FinishFrame,
            HandleStage::Hover,
        ],
        last_stages(event, false, false, constrained, false).contains(HandleStage::Button)
            <==> event is PointerButton,
        last_stages(event, false, false, constrained, false).contains(HandleStage::Axis)
            <==> event is PointerAxis,
        last_stages(event, false, false, constrained, false).contains(HandleStage::Keyboard)
            <==> event is Keyboard,
        last_stages(event, false, false, constrained, true) == seq![
            HandleStage::Redraw,
            HandleStage::Drag,
        ],
{
    broadcast use steps::group_steps;

    assert(last_stages(event, false, false, constrained, true) =~= seq![
        HandleStage::Redraw,
        HandleStage::Drag,
    ]);
}

/// A confined pointer that would leave goes back, and the event is handled there.
pub proof fn confined_pointers_go_back_and_stay(event: InputEvent, lost: bool)
    ensures
        last_stages(event, false, false, ConstrainedMotion::Hold, lost) == seq![
            HandleStage::GoBack,
        ] + last_stages(event, false, false, ConstrainedMotion::Apply, lost),
{
    assert(last_stages(event, false, false, ConstrainedMotion::Hold, lost) =~= seq![
        HandleStage::GoBack,
    ] + last_stages(event, false, false, ConstrainedMotion::Apply, lost));
}

/// A wheel that pans the field does nothing else. Otherwise what is bound to it happens, and
/// the client gets exactly the axes that nothing is bound to. The frame is finished last.
pub proof fn clients_get_the_axes_that_are_left(panned: bool, horizontal: bool, vertical: bool)
    ensures
        panned ==> axis_stages(panned, horizontal, vertical) == seq![AxisStage::FinishFrame],
        axis_stages(panned, horizontal, vertical).contains(
            AxisStage::Forward { horizontal, vertical },
        ) <==> !panned && (horizontal || vertical),
        axis_stages(panned, horizontal, vertical).contains(AxisStage::DispatchActions) <==> !panned,
        !panned ==> axis_stages(panned, horizontal, vertical)[0] == AxisStage::Route,
        axis_stages(panned, horizontal, vertical).last() == AxisStage::FinishFrame,
{
    broadcast use steps::group_steps;

}

/// The event ends with what is held where a window that is moved has no camera to be moved
/// by, or one that is resized has no output or no camera.
pub proof fn what_is_held_ends_out_of_view(grab: Grab, facts: DragFacts)
    ensures
        drag_ends(grab, facts) <==> (grab is MoveWindow && facts.output_known
            && !facts.camera_known) || (grab is ResizeWindow && !(facts.output_known
            && facts.camera_known)),
{
}

/// Activity is noted before anything else, what was told before is complete before the pointer
/// moves, and the event goes on at last.
#[verifier::rlimit(50)]
pub proof fn events_begin_in_turn(event: InputEvent, locked: bool, exit_modal: bool)
    ensures
        !locked && !exit_modal ==> steps::comes_before(first_stages(event, locked, exit_modal), HandleStage::NotifyActivity, HandleStage::PointerActivity),
        !locked && !exit_modal ==> steps::comes_before(first_stages(event, locked, exit_modal), HandleStage::NotifyActivity, HandleStage::FinishFrame),
        !locked && !exit_modal ==> steps::comes_before(first_stages(event, locked, exit_modal), HandleStage::PointerActivity, HandleStage::FinishFrame),
        !locked && !exit_modal ==> steps::comes_before(first_stages(event, locked, exit_modal), HandleStage::PointerActivity, HandleStage::MovePointer),
        !locked && !exit_modal ==> steps::comes_before(first_stages(event, locked, exit_modal), HandleStage::FinishFrame, HandleStage::MovePointer),
        !locked && !exit_modal ==> steps::comes_before(first_stages(event, locked, exit_modal), HandleStage::FinishFrame, HandleStage::Continue),
        !locked && !exit_modal ==> steps::comes_before(first_stages(event, locked, exit_modal), HandleStage::MovePointer, HandleStage::Continue),
        exit_modal && !(event is Keyboard) ==> steps::comes_before(first_stages(event, locked, exit_modal), HandleStage::NotifyActivity, HandleStage::MovePointer),
        exit_modal && !(event is Keyboard) ==> steps::comes_before(first_stages(event, locked, exit_modal), HandleStage::NotifyActivity, HandleStage::PointerActivity),
        exit_modal && !(event is Keyboard) ==> steps::comes_before(first_stages(event, locked, exit_modal), HandleStage::NotifyActivity, HandleStage::Redraw),
        exit_modal && !(event is Keyboard) ==> steps::comes_before(first_stages(event, locked, exit_modal), HandleStage::MovePointer, HandleStage::PointerActivity),
        exit_modal && !(event is Keyboard) ==> steps::comes_before(first_stages(event, locked, exit_modal), HandleStage::MovePointer, HandleStage::Redraw),
        exit_modal && !(event is Keyboard) ==> steps::comes_before(first_stages(event, locked, exit_modal), HandleStage::PointerActivity, HandleStage::Redraw),
        steps::comes_before(first_stages(event, locked, exit_modal), HandleStage::NotifyActivity, HandleStage::SessionLock),
        steps::comes_before(first_stages(event, locked, exit_modal), HandleStage::NotifyActivity, HandleStage::Touch),
        steps::comes_before(first_stages(event, locked, exit_modal), HandleStage::NotifyActivity, HandleStage::Gesture),
{
    broadcast use {steps::group_steps, steps::group_orders};

}

/// A pointer that is held goes back before anything is drawn; what is held follows before the
/// client is told, and what is under the pointer gets the focus at last.
#[verifier::rlimit(50)]
pub proof fn events_end_in_turn(event: InputEvent, capture_active: bool, apogee_accepts: bool, constrained: ConstrainedMotion, lost: bool)
    ensures
        steps::comes_before(last_stages(event, capture_active, apogee_accepts, constrained, lost), HandleStage::GoBack, HandleStage::Redraw),
        steps::comes_before(last_stages(event, capture_active, apogee_accepts, constrained, lost), HandleStage::GoBack, HandleStage::Drag),
        steps::comes_before(last_stages(event, capture_active, apogee_accepts, constrained, lost), HandleStage::Redraw, HandleStage::Drag),
        steps::comes_before(last_stages(event, capture_active, apogee_accepts, constrained, lost), HandleStage::Redraw, HandleStage::RouteMotion),
        steps::comes_before(last_stages(event, capture_active, apogee_accepts, constrained, lost), HandleStage::Drag, HandleStage::RouteMotion),
        steps::comes_before(last_stages(event, capture_active, apogee_accepts, constrained, lost), HandleStage::Drag, HandleStage::TellRelative),
        steps::comes_before(last_stages(event, capture_active, apogee_accepts, constrained, lost), HandleStage::RouteMotion, HandleStage::TellRelative),
        steps::comes_before(last_stages(event, capture_active, apogee_accepts, constrained, lost), HandleStage::RouteMotion, HandleStage::FinishFrame),
        steps::comes_before(last_stages(event, capture_active, apogee_accepts, constrained, lost), HandleStage::TellRelative, HandleStage::FinishFrame),
        steps::comes_before(last_stages(event, capture_active, apogee_accepts, constrained, lost), HandleStage::TellRelative, HandleStage::Hover),
        steps::comes_before(last_stages(event, capture_active, apogee_accepts, constrained, lost), HandleStage::FinishFrame, HandleStage::Hover),
        steps::comes_before(last_stages(event, capture_active, apogee_accepts, constrained, lost), HandleStage::GoBack, HandleStage::TellRelative),
        steps::comes_before(last_stages(event, capture_active, apogee_accepts, constrained, lost), HandleStage::GoBack, HandleStage::FinishFrame),
        steps::comes_before(last_stages(event, capture_active, apogee_accepts, constrained, lost), HandleStage::TellRelative, HandleStage::FinishFrame),
        steps::comes_before(last_stages(event, capture_active, apogee_accepts, constrained, lost), HandleStage::Redraw, HandleStage::Drag),
        steps::comes_before(last_stages(event, capture_active, apogee_accepts, constrained, lost), HandleStage::Redraw, HandleStage::Button),
        steps::comes_before(last_stages(event, capture_active, apogee_accepts, constrained, lost), HandleStage::Drag, HandleStage::Button),
        steps::comes_before(last_stages(event, capture_active, apogee_accepts, constrained, lost), HandleStage::Drag, HandleStage::Axis),
        steps::comes_before(last_stages(event, capture_active, apogee_accepts, constrained, lost), HandleStage::Drag, HandleStage::Keyboard),
{
    broadcast use {steps::group_steps, steps::group_orders};

}

/// What is under the pointer is looked for before what is bound to the wheel happens, and the
/// client gets the rest before the frame is complete.
#[verifier::rlimit(50)]
pub proof fn the_wheel_turns_in_turn(panned: bool, horizontal: bool, vertical: bool)
    ensures
        steps::comes_before(axis_stages(panned, horizontal, vertical), AxisStage::Route, AxisStage::DispatchActions),
        steps::comes_before(axis_stages(panned, horizontal, vertical), AxisStage::Route, AxisStage::Forward { horizontal, vertical }),
        steps::comes_before(axis_stages(panned, horizontal, vertical), AxisStage::Route, AxisStage::FinishFrame),
        steps::comes_before(axis_stages(panned, horizontal, vertical), AxisStage::DispatchActions, AxisStage::Forward { horizontal, vertical }),
        steps::comes_before(axis_stages(panned, horizontal, vertical), AxisStage::DispatchActions, AxisStage::FinishFrame),
        steps::comes_before(axis_stages(panned, horizontal, vertical), AxisStage::Forward { horizontal, vertical }, AxisStage::FinishFrame),
{
    broadcast use {steps::group_steps, steps::group_orders};

}

} // verus!
