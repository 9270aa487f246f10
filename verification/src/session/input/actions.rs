//! Interpretation of configured actions.

use vstd::prelude::*;

use crate::ids::NodeId;
use crate::steps::copied;
use crate::steps::owned;
use crate::steps::str_of;
use crate::steps::text_of;
use crate::text::same_text;

verus! {

/// Which output a window action is about.
#[derive(Clone, Copy, Debug, PartialEq, Eq, Structural)]
pub enum FocusMode {
    Click,
    Hover,
}

#[derive(Clone, Copy, Debug, PartialEq, Eq, Structural)]
pub enum FocusCycleDirection {
    Forward,
    Backward,
}

#[derive(Clone, Copy, Debug, PartialEq, Eq, Structural)]
pub enum Heading {
    Left,
    Right,
    Up,
    Down,
}

#[derive(Clone, Copy, Debug, PartialEq, Eq, Structural)]
pub enum TrailDirection {
    Previous,
    Next,
}

/// The output that a monitor focus action asks for.
#[derive(Clone, Copy, Debug, PartialEq, Eq, Structural)]
pub enum MonitorTarget {
    Toward(Heading),
    Number(u8),
}

/// An action that a binding asks for.
#[derive(Debug)]
pub enum Action {
    Quit,
    CloseFocusedWindow,
    ToggleFullscreen,
    ToggleFieldMaximize,
    ToggleState,
    ToggleFocusedPin,
    Apogee,
    FocusCycle(FocusCycleDirection),
    Trail(TrailDirection),
    FocusDirection(Heading),
    MoveNode(Heading),
    ResizeWindow(Heading),
    CenterLastFocused,
    ClusterMode,
    ClusterLayoutCycle,
    ClusterToggleFloat,
    ClusterSlot(u8),
    ClusterTileFocus(Heading),
    ClusterTileSwap(Heading),
    MonitorFocus(MonitorTarget),
    Reload,
    BearingsShow,
    BearingsToggle,
    OpenTerminal,
    ZoomOut,
    ZoomIn,
    ZoomReset,
    Screenshot,
    Spawn(String),
}

/// What a session does about an action beyond the work every backend shares.
#[derive(Clone, Copy, Debug, PartialEq, Eq, Structural)]
pub enum SessionControl {
    Continue,
    Quit,
    CloseFocusedWindow,
    Screenshot,
    ToggleFullscreen,
    ToggleFieldMaximize,
    ToggleState,
    ToggleFocusedPin,
    Apogee,
    FocusCycle(FocusCycleDirection),
    Trail(TrailDirection),
    FocusDirection(Heading),
    MoveNode(Heading),
    ResizeWindow(Heading),
    CenterLastFocused,
    BearingsShow,
    BearingsToggle,
    ClusterMode,
    ClusterLayoutCycle,
    ClusterToggleFloat,
    ClusterSlot(u8),
    ClusterTileFocus(Heading),
    ClusterTileSwap(Heading),
    MonitorFocus(MonitorTarget),
    Reload,
}

/// The work that every backend shares.
#[derive(Debug)]
pub enum SharedEffect {
    Nothing,
    Launch(String),
    NoTerminal,
    ZoomOut,
    ZoomIn,
    ZoomReset,
}

/// An action that moves the zoom of a camera.
pub open spec fn is_zoom(action: Action) -> bool {
    action is ZoomIn || action is ZoomOut || action is ZoomReset
}

/// Whether an action moves the zoom of a camera.
pub fn is_zoom_action(action: &Action) -> (zoom: bool)
    ensures
        zoom == is_zoom(*action),
{
    match action {
        Action::ZoomIn => true,
        Action::ZoomOut => true,
        Action::ZoomReset => true,
        _ => false,
    }
}

/// The output that a window action is about: with hover focus the one under the
/// pointer, where there is one, otherwise the selected one.
pub fn window_action_output(
    focus_mode: FocusMode,
    pointer_output: Option<&str>,
    selected_output: Option<&str>,
) -> (output: Option<String>)
    ensures
        text_of(output) == (if focus_mode == FocusMode::Hover && pointer_output is Some {
            str_of(pointer_output)
        } else {
            str_of(selected_output)
        }),
{
    match focus_mode {
        FocusMode::Hover => match pointer_output {
            Some(pointer_output) => Some(pointer_output.to_owned()),
            None => owned(selected_output),
        },
        FocusMode::Click => owned(selected_output),
    }
}

/// An active cluster holds the zoom of its output.
pub fn cluster_blocks_zoom(action: &Action, active_cluster: bool) -> (blocks: bool)
    ensures
        blocks == (active_cluster && is_zoom(*action)),
{
    active_cluster && is_zoom_action(action)
}

/// The control that an action asks for; actions that a backend shares ask for none.
pub open spec fn control_of(action: Action) -> SessionControl {
    match action {
        Action::Quit => SessionControl::Quit,
        Action::CloseFocusedWindow => SessionControl::CloseFocusedWindow,
        Action::ToggleFullscreen => SessionControl::ToggleFullscreen,
        Action::ToggleFieldMaximize => SessionControl::ToggleFieldMaximize,
        Action::ToggleState => SessionControl::ToggleState,
        Action::ToggleFocusedPin => SessionControl::ToggleFocusedPin,
        Action::Apogee => SessionControl::Apogee,
        Action::FocusCycle(direction) => SessionControl::FocusCycle(direction),
        Action::Trail(direction) => SessionControl::Trail(direction),
        Action::FocusDirection(heading) => SessionControl::FocusDirection(heading),
        Action::MoveNode(heading) => SessionControl::MoveNode(heading),
        Action::ResizeWindow(heading) => SessionControl::ResizeWindow(heading),
        Action::CenterLastFocused => SessionControl::CenterLastFocused,
        Action::ClusterMode => SessionControl::ClusterMode,
        Action::ClusterLayoutCycle => SessionControl::ClusterLayoutCycle,
        Action::ClusterToggleFloat => SessionControl::ClusterToggleFloat,
        Action::ClusterSlot(slot) => SessionControl::ClusterSlot(slot),
        Action::ClusterTileFocus(heading) => SessionControl::ClusterTileFocus(heading),
        Action::ClusterTileSwap(heading) => SessionControl::ClusterTileSwap(heading),
        Action::MonitorFocus(target) => SessionControl::MonitorFocus(target),
        Action::Reload => SessionControl::Reload,
        Action::BearingsShow => SessionControl::BearingsShow,
        Action::BearingsToggle => SessionControl::BearingsToggle,
        Action::Screenshot => SessionControl::Screenshot,
        Action::OpenTerminal | Action::ZoomOut | Action::ZoomIn | Action::ZoomReset | Action::Spawn(
            _,
        ) => SessionControl::Continue,
    }
}

/// Interprets an action once for both session backends: the control that is left
/// to the session, and the effect that both share. A zoom needs a camera, a
/// terminal its command.
pub fn dispatch_action(action: Action, terminal_command: Option<&str>, camera: bool) -> (r: (
    SessionControl,
    SharedEffect,
))
    ensures
        r.0 == control_of(action),
        match action {
            Action::OpenTerminal => match terminal_command {
                Some(command) => r.1 matches SharedEffect::Launch(line) && line@ == command@,
                None => r.1 is NoTerminal,
            },
            Action::Spawn(command) => r.1 matches SharedEffect::Launch(line) && line@ == command@,
            Action::ZoomOut => if camera {
                r.1 is ZoomOut
            } else {
                r.1 is Nothing
            },
            Action::ZoomIn => if camera {
                r.1 is ZoomIn
            } else {
                r.1 is Nothing
            },
            Action::ZoomReset => if camera {
                r.1 is ZoomReset
            } else {
                r.1 is Nothing
            },
            _ => r.1 is Nothing,
        },
{
    let effect = SharedEffect::Nothing;
    match action {
        Action::Quit => (SessionControl::Quit, effect),
        Action::CloseFocusedWindow => (SessionControl::CloseFocusedWindow, effect),
        Action::ToggleFullscreen => (SessionControl::ToggleFullscreen, effect),
        Action::ToggleFieldMaximize => (SessionControl::ToggleFieldMaximize, effect),
        Action::ToggleState => (SessionControl::ToggleState, effect),
        Action::ToggleFocusedPin => (SessionControl::ToggleFocusedPin, effect),
        Action::Apogee => (SessionControl::Apogee, effect),
        Action::FocusCycle(direction) => (SessionControl::FocusCycle(direction), effect),
        Action::Trail(direction) => (SessionControl::Trail(direction), effect),
        Action::FocusDirection(heading) => (SessionControl::FocusDirection(heading), effect),
        Action::MoveNode(heading) => (SessionControl::MoveNode(heading), effect),
        Action::ResizeWindow(heading) => (SessionControl::ResizeWindow(heading), effect),
        Action::CenterLastFocused => (SessionControl::CenterLastFocused, effect),
        Action::ClusterMode => (SessionControl::ClusterMode, effect),
        Action::ClusterLayoutCycle => (SessionControl::ClusterLayoutCycle, effect),
        Action::ClusterToggleFloat => (SessionControl::ClusterToggleFloat, effect),
        Action::ClusterSlot(slot) => (SessionControl::ClusterSlot(slot), effect),
        Action::ClusterTileFocus(heading) => (SessionControl::ClusterTileFocus(heading), effect),
        Action::ClusterTileSwap(heading) => (SessionControl::ClusterTileSwap(heading), effect),
        Action::MonitorFocus(target) => (SessionControl::MonitorFocus(target), effect),
        Action::Reload => (SessionControl::Reload, effect),
        Action::BearingsShow => (SessionControl::BearingsShow, effect),
        Action::BearingsToggle => (SessionControl::BearingsToggle, effect),
        Action::Screenshot => (SessionControl::Screenshot, effect),
        Action::OpenTerminal => match terminal_command {
            Some(command) => (SessionControl::Continue, SharedEffect::Launch(command.to_owned())),
            None => (SessionControl::Continue, SharedEffect::NoTerminal),
        },
        Action::ZoomOut => (
            SessionControl::Continue,
            if camera {
                SharedEffect::ZoomOut
            } else {
                effect
            },
        ),
        Action::ZoomIn => (
            SessionControl::Continue,
            if camera {
                SharedEffect::ZoomIn
            } else {
                effect
            },
        ),
        Action::ZoomReset => (
            SessionControl::Continue,
            if camera {
                SharedEffect::ZoomReset
            } else {
                effect
            },
        ),
        Action::Spawn(command) => (SessionControl::Continue, SharedEffect::Launch(command)),
    }
}

/// What an action is interpreted against.
#[derive(Debug)]
pub struct DispatchFacts {
    pub focus_mode: FocusMode,
    /// The output under the pointer.
    pub output_name: Option<String>,
    pub selected_output: Option<String>,
    /// A cluster is active on the output under the pointer.
    pub pointer_clustered: bool,
    /// A cluster is active on the output that window actions are about.
    pub action_clustered: bool,
    /// The output under the pointer has a camera.
    pub camera: bool,
    /// The key that asked for the action and is still down.
    pub held_keycode: Option<u32>,
    /// The configuration file is watched.
    pub watched: bool,
}

/// What a session is to do about an action.
#[allow(inconsistent_fields)]
#[derive(Debug)]
pub enum Command {
    Nothing,
    ShowExitConfirmation,
    CloseFocused { output: Option<String> },
    ToggleFullscreen { output: Option<String> },
    ToggleFieldMaximize { output: Option<String> },
    ToggleState { output: Option<String> },
    ToggleFocusedPin { output: Option<String> },
    ToggleApogee,
    CycleFocus { output: Option<String>, direction: FocusCycleDirection },
    Trail { output: Option<String>, direction: TrailDirection },
    NavigateCluster { output: String, heading: Heading, swap: bool },
    FocusField { output: String, heading: Heading },
    MoveNode { output: String, heading: Heading },
    ResizeWindow { output: String, heading: Heading },
    CenterLastFocused { output: String },
    BeginClusterCreation { output: String },
    CycleClusterLayout { output: String },
    ToggleClusterFloat { output: Option<String> },
    ActivateClusterSlot { output: String, slot: u8 },
    FocusMonitor(MonitorTarget),
    RequestReload,
    ReloadUnavailable,
    ShowBearings { held_keycode: Option<u32> },
    ToggleBearings,
    TakeScreenshot { output: Option<String> },
}

/// The output that window actions are about.
pub open spec fn action_output(facts: DispatchFacts) -> Option<Seq<char>> {
    if facts.focus_mode == FocusMode::Hover && facts.output_name is Some {
        text_of(facts.output_name)
    } else {
        text_of(facts.selected_output)
    }
}

/// A zoom that the cluster of the output under the pointer holds back.
pub open spec fn zoom_blocked(action: Action, facts: DispatchFacts) -> bool {
    facts.output_name is Some && facts.pointer_clustered && is_zoom(action)
}

/// `command` is what `control` asks for. A command on a window's output that is
/// missing does nothing, except for those that then act on the focused window.
pub open spec fn is_command(
    command: Command,
    control: SessionControl,
    facts: DispatchFacts,
) -> bool {
    let out = action_output(facts);
    match control {
        SessionControl::Continue => command is Nothing,
        SessionControl::Quit => command is ShowExitConfirmation,
        SessionControl::CloseFocusedWindow => command matches Command::CloseFocused { output }
            && text_of(output) == out,
        SessionControl::ToggleFullscreen => command matches Command::ToggleFullscreen { output }
            && text_of(output) == out,
        SessionControl::ToggleFieldMaximize => command matches Command::ToggleFieldMaximize {
            output,
        } && text_of(output) == out,
        SessionControl::ToggleState => command matches Command::ToggleState { output } && text_of(
            output,
        ) == out,
        SessionControl::ToggleFocusedPin => command matches Command::ToggleFocusedPin { output }
            && text_of(output) == out,
        SessionControl::Apogee => command is ToggleApogee,
        SessionControl::FocusCycle(way) => command matches Command::CycleFocus { output, direction }
            && text_of(output) == out && direction == way,
        SessionControl::Trail(way) => command matches Command::Trail { output, direction }
            && text_of(output) == out && direction == way,
        SessionControl::FocusDirection(way) => match out {
            Some(name) => if facts.action_clustered {
                command matches Command::NavigateCluster { output, heading, swap } && output@
                    == name && heading == way && !swap
            } else {
                command matches Command::FocusField { output, heading } && output@ == name
                    && heading == way
            },
            None => command is Nothing,
        },
        SessionControl::MoveNode(way) => if out is Some && !facts.action_clustered {
            command matches Command::MoveNode { output, heading } && Some(output@) == out
                && heading == way
        } else {
            command is Nothing
        },
        SessionControl::ResizeWindow(way) => if out is Some && !facts.action_clustered {
            command matches Command::ResizeWindow { output, heading } && Some(output@) == out
                && heading == way
        } else {
            command is Nothing
        },
        SessionControl::CenterLastFocused => match out {
            Some(name) => command matches Command::CenterLastFocused { output } && output@ == name,
            None => command is Nothing,
        },
        SessionControl::ClusterMode => match out {
            Some(name) => command matches Command::BeginClusterCreation { output } && output@
                == name,
            None => command is Nothing,
        },
        SessionControl::ClusterLayoutCycle => match out {
            Some(name) => command matches Command::CycleClusterLayout { output } && output@ == name,
            None => command is Nothing,
        },
        SessionControl::ClusterToggleFloat => command matches Command::ToggleClusterFloat { output }
            && text_of(output) == out,
        SessionControl::ClusterSlot(number) => match out {
            Some(name) => command matches Command::ActivateClusterSlot { output, slot } && output@
                == name && slot == number,
            None => command is Nothing,
        },
        SessionControl::ClusterTileFocus(way) => match out {
            Some(name) => command matches Command::NavigateCluster { output, heading, swap }
                && output@ == name && heading == way && !swap,
            None => command is Nothing,
        },
        SessionControl::ClusterTileSwap(way) => match out {
            Some(name) => command matches Command::NavigateCluster { output, heading, swap }
                && output@ == name && heading == way && swap,
            None => command is Nothing,
        },
        SessionControl::MonitorFocus(wanted) => command == Command::FocusMonitor(wanted),
        SessionControl::Reload => if facts.watched {
            command is RequestReload
        } else {
            command is ReloadUnavailable
        },
        SessionControl::BearingsShow => command matches Command::ShowBearings { held_keycode }
            && held_keycode == facts.held_keycode,
        SessionControl::BearingsToggle => command is ToggleBearings,
        SessionControl::Screenshot => command matches Command::TakeScreenshot { output }
            && text_of(output) == text_of(facts.output_name),
    }
}

fn resolve(control: SessionControl, out: Option<String>, facts: &DispatchFacts) -> (command:
    Command)
    requires
        text_of(out) == action_output(*facts),
    ensures
        is_command(command, control, *facts),
{
    match control {
        SessionControl::Continue => Command::Nothing,
        SessionControl::Quit => Command::ShowExitConfirmation,
        SessionControl::CloseFocusedWindow => Command::CloseFocused { output: out },
        SessionControl::ToggleFullscreen => Command::ToggleFullscreen { output: out },
        SessionControl::ToggleFieldMaximize => Command::ToggleFieldMaximize { output: out },
        SessionControl::ToggleState => Command::ToggleState { output: out },
        SessionControl::ToggleFocusedPin => Command::ToggleFocusedPin { output: out },
        SessionControl::Apogee => Command::ToggleApogee,
        SessionControl::FocusCycle(direction) => Command::CycleFocus { output: out, direction },
        SessionControl::Trail(direction) => Command::Trail { output: out, direction },
        SessionControl::FocusDirection(heading) => match out {
            Some(output) => if facts.action_clustered {
                Command::NavigateCluster { output, heading, swap: false }
            } else {
                Command::FocusField { output, heading }
            },
            None => Command::Nothing,
        },
        SessionControl::MoveNode(heading) => match out {
            Some(output) => if facts.action_clustered {
                Command::Nothing
            } else {
                Command::MoveNode { output, heading }
            },
            None => Command::Nothing,
        },
        SessionControl::ResizeWindow(heading) => match out {
            Some(output) => if facts.action_clustered {
                Command::Nothing
            } else {
                Command::ResizeWindow { output, heading }
            },
            None => Command::Nothing,
        },
        SessionControl::CenterLastFocused => match out {
            Some(output) => Command::CenterLastFocused { output },
            None => Command::Nothing,
        },
        SessionControl::ClusterMode => match out {
            Some(output) => Command::BeginClusterCreation { output },
            None => Command::Nothing,
        },
        SessionControl::ClusterLayoutCycle => match out {
            Some(output) => Command::CycleClusterLayout { output },
            None => Command::Nothing,
        },
        SessionControl::ClusterToggleFloat => Command::ToggleClusterFloat { output: out },
        SessionControl::ClusterSlot(slot) => match out {
            Some(output) => Command::ActivateClusterSlot { output, slot },
            None => Command::Nothing,
        },
        SessionControl::ClusterTileFocus(heading) => match out {
            Some(output) => Command::NavigateCluster { output, heading, swap: false },
            None => Command::Nothing,
        },
        SessionControl::ClusterTileSwap(heading) => match out {
            Some(output) => Command::NavigateCluster { output, heading, swap: true },
            None => Command::Nothing,
        },
        SessionControl::MonitorFocus(target) => Command::FocusMonitor(target),
        SessionControl::Reload => if facts.watched {
            Command::RequestReload
        } else {
            Command::ReloadUnavailable
        },
        SessionControl::BearingsShow => Command::ShowBearings { held_keycode: facts.held_keycode },
        SessionControl::BearingsToggle => Command::ToggleBearings,
        SessionControl::Screenshot => Command::TakeScreenshot { output: copied(&facts.output_name) },
    }
}

/// What an action comes to.
#[derive(Debug)]
pub struct Dispatch {
    pub effect: SharedEffect,
    pub command: Command,
    /// The output whose landmarks follow the new zoom, if it has a camera.
    pub zoomed_output: Option<String>,
}

/// Interprets an action against the state of the session.
pub fn dispatch(action: Action, terminal_command: Option<&str>, facts: &DispatchFacts) -> (r:
    Dispatch)
    ensures
        is_command(r.command, control_of(action), *facts),
        text_of(r.zoomed_output) == (if is_zoom(action) && !zoom_blocked(action, *facts) {
            text_of(facts.output_name)
        } else {
            None
        }),
        match action {
            Action::OpenTerminal => match terminal_command {
                Some(command) => r.effect matches SharedEffect::Launch(line) && line@ == command@,
                None => r.effect is NoTerminal,
            },
            Action::Spawn(command) => r.effect matches SharedEffect::Launch(line) && line@
                == command@,
            Action::ZoomOut => (r.effect is ZoomOut <==> zooms(action, *facts)) && (r.effect
                is ZoomOut || r.effect is Nothing),
            Action::ZoomIn => (r.effect is ZoomIn <==> zooms(action, *facts)) && (r.effect is ZoomIn
                || r.effect is Nothing),
            Action::ZoomReset => (r.effect is ZoomReset <==> zooms(action, *facts)) && (r.effect
                is ZoomReset || r.effect is Nothing),
            _ => r.effect is Nothing,
        },
{
    let zoom = is_zoom_action(&action);
    let blocked = match &facts.output_name {
        Some(_) => cluster_blocks_zoom(&action, facts.pointer_clustered),
        None => false,
    };
    let camera = !blocked && facts.output_name.is_some() && facts.camera;
    let pointer_output = match &facts.output_name {
        Some(name) => Some(name.as_str()),
        None => None,
    };
    let selected_output = match &facts.selected_output {
        Some(name) => Some(name.as_str()),
        None => None,
    };
    let out = window_action_output(facts.focus_mode, pointer_output, selected_output);
    let (control, effect) = dispatch_action(action, terminal_command, camera);
    let command = resolve(control, out, facts);
    let zoomed_output = if zoom && !blocked {
        copied(&facts.output_name)
    } else {
        None
    };
    Dispatch { effect, command, zoomed_output }
}

/// The zoom action reaches a camera.
pub open spec fn zooms(action: Action, facts: DispatchFacts) -> bool {
    facts.output_name is Some && facts.camera && !zoom_blocked(action, facts)
}

/// What stepping through the stack of an output's cluster came to.
#[derive(Clone, Copy, Debug, PartialEq, Eq, Structural)]
pub enum StackCycleOutcome {
    NotActive,
    Unchanged,
    Cycled(NodeId),
}

/// What a focus cycle does next.
#[derive(Clone, Copy, Debug, PartialEq, Eq, Structural)]
pub enum FocusCycleStep {
    Nothing,
    FocusMember(NodeId),
    StepOverlay,
}

/// A cluster's stack takes the cycle where one is active; the overlay otherwise.
pub fn focus_cycle_step(outcome: StackCycleOutcome) -> (step: FocusCycleStep)
    ensures
        match outcome {
            StackCycleOutcome::Cycled(member) => step == FocusCycleStep::FocusMember(member),
            StackCycleOutcome::Unchanged => step is Nothing,
            StackCycleOutcome::NotActive => step is StepOverlay,
        },
{
    match outcome {
        StackCycleOutcome::Cycled(member) => FocusCycleStep::FocusMember(member),
        StackCycleOutcome::Unchanged => FocusCycleStep::Nothing,
        StackCycleOutcome::NotActive => FocusCycleStep::StepOverlay,
    }
}

/// Whether a screenshot may be of a window: one is on the output, or has no output
/// of its own while the output is the primary one.
pub fn window_available(
    windows: &Vec<(bool, Option<String>)>,
    output_name: Option<&str>,
    primary: &str,
) -> (available: bool)
    ensures
        available <==> exists|i: int|
            0 <= i < windows@.len() && window_counts(
                #[trigger] windows@[i],
                str_of(output_name),
                primary@,
            ),
{
    let mut index: usize = 0;
    while index < windows.len()
        invariant
            index <= windows@.len(),
            forall|i: int|
                0 <= i < index ==> !window_counts(
                    #[trigger] windows@[i],
                    str_of(output_name),
                    primary@,
                ),
        decreases windows@.len() - index,
    {
        let window = &windows[index];
        let counts = window.0 && match output_name {
            Some(output_name) => match &window.1 {
                Some(name) => same_text(name.as_str(), output_name),
                None => same_text(output_name, primary),
            },
            None => false,
        };
        if counts {
            assert(window_counts(windows@[index as int], str_of(output_name), primary@));
            return true;
        }
        index += 1;
    }
    false
}

/// A window with a surface counts for an output that it is on.
pub open spec fn window_counts(
    window: (bool, Option<String>),
    output: Option<Seq<char>>,
    primary: Seq<char>,
) -> bool {
    &&& window.0
    &&& match text_of(window.1) {
        Some(name) => Some(name) == output,
        None => output == Some(primary),
    }
}

/// An action that steps, points or counts asks for the same step, direction or number, and
/// each of the others for what it is named after. Zooming and launching ask for nothing
/// more.
pub proof fn controls_keep_what_actions_say(
    heading: Heading,
    way: FocusCycleDirection,
    trail: TrailDirection,
    slot: u8,
    target: MonitorTarget,
    command: String,
)
    ensures
        control_of(Action::FocusDirection(heading)) == SessionControl::FocusDirection(heading),
        control_of(Action::MoveNode(heading)) == SessionControl::MoveNode(heading),
        control_of(Action::ResizeWindow(heading)) == SessionControl::ResizeWindow(heading),
        control_of(Action::ClusterTileFocus(heading)) == SessionControl::ClusterTileFocus(heading),
        control_of(Action::ClusterTileSwap(heading)) == SessionControl::ClusterTileSwap(heading),
        control_of(Action::FocusCycle(way)) == SessionControl::FocusCycle(way),
        control_of(Action::Trail(trail)) == SessionControl::Trail(trail),
        control_of(Action::ClusterSlot(slot)) == SessionControl::ClusterSlot(slot),
        control_of(Action::MonitorFocus(target)) == SessionControl::MonitorFocus(target),
        control_of(Action::Quit) == SessionControl::Quit,
        control_of(Action::CloseFocusedWindow) == SessionControl::CloseFocusedWindow,
        control_of(Action::ToggleFullscreen) == SessionControl::ToggleFullscreen,
        control_of(Action::ToggleFieldMaximize) == SessionControl::ToggleFieldMaximize,
        control_of(Action::ToggleState) == SessionControl::ToggleState,
        control_of(Action::ToggleFocusedPin) == SessionControl::ToggleFocusedPin,
        control_of(Action::Apogee) == SessionControl::Apogee,
        control_of(Action::CenterLastFocused) == SessionControl::CenterLastFocused,
        control_of(Action::ClusterMode) == SessionControl::ClusterMode,
        control_of(Action::ClusterLayoutCycle) == SessionControl::ClusterLayoutCycle,
        control_of(Action::ClusterToggleFloat) == SessionControl::ClusterToggleFloat,
        control_of(Action::Reload) == SessionControl::Reload,
        control_of(Action::BearingsShow) == SessionControl::BearingsShow,
        control_of(Action::BearingsToggle) == SessionControl::BearingsToggle,
        control_of(Action::Screenshot) == SessionControl::Screenshot,
        control_of(Action::OpenTerminal) == SessionControl::Continue,
        control_of(Action::Spawn(command)) == SessionControl::Continue,
        control_of(Action::ZoomIn) == SessionControl::Continue,
        control_of(Action::ZoomOut) == SessionControl::Continue,
        control_of(Action::ZoomReset) == SessionControl::Continue,
{
}

/// Where the focus follows the pointer, windows are acted on under it; else, and where no
/// output is under it, on the output that is selected.
pub proof fn actions_are_about_the_output_in_use(facts: DispatchFacts)
    ensures
        facts.focus_mode == FocusMode::Hover && facts.output_name is Some ==> action_output(facts)
            == Some(facts.output_name->0@),
        (facts.focus_mode == FocusMode::Click || facts.output_name is None)
            && facts.selected_output is Some ==> action_output(facts) == Some(
            facts.selected_output->0@,
        ),
        (facts.focus_mode == FocusMode::Click || facts.output_name is None)
            && facts.selected_output is None ==> action_output(facts) is None,
{
}

/// The three zoom actions, and only they, are held back by a cluster that is active on the
/// output under the pointer. What is not held back reaches the camera there, if there is one.
pub proof fn clusters_hold_the_zoom(action: Action, facts: DispatchFacts)
    ensures
        is_zoom(action) <==> action is ZoomIn || action is ZoomOut || action is ZoomReset,
        zoom_blocked(action, facts) <==> (action is ZoomIn || action is ZoomOut || action
            is ZoomReset) && facts.pointer_clustered && facts.output_name is Some,
        action is ZoomIn || action is ZoomOut || action is ZoomReset ==> (zooms(action, facts)
            <==> facts.output_name is Some && facts.camera && !facts.pointer_clustered),
{
}

/// Directions are kept: in a cluster the focus goes on to its tiles, in the field to its
/// windows. A swap is a swap and a step is a step. What is moved or resized is not in a
/// cluster.
pub proof fn commands_keep_the_direction(command: Command, facts: DispatchFacts, way: Heading)
    requires
        action_output(facts) is Some,
    ensures
        is_command(command, SessionControl::FocusDirection(way), facts) && facts.action_clustered
            ==> command is NavigateCluster && command->NavigateCluster_heading == way
            && !command->swap && command->NavigateCluster_output@ == action_output(facts)->0,
        is_command(command, SessionControl::FocusDirection(way), facts) && !facts.action_clustered
            ==> command is FocusField && command->FocusField_heading == way
            && command->FocusField_output@ == action_output(facts)->0,
        is_command(command, SessionControl::MoveNode(way), facts) ==> (command is MoveNode
            <==> !facts.action_clustered) && (command is MoveNode ==> command->MoveNode_heading
            == way && command->MoveNode_output@ == action_output(facts)->0) && (command is Nothing
            <==> facts.action_clustered),
        is_command(command, SessionControl::ResizeWindow(way), facts) ==> (command is ResizeWindow
            <==> !facts.action_clustered) && (command is ResizeWindow
            ==> command->ResizeWindow_heading == way && command->ResizeWindow_output@
            == action_output(facts)->0) && (command is Nothing <==> facts.action_clustered),
        is_command(command, SessionControl::ClusterTileFocus(way), facts) ==> command
            is NavigateCluster && command->NavigateCluster_heading == way && !command->swap
            && command->NavigateCluster_output@ == action_output(facts)->0,
        is_command(command, SessionControl::ClusterTileSwap(way), facts) ==> command
            is NavigateCluster && command->NavigateCluster_heading == way && command->swap
            && command->NavigateCluster_output@ == action_output(facts)->0,
{
}

/// What is asked of a window is asked on the output that actions are about, and of the
/// focused window where there is none. A screenshot is of the output under the pointer.
pub proof fn commands_are_for_the_output_in_use(
    command: Command,
    facts: DispatchFacts,
    way: FocusCycleDirection,
    trail: TrailDirection,
)
    ensures
        is_command(command, SessionControl::CloseFocusedWindow, facts) ==> command is CloseFocused
            && text_of(command->CloseFocused_output) == action_output(facts),
        is_command(command, SessionControl::ToggleFullscreen, facts) ==> command is ToggleFullscreen
            && text_of(command->ToggleFullscreen_output) == action_output(facts),
        is_command(command, SessionControl::ToggleFieldMaximize, facts) ==> command
            is ToggleFieldMaximize && text_of(command->ToggleFieldMaximize_output) == action_output(
            facts,
        ),
        is_command(command, SessionControl::ToggleState, facts) ==> command is ToggleState
            && text_of(command->ToggleState_output) == action_output(facts),
        is_command(command, SessionControl::ToggleFocusedPin, facts) ==> command is ToggleFocusedPin
            && text_of(command->ToggleFocusedPin_output) == action_output(facts),
        is_command(command, SessionControl::FocusCycle(way), facts) ==> command is CycleFocus
            && command->CycleFocus_direction == way && text_of(command->CycleFocus_output)
            == action_output(facts),
        is_command(command, SessionControl::Trail(trail), facts) ==> command is Trail
            && command->Trail_direction == trail && text_of(command->Trail_output) == action_output(
            facts,
        ),
        is_command(command, SessionControl::ClusterToggleFloat, facts) ==> command
            is ToggleClusterFloat && text_of(command->ToggleClusterFloat_output) == action_output(
            facts,
        ),
        is_command(command, SessionControl::Screenshot, facts) ==> command is TakeScreenshot
            && text_of(command->TakeScreenshot_output) == text_of(facts.output_name),
        is_command(command, SessionControl::Quit, facts) ==> command is ShowExitConfirmation,
        is_command(command, SessionControl::Apogee, facts) ==> command is ToggleApogee,
        is_command(command, SessionControl::BearingsToggle, facts) ==> command is ToggleBearings,
        is_command(command, SessionControl::BearingsShow, facts) ==> command
            == (Command::ShowBearings { held_keycode: facts.held_keycode }),
        is_command(command, SessionControl::Reload, facts) ==> (command is RequestReload
            <==> facts.watched) && (command is ReloadUnavailable <==> !facts.watched),
        is_command(command, SessionControl::Continue, facts) ==> command is Nothing,
{
}

/// What needs an output is done on the one that actions are about, and not at all where there
/// is none.
pub proof fn commands_need_their_output(
    command: Command,
    facts: DispatchFacts,
    number: u8,
    wanted: MonitorTarget,
)
    ensures
        is_command(command, SessionControl::CenterLastFocused, facts) ==> match action_output(
            facts,
        ) {
            Some(name) => command is CenterLastFocused && command->CenterLastFocused_output@ == name,
            None => command is Nothing,
        },
        is_command(command, SessionControl::ClusterMode, facts) ==> match action_output(facts) {
            Some(name) => command is BeginClusterCreation && command->BeginClusterCreation_output@
                == name,
            None => command is Nothing,
        },
        is_command(command, SessionControl::ClusterLayoutCycle, facts) ==> match action_output(
            facts,
        ) {
            Some(name) => command is CycleClusterLayout && command->CycleClusterLayout_output@
                == name,
            None => command is Nothing,
        },
        is_command(command, SessionControl::ClusterSlot(number), facts) ==> match action_output(
            facts,
        ) {
            Some(name) => command is ActivateClusterSlot && command->ActivateClusterSlot_output@
                == name && command->slot == number,
            None => command is Nothing,
        },
        is_command(command, SessionControl::MonitorFocus(wanted), facts) ==> command
            == Command::FocusMonitor(wanted),
{
}

/// A window counts for the output that it is on, and one that is on none for the primary one.
pub proof fn windows_without_an_output_are_on_the_primary_one(
    on: String,
    output: Seq<char>,
    primary: Seq<char>,
)
    ensures
        window_counts((true, Some(on)), Some(output), primary) <==> on@ == output,
        window_counts((true, None), Some(output), primary) <==> output == primary,
        !window_counts((true, Some(on)), None, primary),
        !window_counts((true, None), None, primary),
        !window_counts((false, Some(on)), Some(output), primary),
        !window_counts((false, None), Some(output), primary),
{
}

/// A stack that was cycled focuses its member, one that stays as it is does nothing, and only
/// without one the overlay steps.
pub proof fn cycles_step_through_members(outcome: StackCycleOutcome, step: FocusCycleStep)
    requires
        call_ensures(focus_cycle_step, (outcome,), step),
    ensures
        step is FocusMember <==> outcome is Cycled,
        outcome is Cycled ==> step->FocusMember_0 == outcome->Cycled_0,
        step is Nothing <==> outcome is Unchanged,
        step is StepOverlay <==> outcome is NotActive,
{
}

} // verus!
