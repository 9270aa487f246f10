//! Routing of keys between the shell, the bindings and the clients.

use vstd::prelude::*;

use crate::session::input::actions::Action;
use crate::session::suppressed::SuppressedCodes;
use crate::shell::apogee::Direction;
use crate::shell::overlay::ErrorMessage;
use crate::steps;

verus! {

#[derive(Clone, Copy, Debug, PartialEq, Eq, Structural)]
pub enum KeyState {
    Pressed,
    Released,
}

/// The symbols that routing tells apart.
#[derive(Clone, Copy, Debug, PartialEq, Eq, Structural)]
pub enum Key {
    Escape,
    Return,
    KeypadEnter,
    BackSpace,
    Delete,
    Left,
    Right,
    Up,
    Down,
    AltLeft,
    AltRight,
    /// Any other modifier.
    Modifier,
    Other,
}

/// What a key that does not go to a client asks for.
#[derive(Debug)]
pub enum KeyboardOutcome {
    Action(Action),
    ExitConfirm,
    ExitCancel,
    ExitIntercept,
    AccessibilityIntercept,
    ApogeeCancel,
    ApogeeAccept,
    ApogeeMove(Direction),
    ApogeeIntercept,
    FocusCycleCancel,
    FocusCycleIntercept,
    CaptureAccept,
    CaptureCancel,
    CapturePrevious,
    CaptureNext,
    CaptureIntercept,
    BearingsRelease,
    ClusterAccept,
    ClusterCancel,
    ClusterBackspace,
    ClusterDelete,
    ClusterMoveLeft,
    ClusterMoveRight,
    ClusterCharacter(char),
    ClusterIntercept,
}

/// Where a key goes.
#[derive(Debug)]
pub enum KeyRoute {
    Forward,
    Intercept(KeyboardOutcome),
}

/// What capture makes of a key before its own keys are looked at.
#[derive(Clone, Copy, Debug, PartialEq, Eq, Structural)]
pub enum CaptureKeyRouting {
    Evaluate,
    RetireUnfocusedRelease,
    SuppressRelease,
}

/// A release whose press was swallowed is swallowed too. Any other release during a
/// capture is forwarded: no client has the focus then, but a key that was pressed
/// before is let go.
pub fn capture_key_routing(
    capture_active: bool,
    state: KeyState,
    release_is_suppressed: bool,
) -> (routing: CaptureKeyRouting)
    ensures
        routing == (if state == KeyState::Released && release_is_suppressed {
            CaptureKeyRouting::SuppressRelease
        } else if state == KeyState::Released && capture_active {
            CaptureKeyRouting::RetireUnfocusedRelease
        } else {
            CaptureKeyRouting::Evaluate
        }),
{
    if state == KeyState::Released && release_is_suppressed {
        CaptureKeyRouting::SuppressRelease
    } else if capture_active && state == KeyState::Released {
        CaptureKeyRouting::RetireUnfocusedRelease
    } else {
        CaptureKeyRouting::Evaluate
    }
}

/// What routing reads of a key and of the session.
#[derive(Debug)]
pub struct KeyFacts {
    pub state: KeyState,
    pub release_is_suppressed: bool,
    /// The symbol without modifiers, where the key has one.
    pub symbol: Option<Key>,
    /// The symbol with modifiers.
    pub modified: Key,
    /// The character that the key types.
    pub character: Option<char>,
    /// The action that is bound to the key.
    pub binding: Option<Action>,
    pub exit_modal: bool,
    pub cluster_modal: bool,
    pub show_key_held: bool,
    pub apogee_accepts: bool,
    pub focus_cycle_open: bool,
    pub accessibility_intercepts: bool,
    pub capture_active: bool,
    pub capture_menu: bool,
    pub bindings_enabled: bool,
}

/// A key of the exit confirmation.
pub open spec fn exit_key(symbol: Option<Key>) -> KeyboardOutcome {
    match symbol {
        Some(Key::Return) | Some(Key::KeypadEnter) => KeyboardOutcome::ExitConfirm,
        Some(Key::Escape) => KeyboardOutcome::ExitCancel,
        _ => KeyboardOutcome::ExitIntercept,
    }
}

/// A key of the cluster composer.
pub open spec fn cluster_key(modified: Key, character: Option<char>) -> KeyboardOutcome {
    match modified {
        Key::Escape => KeyboardOutcome::ClusterCancel,
        Key::Return | Key::KeypadEnter => KeyboardOutcome::ClusterAccept,
        Key::BackSpace => KeyboardOutcome::ClusterBackspace,
        Key::Delete => KeyboardOutcome::ClusterDelete,
        Key::Left => KeyboardOutcome::ClusterMoveLeft,
        Key::Right => KeyboardOutcome::ClusterMoveRight,
        _ => match character {
            Some(character) => KeyboardOutcome::ClusterCharacter(character),
            None => KeyboardOutcome::ClusterIntercept,
        },
    }
}

/// Actions that a key may still ask for while the overview is open.
pub open spec fn allowed_in_apogee(action: Action) -> bool {
    action is Apogee || action is Quit || action is OpenTerminal
}

/// A key of the overview.
pub open spec fn apogee_key(symbol: Option<Key>, binding: Option<Action>) -> KeyboardOutcome {
    match symbol {
        Some(Key::Escape) => KeyboardOutcome::ApogeeCancel,
        Some(Key::Return) | Some(Key::KeypadEnter) => KeyboardOutcome::ApogeeAccept,
        Some(Key::Left) => KeyboardOutcome::ApogeeMove(Direction::Left),
        Some(Key::Right) => KeyboardOutcome::ApogeeMove(Direction::Right),
        Some(Key::Up) => KeyboardOutcome::ApogeeMove(Direction::Up),
        Some(Key::Down) => KeyboardOutcome::ApogeeMove(Direction::Down),
        _ => match binding {
            Some(action) => if allowed_in_apogee(action) {
                KeyboardOutcome::Action(action)
            } else {
                KeyboardOutcome::ApogeeIntercept
            },
            None => KeyboardOutcome::ApogeeIntercept,
        },
    }
}

/// A key of the focus cycle.
pub open spec fn focus_cycle_key(facts: KeyFacts) -> KeyRoute {
    if facts.state == KeyState::Released && (facts.symbol == Some(Key::AltLeft) || facts.symbol
        == Some(Key::AltRight)) {
        KeyRoute::Forward
    } else if facts.state == KeyState::Pressed && facts.symbol == Some(Key::Escape) {
        KeyRoute::Intercept(KeyboardOutcome::FocusCycleCancel)
    } else {
        match facts.binding {
            Some(action) => if facts.state == KeyState::Pressed && action is FocusCycle {
                KeyRoute::Intercept(KeyboardOutcome::Action(action))
            } else {
                KeyRoute::Intercept(KeyboardOutcome::FocusCycleIntercept)
            },
            None => KeyRoute::Intercept(KeyboardOutcome::FocusCycleIntercept),
        }
    }
}

/// A key of the capture overlay.
pub open spec fn capture_key(symbol: Option<Key>, menu: bool) -> KeyboardOutcome {
    match symbol {
        Some(Key::Escape) => KeyboardOutcome::CaptureCancel,
        Some(Key::Return) | Some(Key::KeypadEnter) => KeyboardOutcome::CaptureAccept,
        Some(Key::Left) => if menu {
            KeyboardOutcome::CapturePrevious
        } else {
            KeyboardOutcome::CaptureIntercept
        },
        Some(Key::Right) => if menu {
            KeyboardOutcome::CaptureNext
        } else {
            KeyboardOutcome::CaptureIntercept
        },
        _ => KeyboardOutcome::CaptureIntercept,
    }
}

/// Which part of the shell a key belongs to. The first of them in this order takes
/// it.
#[derive(Clone, Copy, Debug, PartialEq, Eq, Structural)]
pub enum KeyOwner {
    ExitModal,
    ClusterComposer,
    HeldBearings,
    Apogee,
    FocusCycle,
    Accessibility,
    SwallowedRelease,
    Capture,
    Bindings,
}

/// The part of the shell that takes a key.
pub open spec fn key_owner(facts: KeyFacts) -> KeyOwner {
    if facts.exit_modal {
        KeyOwner::ExitModal
    } else if facts.cluster_modal {
        KeyOwner::ClusterComposer
    } else if facts.state == KeyState::Released && facts.show_key_held {
        KeyOwner::HeldBearings
    } else if facts.apogee_accepts {
        KeyOwner::Apogee
    } else if facts.focus_cycle_open {
        KeyOwner::FocusCycle
    } else if facts.accessibility_intercepts {
        KeyOwner::Accessibility
    } else if facts.state == KeyState::Released && facts.release_is_suppressed {
        KeyOwner::SwallowedRelease
    } else if facts.capture_active {
        KeyOwner::Capture
    } else {
        KeyOwner::Bindings
    }
}

/// The release of a key while a modal dialog is open: swallowed like its press, or
/// let go.
pub open spec fn modal_release(facts: KeyFacts, swallowed: KeyboardOutcome) -> KeyRoute {
    if facts.release_is_suppressed {
        KeyRoute::Intercept(swallowed)
    } else {
        KeyRoute::Forward
    }
}

/// Where a key goes.
pub open spec fn key_route(facts: KeyFacts) -> KeyRoute {
    let released = facts.state == KeyState::Released;
    match key_owner(facts) {
        KeyOwner::ExitModal => if released {
            modal_release(facts, KeyboardOutcome::ExitIntercept)
        } else {
            KeyRoute::Intercept(exit_key(facts.symbol))
        },
        KeyOwner::ClusterComposer => if released {
            modal_release(facts, KeyboardOutcome::ClusterIntercept)
        } else {
            KeyRoute::Intercept(cluster_key(facts.modified, facts.character))
        },
        KeyOwner::HeldBearings => KeyRoute::Intercept(KeyboardOutcome::BearingsRelease),
        KeyOwner::Apogee => if released {
            KeyRoute::Intercept(KeyboardOutcome::ApogeeIntercept)
        } else {
            KeyRoute::Intercept(apogee_key(facts.symbol, facts.binding))
        },
        KeyOwner::FocusCycle => focus_cycle_key(facts),
        KeyOwner::Accessibility => KeyRoute::Intercept(KeyboardOutcome::AccessibilityIntercept),
        KeyOwner::SwallowedRelease => KeyRoute::Intercept(KeyboardOutcome::CaptureIntercept),
        KeyOwner::Capture => if released {
            KeyRoute::Forward
        } else {
            KeyRoute::Intercept(capture_key(facts.symbol, facts.capture_menu))
        },
        KeyOwner::Bindings => match facts.binding {
            Some(action) => if !released && facts.bindings_enabled {
                KeyRoute::Intercept(KeyboardOutcome::Action(action))
            } else {
                KeyRoute::Forward
            },
            None => KeyRoute::Forward,
        },
    }
}

/// The key types something into a client: it is pressed, no modifier, and reaches
/// one.
pub open spec fn types_away(facts: KeyFacts) -> bool {
    &&& key_owner(facts) == KeyOwner::Bindings
    &&& facts.state == KeyState::Pressed
    &&& key_route(facts) is Forward
    &&& match facts.symbol {
        Some(symbol) => symbol != Key::AltLeft && symbol != Key::AltRight && symbol
            != Key::Modifier,
        None => false,
    }
}

fn exit_outcome(symbol: Option<Key>) -> (outcome: KeyboardOutcome)
    ensures
        outcome == exit_key(symbol),
{
    match symbol {
        Some(Key::Return) | Some(Key::KeypadEnter) => KeyboardOutcome::ExitConfirm,
        Some(Key::Escape) => KeyboardOutcome::ExitCancel,
        _ => KeyboardOutcome::ExitIntercept,
    }
}

fn cluster_outcome(modified: Key, character: Option<char>) -> (outcome: KeyboardOutcome)
    ensures
        outcome == cluster_key(modified, character),
{
    match modified {
        Key::Escape => KeyboardOutcome::ClusterCancel,
        Key::Return | Key::KeypadEnter => KeyboardOutcome::ClusterAccept,
        Key::BackSpace => KeyboardOutcome::ClusterBackspace,
        Key::Delete => KeyboardOutcome::ClusterDelete,
        Key::Left => KeyboardOutcome::ClusterMoveLeft,
        Key::Right => KeyboardOutcome::ClusterMoveRight,
        _ => match character {
            Some(character) => KeyboardOutcome::ClusterCharacter(character),
            None => KeyboardOutcome::ClusterIntercept,
        },
    }
}

fn apogee_outcome(symbol: Option<Key>, binding: Option<Action>) -> (outcome: KeyboardOutcome)
    ensures
        outcome == apogee_key(symbol, binding),
{
    match symbol {
        Some(Key::Escape) => KeyboardOutcome::ApogeeCancel,
        Some(Key::Return) | Some(Key::KeypadEnter) => KeyboardOutcome::ApogeeAccept,
        Some(Key::Left) => KeyboardOutcome::ApogeeMove(Direction::Left),
        Some(Key::Right) => KeyboardOutcome::ApogeeMove(Direction::Right),
        Some(Key::Up) => KeyboardOutcome::ApogeeMove(Direction::Up),
        Some(Key::Down) => KeyboardOutcome::ApogeeMove(Direction::Down),
        _ => match binding {
            Some(Action::Apogee) => KeyboardOutcome::Action(Action::Apogee),
            Some(Action::Quit) => KeyboardOutcome::Action(Action::Quit),
            Some(Action::OpenTerminal) => KeyboardOutcome::Action(Action::OpenTerminal),
            _ => KeyboardOutcome::ApogeeIntercept,
        },
    }
}

fn capture_outcome(symbol: Option<Key>, menu: bool) -> (outcome: KeyboardOutcome)
    ensures
        outcome == capture_key(symbol, menu),
{
    match symbol {
        Some(Key::Escape) => KeyboardOutcome::CaptureCancel,
        Some(Key::Return) | Some(Key::KeypadEnter) => KeyboardOutcome::CaptureAccept,
        Some(Key::Left) => if menu {
            KeyboardOutcome::CapturePrevious
        } else {
            KeyboardOutcome::CaptureIntercept
        },
        Some(Key::Right) => if menu {
            KeyboardOutcome::CaptureNext
        } else {
            KeyboardOutcome::CaptureIntercept
        },
        _ => KeyboardOutcome::CaptureIntercept,
    }
}

fn is_alt(symbol: Option<Key>) -> (alt: bool)
    ensures
        alt == (symbol == Some(Key::AltLeft) || symbol == Some(Key::AltRight)),
{
    match symbol {
        Some(symbol) => symbol == Key::AltLeft || symbol == Key::AltRight,
        None => false,
    }
}

/// Decides where a key goes, and whether it types something into a client.
pub fn route_key(facts: KeyFacts) -> (r: (KeyRoute, bool))
    ensures
        r.0 == key_route(facts),
        r.1 == types_away(facts),
{
    let released = facts.state == KeyState::Released;
    if facts.exit_modal {
        if released {
            return if facts.release_is_suppressed {
                (KeyRoute::Intercept(KeyboardOutcome::ExitIntercept), false)
            } else {
                (KeyRoute::Forward, false)
            };
        }
        return (KeyRoute::Intercept(exit_outcome(facts.symbol)), false);
    }
    if facts.cluster_modal {
        if released {
            return if facts.release_is_suppressed {
                (KeyRoute::Intercept(KeyboardOutcome::ClusterIntercept), false)
            } else {
                (KeyRoute::Forward, false)
            };
        }
        return (KeyRoute::Intercept(cluster_outcome(facts.modified, facts.character)), false);
    }
    if released && facts.show_key_held {
        return (KeyRoute::Intercept(KeyboardOutcome::BearingsRelease), false);
    }
    if facts.apogee_accepts {
        if released {
            return (KeyRoute::Intercept(KeyboardOutcome::ApogeeIntercept), false);
        }
        return (KeyRoute::Intercept(apogee_outcome(facts.symbol, facts.binding)), false);
    }
    if facts.focus_cycle_open {
        if released && is_alt(facts.symbol) {
            return (KeyRoute::Forward, false);
        }
        if let Some(Key::Escape) = facts.symbol {
            if !released {
                return (KeyRoute::Intercept(KeyboardOutcome::FocusCycleCancel), false);
            }
        }
        if let Some(Action::FocusCycle(direction)) = facts.binding {
            if !released {
                return (
                    KeyRoute::Intercept(KeyboardOutcome::Action(Action::FocusCycle(direction))),
                    false,
                );
            }
        }
        return (KeyRoute::Intercept(KeyboardOutcome::FocusCycleIntercept), false);
    }
    if facts.accessibility_intercepts {
        return (KeyRoute::Intercept(KeyboardOutcome::AccessibilityIntercept), false);
    }
    match capture_key_routing(facts.capture_active, facts.state, facts.release_is_suppressed) {
        CaptureKeyRouting::SuppressRelease => {
            return (KeyRoute::Intercept(KeyboardOutcome::CaptureIntercept), false);
        },
        CaptureKeyRouting::RetireUnfocusedRelease => {
            return (KeyRoute::Forward, false);
        },
        CaptureKeyRouting::Evaluate => {},
    }
    if facts.capture_active {
        return (KeyRoute::Intercept(capture_outcome(facts.symbol, facts.capture_menu)), false);
    }
    if released {
        return (KeyRoute::Forward, false);
    }
    let non_modifier = match facts.symbol {
        Some(symbol) => !is_alt(facts.symbol) && !(symbol == Key::Modifier),
        None => false,
    };
    if !facts.bindings_enabled {
        return (KeyRoute::Forward, non_modifier);
    }
    match facts.binding {
        Some(action) => (KeyRoute::Intercept(KeyboardOutcome::Action(action)), false),
        None => (KeyRoute::Forward, non_modifier),
    }
}

/// What is done about a key before it is routed.
#[derive(Clone, Copy, Debug, PartialEq, Eq, Structural)]
pub enum KeyStep {
    /// An edit of a cluster's name that the key repeats ends.
    StopNameRepeat,
    /// The cursor may go away.
    KeyboardPress,
    /// The keyboard monitor is asked whether it takes the key.
    AskMonitor,
}

pub open spec fn key_steps(state: KeyState, exit_modal: bool) -> Seq<KeyStep> {
    steps::when(state == KeyState::Released, seq![KeyStep::StopNameRepeat]) + steps::when(
        state == KeyState::Pressed,
        seq![KeyStep::KeyboardPress],
    ) + steps::when(!exit_modal, seq![KeyStep::AskMonitor])
}

/// Begins with a key. Says besides whether it is a release that is swallowed, as its press
/// was.
pub fn begin_key(
    suppressed_keys: &mut SuppressedCodes,
    keycode: u32,
    state: KeyState,
    exit_modal: bool,
) -> (r: (Vec<KeyStep>, bool))
    ensures
        r.0@ == key_steps(state, exit_modal),
        r.1 == (state == KeyState::Released && old(suppressed_keys)@.contains(keycode)),
        final(suppressed_keys)@ == (if state == KeyState::Released {
            old(suppressed_keys)@.remove(keycode)
        } else {
            old(suppressed_keys)@
        }),
{
    let mut list: Vec<KeyStep> = Vec::new();
    let mut suppressed = false;
    match state {
        KeyState::Released => {
            list.push(KeyStep::StopNameRepeat);
            suppressed = suppressed_keys.release_is_suppressed(keycode);
        },
        KeyState::Pressed => {
            list.push(KeyStep::KeyboardPress);
        },
    }
    if !exit_modal {
        list.push(KeyStep::AskMonitor);
    }
    assert(list@ =~= key_steps(state, exit_modal));
    (list, suppressed)
}

/// A release never asks for an action, and one whose press was swallowed reaches no
/// client, unless it is the one that ends a focus cycle.
pub proof fn releases_start_nothing(facts: KeyFacts)
    requires
        facts.state == KeyState::Released,
    ensures
        !(key_route(facts) matches KeyRoute::Intercept(KeyboardOutcome::Action(_))),
        facts.release_is_suppressed && key_owner(facts) != KeyOwner::FocusCycle
            ==> key_route(facts) is Intercept,
{
}

/// While the exit confirmation is open no press reaches a client, a binding or any
/// other part of the shell.
pub proof fn exit_confirmation_is_modal(facts: KeyFacts)
    requires
        facts.exit_modal,
        facts.state == KeyState::Pressed,
    ensures
        key_route(facts) == KeyRoute::Intercept(exit_key(facts.symbol)),
        !types_away(facts),
{
}

/// A key that was pressed before a modal dialog opened is let go while it is open.
pub proof fn modal_releases_retire_forwarded_keys(facts: KeyFacts)
    requires
        facts.state == KeyState::Released,
        !facts.release_is_suppressed,
        facts.exit_modal || facts.cluster_modal || (facts.capture_active && key_owner(facts)
            == KeyOwner::Capture),
    ensures
        key_route(facts) is Forward,
{
}

/// An edit of the name of a new cluster.
#[derive(Clone, Copy, Debug, PartialEq, Eq, Structural)]
pub enum NameInput {
    Backspace,
    Delete,
    MoveLeft,
    MoveRight,
    Character(char),
}

/// What an intercepted key makes the session do.
#[derive(Debug)]
pub enum KeyCommand {
    Nothing,
    ConfirmExit,
    CancelExit,
    Dispatch(Action),
    ReleaseBearings,
    CancelCluster,
    /// Creates the cluster that is being named.
    FinishCluster,
    /// Goes on to name the cluster, or says that nothing is selected; `name_cluster` says how.
    NameCluster,
    /// Edits the name, and repeats the edit while the key is down.
    EditName(NameInput),
    CancelApogee,
    SelectApogee,
    MoveApogee(Direction),
    CancelFocusCycle,
    ActivateCaptureMenu,
    AcceptCapture,
    /// Goes back to the capture menu, or ends the capture where there is none.
    LeaveCapture,
    PreviousCapture,
    NextCapture,
}

/// Whether the release of an intercepted key is swallowed.
#[derive(Clone, Copy, Debug, PartialEq, Eq, Structural)]
pub enum Swallow {
    No,
    Yes,
    /// If the command ends the capture.
    IfCaptureEnds,
}

/// What an intercepted key makes the session do. `naming` and `capture_menu` tell
/// how far the composer and the capture are.
pub open spec fn key_command(
    outcome: KeyboardOutcome,
    naming: bool,
    capture_menu: bool,
) -> KeyCommand {
    match outcome {
        KeyboardOutcome::Action(action) => KeyCommand::Dispatch(action),
        KeyboardOutcome::ExitConfirm => KeyCommand::ConfirmExit,
        KeyboardOutcome::ExitCancel => KeyCommand::CancelExit,
        KeyboardOutcome::BearingsRelease => KeyCommand::ReleaseBearings,
        KeyboardOutcome::ClusterCancel => KeyCommand::CancelCluster,
        KeyboardOutcome::ClusterAccept => if naming {
            KeyCommand::FinishCluster
        } else {
            KeyCommand::NameCluster
        },
        KeyboardOutcome::ClusterBackspace => KeyCommand::EditName(NameInput::Backspace),
        KeyboardOutcome::ClusterDelete => KeyCommand::EditName(NameInput::Delete),
        KeyboardOutcome::ClusterMoveLeft => KeyCommand::EditName(NameInput::MoveLeft),
        KeyboardOutcome::ClusterMoveRight => KeyCommand::EditName(NameInput::MoveRight),
        KeyboardOutcome::ClusterCharacter(c) => KeyCommand::EditName(NameInput::Character(c)),
        KeyboardOutcome::ApogeeCancel => KeyCommand::CancelApogee,
        KeyboardOutcome::ApogeeAccept => KeyCommand::SelectApogee,
        KeyboardOutcome::ApogeeMove(direction) => KeyCommand::MoveApogee(direction),
        KeyboardOutcome::FocusCycleCancel => KeyCommand::CancelFocusCycle,
        KeyboardOutcome::CaptureAccept => if capture_menu {
            KeyCommand::ActivateCaptureMenu
        } else {
            KeyCommand::AcceptCapture
        },
        KeyboardOutcome::CaptureCancel => KeyCommand::LeaveCapture,
        KeyboardOutcome::CapturePrevious => KeyCommand::PreviousCapture,
        KeyboardOutcome::CaptureNext => KeyCommand::NextCapture,
        KeyboardOutcome::ExitIntercept
        | KeyboardOutcome::AccessibilityIntercept
        | KeyboardOutcome::ApogeeIntercept
        | KeyboardOutcome::FocusCycleIntercept
        | KeyboardOutcome::CaptureIntercept
        | KeyboardOutcome::ClusterIntercept => KeyCommand::Nothing,
    }
}

/// Outcomes of a key that is merely kept from the clients.
pub open spec fn merely_kept(outcome: KeyboardOutcome) -> bool {
    outcome is ExitIntercept || outcome is ApogeeIntercept || outcome is FocusCycleIntercept
        || outcome is ClusterIntercept
}

/// Whether the release of an intercepted key is swallowed. Capture and the keyboard
/// monitor keep track of their own keys, a key that is merely kept from the clients
/// counts when it is pressed.
pub open spec fn key_swallow(
    outcome: KeyboardOutcome,
    state: KeyState,
    capture_menu: bool,
) -> Swallow {
    if merely_kept(outcome) {
        if state == KeyState::Pressed {
            Swallow::Yes
        } else {
            Swallow::No
        }
    } else if outcome is CaptureCancel || (outcome is CaptureAccept && !capture_menu) {
        Swallow::IfCaptureEnds
    } else if outcome is CaptureAccept || outcome is CapturePrevious || outcome is CaptureNext
        || outcome is CaptureIntercept || outcome is AccessibilityIntercept || outcome
        is BearingsRelease {
        Swallow::No
    } else {
        Swallow::Yes
    }
}

/// What follows an intercepted key.
pub fn key_follow_up(
    outcome: KeyboardOutcome,
    state: KeyState,
    naming: bool,
    capture_menu: bool,
) -> (r: (KeyCommand, Swallow))
    ensures
        r.0 == key_command(outcome, naming, capture_menu),
        r.1 == key_swallow(outcome, state, capture_menu),
{
    let kept = if state == KeyState::Pressed {
        Swallow::Yes
    } else {
        Swallow::No
    };
    match outcome {
        KeyboardOutcome::Action(action) => (KeyCommand::Dispatch(action), Swallow::Yes),
        KeyboardOutcome::ExitConfirm => (KeyCommand::ConfirmExit, Swallow::Yes),
        KeyboardOutcome::ExitCancel => (KeyCommand::CancelExit, Swallow::Yes),
        KeyboardOutcome::ExitIntercept => (KeyCommand::Nothing, kept),
        KeyboardOutcome::AccessibilityIntercept => (KeyCommand::Nothing, Swallow::No),
        KeyboardOutcome::ApogeeCancel => (KeyCommand::CancelApogee, Swallow::Yes),
        KeyboardOutcome::ApogeeAccept => (KeyCommand::SelectApogee, Swallow::Yes),
        KeyboardOutcome::ApogeeMove(direction) => (KeyCommand::MoveApogee(direction), Swallow::Yes),
        KeyboardOutcome::ApogeeIntercept => (KeyCommand::Nothing, kept),
        KeyboardOutcome::FocusCycleCancel => (KeyCommand::CancelFocusCycle, Swallow::Yes),
        KeyboardOutcome::FocusCycleIntercept => (KeyCommand::Nothing, kept),
        KeyboardOutcome::CaptureAccept => if capture_menu {
            (KeyCommand::ActivateCaptureMenu, Swallow::No)
        } else {
            (KeyCommand::AcceptCapture, Swallow::IfCaptureEnds)
        },
        KeyboardOutcome::CaptureCancel => (KeyCommand::LeaveCapture, Swallow::IfCaptureEnds),
        KeyboardOutcome::CapturePrevious => (KeyCommand::PreviousCapture, Swallow::No),
        KeyboardOutcome::CaptureNext => (KeyCommand::NextCapture, Swallow::No),
        KeyboardOutcome::CaptureIntercept => (KeyCommand::Nothing, Swallow::No),
        KeyboardOutcome::BearingsRelease => (KeyCommand::ReleaseBearings, Swallow::No),
        KeyboardOutcome::ClusterAccept => if naming {
            (KeyCommand::FinishCluster, Swallow::Yes)
        } else {
            (KeyCommand::NameCluster, Swallow::Yes)
        },
        KeyboardOutcome::ClusterCancel => (KeyCommand::CancelCluster, Swallow::Yes),
        KeyboardOutcome::ClusterBackspace => (
            KeyCommand::EditName(NameInput::Backspace),
            Swallow::Yes,
        ),
        KeyboardOutcome::ClusterDelete => (KeyCommand::EditName(NameInput::Delete), Swallow::Yes),
        KeyboardOutcome::ClusterMoveLeft => (
            KeyCommand::EditName(NameInput::MoveLeft),
            Swallow::Yes,
        ),
        KeyboardOutcome::ClusterMoveRight => (
            KeyCommand::EditName(NameInput::MoveRight),
            Swallow::Yes,
        ),
        KeyboardOutcome::ClusterCharacter(character) => (
            KeyCommand::EditName(NameInput::Character(character)),
            Swallow::Yes,
        ),
        KeyboardOutcome::ClusterIntercept => (KeyCommand::Nothing, kept),
    }
}

/// What the user is told where a cluster cannot be named yet, on the output that it is put
/// together on. `begun` says whether the naming began. Something is drawn in any case.
pub fn name_cluster(begun: bool, output: Option<&str>) -> (message: Option<ErrorMessage>)
    ensures
        message is Some == (!begun && output is Some),
        message is Some ==> message->0.tells(
            output->0@,
            "Not enough selections\nSelect at least one window"@,
        ),
{
    if begun {
        return None;
    }
    match output {
        Some(output) => Some(
            ErrorMessage {
                output: output.to_owned(),
                text: "Not enough selections\nSelect at least one window".to_owned(),
                duration_ms: 3_000,
            },
        ),
        None => None,
    }
}

/// A focus cycle ends with the release that leaves no Alt key down.
pub fn commits_focus_cycle(state: KeyState, focus_cycle_open: bool, alt_held: bool) -> (commits:
    bool)
    ensures
        commits == (state == KeyState::Released && focus_cycle_open && !alt_held),
{
    state == KeyState::Released && focus_cycle_open && !alt_held
}

/// Every key that a binding takes is swallowed on its way up.
pub proof fn bound_keys_are_swallowed(facts: KeyFacts, naming: bool)
    requires
        key_route(facts) matches KeyRoute::Intercept(KeyboardOutcome::Action(_)),
    ensures
        key_swallow(key_route(facts)->Intercept_0, facts.state, facts.capture_menu)
            == Swallow::Yes,
{
}

/// While the overview has the keyboard, an arrow key moves the selection in its own
/// direction, Escape leaves the overview, and either Return key takes what is selected. Of
/// the bindings only those of the overview, of leaving and of the terminal are still there.
pub proof fn the_overview_moves_as_the_arrows_point(facts: KeyFacts)
    requires
        !facts.exit_modal,
        !facts.cluster_modal,
        facts.apogee_accepts,
        facts.state == KeyState::Pressed,
    ensures
        facts.symbol == Some(Key::Left) ==> key_route(facts) == KeyRoute::Intercept(
            KeyboardOutcome::ApogeeMove(Direction::Left),
        ),
        facts.symbol == Some(Key::Right) ==> key_route(facts) == KeyRoute::Intercept(
            KeyboardOutcome::ApogeeMove(Direction::Right),
        ),
        facts.symbol == Some(Key::Up) ==> key_route(facts) == KeyRoute::Intercept(
            KeyboardOutcome::ApogeeMove(Direction::Up),
        ),
        facts.symbol == Some(Key::Down) ==> key_route(facts) == KeyRoute::Intercept(
            KeyboardOutcome::ApogeeMove(Direction::Down),
        ),
        facts.symbol == Some(Key::Escape) ==> key_route(facts) == KeyRoute::Intercept(
            KeyboardOutcome::ApogeeCancel,
        ),
        facts.symbol == Some(Key::Return) || facts.symbol == Some(Key::KeypadEnter) ==> key_route(
            facts,
        ) == KeyRoute::Intercept(KeyboardOutcome::ApogeeAccept),
        key_route(facts) matches KeyRoute::Intercept(KeyboardOutcome::Action(action)) ==> {
            &&& facts.binding == Some(action)
            &&& action == Action::Apogee || action == Action::Quit || action == Action::OpenTerminal
        },
        (facts.symbol == Some(Key::Other) || facts.symbol is None || facts.symbol == Some(
            Key::Modifier,
        )) && (facts.binding == Some(Action::Apogee) || facts.binding == Some(Action::Quit)
            || facts.binding == Some(Action::OpenTerminal)) ==> key_route(facts)
            == KeyRoute::Intercept(KeyboardOutcome::Action(facts.binding->0)),
        (facts.symbol == Some(Key::Other) || facts.symbol is None) && facts.binding is None
            ==> key_route(facts) == KeyRoute::Intercept(KeyboardOutcome::ApogeeIntercept),
        key_route(facts) is Intercept,
{
}

/// What the overview is asked for is what it does.
pub proof fn commands_do_what_keys_ask(
    direction: Direction,
    action: Action,
    character: char,
    naming: bool,
    capture_menu: bool,
)
    ensures
        key_command(KeyboardOutcome::ApogeeMove(direction), naming, capture_menu)
            == KeyCommand::MoveApogee(direction),
        key_command(KeyboardOutcome::ApogeeCancel, naming, capture_menu)
            == KeyCommand::CancelApogee,
        key_command(KeyboardOutcome::ApogeeAccept, naming, capture_menu)
            == KeyCommand::SelectApogee,
        key_command(KeyboardOutcome::Action(action), naming, capture_menu) == KeyCommand::Dispatch(
            action,
        ),
        key_command(KeyboardOutcome::ExitConfirm, naming, capture_menu) == KeyCommand::ConfirmExit,
        key_command(KeyboardOutcome::ExitCancel, naming, capture_menu) == KeyCommand::CancelExit,
        key_command(KeyboardOutcome::BearingsRelease, naming, capture_menu)
            == KeyCommand::ReleaseBearings,
        key_command(KeyboardOutcome::FocusCycleCancel, naming, capture_menu)
            == KeyCommand::CancelFocusCycle,
        key_command(KeyboardOutcome::ClusterCancel, naming, capture_menu)
            == KeyCommand::CancelCluster,
        key_command(KeyboardOutcome::ClusterAccept, true, capture_menu) == KeyCommand::FinishCluster,
        key_command(KeyboardOutcome::ClusterAccept, false, capture_menu) == KeyCommand::NameCluster,
        key_command(KeyboardOutcome::ClusterCharacter(character), naming, capture_menu)
            == KeyCommand::EditName(NameInput::Character(character)),
        key_command(KeyboardOutcome::ClusterBackspace, naming, capture_menu)
            == KeyCommand::EditName(NameInput::Backspace),
        key_command(KeyboardOutcome::ClusterDelete, naming, capture_menu) == KeyCommand::EditName(
            NameInput::Delete,
        ),
        key_command(KeyboardOutcome::ClusterMoveLeft, naming, capture_menu) == KeyCommand::EditName(
            NameInput::MoveLeft,
        ),
        key_command(KeyboardOutcome::ClusterMoveRight, naming, capture_menu)
            == KeyCommand::EditName(NameInput::MoveRight),
        key_command(KeyboardOutcome::CaptureAccept, naming, true) == KeyCommand::ActivateCaptureMenu,
        key_command(KeyboardOutcome::CaptureAccept, naming, false) == KeyCommand::AcceptCapture,
        key_command(KeyboardOutcome::CaptureCancel, naming, capture_menu)
            == KeyCommand::LeaveCapture,
        key_command(KeyboardOutcome::CapturePrevious, naming, capture_menu)
            == KeyCommand::PreviousCapture,
        key_command(KeyboardOutcome::CaptureNext, naming, capture_menu) == KeyCommand::NextCapture,
{
}

/// While the exit confirmation is open either Return key leaves, Escape stays, and every
/// other key that is pressed is kept.
pub proof fn only_return_leaves_the_session(facts: KeyFacts)
    requires
        facts.exit_modal,
        facts.state == KeyState::Pressed,
    ensures
        key_route(facts) == KeyRoute::Intercept(KeyboardOutcome::ExitConfirm) <==> facts.symbol
            == Some(Key::Return) || facts.symbol == Some(Key::KeypadEnter),
        key_route(facts) == KeyRoute::Intercept(KeyboardOutcome::ExitCancel) <==> facts.symbol
            == Some(Key::Escape),
        key_route(facts) == KeyRoute::Intercept(KeyboardOutcome::ExitIntercept) <==> facts.symbol
            != Some(Key::Return) && facts.symbol != Some(Key::KeypadEnter) && facts.symbol != Some(
            Key::Escape,
        ),
{
}

/// While a cluster is put together its keys edit its name as they are labelled, and a key
/// that types a character types that one.
pub proof fn the_composer_edits_as_its_keys_say(facts: KeyFacts)
    requires
        !facts.exit_modal,
        facts.cluster_modal,
        facts.state == KeyState::Pressed,
    ensures
        facts.modified == Key::Escape ==> key_route(facts) == KeyRoute::Intercept(
            KeyboardOutcome::ClusterCancel,
        ),
        facts.modified == Key::Return || facts.modified == Key::KeypadEnter ==> key_route(facts)
            == KeyRoute::Intercept(KeyboardOutcome::ClusterAccept),
        facts.modified == Key::BackSpace ==> key_route(facts) == KeyRoute::Intercept(
            KeyboardOutcome::ClusterBackspace,
        ),
        facts.modified == Key::Delete ==> key_route(facts) == KeyRoute::Intercept(
            KeyboardOutcome::ClusterDelete,
        ),
        facts.modified == Key::Left ==> key_route(facts) == KeyRoute::Intercept(
            KeyboardOutcome::ClusterMoveLeft,
        ),
        facts.modified == Key::Right ==> key_route(facts) == KeyRoute::Intercept(
            KeyboardOutcome::ClusterMoveRight,
        ),
        key_route(facts) matches KeyRoute::Intercept(KeyboardOutcome::ClusterCharacter(c)) ==> facts
            .character == Some(c),
        (facts.modified == Key::Other || facts.modified == Key::Up || facts.modified == Key::Down
            || facts.modified == Key::AltLeft || facts.modified == Key::AltRight || facts.modified
            == Key::Modifier) && facts.character is Some ==> key_route(facts)
            == KeyRoute::Intercept(KeyboardOutcome::ClusterCharacter(facts.character->0)),
        facts.modified == Key::Other && facts.character is None ==> key_route(facts)
            == KeyRoute::Intercept(KeyboardOutcome::ClusterIntercept),
        key_route(facts) is Intercept,
{
}

/// The release of the key that shows the bearings hides them again.
pub proof fn letting_go_hides_the_bearings(facts: KeyFacts)
    requires
        !facts.exit_modal,
        !facts.cluster_modal,
        facts.show_key_held,
    ensures
        facts.state == KeyState::Released ==> key_route(facts) == KeyRoute::Intercept(
            KeyboardOutcome::BearingsRelease,
        ),
        facts.state == KeyState::Pressed ==> key_route(facts) != KeyRoute::Intercept(
            KeyboardOutcome::BearingsRelease,
        ),
{
}

/// While the focus cycle is open, Escape leaves it, the binding of the cycle goes on with it,
/// the release of an Alt key is let through to end it, and every other key is kept.
pub proof fn the_focus_cycle_keeps_the_keyboard(facts: KeyFacts)
    requires
        !facts.exit_modal && !facts.cluster_modal && !facts.show_key_held && !facts.apogee_accepts,
        facts.focus_cycle_open,
    ensures
        key_route(facts) is Forward <==> facts.state == KeyState::Released && (facts.symbol == Some(
            Key::AltLeft,
        ) || facts.symbol == Some(Key::AltRight)),
        key_route(facts) == KeyRoute::Intercept(KeyboardOutcome::FocusCycleCancel) <==> facts.state
            == KeyState::Pressed && facts.symbol == Some(Key::Escape),
        facts.state == KeyState::Pressed && facts.symbol != Some(Key::Escape) && facts.binding
            is Some && facts.binding->0 is FocusCycle ==> key_route(facts) == KeyRoute::Intercept(
            KeyboardOutcome::Action(facts.binding->0),
        ),
        key_route(facts) matches KeyRoute::Intercept(KeyboardOutcome::Action(action)) ==> action
            is FocusCycle && facts.binding == Some(action),
{
}

/// A key that the keyboard monitor takes is not seen by capture, bindings or clients.
pub proof fn the_monitor_comes_before_capture(facts: KeyFacts)
    requires
        !facts.exit_modal && !facts.cluster_modal && !facts.show_key_held && !facts.apogee_accepts
            && !facts.focus_cycle_open,
    ensures
        facts.accessibility_intercepts <==> key_route(facts) == KeyRoute::Intercept(
            KeyboardOutcome::AccessibilityIntercept,
        ),
{
}

/// While something is captured Escape leaves, either Return key accepts, and the arrows go
/// through the menu the way they point. No press reaches a binding or a client.
pub proof fn capture_moves_as_the_arrows_point(facts: KeyFacts)
    requires
        !facts.exit_modal && !facts.cluster_modal && !facts.show_key_held && !facts.apogee_accepts
            && !facts.focus_cycle_open && !facts.accessibility_intercepts,
        facts.capture_active,
        facts.state == KeyState::Pressed,
    ensures
        key_route(facts) == KeyRoute::Intercept(KeyboardOutcome::CaptureCancel) <==> facts.symbol
            == Some(Key::Escape),
        key_route(facts) == KeyRoute::Intercept(KeyboardOutcome::CaptureAccept) <==> facts.symbol
            == Some(Key::Return) || facts.symbol == Some(Key::KeypadEnter),
        key_route(facts) == KeyRoute::Intercept(KeyboardOutcome::CapturePrevious) <==> facts.symbol
            == Some(Key::Left) && facts.capture_menu,
        key_route(facts) == KeyRoute::Intercept(KeyboardOutcome::CaptureNext) <==> facts.symbol
            == Some(Key::Right) && facts.capture_menu,
        key_route(facts) is Intercept,
        !(key_route(facts) matches KeyRoute::Intercept(KeyboardOutcome::Action(_))),
{
}

/// Where no part of the shell has the keyboard, a press is its binding's if bindings count,
/// and the client's otherwise. A release is the client's unless its press was swallowed.
pub proof fn keys_are_the_bindings_or_the_clients(facts: KeyFacts)
    requires
        !facts.exit_modal && !facts.cluster_modal && !facts.show_key_held && !facts.apogee_accepts
            && !facts.focus_cycle_open && !facts.accessibility_intercepts && !facts.capture_active,
    ensures
        facts.state == KeyState::Pressed && facts.bindings_enabled && facts.binding is Some
            ==> key_route(facts) == KeyRoute::Intercept(KeyboardOutcome::Action(facts.binding->0)),
        facts.state == KeyState::Pressed && (!facts.bindings_enabled || facts.binding is None)
            ==> key_route(facts) is Forward,
        facts.state == KeyState::Released ==> (key_route(facts) is Forward
            <==> !facts.release_is_suppressed),
        types_away(facts) <==> facts.state == KeyState::Pressed && (!facts.bindings_enabled
            || facts.binding is None) && facts.symbol is Some && facts.symbol != Some(Key::AltLeft)
            && facts.symbol != Some(Key::AltRight) && facts.symbol != Some(Key::Modifier),
{
}

/// What a part of the shell keeps types nothing into a client.
pub proof fn kept_keys_type_nothing(facts: KeyFacts)
    ensures
        types_away(facts) ==> key_route(facts) is Forward && facts.state == KeyState::Pressed,
        facts.exit_modal || facts.cluster_modal || facts.apogee_accepts || facts.focus_cycle_open
            || facts.capture_active ==> !types_away(facts),
{
}

/// A press that the shell acts on has its release swallowed, but for keys that the capture
/// and the keyboard monitor keep track of. One that ends the capture has it swallowed too.
pub proof fn a_press_that_acts_swallows_its_release(
    outcome: KeyboardOutcome,
    state: KeyState,
    naming: bool,
    capture_menu: bool,
)
    ensures
        key_command(outcome, naming, capture_menu) is Nothing && (outcome is ExitIntercept || outcome
            is ApogeeIntercept || outcome is FocusCycleIntercept || outcome is ClusterIntercept)
            ==> (key_swallow(outcome, state, capture_menu) == Swallow::Yes <==> state
            == KeyState::Pressed) && key_swallow(outcome, state, capture_menu)
            != Swallow::IfCaptureEnds,
        outcome is Action || outcome is ExitConfirm || outcome is ExitCancel || outcome
            is ApogeeCancel || outcome is ApogeeAccept || outcome is ApogeeMove || outcome
            is FocusCycleCancel || outcome is ClusterAccept || outcome is ClusterCancel || outcome
            is ClusterBackspace || outcome is ClusterDelete || outcome is ClusterMoveLeft || outcome
            is ClusterMoveRight || outcome is ClusterCharacter ==> key_swallow(
            outcome,
            state,
            capture_menu,
        ) == Swallow::Yes,
        key_swallow(outcome, state, capture_menu) == Swallow::IfCaptureEnds <==> key_command(
            outcome,
            naming,
            capture_menu,
        ) is LeaveCapture || key_command(outcome, naming, capture_menu) is AcceptCapture,
        outcome is CapturePrevious || outcome is CaptureNext || outcome is CaptureIntercept
            || outcome is AccessibilityIntercept || outcome is BearingsRelease || (outcome
            is CaptureAccept && capture_menu) ==> key_swallow(outcome, state, capture_menu)
            == Swallow::No,
{
}

/// A release ends the repetition of an edit, a press may hide the cursor, and the keyboard
/// monitor is asked unless the session is about to end.
pub proof fn presses_and_releases_begin_apart(state: KeyState, exit_modal: bool)
    ensures
        key_steps(state, exit_modal).contains(KeyStep::StopNameRepeat) <==> state
            == KeyState::Released,
        key_steps(state, exit_modal).contains(KeyStep::KeyboardPress) <==> state
            == KeyState::Pressed,
        key_steps(state, exit_modal).contains(KeyStep::AskMonitor) <==> !exit_modal,
{
    broadcast use steps::group_steps;

}

/// A repetition ends, or a press begins, before the monitor is asked.
pub proof fn keys_are_handled_in_turn(state: KeyState, exit_modal: bool)
    ensures
        steps::comes_before(key_steps(state, exit_modal), KeyStep::StopNameRepeat, KeyStep::KeyboardPress),
        steps::comes_before(key_steps(state, exit_modal), KeyStep::StopNameRepeat, KeyStep::AskMonitor),
        steps::comes_before(key_steps(state, exit_modal), KeyStep::KeyboardPress, KeyStep::AskMonitor),
{
    broadcast use {steps::group_steps, steps::group_orders};

}

/// A press is always looked at. A release whose press was swallowed is swallowed, capture or not,
/// and during a capture no other release reaches the focus.
pub proof fn capture_lets_no_release_through(capture_active: bool, state: KeyState, suppressed: bool, routing: CaptureKeyRouting)
    requires
        call_ensures(capture_key_routing, (capture_active, state, suppressed), routing),
    ensures
        state is Pressed ==> routing is Evaluate,
        routing is SuppressRelease <==> state is Released && suppressed,
        routing is RetireUnfocusedRelease <==> state is Released && !suppressed && capture_active,
        state is Released && !suppressed && !capture_active ==> routing is Evaluate,
{
}

/// The choice from the list is made when the modifier is let go, and at no press.
pub proof fn letting_go_of_the_modifier_chooses(state: KeyState, open: bool, alt_held: bool, commits: bool)
    requires
        call_ensures(commits_focus_cycle, (state, open, alt_held), commits),
    ensures
        commits ==> state is Released && open,
        open && alt_held ==> !commits,
        state is Released && open && !alt_held ==> commits,
{
}

} // verus!
