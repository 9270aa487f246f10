//! What every session does, whatever backend it runs on.

use vstd::prelude::*;

use crate::ids::SurfaceId;
use crate::session::interaction::Grab;
use crate::session::settings::Section;
use crate::shell::overlay::{
    at_least_one, ExitConfirmation, Notification, NotificationKind, OverlayManager,
};
use crate::steps;
use crate::time::{millis, Duration, MAX_NANOS};

verus! {

/// The output that messages are shown on.
pub open spec fn message_output(selected: Option<Seq<char>>, primary: Seq<char>) -> Seq<char> {
    match selected {
        Some(output) => output,
        None => primary,
    }
}

/// The output that messages are shown on: the one that is selected, or else the primary
/// one.
pub fn notification_output_name<'a>(selected: Option<&'a str>, primary: &'a str) -> (output: &'a str)
    ensures
        output@ == message_output(steps::str_of(selected), primary@),
{
    match selected {
        Some(output) => output,
        None => primary,
    }
}

/// How long messages are shown, in milliseconds.
#[derive(Clone, Copy, Debug, PartialEq, Eq, Structural)]
pub struct NotificationDurations {
    pub success_ms: u64,
    pub error_ms: u64,
}

/// Says how the configuration was loaded when the session starts. Where there is no
/// file and no fault, nothing is said. A fault is told of once. Something is drawn in any
/// case.
pub fn initialize_config_notification(
    overlays: &mut OverlayManager,
    fault: &mut Option<String>,
    config_path: Option<&str>,
    durations: NotificationDurations,
    output: &str,
    mix_bits: u32,
    now: Duration,
) -> (redraw: bool)
    requires
        *old(fault) is Some ==> now.nanos + millis(at_least_one(durations.error_ms)) <= MAX_NANOS,
        *old(fault) is None && config_path is Some ==> now.nanos + millis(at_least_one(durations.success_ms))
            <= MAX_NANOS,
    ensures
        redraw,
        *final(fault) is None,
        *old(fault) is Some ==> final(overlays).notifies(
            output@,
            "Current configuration was unable to load properly. Run `halleyctl config verify` to see why."@,
            NotificationKind::Error,
            durations.error_ms,
            old(overlays).entry_bits(mix_bits, now),
            now,
        ),
        *old(fault) is None && config_path is Some ==> final(overlays).notifies(
            output@,
            "Configuration successfully loaded from "@ + config_path->0@,
            NotificationKind::Success,
            durations.success_ms,
            old(overlays).entry_bits(mix_bits, now),
            now,
        ),
        *old(fault) is None && config_path is None ==> final(overlays).notification
            == old(overlays).notification,
        final(overlays).exit == old(overlays).exit,
        final(overlays).zoom_indicators == old(overlays).zoom_indicators,
{
    let told = fault.take();
    if told.is_some() {
        overlays.show_config_error(output, durations.error_ms, mix_bits, now);
    } else if let Some(path) = config_path {
        overlays.show_config_success(output, path, durations.success_ms, mix_bits, now);
    }
    true
}

/// Says that a configuration could not be loaded again. Something is drawn in any case.
pub fn show_config_reload_error(
    overlays: &mut OverlayManager,
    selected: Option<&str>,
    primary: &str,
    durations: NotificationDurations,
    mix_bits: u32,
    now: Duration,
) -> (redraw: bool)
    requires
        now.nanos + millis(at_least_one(durations.error_ms)) <= MAX_NANOS,
    ensures
        redraw,
        final(overlays).notifies(
            message_output(steps::str_of(selected), primary@),
            "Current configuration was unable to load properly. Run `halleyctl config verify` to see why."@,
            NotificationKind::Error,
            durations.error_ms,
            old(overlays).entry_bits(mix_bits, now),
            now,
        ),
        final(overlays).exit == old(overlays).exit,
        final(overlays).zoom_indicators == old(overlays).zoom_indicators,
{
    let output = notification_output_name(selected, primary);
    overlays.show_config_error(output, durations.error_ms, mix_bits, now);
    true
}

/// Takes back what was said of a configuration that could not be loaded; `true` where
/// something is to be drawn.
pub fn clear_config_reload_error(overlays: &mut OverlayManager, mix_bits: u32, now: Duration)
    -> (redraw: bool)
    ensures
        redraw == (old(overlays).notification is Some && old(overlays).notification->0.kind
            == NotificationKind::Error && old(overlays).notification->0.dismissed is None),
        !redraw ==> *final(overlays) == *old(overlays),
        redraw ==> final(overlays).notification is Some && {
            let before = old(overlays).notification->0;
            let after = final(overlays).notification->0;
            after == (Notification { dismissed: Some((now, mix_bits)), ..before })
        },
        final(overlays).exit == old(overlays).exit,
        final(overlays).zoom_indicators == old(overlays).zoom_indicators,
{
    overlays.clear_config_error(mix_bits, now)
}

/// What the session does when it asks whether to leave.
#[derive(Clone, Copy, Debug, PartialEq, Eq, Structural)]
pub enum ExitStep {
    ResetCursor,
    CancelGestures,
    CancelTouches,
    Redraw,
}

/// Asks whether to leave. The pointer lets go of what it holds; where the question is
/// asked already nothing happens.
pub fn show_exit_confirmation(overlays: &mut OverlayManager, grab: &mut Grab, now: Duration)
    -> (list: Vec<ExitStep>)
    ensures
        old(overlays).asks_exit() ==> list@.len() == 0 && *final(overlays) == *old(overlays)
            && *final(grab) == *old(grab),
        !old(overlays).asks_exit() ==> {
            &&& list@ == seq![
                ExitStep::ResetCursor,
                ExitStep::CancelGestures,
                ExitStep::CancelTouches,
                ExitStep::Redraw,
            ]
            &&& *final(grab) is Idle
            &&& final(overlays).exit is Some
            &&& final(overlays).exit->0.opened_at == now
            &&& final(overlays).notification == old(overlays).notification
            &&& final(overlays).zoom_indicators == old(overlays).zoom_indicators
        },
        final(overlays).asks_exit(),
{
    let mut list: Vec<ExitStep> = Vec::new();
    if !overlays.show_exit(now) {
        return list;
    }
    *grab = Grab::Idle;
    list.push(ExitStep::ResetCursor);
    list.push(ExitStep::CancelGestures);
    list.push(ExitStep::CancelTouches);
    list.push(ExitStep::Redraw);
    list
}

/// Takes the question whether to leave back; `true` where something is to be drawn.
pub fn cancel_exit_confirmation(overlays: &mut OverlayManager, mix_bits: u32, now: Duration)
    -> (redraw: bool)
    ensures
        redraw == old(overlays).asks_exit(),
        final(overlays).exit == (if redraw {
            Some(
                ExitConfirmation {
                    opened_at: old(overlays).exit->0.opened_at,
                    closing: Some((now, mix_bits)),
                },
            )
        } else {
            old(overlays).exit
        }),
        final(overlays).notification == old(overlays).notification,
        final(overlays).zoom_indicators == old(overlays).zoom_indicators,
{
    overlays.cancel_exit(mix_bits, now)
}

/// Whether the session ends: only where it was asked whether to.
pub fn confirm_exit(overlays: &OverlayManager) -> (stops: bool)
    ensures
        stops == overlays.asks_exit(),
{
    overlays.exit_modal_active()
}

/// The settings of gestures.
#[derive(Clone, Copy, Debug, PartialEq, Eq, Structural)]
pub struct GestureSettings {
    pub touch_passthrough: bool,
    /// All that they say.
    pub all: Section,
}

/// What ends before a configuration is applied.
#[derive(Clone, Copy, Debug, PartialEq, Eq, Structural)]
pub struct ReloadStart {
    pub cancel_touch: bool,
    pub cancel_gestures: bool,
}

/// What ends before a configuration is applied: the touches that clients no longer get,
/// and every gesture where the rules for them change.
pub fn begin_common_config(current: GestureSettings, next: GestureSettings) -> (start: ReloadStart)
    ensures
        start.cancel_touch == (current.touch_passthrough && !next.touch_passthrough),
        start.cancel_gestures == (current != next),
{
    ReloadStart {
        cancel_touch: current.touch_passthrough && !next.touch_passthrough,
        cancel_gestures: current != next,
    }
}

/// The settings that decide how things look.
#[derive(Clone, Copy, Debug, PartialEq, Eq, Structural)]
pub struct LookSettings {
    pub decorations: Section,
    pub effects: Section,
    pub zoom: Section,
    pub overlays: Section,
}

/// What the parts of the session found when they took over a configuration.
#[derive(Clone, Copy, Debug, PartialEq, Eq, Structural)]
pub struct ReloadOutcome {
    pub cursor_changed: bool,
    pub cursor_visibility_changed: bool,
    pub nodes: bool,
    pub bearings: bool,
    pub font: bool,
    pub fullscreen: bool,
    pub maximize: bool,
}

/// What follows when a configuration was applied.
#[derive(Clone, Copy, Debug, PartialEq, Eq, Structural)]
pub struct ReloadEffects {
    pub publish_cursor: bool,
    pub drop_fullscreen_pictures: bool,
    pub drop_maximize_pictures: bool,
    pub reconcile_landmarks: bool,
    pub redraw: bool,
}

/// What follows when a configuration was applied.
pub fn apply_common_config(
    current: LookSettings,
    next: LookSettings,
    outcome: ReloadOutcome,
    publishes_environment: bool,
) -> (effects: ReloadEffects)
    ensures
        effects.publish_cursor == (outcome.cursor_changed && publishes_environment),
        effects.drop_fullscreen_pictures == outcome.fullscreen,
        effects.drop_maximize_pictures == outcome.maximize,
        effects.reconcile_landmarks == outcome.nodes,
        effects.redraw == (current != next || outcome.cursor_changed
            || outcome.cursor_visibility_changed || outcome.nodes || outcome.bearings
            || outcome.font || outcome.fullscreen || outcome.maximize),
{
    let look = current.decorations != next.decorations || current.effects != next.effects
        || current.zoom != next.zoom || current.overlays != next.overlays
        || outcome.cursor_changed || outcome.cursor_visibility_changed;
    ReloadEffects {
        publish_cursor: outcome.cursor_changed && publishes_environment,
        drop_fullscreen_pictures: outcome.fullscreen,
        drop_maximize_pictures: outcome.maximize,
        reconcile_landmarks: outcome.nodes,
        redraw: look || outcome.nodes || outcome.bearings || outcome.font || outcome.fullscreen
            || outcome.maximize,
    }
}

/// The windows whose pictures are dropped once they have come to rest, and whether
/// anything that was seen has.
#[derive(Debug)]
pub struct FullscreenCleanup {
    pub dropped: Vec<SurfaceId>,
    pub visual_finished: bool,
}

/// What is dropped once windows have come to rest in fullscreen or in the field.
pub fn cleanup_fullscreen(
    fullscreen: Vec<SurfaceId>,
    maximized: &Vec<SurfaceId>,
    fullscreen_finished: bool,
    maximize_finished: bool,
) -> (cleanup: FullscreenCleanup)
    ensures
        cleanup.dropped@ == fullscreen@ + maximized@,
        cleanup.visual_finished == (fullscreen_finished || maximize_finished),
{
    let mut dropped = fullscreen;
    let mut index: usize = 0;
    assert(maximized@.take(0) =~= Seq::<SurfaceId>::empty());
    assert(dropped@ =~= fullscreen@ + maximized@.take(0));
    while index < maximized.len()
        invariant
            index <= maximized@.len(),
            dropped@ == fullscreen@ + maximized@.take(index as int),
        decreases maximized@.len() - index,
    {
        dropped.push(maximized[index]);
        assert(dropped@ =~= fullscreen@ + maximized@.take(index as int + 1));
        index += 1;
    }
    assert(maximized@.take(index as int) =~= maximized@);
    FullscreenCleanup { dropped, visual_finished: fullscreen_finished || maximize_finished }
}

/// What a camera follows.
#[derive(Clone, Copy, Debug, PartialEq, Eq, Structural)]
pub enum CameraSource {
    /// A window in fullscreen, after what is maximized in the field is let go.
    Fullscreen,
    /// What is maximized in the field, if anything is, after fullscreen is let go.
    FieldMaximize,
}

/// What the camera of an output follows: a window in fullscreen goes first.
pub fn sync_fullscreen_camera(has_geometry: bool, has_frame: bool) -> (source: CameraSource)
    ensures
        source == (if has_geometry && has_frame {
            CameraSource::Fullscreen
        } else {
            CameraSource::FieldMaximize
        }),
{
    if has_geometry && has_frame {
        CameraSource::Fullscreen
    } else {
        CameraSource::FieldMaximize
    }
}

/// A window on the screen.
#[derive(Clone, Copy, Debug, PartialEq, Eq, Structural)]
pub struct ShownWindow {
    pub surface: Option<SurfaceId>,
    pub is_x11: bool,
}

/// The window is one of X11 with this surface.
pub open spec fn is_x11_window(window: ShownWindow, root: SurfaceId) -> bool {
    window.is_x11 && window.surface == Some(root)
}

/// The window of X11 whose presentation in fullscreen is over: the first with the
/// surface.
pub fn finish_x11_fullscreen_presentation(windows: &Vec<ShownWindow>, root: SurfaceId) -> (found:
    Option<usize>)
    ensures
        match found {
            Some(i) => i < windows@.len() && is_x11_window(windows@[i as int], root)
                && forall|j: int| 0 <= j < i ==> !is_x11_window(#[trigger] windows@[j], root),
            None => forall|j: int|
                0 <= j < windows@.len() ==> !is_x11_window(#[trigger] windows@[j], root),
        },
{
    let mut index: usize = 0;
    while index < windows.len()
        invariant
            index <= windows@.len(),
            forall|j: int| 0 <= j < index ==> !is_x11_window(#[trigger] windows@[j], root),
        decreases windows@.len() - index,
    {
        if windows[index].is_x11 && windows[index].surface == Some(root) {
            return Some(index);
        }
        index += 1;
    }
    None
}

/// Messages are shown on the output that is selected, and on the primary one only where none
/// is.
pub proof fn messages_are_shown_on_the_selected_output(selected: Seq<char>, primary: Seq<char>)
    ensures
        message_output(Some(selected), primary) == selected,
        message_output(None, primary) == primary,
{
}

/// The window that is looked for is one of X11 and has the surface.
pub proof fn x11_windows_are_found_by_surface(window: ShownWindow, root: SurfaceId)
    ensures
        is_x11_window(window, root) ==> window.is_x11 && window.surface is Some
            && window.surface->0 == root,
        window.is_x11 && window.surface == Some(root) ==> is_x11_window(window, root),
{
}

/// Settings that stay as they are cancel no gesture and draw nothing by themselves; touches end
/// only where clients no longer get them.
pub proof fn settings_that_stay_cancel_nothing(current: GestureSettings, next: GestureSettings, start: ReloadStart, look: LookSettings, after: LookSettings, outcome: ReloadOutcome, publishes: bool, effects: ReloadEffects)
    requires
        call_ensures(begin_common_config, (current, next), start),
        call_ensures(apply_common_config, (look, after, outcome, publishes), effects),
    ensures
        current == next ==> !start.cancel_touch && !start.cancel_gestures,
        current != next ==> start.cancel_gestures,
        start.cancel_touch <==> current.touch_passthrough && !next.touch_passthrough,
        effects.publish_cursor ==> outcome.cursor_changed && publishes,
        outcome.cursor_changed && publishes ==> effects.publish_cursor,
        effects.drop_fullscreen_pictures <==> outcome.fullscreen,
        effects.drop_maximize_pictures <==> outcome.maximize,
        effects.reconcile_landmarks <==> outcome.nodes,
        look != after || effects.publish_cursor || effects.drop_fullscreen_pictures || effects.drop_maximize_pictures || effects.reconcile_landmarks || outcome.font || outcome.bearings || outcome.cursor_changed || outcome.cursor_visibility_changed ==> effects.redraw,
        effects.redraw && look == after ==> outcome.cursor_changed || outcome.cursor_visibility_changed || outcome.nodes || outcome.bearings || outcome.font || outcome.fullscreen || outcome.maximize,
{
}

/// The camera follows a fullscreen window that is known and was drawn, and else the field.
pub proof fn the_camera_follows_what_is_fullscreen(has_geometry: bool, has_frame: bool, source: CameraSource)
    requires
        call_ensures(sync_fullscreen_camera, (has_geometry, has_frame), source),
    ensures
        source is Fullscreen ==> has_geometry && has_frame,
        has_geometry && has_frame ==> source is Fullscreen,
{
}

} // verus!
