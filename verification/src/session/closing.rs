//! Pictures of windows that close.

use vstd::prelude::*;

use crate::geometry::{Point, Rectangle, Size};
use crate::ids::SurfaceId;
use crate::steps;

verus! {

/// An X11 client cannot refuse to close, so its picture is taken before it is asked. A
/// native client may keep its window, and is pictured when the window really goes.
pub fn captures_before_client_decision(is_x11: bool) -> (r: bool)
    ensures
        r == is_x11,
{
    is_x11
}

/// What the picture of a closing window is taken from.
#[derive(Clone, Copy, Debug, PartialEq, Eq, Structural)]
pub enum CloseCaptureSource {
    Live,
    PresentedX11,
    Unavailable,
}

pub open spec fn capture_source(is_x11: bool, has_presented_x11: bool) -> CloseCaptureSource {
    if !is_x11 {
        CloseCaptureSource::Live
    } else if has_presented_x11 {
        CloseCaptureSource::PresentedX11
    } else {
        CloseCaptureSource::Unavailable
    }
}

/// An X11 window is only ever pictured as it was last shown.
pub fn close_capture_source(is_x11: bool, has_presented_x11: bool) -> (source: CloseCaptureSource)
    ensures
        source == capture_source(is_x11, has_presented_x11),
{
    match (is_x11, has_presented_x11) {
        (false, _) => CloseCaptureSource::Live,
        (true, true) => CloseCaptureSource::PresentedX11,
        (true, false) => CloseCaptureSource::Unavailable,
    }
}

/// Which of the frames that were shown is taken.
#[derive(Clone, Copy, Debug, PartialEq, Eq, Structural)]
pub enum PresentedX11FramePolicy {
    Latest,
    /// One that is old enough not to show the teardown.
    PreTeardown,
}

/// Where a window is drawn.
#[derive(Clone, Copy, Debug, PartialEq, Eq, Structural)]
pub struct VisualState {
    /// It is drawn on the output itself, not in the field.
    pub output_local: bool,
    pub source_geometry: Rectangle,
    pub camera_rect: Rectangle,
    pub animated_rect: Rectangle,
}

/// The frame around a window as it is drawn.
#[derive(Clone, Copy, Debug, PartialEq, Eq, Structural)]
pub enum DrawnChrome {
    /// A border of this width.
    Border(i32),
    /// A title bar and a border, which together fill this rectangle.
    TitleBar(Rectangle),
}

/// What the picture follows.
#[derive(Clone, Copy, Debug, PartialEq, Eq, Structural)]
pub enum CloseAnchor {
    OutputLocal,
    Windowed { world_geometry: Rectangle, captured_camera_rect: Rectangle },
}

/// What is known of a window that is to be pictured.
#[derive(Clone, Copy, Debug, PartialEq, Eq, Structural)]
pub struct CaptureFacts {
    pub override_redirect: bool,
    pub surface: Option<SurfaceId>,
    /// A picture of it waits already.
    pub pending: bool,
    /// The output that it is on is known.
    pub output_known: bool,
    pub visual: Option<VisualState>,
    /// Its place in the stack, from the bottom.
    pub stack_index: Option<usize>,
    pub focused_window: Option<SurfaceId>,
    /// The window fills its output and has no frame there.
    pub chrome_suppressed: bool,
    /// The X server shows it full.
    pub x11_fullscreen: bool,
    pub maximized: bool,
    pub chrome: DrawnChrome,
    pub is_x11: bool,
    /// There is a frame that fits the policy.
    pub presented: bool,
    /// The place that it opened from is known.
    pub opening_origin: bool,
    /// There is another place that it can go to.
    pub fallback_origin: bool,
    pub output_geometry_known: bool,
}

/// Where the picture goes.
#[derive(Clone, Copy, Debug, PartialEq, Eq, Structural)]
pub enum RetractOrigin {
    Nowhere,
    OpeningOrigin,
    Fallback,
}

/// A picture that is to be taken. It holds the whole frame, so that none is drawn
/// around it again.
#[derive(Clone, Copy, Debug, PartialEq, Eq, Structural)]
pub struct CapturePlan {
    pub surface: SurfaceId,
    pub source: CloseCaptureSource,
    pub focused: bool,
    pub chrome_visible: bool,
    pub maximized: bool,
    pub destination: Rectangle,
    pub anchor: CloseAnchor,
    pub stack_index: usize,
    pub retract_origin: RetractOrigin,
}

/// What becomes of a request for a picture.
#[derive(Clone, Copy, Debug, PartialEq, Eq, Structural)]
pub enum CaptureDecision {
    /// There is nothing to picture.
    Refused,
    AlreadyPending,
    Take(CapturePlan),
}

/// The rectangle that a closing window fills, with its frame if that is drawn.
pub open spec fn is_destination(
    destination: Rectangle,
    chrome_visible: bool,
    animated: Rectangle,
    chrome: DrawnChrome,
) -> bool {
    if !chrome_visible {
        destination == animated
    } else {
        match chrome {
            DrawnChrome::TitleBar(outer) => destination == outer,
            DrawnChrome::Border(width) => {
                &&& destination.loc.x == animated.loc.x - width
                &&& destination.loc.y == animated.loc.y - width
                &&& destination.size.w == animated.size.w + 2 * width
                &&& destination.size.h == animated.size.h + 2 * width
            },
        }
    }
}

/// The border does not push the rectangle past what a coordinate holds.
pub open spec fn border_fits(animated: Rectangle, chrome: DrawnChrome) -> bool {
    chrome matches DrawnChrome::Border(width) ==> {
        &&& i32::MIN <= 2 * width <= i32::MAX
        &&& i32::MIN <= animated.loc.x - width <= i32::MAX
        &&& i32::MIN <= animated.loc.y - width <= i32::MAX
        &&& i32::MIN <= animated.size.w + 2 * width <= i32::MAX
        &&& i32::MIN <= animated.size.h + 2 * width <= i32::MAX
    }
}

pub fn closing_destination(chrome_visible: bool, animated: Rectangle, chrome: DrawnChrome)
    -> (destination: Rectangle)
    requires
        chrome_visible ==> border_fits(animated, chrome),
    ensures
        is_destination(destination, chrome_visible, animated, chrome),
{
    if !chrome_visible {
        return animated;
    }
    match chrome {
        DrawnChrome::TitleBar(outer) => outer,
        DrawnChrome::Border(width) => Rectangle {
            loc: Point { x: animated.loc.x - width, y: animated.loc.y - width },
            size: Size { w: animated.size.w + width * 2, h: animated.size.h + width * 2 },
        },
    }
}

/// The window can be pictured.
pub open spec fn can_capture(facts: CaptureFacts) -> bool {
    &&& !facts.override_redirect
    &&& facts.surface is Some
    &&& !facts.pending
    &&& facts.output_known
    &&& facts.visual is Some
    &&& facts.stack_index is Some
}

/// The plan says what the facts say.
pub open spec fn plan_fits(plan: CapturePlan, facts: CaptureFacts) -> bool {
    let visual = facts.visual->0;
    let chrome_visible = !facts.chrome_suppressed && !facts.x11_fullscreen;
    &&& facts.surface == Some(plan.surface)
    &&& plan.source == capture_source(facts.is_x11, facts.presented)
    &&& plan.focused == (facts.focused_window == facts.surface)
    &&& plan.chrome_visible == chrome_visible
    &&& plan.maximized == facts.maximized
    &&& is_destination(plan.destination, chrome_visible, visual.animated_rect, facts.chrome)
    &&& plan.anchor == (if visual.output_local {
        CloseAnchor::OutputLocal
    } else {
        CloseAnchor::Windowed {
            world_geometry: visual.source_geometry,
            captured_camera_rect: visual.camera_rect,
        }
    })
    &&& facts.stack_index == Some(plan.stack_index)
    &&& plan.retract_origin == (if !facts.output_geometry_known {
        RetractOrigin::Nowhere
    } else if facts.opening_origin {
        RetractOrigin::OpeningOrigin
    } else if facts.fallback_origin {
        RetractOrigin::Fallback
    } else {
        RetractOrigin::Nowhere
    })
}

/// Decides on a picture of a window that is about to close.
pub fn capture_window(facts: CaptureFacts) -> (decision: CaptureDecision)
    requires
        can_capture(facts) && !facts.chrome_suppressed && !facts.x11_fullscreen ==> border_fits(
            facts.visual->0.animated_rect,
            facts.chrome,
        ),
    ensures
        match decision {
            CaptureDecision::Take(plan) => can_capture(facts) && plan_fits(plan, facts),
            CaptureDecision::AlreadyPending => !facts.override_redirect && facts.surface is Some
                && facts.pending,
            CaptureDecision::Refused => !can_capture(facts) && (facts.override_redirect
                || facts.surface is None || !facts.pending),
        },
{
    if facts.override_redirect {
        return CaptureDecision::Refused;
    }
    let surface = match facts.surface {
        Some(surface) => surface,
        None => {
            return CaptureDecision::Refused;
        },
    };
    if facts.pending {
        return CaptureDecision::AlreadyPending;
    }
    if !facts.output_known {
        return CaptureDecision::Refused;
    }
    let visual = match facts.visual {
        Some(visual) => visual,
        None => {
            return CaptureDecision::Refused;
        },
    };
    let stack_index: usize = match facts.stack_index {
        Some(index) => index,
        None => {
            return CaptureDecision::Refused;
        },
    };
    let chrome_visible = !facts.chrome_suppressed && !facts.x11_fullscreen;
    let destination = closing_destination(chrome_visible, visual.animated_rect, facts.chrome);
    let anchor = if visual.output_local {
        CloseAnchor::OutputLocal
    } else {
        CloseAnchor::Windowed {
            world_geometry: visual.source_geometry,
            captured_camera_rect: visual.camera_rect,
        }
    };
    let retract_origin = if !facts.output_geometry_known {
        RetractOrigin::Nowhere
    } else if facts.opening_origin {
        RetractOrigin::OpeningOrigin
    } else if facts.fallback_origin {
        RetractOrigin::Fallback
    } else {
        RetractOrigin::Nowhere
    };
    CaptureDecision::Take(
        CapturePlan {
            surface,
            source: close_capture_source(facts.is_x11, facts.presented),
            focused: facts.focused_window == Some(surface),
            chrome_visible,
            maximized: facts.maximized,
            destination,
            anchor,
            stack_index,
            retract_origin,
        },
    )
}

/// Whether the window now has a picture, and whether that picture is provisional: one
/// that is dropped again if the pointer leaves the control that asked for it.
#[derive(Clone, Copy, Debug, PartialEq, Eq, Structural)]
pub struct CaptureOutcome {
    pub captured: bool,
    pub mark_provisional: bool,
}

/// The outcome of a decision, once the renderer has said whether it could take the
/// picture.
pub fn capture_outcome(decision: CaptureDecision, taken: bool, provisional: bool) -> (outcome:
    CaptureOutcome)
    ensures
        outcome.captured == (decision == CaptureDecision::AlreadyPending || (decision is Take
            && decision->Take_0.source != CloseCaptureSource::Unavailable && taken)),
        outcome.mark_provisional == (decision is Take && outcome.captured && provisional),
{
    match decision {
        CaptureDecision::Refused => CaptureOutcome { captured: false, mark_provisional: false },
        CaptureDecision::AlreadyPending => CaptureOutcome {
            captured: true,
            mark_provisional: false,
        },
        CaptureDecision::Take(plan) => {
            let captured = match plan.source {
                CloseCaptureSource::Unavailable => false,
                _ => taken,
            };
            CaptureOutcome { captured, mark_provisional: captured && provisional }
        },
    }
}

/// What is done with a window that is about to be unmapped.
#[derive(Clone, Copy, Debug, PartialEq, Eq, Structural)]
pub enum UnmapHandoff {
    /// It has no surface.
    Missing,
    /// Its picture is already shown.
    AlreadyActive,
    /// A picture from before the teardown is to be taken.
    Capture(PresentedX11FramePolicy),
}

/// The first sight of an X11 window that closes by itself is that it is unmapped. What
/// it shows then may be its teardown.
pub fn capture_and_activate_before_unmap(surface: Option<SurfaceId>, active: bool) -> (handoff:
    UnmapHandoff)
    ensures
        handoff == (if surface is None {
            UnmapHandoff::Missing
        } else if active {
            UnmapHandoff::AlreadyActive
        } else {
            UnmapHandoff::Capture(PresentedX11FramePolicy::PreTeardown)
        }),
{
    if surface.is_none() {
        UnmapHandoff::Missing
    } else if active {
        UnmapHandoff::AlreadyActive
    } else {
        UnmapHandoff::Capture(PresentedX11FramePolicy::PreTeardown)
    }
}

#[derive(Clone, Copy, Debug, PartialEq, Eq, Structural)]
pub enum HandoffStep {
    /// The frame that was last shown of it is no longer needed.
    ForgetPresentedFrame,
    /// Its picture starts to close.
    Start,
}

/// What is done about a window before it is unmapped, where `captured` tells whether its
/// picture could be taken.
pub open spec fn handoff_steps(handoff: UnmapHandoff, captured: bool) -> Seq<HandoffStep> {
    match handoff {
        UnmapHandoff::Missing => Seq::empty(),
        UnmapHandoff::AlreadyActive => seq![HandoffStep::ForgetPresentedFrame],
        UnmapHandoff::Capture(_) => seq![HandoffStep::ForgetPresentedFrame] + steps::when(
            captured,
            seq![HandoffStep::Start],
        ),
    }
}

pub fn follow_handoff(handoff: UnmapHandoff, captured: bool) -> (list: Vec<HandoffStep>)
    ensures
        list@ == handoff_steps(handoff, captured),
{
    let mut list: Vec<HandoffStep> = Vec::new();
    match handoff {
        UnmapHandoff::Missing => {},
        UnmapHandoff::AlreadyActive => {
            list.push(HandoffStep::ForgetPresentedFrame);
        },
        UnmapHandoff::Capture(_) => {
            list.push(HandoffStep::ForgetPresentedFrame);
            if captured {
                list.push(HandoffStep::Start);
            }
        },
    }
    assert(list@ =~= handoff_steps(handoff, captured));
    list
}

/// What came of the handoff: whether a picture stands for the window now, and whether
/// something is to be drawn. `started` is what `Start` answered.
pub fn finish_handoff(handoff: UnmapHandoff, captured: bool, started: bool) -> (r: (bool, bool))
    ensures
        r.0 == (handoff == UnmapHandoff::AlreadyActive || (handoff is Capture && captured
            && started)),
        r.1 == (handoff is Capture && captured && started),
{
    match handoff {
        UnmapHandoff::Missing => (false, false),
        UnmapHandoff::AlreadyActive => (true, false),
        UnmapHandoff::Capture(_) => (captured && started, captured && started),
    }
}

/// A window is never pictured twice: one that has a picture is left alone, whatever
/// else is known of it.
pub proof fn pending_pictures_are_kept(facts: CaptureFacts)
    requires
        facts.pending,
    ensures
        !can_capture(facts),
{
}

/// An X11 window is never pictured from what it draws now.
pub proof fn x11_is_never_sampled_live(facts: CaptureFacts, plan: CapturePlan)
    requires
        facts.is_x11,
        plan_fits(plan, facts),
    ensures
        plan.source != CloseCaptureSource::Live,
{
}

/// What becomes of a request to picture the window of a surface.
#[derive(Clone, Copy, Debug, PartialEq, Eq, Structural)]
pub enum SurfaceCapture {
    /// There is a picture of it, or none can be taken.
    Answered(bool),
    /// Its window is to be pictured.
    Capture,
}

/// Pictures the window of a surface. One that has been pictured is left alone; without a
/// window there is nothing to picture.
pub fn capture_surface(pending: bool, window_known: bool) -> (capture: SurfaceCapture)
    ensures
        capture == (if pending {
            SurfaceCapture::Answered(true)
        } else if window_known {
            SurfaceCapture::Capture
        } else {
            SurfaceCapture::Answered(false)
        }),
{
    if pending {
        SurfaceCapture::Answered(true)
    } else if window_known {
        SurfaceCapture::Capture
    } else {
        SurfaceCapture::Answered(false)
    }
}

/// A native window is pictured as it is, an X11 window as it was last shown, and where it
/// never was, not at all.
pub proof fn pictures_are_taken_from_what_was_shown(is_x11: bool, presented: bool)
    ensures
        capture_source(is_x11, presented) == CloseCaptureSource::Live <==> !is_x11,
        capture_source(is_x11, presented) == CloseCaptureSource::PresentedX11 <==> is_x11
            && presented,
        capture_source(is_x11, presented) == CloseCaptureSource::Unavailable <==> is_x11
            && !presented,
{
}

/// A border is drawn around the window on all four sides; a frame with a title bar fills its
/// own rectangle; where no frame is drawn the window alone is pictured.
pub proof fn pictures_hold_the_frame_that_is_drawn(
    destination: Rectangle,
    animated: Rectangle,
    chrome: DrawnChrome,
    visible: bool,
)
    requires
        is_destination(destination, visible, animated, chrome),
    ensures
        !visible ==> destination == animated,
        visible && chrome is TitleBar ==> destination == chrome->TitleBar_0,
        visible && chrome is Border ==> {
            let width = chrome->Border_0;
            &&& destination.loc.x + width == animated.loc.x
            &&& destination.loc.y + width == animated.loc.y
            &&& destination.loc.x + destination.size.w == animated.loc.x + animated.size.w + width
            &&& destination.loc.y + destination.size.h == animated.loc.y + animated.size.h + width
        },
{
}

/// A window is pictured exactly where it is the session's own, has a surface and a place on
/// an output and in the stack, and no picture of it waits.
pub proof fn managed_windows_in_view_are_pictured(facts: CaptureFacts)
    ensures
        can_capture(facts) ==> !facts.override_redirect && !facts.pending && facts.output_known
            && facts.surface is Some && facts.visual is Some && facts.stack_index is Some,
        !facts.override_redirect && !facts.pending && facts.output_known && facts.surface is Some
            && facts.visual is Some && facts.stack_index is Some ==> can_capture(facts),
{
}

/// The picture is of the window's own surface, at its own place in the stack, as focused or
/// maximized as the window is. It has a frame unless the window fills its output. A window in
/// the field stays with the field, one on the output with the output.
pub proof fn pictures_look_like_their_windows(plan: CapturePlan, facts: CaptureFacts)
    requires
        can_capture(facts),
        plan_fits(plan, facts),
    ensures
        plan.surface == facts.surface->0,
        plan.stack_index == facts.stack_index->0,
        plan.focused <==> facts.focused_window == Some(plan.surface),
        plan.maximized <==> facts.maximized,
        plan.chrome_visible <==> !facts.chrome_suppressed && !facts.x11_fullscreen,
        facts.chrome_suppressed || facts.x11_fullscreen ==> plan.destination
            == facts.visual->0.animated_rect,
        plan.anchor is OutputLocal <==> facts.visual->0.output_local,
        plan.anchor matches CloseAnchor::Windowed { world_geometry, captured_camera_rect }
            ==> world_geometry == facts.visual->0.source_geometry && captured_camera_rect
            == facts.visual->0.camera_rect,
        plan.source == CloseCaptureSource::Live <==> !facts.is_x11,
        plan.source == CloseCaptureSource::PresentedX11 <==> facts.is_x11 && facts.presented,
{
}

/// A picture goes to where its window opened from if that is known, else to another place if
/// there is one, and nowhere where its output has no place.
pub proof fn pictures_go_where_the_window_came_from(plan: CapturePlan, facts: CaptureFacts)
    requires
        can_capture(facts),
        plan_fits(plan, facts),
    ensures
        plan.retract_origin == RetractOrigin::OpeningOrigin <==> facts.output_geometry_known
            && facts.opening_origin,
        plan.retract_origin == RetractOrigin::Fallback <==> facts.output_geometry_known
            && !facts.opening_origin && facts.fallback_origin,
        plan.retract_origin == RetractOrigin::Nowhere <==> !facts.output_geometry_known || (
        !facts.opening_origin && !facts.fallback_origin),
{
}

/// The last frame of a window with a surface is always let go of. A picture starts to close
/// only once it was taken, and not a second time.
pub proof fn only_new_pictures_start_to_close(
    handoff: UnmapHandoff,
    captured: bool,
    policy: PresentedX11FramePolicy,
)
    ensures
        handoff_steps(handoff, captured).contains(HandoffStep::ForgetPresentedFrame) <==> handoff
            != UnmapHandoff::Missing,
        handoff_steps(handoff, captured).contains(HandoffStep::Start) <==> handoff is Capture
            && captured,
        handoff_steps(UnmapHandoff::Capture(policy), true) == seq![
            HandoffStep::ForgetPresentedFrame,
            HandoffStep::Start,
        ],
{
    broadcast use steps::group_steps;

}

/// The frame that was shown last is forgotten before the closing starts.
pub proof fn frames_are_forgotten_before_windows_close(handoff: UnmapHandoff, captured: bool)
    ensures
        steps::comes_before(handoff_steps(handoff, captured), HandoffStep::ForgetPresentedFrame, HandoffStep::Start),
{
    broadcast use {steps::group_steps, steps::group_orders};

}

/// What was captured before counts without another picture, a source that has none never does,
/// and only a picture that was just taken can be provisional.
pub proof fn captures_are_taken_once(decision: CaptureDecision, taken: bool, provisional: bool, outcome: CaptureOutcome)
    requires
        call_ensures(capture_outcome, (decision, taken, provisional), outcome),
    ensures
        decision is AlreadyPending ==> outcome.captured && !outcome.mark_provisional,
        decision is Take && !taken ==> !outcome.captured,
        decision is Take && decision->Take_0.source is Unavailable ==> !outcome.captured,
        decision is Take && taken && !(decision->Take_0.source is Unavailable) ==> outcome.captured,
        outcome.mark_provisional ==> outcome.captured && provisional && taken,
        decision is Take && outcome.captured && provisional ==> outcome.mark_provisional,
{
}

/// A window that closes already is not captured again, one that is not known is not at all, and
/// any other one is captured before it is torn down.
pub proof fn unmapped_windows_close_once(surface: Option<SurfaceId>, active: bool, handoff: UnmapHandoff, captured: bool, started: bool, r: (bool, bool))
    requires
        call_ensures(capture_and_activate_before_unmap, (surface, active), handoff),
        call_ensures(finish_handoff, (handoff, captured, started), r),
    ensures
        handoff is Missing <==> surface is None,
        handoff is AlreadyActive <==> surface is Some && active,
        handoff is Capture <==> surface is Some && !active,
        handoff is Capture ==> handoff->Capture_0 is PreTeardown,
        surface is None ==> !r.0,
        surface is Some && active ==> r.0 && !r.1,
        surface is Some && !active ==> (r.0 <==> captured && started),
        r.1 <==> surface is Some && !active && captured && started,
{
}

} // verus!
