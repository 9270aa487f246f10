//! Decisions on what clients ask for.

use vstd::prelude::*;

use crate::ids::SurfaceId;
use crate::session::interaction::{grabbed_surface, InteractionState};
use crate::session::output::OutputId;
use crate::steps;

verus! {

/// The output of a new layer: the one that the client named, else the one under the
/// pointer, else the primary one.
pub fn new_layer_output(
    requested: Option<OutputId>,
    under_pointer: Option<OutputId>,
    primary: OutputId,
) -> (output: OutputId)
    ensures
        output == (match requested {
            Some(output) => output,
            None => match under_pointer {
                Some(output) => output,
                None => primary,
            },
        }),
{
    match requested {
        Some(output) => output,
        None => match under_pointer {
            Some(output) => output,
            None => primary,
        },
    }
}

/// What becomes of a buffer that a client wants to share.
#[derive(Clone, Copy, Debug, PartialEq, Eq, Structural)]
pub enum DmabufStep {
    /// It came through a global that is not in use.
    Fail,
    /// The renderer is asked to import it, and its answer is handed on.
    Import,
}

pub fn dmabuf_imported(global: Option<u64>, used: u64) -> (step: DmabufStep)
    ensures
        step == (if global == Some(used) {
            DmabufStep::Import
        } else {
            DmabufStep::Fail
        }),
{
    if global == Some(used) {
        DmabufStep::Import
    } else {
        DmabufStep::Fail
    }
}

/// What is done about a request of a client.
#[derive(Clone, Copy, Debug, PartialEq, Eq, Structural)]
pub enum ProtocolStep {
    /// The opening of the window is animated.
    StartOpening(SurfaceId),
    /// The window's change from or to fullscreen goes on.
    FullscreenCommit,
    /// The window keeps the edge that it is not resized at.
    FinishResize,
    DropOpening,
    ForgetFullscreen,
    DropTexture,
    /// The window leaves the field.
    Remove,
    RequestFullscreen,
    Redraw,
    SyncKeyboard,
}

/// A window that a commit maps opens with an animation, unless it fills its output at once.
pub open spec fn commit_steps(mapped: Option<SurfaceId>, fullscreen: bool) -> Seq<ProtocolStep> {
    (match mapped {
        Some(surface) => steps::when(!fullscreen, seq![ProtocolStep::StartOpening(surface)]),
        None => Seq::empty(),
    }) + seq![
        ProtocolStep::FullscreenCommit,
        ProtocolStep::FinishResize,
        ProtocolStep::Redraw,
        ProtocolStep::SyncKeyboard,
    ]
}

/// What follows a commit: `mapped` is the window that it mapped, `fullscreen` whether that
/// one fills its output or is about to.
pub fn commit(mapped: Option<SurfaceId>, fullscreen: bool) -> (list: Vec<ProtocolStep>)
    ensures
        list@ == commit_steps(mapped, fullscreen),
{
    let mut list: Vec<ProtocolStep> = Vec::new();
    if let Some(surface) = mapped {
        if !fullscreen {
            list.push(ProtocolStep::StartOpening(surface));
        }
    }
    list.push(ProtocolStep::FullscreenCommit);
    list.push(ProtocolStep::FinishResize);
    list.push(ProtocolStep::Redraw);
    list.push(ProtocolStep::SyncKeyboard);
    assert(list@ =~= commit_steps(mapped, fullscreen));
    list
}

/// A window is destroyed. An anchor that it left goes too.
pub fn toplevel_destroyed(interaction: &mut InteractionState, surface: SurfaceId) -> (list: Vec<
    ProtocolStep,
>)
    ensures
        list@ == seq![
            ProtocolStep::DropOpening,
            ProtocolStep::ForgetFullscreen,
            ProtocolStep::DropTexture,
            ProtocolStep::Remove,
            ProtocolStep::Redraw,
        ],
        final(interaction).resize_anchor == (match old(interaction).resize_anchor {
            Some(anchor) => if anchor.surface == surface {
                None
            } else {
                Some(anchor)
            },
            None => None,
        }),
        final(interaction).grab == old(interaction).grab,
        final(interaction).same_but_grab(*old(interaction)),
{
    let mut list: Vec<ProtocolStep> = Vec::new();
    list.push(ProtocolStep::DropOpening);
    list.push(ProtocolStep::ForgetFullscreen);
    list.push(ProtocolStep::DropTexture);
    interaction.forget_resize_anchor(surface);
    list.push(ProtocolStep::Remove);
    list.push(ProtocolStep::Redraw);
    list
}

/// A client asks for its window to fill an output. The pointer lets go of the window.
pub fn fullscreen_request(interaction: &mut InteractionState, surface: SurfaceId) -> (list: Vec<
    ProtocolStep,
>)
    ensures
        list@ == seq![ProtocolStep::RequestFullscreen, ProtocolStep::Redraw],
        grabbed_surface(old(interaction).grab) != Some(surface) ==> *final(interaction) == *old(
            interaction,
        ),
        grabbed_surface(old(interaction).grab) == Some(surface) ==> final(interaction).grab is Idle
            && final(interaction).resize_anchor == (match old(interaction).resize_anchor {
            Some(anchor) => if anchor.surface == surface {
                None
            } else {
                Some(anchor)
            },
            None => None,
        }),
        final(interaction).same_but_grab(*old(interaction)),
{
    interaction.cancel_grab_for_surface(surface);
    let mut list: Vec<ProtocolStep> = Vec::new();
    list.push(ProtocolStep::RequestFullscreen);
    list.push(ProtocolStep::Redraw);
    list
}

/// Whether a window is pictured before a commit changes its size: the commit answers a
/// configure, and the change of state that this configure brings is to be animated.
pub fn captures_before_commit(acked: Option<u32>, animated: bool, window_known: bool) -> (r: bool)
    ensures
        r == (acked is Some && animated && window_known),
{
    acked.is_some() && animated && window_known
}

/// A window that a commit maps in the field opens with an animation, one that fills its
/// output does not. Whatever is mapped, the changes of size and state go on, and at last the
/// keyboard follows what is drawn.
pub proof fn commits_open_windows_in_the_field(
    mapped: Option<SurfaceId>,
    fullscreen: bool,
    surface: SurfaceId,
)
    ensures
        commit_steps(mapped, fullscreen).contains(ProtocolStep::StartOpening(surface)) <==> mapped
            == Some(surface) && !fullscreen,
        commit_steps(mapped, fullscreen).contains(ProtocolStep::FullscreenCommit),
        commit_steps(mapped, fullscreen).contains(ProtocolStep::FinishResize),
        commit_steps(mapped, fullscreen).contains(ProtocolStep::Redraw),
        commit_steps(mapped, fullscreen).last() == ProtocolStep::SyncKeyboard,
        mapped is None || fullscreen ==> commit_steps(mapped, fullscreen) == seq![
            ProtocolStep::FullscreenCommit,
            ProtocolStep::FinishResize,
            ProtocolStep::Redraw,
            ProtocolStep::SyncKeyboard,
        ],
{
    broadcast use steps::group_steps;

}

/// A window opens before its fullscreen state is looked at; resizes end then, and the keyboard
/// follows once the frame is asked for.
#[verifier::rlimit(50)]
pub proof fn commits_are_followed_in_turn(surface: SurfaceId, fullscreen: bool)
    ensures
        steps::comes_before(commit_steps(Some(surface), fullscreen), ProtocolStep::StartOpening(surface), ProtocolStep::FullscreenCommit),
        steps::comes_before(commit_steps(Some(surface), fullscreen), ProtocolStep::StartOpening(surface), ProtocolStep::FinishResize),
        steps::comes_before(commit_steps(Some(surface), fullscreen), ProtocolStep::FullscreenCommit, ProtocolStep::FinishResize),
        steps::comes_before(commit_steps(Some(surface), fullscreen), ProtocolStep::FullscreenCommit, ProtocolStep::Redraw),
        steps::comes_before(commit_steps(Some(surface), fullscreen), ProtocolStep::FinishResize, ProtocolStep::Redraw),
        steps::comes_before(commit_steps(Some(surface), fullscreen), ProtocolStep::FinishResize, ProtocolStep::SyncKeyboard),
        steps::comes_before(commit_steps(Some(surface), fullscreen), ProtocolStep::Redraw, ProtocolStep::SyncKeyboard),
{
    broadcast use {steps::group_steps, steps::group_orders};

}

/// A layer goes to the output that it asks for, without one to that under the pointer, and
/// without that to the primary one; a buffer is taken only for the device in use.
pub proof fn layers_go_where_they_ask(asked: OutputId, under: OutputId, any: Option<OutputId>, primary: OutputId, first: OutputId, second: OutputId, third: OutputId, device: Option<u64>, used: u64, step: DmabufStep)
    requires
        call_ensures(new_layer_output, (Some(asked), any, primary), first),
        call_ensures(new_layer_output, (None, Some(under), primary), second),
        call_ensures(new_layer_output, (None, None, primary), third),
        call_ensures(dmabuf_imported, (device, used), step),
    ensures
        first == asked,
        second == under,
        third == primary,
        step is Import ==> device is Some && device->0 == used,
        device == Some(used) ==> step is Import,
{
}

} // verus!
