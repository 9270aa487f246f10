//! What a window that goes away leaves behind.

use vstd::prelude::*;

use crate::ids::SurfaceId;
use crate::session::interaction::{grabbed_surface, InteractionState};
use crate::steps::{self, str_of, text_of};
use crate::text::same_text;

verus! {

/// A managed window, from the top of the stack to its bottom.
#[derive(Debug)]
pub struct StackEntry {
    pub surface: SurfaceId,
    /// It is still mapped.
    pub mapped: bool,
    /// The output that it is on, if it is on one.
    pub output: Option<String>,
}

/// The entry can take over the focus.
pub open spec fn can_succeed(entry: StackEntry, closing: SurfaceId) -> bool {
    entry.surface != closing && entry.mapped
}

/// The entry is on the output of the window that closes.
pub open spec fn is_neighbour(entry: StackEntry, output: Option<Seq<char>>) -> bool {
    output is Some && text_of(entry.output) == output
}

/// `index` is the topmost entry of those that the condition holds of.
pub open spec fn is_topmost(
    entries: Seq<StackEntry>,
    index: int,
    condition: spec_fn(StackEntry) -> bool,
) -> bool {
    &&& 0 <= index < entries.len()
    &&& condition(entries[index])
    &&& forall|i: int| 0 <= i < index ==> !condition(#[trigger] entries[i])
}

/// The condition holds of no entry.
pub open spec fn has_none(entries: Seq<StackEntry>, condition: spec_fn(StackEntry) -> bool)
    -> bool {
    forall|i: int| 0 <= i < entries.len() ==> !condition(#[trigger] entries[i])
}

/// `successor` gets the focus: the topmost window on the same output, else the topmost
/// of all, as far as they are mapped.
pub open spec fn succeeds(
    entries: Seq<StackEntry>,
    closing: SurfaceId,
    output: Option<Seq<char>>,
    successor: Option<SurfaceId>,
) -> bool {
    let near = |entry: StackEntry| can_succeed(entry, closing) && is_neighbour(entry, output);
    let any = |entry: StackEntry| can_succeed(entry, closing);
    match successor {
        None => has_none(entries, any),
        Some(surface) => exists|i: int|
            #![trigger entries[i]]
            0 <= i < entries.len() && entries[i].surface == surface && (if has_none(
                entries,
                near,
            ) {
                is_topmost(entries, i, any)
            } else {
                is_topmost(entries, i, near)
            }),
    }
}

/// The window that gets the focus when another closes.
pub fn select_ordered_successor(
    entries: &Vec<StackEntry>,
    closing: SurfaceId,
    closing_output: Option<&str>,
) -> (successor: Option<SurfaceId>)
    ensures
        succeeds(entries@, closing, str_of(closing_output), successor),
{
    let mut global: Option<usize> = None;
    let mut index: usize = 0;
    let ghost near = |entry: StackEntry|
        can_succeed(entry, closing) && is_neighbour(entry, str_of(closing_output));
    let ghost any = |entry: StackEntry| can_succeed(entry, closing);
    while index < entries.len()
        invariant
            index <= entries@.len(),
            near == (|entry: StackEntry|
                can_succeed(entry, closing) && is_neighbour(entry, str_of(closing_output))),
            any == (|entry: StackEntry| can_succeed(entry, closing)),
            forall|i: int| 0 <= i < index ==> !near(#[trigger] entries@[i]),
            match global {
                Some(top) => top < index && is_topmost(entries@, top as int, any),
                None => forall|i: int| 0 <= i < index ==> !any(#[trigger] entries@[i]),
            },
        decreases entries@.len() - index,
    {
        let entry = &entries[index];
        if entry.surface != closing && entry.mapped {
            if global.is_none() {
                global = Some(index);
            }
            let neighbour = match closing_output {
                Some(wanted) => match &entry.output {
                    Some(output) => same_text(output.as_str(), wanted),
                    None => false,
                },
                None => false,
            };
            if neighbour {
                assert(near(entries@[index as int]));
                assert(is_topmost(entries@, index as int, near));
                assert(!has_none(entries@, near));
                return Some(entry.surface);
            }
        }
        assert(!near(entries@[index as int]));
        index += 1;
    }
    assert(has_none(entries@, near));
    match global {
        Some(top) => {
            assert(is_topmost(entries@, top as int, any));
            Some(entries[top].surface)
        },
        None => None,
    }
}

/// Who may get the focus of a window that goes away, and where it was.
#[derive(Debug)]
pub struct FocusSuccession {
    pub output: Option<String>,
    pub preferred: Option<SurfaceId>,
}

/// The output of a managed window, if it is mapped.
pub open spec fn mapped_output(entries: Seq<StackEntry>, surface: SurfaceId) -> Option<Seq<char>>
    decreases entries.len(),
{
    if entries.len() == 0 {
        None
    } else if entries[0].surface == surface && entries[0].mapped {
        text_of(entries[0].output)
    } else {
        mapped_output(entries.drop_first(), surface)
    }
}

fn find_mapped_output(entries: &Vec<StackEntry>, surface: SurfaceId) -> (output: Option<String>)
    ensures
        text_of(output) == mapped_output(entries@, surface),
{
    let mut index: usize = 0;
    assert(entries@.skip(0) =~= entries@);
    while index < entries.len()
        invariant
            index <= entries@.len(),
            mapped_output(entries@, surface) == mapped_output(entries@.skip(index as int), surface),
        decreases entries@.len() - index,
    {
        proof {
            let rest = entries@.skip(index as int);
            assert(rest[0] == entries@[index as int]);
            assert(rest.drop_first() =~= entries@.skip(index as int + 1));
        }
        if entries[index].surface == surface && entries[index].mapped {
            return crate::steps::copied(&entries[index].output);
        }
        index += 1;
    }
    None
}

/// What is done while a window that goes away is still there.
#[derive(Clone, Copy, Debug, PartialEq, Eq, Structural)]
pub enum PrepareStep {
    /// Touches on the window are cancelled.
    CancelTouch,
    /// Gestures on the window are cancelled.
    CancelGesture,
    /// The pointer leaves the window, and its constraint ends.
    PreparePointer,
}

/// What is settled while a window that goes away is still there.
#[derive(Debug)]
pub struct WindowUnmapPreparation {
    pub surface: SurfaceId,
    /// Who gets the focus next, if it has the focus.
    pub focus: Option<FocusSuccession>,
}

impl WindowUnmapPreparation {
    pub fn surface(&self) -> (r: SurfaceId)
        ensures
            r == self.surface,
    {
        self.surface
    }
}

/// What is done and settled while a window is still there: if it has the focus, who gets it
/// next.
pub fn prepare_window_unmap(
    entries: &Vec<StackEntry>,
    surface: SurfaceId,
    focused: Option<SurfaceId>,
) -> (r: (Vec<PrepareStep>, WindowUnmapPreparation))
    ensures
        r.0@ == seq![
            PrepareStep::CancelTouch,
            PrepareStep::CancelGesture,
            PrepareStep::PreparePointer,
        ],
        r.1.surface == surface,
        r.1.focus is Some == (focused == Some(surface)),
        r.1.focus is Some ==> text_of(r.1.focus->0.output) == mapped_output(entries@, surface),
        r.1.focus is Some ==> succeeds(
            entries@,
            surface,
            mapped_output(entries@, surface),
            r.1.focus->0.preferred,
        ),
{
    let mut list: Vec<PrepareStep> = Vec::new();
    list.push(PrepareStep::CancelTouch);
    list.push(PrepareStep::CancelGesture);
    list.push(PrepareStep::PreparePointer);
    if focused != Some(surface) {
        return (list, WindowUnmapPreparation { surface, focus: None });
    }
    let output = find_mapped_output(entries, surface);
    let preferred = match &output {
        Some(output) => select_ordered_successor(entries, surface, Some(output.as_str())),
        None => select_ordered_successor(entries, surface, None),
    };
    (
        list,
        WindowUnmapPreparation { surface, focus: Some(FocusSuccession { output, preferred }) },
    )
}

/// What the focus does once a window is gone.
#[derive(Clone, Copy, Debug, PartialEq, Eq, Structural)]
pub enum Succession {
    /// The window did not have the focus, or another has it by now.
    Keep,
    FocusAndRaise(SurfaceId),
    Clear,
}

/// What is let go of with a window that is gone.
#[derive(Clone, Copy, Debug, PartialEq, Eq, Structural)]
pub enum UnmapStep {
    /// It is no longer one of the windows that the session manages.
    ForgetManaged,
    ForgetOpeningOrigin,
    /// The pointer does not go to it any more.
    ClearPendingWarp,
    DropOpening,
    ForgetFullscreen,
    ForgetMaximize,
    DropTexture,
    /// The pointer held it, and has its own image again.
    ResetCursor,
    /// Its picture closes, where there is one.
    StartClosing,
}

pub open spec fn unmap_steps(warps_to_it: bool, grabbed: bool) -> Seq<UnmapStep> {
    seq![UnmapStep::ForgetManaged, UnmapStep::ForgetOpeningOrigin] + steps::when(
        warps_to_it,
        seq![UnmapStep::ClearPendingWarp],
    ) + seq![
        UnmapStep::DropOpening,
        UnmapStep::ForgetFullscreen,
        UnmapStep::ForgetMaximize,
        UnmapStep::DropTexture,
    ] + steps::when(grabbed, seq![UnmapStep::ResetCursor]) + seq![UnmapStep::StartClosing]
}

/// Who gets the focus of a window that is gone: nobody else where it had none, or another
/// has it by now; else the successor among the windows that are left, on the output that
/// it was on.
pub open spec fn is_succession(
    entries: Seq<StackEntry>,
    surface: SurfaceId,
    focus: Option<FocusSuccession>,
    focused_now: Option<SurfaceId>,
    succession: Succession,
) -> bool {
    if focus is None || (focused_now is Some && focused_now != Some(surface)) {
        succession == Succession::Keep
    } else {
        let output = text_of(focus->0.output);
        match succession {
            Succession::Keep => false,
            Succession::FocusAndRaise(next) => succeeds(entries, surface, output, Some(next)),
            Succession::Clear => succeeds(entries, surface, output, None),
        }
    }
}

/// Lets go of a window that is gone, and says who gets the focus. `preparation` is
/// what was settled before it went, `entries` the windows now that it has. `pending_warp` is the
/// window that the pointer is to go to.
pub fn finish_window_unmap(
    interaction: &mut InteractionState,
    preparation: &WindowUnmapPreparation,
    pending_warp: Option<SurfaceId>,
    focused_now: Option<SurfaceId>,
    entries: &Vec<StackEntry>,
) -> (r: (Vec<UnmapStep>, Succession))
    ensures
        r.0@ == unmap_steps(
            pending_warp == Some(preparation.surface),
            grabbed_surface(old(interaction).grab) == Some(preparation.surface),
        ),
        grabbed_surface(old(interaction).grab) == Some(preparation.surface) ==> final(interaction).grab is Idle,
        grabbed_surface(old(interaction).grab) != Some(preparation.surface) ==> final(interaction).grab == old(
            interaction,
        ).grab,
        final(interaction).resize_anchor == (match old(interaction).resize_anchor {
            Some(anchor) => if anchor.surface == preparation.surface {
                None
            } else {
                Some(anchor)
            },
            None => None,
        }),
        final(interaction).same_but_grab(*old(interaction)),
        is_succession(
            entries@,
            preparation.surface,
            preparation.focus,
            focused_now,
            r.1,
        ),
{
    let surface = preparation.surface;
    let mut list: Vec<UnmapStep> = Vec::new();
    list.push(UnmapStep::ForgetManaged);
    list.push(UnmapStep::ForgetOpeningOrigin);
    if pending_warp == Some(surface) {
        list.push(UnmapStep::ClearPendingWarp);
    }
    list.push(UnmapStep::DropOpening);
    list.push(UnmapStep::ForgetFullscreen);
    list.push(UnmapStep::ForgetMaximize);
    list.push(UnmapStep::DropTexture);
    let grabbed = interaction.cancel_grab_for_surface(surface);
    if grabbed {
        list.push(UnmapStep::ResetCursor);
    }
    interaction.forget_resize_anchor(surface);
    list.push(UnmapStep::StartClosing);
    assert(list@ =~= unmap_steps(pending_warp == Some(surface), grabbed));
    let focus = match &preparation.focus {
        Some(focus) => focus,
        None => {
            return (list, Succession::Keep);
        },
    };
    if let Some(focused) = focused_now {
        if focused != surface {
            return (list, Succession::Keep);
        }
    }
    let successor = match &focus.output {
        Some(output) => select_ordered_successor(entries, surface, Some(output.as_str())),
        None => select_ordered_successor(entries, surface, None),
    };
    match successor {
        Some(next) => (list, Succession::FocusAndRaise(next)),
        None => (list, Succession::Clear),
    }
}

/// The window that closes never succeeds itself, and a successor is mapped.
pub proof fn successor_is_another_window(
    entries: Seq<StackEntry>,
    closing: SurfaceId,
    output: Option<Seq<char>>,
    successor: SurfaceId,
)
    requires
        succeeds(entries, closing, output, Some(successor)),
    ensures
        successor != closing,
        exists|i: int|
            #![trigger entries[i]]
            0 <= i < entries.len() && entries[i].surface == successor && entries[i].mapped,
{
}

/// The focus goes to the topmost mapped window other than the one that closes, of those on
/// its output if there are any, else of all. It goes nowhere only where no window is left.
pub proof fn the_topmost_neighbour_succeeds(
    entries: Seq<StackEntry>,
    closing: SurfaceId,
    output: Option<Seq<char>>,
    successor: Option<SurfaceId>,
)
    requires
        succeeds(entries, closing, output, successor),
    ensures
        successor is None ==> forall|j: int|
            0 <= j < entries.len() ==> (#[trigger] entries[j]).surface == closing
                || !entries[j].mapped,
        successor matches Some(next) ==> exists|i: int|
            {
                let entry = #[trigger] entries[i];
                &&& 0 <= i < entries.len()
                &&& entry.surface == next
                &&& next != closing
                &&& entry.mapped
                &&& forall|j: int|
                    0 <= j < i && (#[trigger] entries[j]).surface != closing && entries[j].mapped ==> (
                    output is Some && entry.output is Some && entry.output->0@ == output->0 && (
                    entries[j].output is None || entries[j].output->0@ != output->0))
                &&& forall|j: int|
                    0 <= j < entries.len() && (#[trigger] entries[j]).surface != closing
                        && entries[j].mapped && output is Some && entries[j].output is Some
                        && entries[j].output->0@ == output->0 ==> entry.output is Some
                        && entry.output->0@ == output->0
            },
{
    let near = |entry: StackEntry| can_succeed(entry, closing) && is_neighbour(entry, output);
    let any = |entry: StackEntry| can_succeed(entry, closing);
    if successor is None {
        assert forall|j: int| 0 <= j < entries.len() implies (#[trigger] entries[j]).surface
            == closing || !entries[j].mapped by {
            assert(!any(entries[j]));
        }
    } else {
        let i = choose|i: int|
            #![trigger entries[i]]
            0 <= i < entries.len() && entries[i].surface == successor->0 && (if has_none(
                entries,
                near,
            ) {
                is_topmost(entries, i, any)
            } else {
                is_topmost(entries, i, near)
            });
        let entry = entries[i];
        if has_none(entries, near) {
            assert(any(entries[i]));
            assert forall|j: int|
                0 <= j < i && (#[trigger] entries[j]).surface != closing && entries[j].mapped implies false by {
                assert(!any(entries[j]));
            }
            assert forall|j: int|
                0 <= j < entries.len() && (#[trigger] entries[j]).surface != closing
                    && entries[j].mapped && output is Some && entries[j].output is Some
                    && entries[j].output->0@ == output->0 implies false by {
                assert(!near(entries[j]));
            }
        } else {
            assert(near(entries[i]));
            assert forall|j: int|
                0 <= j < i && (#[trigger] entries[j]).surface != closing && entries[j].mapped implies entries[j].output is None
                || entries[j].output->0@ != output->0 by {
                assert(!near(entries[j]));
            }
        }
    }
}

/// The output of a window is that of its first entry which is mapped.
pub proof fn the_output_is_that_of_the_mapped_window(
    entries: Seq<StackEntry>,
    surface: SurfaceId,
    i: int,
)
    requires
        0 <= i < entries.len(),
        entries[i].surface == surface,
        entries[i].mapped,
        forall|j: int| 0 <= j < i ==> (#[trigger] entries[j]).surface != surface || !entries[j].mapped,
    ensures
        mapped_output(entries, surface) is Some <==> entries[i].output is Some,
        entries[i].output matches Some(output) ==> mapped_output(entries, surface) == Some(output@),
    decreases i,
{
    if i > 0 {
        let rest = entries.drop_first();
        assert(entries[0].surface != surface || !entries[0].mapped);
        assert forall|j: int| 0 <= j < i - 1 implies (#[trigger] rest[j]).surface != surface
            || !rest[j].mapped by {
            assert(rest[j] == entries[j + 1]);
        }
        assert(rest[i - 1] == entries[i]);
        the_output_is_that_of_the_mapped_window(rest, surface, i - 1);
    }
}

/// The focus moves exactly where the window that is gone had it and no other window has it
/// by now. It then goes to a window that is left, and is given up only where none is.
pub proof fn the_focus_moves_only_from_the_window_that_is_gone(
    entries: Seq<StackEntry>,
    surface: SurfaceId,
    focus: Option<FocusSuccession>,
    focused_now: Option<SurfaceId>,
    succession: Succession,
)
    requires
        is_succession(entries, surface, focus, focused_now, succession),
    ensures
        succession == Succession::Keep <==> focus is None || (focused_now is Some && focused_now->0
            != surface),
        succession matches Succession::FocusAndRaise(next) ==> next != surface && exists|i: int|
            #![trigger entries[i]]
            0 <= i < entries.len() && entries[i].surface == next && entries[i].mapped,
        succession == Succession::Clear ==> forall|j: int|
            0 <= j < entries.len() ==> (#[trigger] entries[j]).surface == surface
                || !entries[j].mapped,
{
    if let Succession::FocusAndRaise(next) = succession {
        successor_is_another_window(entries, surface, text_of(focus->0.output), next);
    }
    if succession == Succession::Clear {
        the_topmost_neighbour_succeeds(entries, surface, text_of(focus->0.output), None);
    }
}

/// Everything that the session knows of a window that is gone is forgotten, and last its
/// picture closes. The pointer's own state changes only where it had to do with the window.
pub proof fn nothing_is_left_of_a_window_that_is_gone(warps_to_it: bool, grabbed: bool)
    ensures
        unmap_steps(warps_to_it, grabbed)[0] == UnmapStep::ForgetManaged,
        unmap_steps(warps_to_it, grabbed).contains(UnmapStep::ForgetOpeningOrigin),
        unmap_steps(warps_to_it, grabbed).contains(UnmapStep::DropOpening),
        unmap_steps(warps_to_it, grabbed).contains(UnmapStep::ForgetFullscreen),
        unmap_steps(warps_to_it, grabbed).contains(UnmapStep::ForgetMaximize),
        unmap_steps(warps_to_it, grabbed).contains(UnmapStep::DropTexture),
        unmap_steps(warps_to_it, grabbed).contains(UnmapStep::ClearPendingWarp) <==> warps_to_it,
        unmap_steps(warps_to_it, grabbed).contains(UnmapStep::ResetCursor) <==> grabbed,
        unmap_steps(warps_to_it, grabbed).last() == UnmapStep::StartClosing,
{
    broadcast use steps::group_steps;

}

/// What is known of a window goes in turn, and its closing starts at last.
#[verifier::rlimit(50)]
pub proof fn unmapping_forgets_in_turn(warps_to_it: bool, grabbed: bool)
    ensures
        steps::comes_before(unmap_steps(warps_to_it, grabbed), UnmapStep::ForgetManaged, UnmapStep::ForgetOpeningOrigin),
        steps::comes_before(unmap_steps(warps_to_it, grabbed), UnmapStep::ForgetManaged, UnmapStep::ClearPendingWarp),
        steps::comes_before(unmap_steps(warps_to_it, grabbed), UnmapStep::ForgetOpeningOrigin, UnmapStep::ClearPendingWarp),
        steps::comes_before(unmap_steps(warps_to_it, grabbed), UnmapStep::ForgetOpeningOrigin, UnmapStep::DropOpening),
        steps::comes_before(unmap_steps(warps_to_it, grabbed), UnmapStep::ClearPendingWarp, UnmapStep::DropOpening),
        steps::comes_before(unmap_steps(warps_to_it, grabbed), UnmapStep::ClearPendingWarp, UnmapStep::ForgetFullscreen),
        steps::comes_before(unmap_steps(warps_to_it, grabbed), UnmapStep::DropOpening, UnmapStep::ForgetFullscreen),
        steps::comes_before(unmap_steps(warps_to_it, grabbed), UnmapStep::DropOpening, UnmapStep::ForgetMaximize),
        steps::comes_before(unmap_steps(warps_to_it, grabbed), UnmapStep::ForgetFullscreen, UnmapStep::ForgetMaximize),
        steps::comes_before(unmap_steps(warps_to_it, grabbed), UnmapStep::ForgetFullscreen, UnmapStep::DropTexture),
        steps::comes_before(unmap_steps(warps_to_it, grabbed), UnmapStep::ForgetMaximize, UnmapStep::DropTexture),
        steps::comes_before(unmap_steps(warps_to_it, grabbed), UnmapStep::ForgetMaximize, UnmapStep::ResetCursor),
        steps::comes_before(unmap_steps(warps_to_it, grabbed), UnmapStep::DropTexture, UnmapStep::ResetCursor),
        steps::comes_before(unmap_steps(warps_to_it, grabbed), UnmapStep::DropTexture, UnmapStep::StartClosing),
        steps::comes_before(unmap_steps(warps_to_it, grabbed), UnmapStep::ResetCursor, UnmapStep::StartClosing),
{
    broadcast use {steps::group_steps, steps::group_orders};

}

} // verus!
