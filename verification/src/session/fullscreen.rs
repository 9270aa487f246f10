//! Windows that fill their output or its field.

use vstd::prelude::*;

use crate::geometry::{Point, Rectangle, Size};
use crate::ids::SurfaceId;
use crate::num::{clamp_i32, saturating_add_i32, saturating_double_i32, saturating_sub_i32};
use crate::steps;

verus! {

/// What is known of the focused window.
#[derive(Clone, Copy, Debug, PartialEq, Eq, Structural)]
pub struct FullscreenFacts {
    pub surface: SurfaceId,
    pub collapsed: bool,
    /// The window fills its output, or has asked to.
    pub fullscreen: bool,
    /// The window is maximized in the field.
    pub maximized: bool,
    /// The window that is maximized in the field of the same output.
    pub output_restore: Option<SurfaceId>,
    pub geometry_known: bool,
    /// The window takes its state from its toplevel role.
    pub toplevel: bool,
}

#[derive(Clone, Copy, Debug, PartialEq, Eq, Structural)]
pub enum FullscreenStep {
    CancelGrab,
    /// Windows that fill the output already make room.
    Displace,
    /// Notes where the window is drawn.
    MeasurePresented,
    /// Takes back what was maximized in the field.
    TakeRestore,
    DropTexture(SurfaceId),
    /// The camera goes from the maximized window to the full one; where it cannot, it
    /// leaves the maximized one.
    HandOverCamera,
    ReleaseCamera,
    /// Back to where the window was before it was maximized.
    Relocate,
    /// Gives another window its own place and size back.
    Configure(SurfaceId),
    Request,
    Unrequest,
    SetX11(bool),
    /// The window is to go back to where it was before it was maximized.
    OverrideRestore,
    Reconcile,
    Redraw,
}

pub open spec fn restore_steps(surface: SurfaceId, restore: Option<SurfaceId>) -> Seq<
    FullscreenStep,
> {
    match restore {
        None => Seq::empty(),
        Some(other) => seq![FullscreenStep::DropTexture(other)] + (if other == surface {
            seq![FullscreenStep::HandOverCamera, FullscreenStep::Relocate]
        } else {
            seq![FullscreenStep::ReleaseCamera, FullscreenStep::Configure(other)]
        }),
    }
}

pub open spec fn fullscreen_steps(facts: FullscreenFacts) -> Seq<FullscreenStep> {
    let entering = !facts.fullscreen;
    let restore = if entering {
        facts.output_restore
    } else {
        None
    };
    seq![FullscreenStep::CancelGrab] + steps::when(entering, seq![FullscreenStep::Displace])
        + steps::when(entering && facts.maximized, seq![FullscreenStep::MeasurePresented])
        + steps::when(entering, seq![FullscreenStep::TakeRestore]) + restore_steps(
        facts.surface,
        restore,
    ) + (if !facts.toplevel {
        seq![FullscreenStep::SetX11(entering)]
    } else if entering {
        seq![FullscreenStep::Request]
    } else {
        seq![FullscreenStep::Unrequest]
    }) + steps::when(
        restore == Some(facts.surface) && facts.geometry_known,
        seq![FullscreenStep::OverrideRestore],
    ) + seq![FullscreenStep::Reconcile, FullscreenStep::Redraw]
}

/// Lets the focused window fill its output, or go back; a collapsed one does neither.
pub fn toggle_focused_fullscreen(focused: Option<FullscreenFacts>) -> (list: Vec<FullscreenStep>)
    ensures
        list@ == (match focused {
            Some(facts) => steps::when(!facts.collapsed, fullscreen_steps(facts)),
            None => Seq::empty(),
        }),
{
    let mut list: Vec<FullscreenStep> = Vec::new();
    let facts = match focused {
        Some(facts) => facts,
        None => {
            return list;
        },
    };
    if facts.collapsed {
        return list;
    }
    let entering = !facts.fullscreen;
    list.push(FullscreenStep::CancelGrab);
    if entering {
        list.push(FullscreenStep::Displace);
    }
    if entering && facts.maximized {
        list.push(FullscreenStep::MeasurePresented);
    }
    if entering {
        list.push(FullscreenStep::TakeRestore);
    }
    let restore = if entering {
        facts.output_restore
    } else {
        None
    };
    if let Some(other) = restore {
        list.push(FullscreenStep::DropTexture(other));
        if other == facts.surface {
            list.push(FullscreenStep::HandOverCamera);
            list.push(FullscreenStep::Relocate);
        } else {
            list.push(FullscreenStep::ReleaseCamera);
            list.push(FullscreenStep::Configure(other));
        }
    }
    if !facts.toplevel {
        list.push(FullscreenStep::SetX11(entering));
    } else if entering {
        list.push(FullscreenStep::Request);
    } else {
        list.push(FullscreenStep::Unrequest);
    }
    if restore == Some(facts.surface) && facts.geometry_known {
        list.push(FullscreenStep::OverrideRestore);
    }
    list.push(FullscreenStep::Reconcile);
    list.push(FullscreenStep::Redraw);
    list
}

/// A window that fills the output which another is about to fill.
#[derive(Clone, Copy, Debug, PartialEq, Eq, Structural)]
pub struct Occupant {
    pub surface: SurfaceId,
    /// The window of the surface is known.
    pub window_known: bool,
    pub toplevel: bool,
    /// It fills the output because it was maximized.
    pub from_maximize: bool,
    /// It has a place to go back to.
    pub restore: bool,
    /// The output that it goes back to is still there.
    pub restore_output_known: bool,
}

#[derive(Clone, Copy, Debug, PartialEq, Eq, Structural)]
pub enum DisplaceStep {
    Unrequest(SurfaceId),
    RestoreMaximizedX11(SurfaceId),
    LeaveX11(SurfaceId),
    SetOutput(SurfaceId),
    Relocate(SurfaceId),
    Forget(SurfaceId),
    DropTexture(SurfaceId),
}

pub open spec fn displace_steps(occupant: Occupant) -> Seq<DisplaceStep> {
    steps::when(
        occupant.window_known,
        (if occupant.toplevel {
            seq![DisplaceStep::Unrequest(occupant.surface)]
        } else if occupant.from_maximize {
            seq![DisplaceStep::RestoreMaximizedX11(occupant.surface)]
        } else {
            seq![DisplaceStep::LeaveX11(occupant.surface)]
        }) + steps::when(
            occupant.restore,
            steps::when(
                occupant.restore_output_known,
                seq![DisplaceStep::SetOutput(occupant.surface)],
            ) + seq![DisplaceStep::Relocate(occupant.surface)],
        ),
    ) + seq![DisplaceStep::Forget(occupant.surface), DisplaceStep::DropTexture(occupant.surface)]
}

/// The steps of all occupants, one after the other.
pub open spec fn displace_all(occupants: Seq<Occupant>) -> Seq<DisplaceStep>
    decreases occupants.len(),
{
    if occupants.len() == 0 {
        Seq::empty()
    } else {
        displace_all(occupants.drop_last()) + displace_steps(occupants.last())
    }
}

/// Sends every occupant back to where it was, and forgets it.
pub fn displace_fullscreen_on_output(occupants: &Vec<Occupant>) -> (list: Vec<DisplaceStep>)
    ensures
        list@ == displace_all(occupants@),
{
    let mut list: Vec<DisplaceStep> = Vec::new();
    let mut index: usize = 0;
    while index < occupants.len()
        invariant
            index <= occupants@.len(),
            list@ == displace_all(occupants@.take(index as int)),
        decreases occupants@.len() - index,
    {
        let occupant = occupants[index];
        let ghost before = list@;
        if occupant.window_known {
            if occupant.toplevel {
                list.push(DisplaceStep::Unrequest(occupant.surface));
            } else if occupant.from_maximize {
                list.push(DisplaceStep::RestoreMaximizedX11(occupant.surface));
            } else {
                list.push(DisplaceStep::LeaveX11(occupant.surface));
            }
            if occupant.restore {
                if occupant.restore_output_known {
                    list.push(DisplaceStep::SetOutput(occupant.surface));
                }
                list.push(DisplaceStep::Relocate(occupant.surface));
            }
        }
        list.push(DisplaceStep::Forget(occupant.surface));
        list.push(DisplaceStep::DropTexture(occupant.surface));
        proof {
            assert(list@ =~= before + displace_steps(occupant));
            let longer = occupants@.take(index as int + 1);
            assert(longer.drop_last() =~= occupants@.take(index as int));
            assert(longer.last() == occupant);
        }
        index += 1;
    }
    assert(occupants@.take(index as int) =~= occupants@);
    list
}

/// A window and the output that it goes back to.
#[derive(Debug)]
pub struct Placement {
    pub geometry: Rectangle,
    pub output: Option<String>,
}

/// What is known of a window that is to be maximized, or to leave that state.
#[derive(Debug)]
pub struct MaximizeFacts {
    pub output: String,
    /// Where the output is, if it is still there.
    pub output_geometry: Option<Rectangle>,
    /// The part of the output that no panel covers.
    pub usable: Rectangle,
    /// The gap between windows, rounded up.
    pub gap: i32,
    pub border: i32,
    /// Where the window was before it filled its output.
    pub inherited: Option<Placement>,
    pub geometry: Option<Rectangle>,
    pub fullscreen: bool,
    pub maximized: bool,
    pub animated: bool,
    pub toplevel: bool,
}

/// The width of the frame that a maximized window leaves free.
pub open spec fn inset_of(gap: i32, border: i32) -> int {
    clamp_i32(gap + border)
}

/// What is left of a side once the frame is taken from both ends: at least one.
pub open spec fn inset_side(side: i32, inset: int) -> int {
    let left = clamp_i32(side - clamp_i32(2 * inset));
    if left < 1 {
        1
    } else {
        left
    }
}

/// The rectangle that a maximized window fills. Sums of coordinates are held in their range.
pub open spec fn is_maximized_rect(
    target: Rectangle,
    output: Point,
    usable: Rectangle,
    inset: int,
) -> bool {
    &&& target.loc.x == clamp_i32(clamp_i32(output.x + usable.loc.x) + inset)
    &&& target.loc.y == clamp_i32(clamp_i32(output.y + usable.loc.y) + inset)
    &&& target.size.w == inset_side(usable.size.w, inset)
    &&& target.size.h == inset_side(usable.size.h, inset)
}

#[derive(Clone, Copy, Debug, PartialEq, Eq, Structural)]
pub enum MaximizeStep {
    MeasurePresented,
    CaptureTexture,
    CancelGrab,
    Displace,
    HandOverCamera,
    RetireFullscreen,
    LeaveX11Fullscreen,
    ForgetFullscreen,
    ClearCameraHandoff,
    Toggle,
    /// The animation starts from where the full window was.
    OverrideWindowed,
}

/// Maximizing straight out of fullscreen hands the whole travel to the maximize
/// animation: with two timelines the wrong one would be seen.
pub open spec fn maximize_steps(facts: MaximizeFacts) -> Seq<MaximizeStep> {
    let handed_over = facts.fullscreen && facts.geometry is Some;
    steps::when(facts.fullscreen, seq![MaximizeStep::MeasurePresented]) + steps::when(
        facts.animated,
        seq![MaximizeStep::CaptureTexture],
    ) + seq![MaximizeStep::CancelGrab] + steps::when(
        !facts.maximized,
        seq![MaximizeStep::Displace],
    ) + steps::when(
        facts.fullscreen,
        seq![MaximizeStep::HandOverCamera] + (if facts.toplevel {
            seq![MaximizeStep::RetireFullscreen]
        } else {
            seq![MaximizeStep::LeaveX11Fullscreen, MaximizeStep::ForgetFullscreen]
        }),
    ) + steps::when(!handed_over, seq![MaximizeStep::ClearCameraHandoff])
        + seq![MaximizeStep::Toggle] + steps::when(
        handed_over,
        seq![MaximizeStep::OverrideWindowed],
    )
}

/// What a window needs to be maximized.
#[derive(Debug)]
pub struct MaximizePlan {
    pub target: Rectangle,
    pub restore_geometry: Rectangle,
    pub restore_output: String,
    pub steps: Vec<MaximizeStep>,
}

/// Where the window goes back to: where it was before it filled its output, or where it
/// is.
pub open spec fn restore_geometry_of(facts: MaximizeFacts) -> Option<Rectangle> {
    match facts.inherited {
        Some(placement) => Some(placement.geometry),
        None => facts.geometry,
    }
}

pub open spec fn restore_output_of(facts: MaximizeFacts) -> Seq<char> {
    match facts.inherited {
        Some(placement) => match placement.output {
            Some(output) => output@,
            None => facts.output@,
        },
        None => facts.output@,
    }
}

/// Lets a window fill the free part of its output, or go back. Nothing is done where
/// the output is gone or the window has no place to go back to. What follows the toggle is
/// in `finish_field_maximize`.
pub fn toggle_field_maximize(facts: &MaximizeFacts) -> (plan: Option<MaximizePlan>)
    ensures
        plan is Some == (facts.output_geometry is Some && restore_geometry_of(*facts) is Some),
        plan matches Some(plan) ==> {
            &&& is_maximized_rect(
                plan.target,
                facts.output_geometry->0.loc,
                facts.usable,
                inset_of(facts.gap, facts.border),
            )
            &&& restore_geometry_of(*facts) == Some(plan.restore_geometry)
            &&& plan.restore_output@ == restore_output_of(*facts)
            &&& plan.steps@ == maximize_steps(*facts)
        },
{
    let output = match facts.output_geometry {
        Some(output) => output,
        None => {
            return None;
        },
    };
    let inset: i32 = saturating_add_i32(facts.gap, facts.border);
    let twice: i32 = saturating_double_i32(inset);
    let wide: i32 = saturating_sub_i32(facts.usable.size.w, twice);
    let high: i32 = saturating_sub_i32(facts.usable.size.h, twice);
    let w: i32 = if wide < 1 {
        1
    } else {
        wide
    };
    let h: i32 = if high < 1 {
        1
    } else {
        high
    };
    let target = Rectangle {
        loc: Point {
            x: saturating_add_i32(saturating_add_i32(output.loc.x, facts.usable.loc.x), inset),
            y: saturating_add_i32(saturating_add_i32(output.loc.y, facts.usable.loc.y), inset),
        },
        size: Size { w, h },
    };
    let restore_geometry = match &facts.inherited {
        Some(placement) => placement.geometry,
        None => match facts.geometry {
            Some(geometry) => geometry,
            None => {
                return None;
            },
        },
    };
    let restore_output = match &facts.inherited {
        Some(placement) => match &placement.output {
            Some(output) => output.clone(),
            None => facts.output.clone(),
        },
        None => facts.output.clone(),
    };
    let handed_over = facts.fullscreen && facts.geometry.is_some();
    let mut list: Vec<MaximizeStep> = Vec::new();
    if facts.fullscreen {
        list.push(MaximizeStep::MeasurePresented);
    }
    if facts.animated {
        list.push(MaximizeStep::CaptureTexture);
    }
    list.push(MaximizeStep::CancelGrab);
    if !facts.maximized {
        list.push(MaximizeStep::Displace);
    }
    if facts.fullscreen {
        list.push(MaximizeStep::HandOverCamera);
        if facts.toplevel {
            list.push(MaximizeStep::RetireFullscreen);
        } else {
            list.push(MaximizeStep::LeaveX11Fullscreen);
            list.push(MaximizeStep::ForgetFullscreen);
        }
    }
    if !handed_over {
        list.push(MaximizeStep::ClearCameraHandoff);
    }
    list.push(MaximizeStep::Toggle);
    if handed_over {
        list.push(MaximizeStep::OverrideWindowed);
    }
    assert(list@ =~= maximize_steps(*facts));
    Some(MaximizePlan { target, restore_geometry, restore_output, steps: list })
}

#[derive(Clone, Copy, Debug, PartialEq, Eq, Structural)]
pub enum MaximizeFinish {
    DropTexture(SurfaceId),
    /// The window gets its new place.
    Configure(SurfaceId),
    Reconcile,
    Redraw,
}

pub open spec fn maximize_finish(surface: SurfaceId, displaced: Option<SurfaceId>) -> Seq<
    MaximizeFinish,
> {
    (match displaced {
        Some(other) => seq![MaximizeFinish::DropTexture(other), MaximizeFinish::Configure(other)],
        None => Seq::empty(),
    }) + seq![
        MaximizeFinish::Configure(surface),
        MaximizeFinish::Reconcile,
        MaximizeFinish::Redraw,
    ]
}

/// What follows once a window is maximized, or is no longer: the one that it took the field
/// from gets its place back, then it gets its own.
pub fn finish_field_maximize(surface: SurfaceId, displaced: Option<SurfaceId>) -> (list: Vec<
    MaximizeFinish,
>)
    ensures
        list@ == maximize_finish(surface, displaced),
{
    let mut list: Vec<MaximizeFinish> = Vec::new();
    if let Some(other) = displaced {
        list.push(MaximizeFinish::DropTexture(other));
        list.push(MaximizeFinish::Configure(other));
    }
    list.push(MaximizeFinish::Configure(surface));
    list.push(MaximizeFinish::Reconcile);
    list.push(MaximizeFinish::Redraw);
    assert(list@ =~= maximize_finish(surface, displaced));
    list
}

/// Whether a request of a client changes anything: it asks for the other state, and
/// its window is in the field.
pub fn set_surface_field_maximized(
    maximized: bool,
    requested: bool,
    collapsed: Option<bool>,
) -> (toggles: bool)
    ensures
        toggles == (maximized != requested && collapsed == Some(false)),
{
    if maximized == requested {
        return false;
    }
    match collapsed {
        Some(collapsed) => !collapsed,
        None => false,
    }
}

/// What is known of a window that gets a new place.
#[derive(Clone, Copy, Debug, PartialEq, Eq, Structural)]
pub struct ConfigureFacts {
    pub window_known: bool,
    pub output_known: bool,
    pub toplevel: bool,
    pub maximized: bool,
    pub initial_configure_sent: bool,
}

#[derive(Clone, Copy, Debug, PartialEq, Eq, Structural)]
pub enum ConfigureStep {
    SetOutput,
    Relocate,
    /// The size, the bounds and the state are noted.
    Pend { maximized: bool },
    SendConfigure,
    ConfigureX11,
}

pub open spec fn configure_steps(facts: ConfigureFacts) -> Seq<ConfigureStep> {
    steps::when(
        facts.window_known,
        steps::when(facts.output_known, seq![ConfigureStep::SetOutput])
            + seq![ConfigureStep::Relocate] + (if facts.toplevel {
            seq![ConfigureStep::Pend { maximized: facts.maximized }] + steps::when(
                facts.initial_configure_sent,
                seq![ConfigureStep::SendConfigure],
            )
        } else {
            seq![ConfigureStep::ConfigureX11]
        }),
    )
}

/// Gives a window a place and a size. One that has not been configured yet learns of
/// them with its first configure.
pub fn configure_field_geometry(facts: ConfigureFacts) -> (list: Vec<ConfigureStep>)
    ensures
        list@ == configure_steps(facts),
{
    let mut list: Vec<ConfigureStep> = Vec::new();
    if facts.window_known {
        if facts.output_known {
            list.push(ConfigureStep::SetOutput);
        }
        list.push(ConfigureStep::Relocate);
        if facts.toplevel {
            list.push(ConfigureStep::Pend { maximized: facts.maximized });
            if facts.initial_configure_sent {
                list.push(ConfigureStep::SendConfigure);
            }
        } else {
            list.push(ConfigureStep::ConfigureX11);
        }
    }
    list
}

/// Every occupant is forgotten, whatever becomes of its window.
pub proof fn displaced_occupants_are_forgotten(occupants: Seq<Occupant>, index: int)
    requires
        0 <= index < occupants.len(),
    ensures
        displace_all(occupants).contains(DisplaceStep::Forget(occupants[index].surface)),
        displace_all(occupants).contains(DisplaceStep::DropTexture(occupants[index].surface)),
    decreases occupants.len(),
{
    let before = displace_all(occupants.drop_last());
    let last = displace_steps(occupants.last());
    let all = displace_all(occupants);
    if index == occupants.len() - 1 {
        let surface = occupants.last().surface;
        let place = last.len() - 2;
        assert(last[place] == DisplaceStep::Forget(surface));
        assert(all[before.len() + place] == DisplaceStep::Forget(surface));
        assert(all[before.len() + place + 1] == DisplaceStep::DropTexture(surface));
    } else {
        displaced_occupants_are_forgotten(occupants.drop_last(), index);
        let surface = occupants[index].surface;
        let forgotten = before.index_of(DisplaceStep::Forget(surface));
        let dropped = before.index_of(DisplaceStep::DropTexture(surface));
        assert(all[forgotten] == DisplaceStep::Forget(surface));
        assert(all[dropped] == DisplaceStep::DropTexture(surface));
    }
}

/// A maximized window lies within the usable part of its output, where that is wide
/// enough for the frame and has its corner, and that of the window, in the range of
/// coordinates.
pub proof fn maximized_window_stays_usable(
    target: Rectangle,
    output: Point,
    usable: Rectangle,
    inset: int,
)
    requires
        is_maximized_rect(target, output, usable, inset),
        0 <= inset,
        2 * inset < usable.size.w,
        2 * inset < usable.size.h,
        i32::MIN <= output.x + usable.loc.x,
        i32::MIN <= output.y + usable.loc.y,
        output.x + usable.loc.x + inset <= i32::MAX,
        output.y + usable.loc.y + inset <= i32::MAX,
    ensures
        output.x + usable.loc.x <= target.loc.x,
        output.y + usable.loc.y <= target.loc.y,
        target.loc.x + target.size.w + inset == output.x + usable.loc.x + usable.size.w,
        target.loc.y + target.size.h + inset == output.y + usable.loc.y + usable.size.h,
{
}

/// A toplevel that is in the field is asked to fill its output, one that fills it to go
/// back, and never the other way round. An X11 window is set to the state that it is not in.
pub proof fn a_toggle_asks_for_the_other_state(facts: FullscreenFacts, full: bool)
    ensures
        fullscreen_steps(facts).contains(FullscreenStep::Request) <==> facts.toplevel
            && !facts.fullscreen,
        fullscreen_steps(facts).contains(FullscreenStep::Unrequest) <==> facts.toplevel
            && facts.fullscreen,
        fullscreen_steps(facts).contains(FullscreenStep::SetX11(full)) <==> !facts.toplevel && full
            != facts.fullscreen,
{
    broadcast use steps::group_steps;

}

/// Whatever a toggle does, the pointer lets go of the window first, and at last constraints
/// are looked at again and the output is drawn.
pub proof fn a_toggle_begins_and_ends_alike(facts: FullscreenFacts)
    ensures
        fullscreen_steps(facts).len() >= 4,
        fullscreen_steps(facts)[0] == FullscreenStep::CancelGrab,
        fullscreen_steps(facts)[fullscreen_steps(facts).len() - 2] == FullscreenStep::Reconcile,
        fullscreen_steps(facts)[fullscreen_steps(facts).len() - 1] == FullscreenStep::Redraw,
{
}

/// A window that goes back to the field touches no other window and nothing of what is
/// maximized there.
pub proof fn leaving_fullscreen_touches_nothing_else(facts: FullscreenFacts)
    requires
        facts.fullscreen,
    ensures
        facts.toplevel ==> fullscreen_steps(facts) == seq![
            FullscreenStep::CancelGrab,
            FullscreenStep::Unrequest,
            FullscreenStep::Reconcile,
            FullscreenStep::Redraw,
        ],
        !facts.toplevel ==> fullscreen_steps(facts) == seq![
            FullscreenStep::CancelGrab,
            FullscreenStep::SetX11(false),
            FullscreenStep::Reconcile,
            FullscreenStep::Redraw,
        ],
{
}

/// A window that comes to fill its output makes those that fill it make room, and takes back
/// what is maximized in the field. Where that is the window itself its camera is handed over
/// and it goes back to where it was before; another window gets its own place back.
pub proof fn entering_fullscreen_clears_the_output(facts: FullscreenFacts, other: SurfaceId)
    requires
        !facts.fullscreen,
    ensures
        fullscreen_steps(facts)[1] == FullscreenStep::Displace,
        fullscreen_steps(facts).contains(FullscreenStep::TakeRestore),
        fullscreen_steps(facts).contains(FullscreenStep::MeasurePresented) <==> facts.maximized,
        fullscreen_steps(facts).contains(FullscreenStep::DropTexture(other))
            <==> facts.output_restore == Some(other),
        fullscreen_steps(facts).contains(FullscreenStep::Configure(other)) <==> other
            != facts.surface && facts.output_restore == Some(other),
        fullscreen_steps(facts).contains(FullscreenStep::HandOverCamera) <==> facts.output_restore
            == Some(facts.surface),
        fullscreen_steps(facts).contains(FullscreenStep::Relocate) <==> facts.output_restore
            == Some(facts.surface),
        fullscreen_steps(facts).contains(FullscreenStep::ReleaseCamera) <==> facts.output_restore
            is Some && facts.output_restore != Some(facts.surface),
        fullscreen_steps(facts).contains(FullscreenStep::OverrideRestore) <==> facts.geometry_known
            && facts.output_restore == Some(facts.surface),
{
    broadcast use steps::group_steps;

}

/// An occupant goes back the way it came: a toplevel is asked to, an X11 window that was
/// maximized is restored, and any other one leaves. It gets its place back where it has one.
pub proof fn occupants_go_back_the_way_they_came(occupant: Occupant)
    ensures
        displace_steps(occupant).contains(DisplaceStep::Unrequest(occupant.surface))
            <==> occupant.window_known && occupant.toplevel,
        displace_steps(occupant).contains(DisplaceStep::RestoreMaximizedX11(occupant.surface))
            <==> occupant.window_known && !occupant.toplevel && occupant.from_maximize,
        displace_steps(occupant).contains(DisplaceStep::LeaveX11(occupant.surface))
            <==> occupant.window_known && !occupant.toplevel && !occupant.from_maximize,
        displace_steps(occupant).contains(DisplaceStep::Relocate(occupant.surface))
            <==> occupant.window_known && occupant.restore,
        displace_steps(occupant).contains(DisplaceStep::SetOutput(occupant.surface))
            <==> occupant.window_known && occupant.restore && occupant.restore_output_known,
        forall|i: int|
            0 <= i < displace_steps(occupant).len() ==> {
                let step = #[trigger] displace_steps(occupant)[i];
                step == DisplaceStep::Unrequest(occupant.surface) || step
                    == DisplaceStep::RestoreMaximizedX11(occupant.surface) || step
                    == DisplaceStep::LeaveX11(occupant.surface) || step == DisplaceStep::SetOutput(
                    occupant.surface,
                ) || step == DisplaceStep::Relocate(occupant.surface) || step
                    == DisplaceStep::Forget(occupant.surface) || step == DisplaceStep::DropTexture(
                    occupant.surface,
                )
            },
{
    broadcast use steps::group_steps;

}

/// A window that is maximized out of the whole output goes back to where it was before it
/// filled it; any other one to where it is, on the output where it is.
pub proof fn maximized_windows_know_the_way_back(facts: MaximizeFacts)
    ensures
        facts.inherited matches Some(placement) ==> restore_geometry_of(facts) == Some(
            placement.geometry,
        ) && (placement.output matches Some(output) ==> restore_output_of(facts) == output@) && (
        placement.output is None ==> restore_output_of(facts) == facts.output@),
        facts.inherited is None ==> restore_geometry_of(facts) == facts.geometry
            && restore_output_of(facts) == facts.output@,
{
}

/// A maximized window keeps the gap and its border free on all four sides of the usable part
/// of its output, as far as there is room and the coordinates are in their range. Where there
/// is none a pixel is left of it.
pub proof fn maximized_windows_keep_the_frame_free(
    target: Rectangle,
    output: Point,
    usable: Rectangle,
    gap: i32,
    border: i32,
)
    requires
        is_maximized_rect(target, output, usable, inset_of(gap, border)),
        0 <= gap,
        0 <= border,
        gap + border <= i32::MAX / 2,
        i32::MIN <= output.x + usable.loc.x,
        i32::MIN <= output.y + usable.loc.y,
        output.x + usable.loc.x + gap + border <= i32::MAX,
        output.y + usable.loc.y + gap + border <= i32::MAX,
    ensures
        target.loc.x == output.x + usable.loc.x + gap + border,
        target.loc.y == output.y + usable.loc.y + gap + border,
        usable.size.w > 2 * (gap + border) ==> target.size.w + 2 * (gap + border) == usable.size.w,
        usable.size.h > 2 * (gap + border) ==> target.size.h + 2 * (gap + border) == usable.size.h,
        0 <= usable.size.w <= 2 * (gap + border) ==> target.size.w == 1,
        0 <= usable.size.h <= 2 * (gap + border) ==> target.size.h == 1,
{
}

/// A window is toggled exactly once. Only one that is not maximized yet makes others make
/// room, and only one that fills its output leaves that first, the way its kind does.
#[verifier::rlimit(60)]
pub proof fn maximizing_toggles_once(facts: MaximizeFacts)
    ensures
        maximize_steps(facts).contains(MaximizeStep::Toggle),
        maximize_steps(facts).contains(MaximizeStep::CancelGrab),
        maximize_steps(facts).contains(MaximizeStep::Displace) <==> !facts.maximized,
        maximize_steps(facts).contains(MaximizeStep::CaptureTexture) <==> facts.animated,
        maximize_steps(facts).contains(MaximizeStep::MeasurePresented) <==> facts.fullscreen,
        maximize_steps(facts).contains(MaximizeStep::HandOverCamera) <==> facts.fullscreen,
        maximize_steps(facts).contains(MaximizeStep::RetireFullscreen) <==> facts.fullscreen
            && facts.toplevel,
        maximize_steps(facts).contains(MaximizeStep::LeaveX11Fullscreen) <==> facts.fullscreen
            && !facts.toplevel,
        maximize_steps(facts).contains(MaximizeStep::ForgetFullscreen) <==> facts.fullscreen
            && !facts.toplevel,
        maximize_steps(facts).contains(MaximizeStep::OverrideWindowed) <==> facts.fullscreen
            && facts.geometry is Some,
        maximize_steps(facts).contains(MaximizeStep::ClearCameraHandoff) <==> !(facts.fullscreen
            && facts.geometry is Some),
{
    broadcast use steps::group_steps;

}

/// In the field, maximizing is a plain toggle.
pub proof fn maximizing_in_the_field_is_plain(facts: MaximizeFacts)
    requires
        !facts.fullscreen,
        !facts.animated,
    ensures
        !facts.maximized ==> maximize_steps(facts) == seq![
            MaximizeStep::CancelGrab,
            MaximizeStep::Displace,
            MaximizeStep::ClearCameraHandoff,
            MaximizeStep::Toggle,
        ],
        facts.maximized ==> maximize_steps(facts) == seq![
            MaximizeStep::CancelGrab,
            MaximizeStep::ClearCameraHandoff,
            MaximizeStep::Toggle,
        ],
{
}

/// The window that the field was taken from gets its place back before the other gets its
/// own, and only that one.
pub proof fn the_displaced_window_is_configured_first(
    surface: SurfaceId,
    displaced: Option<SurfaceId>,
    other: SurfaceId,
)
    requires
        other != surface,
    ensures
        maximize_finish(surface, displaced).contains(MaximizeFinish::Configure(other))
            <==> displaced == Some(other),
        maximize_finish(surface, displaced).contains(MaximizeFinish::DropTexture(other))
            <==> displaced == Some(other),
        displaced == Some(other) ==> maximize_finish(surface, displaced)[1]
            == MaximizeFinish::Configure(other) && maximize_finish(surface, displaced)[2]
            == MaximizeFinish::Configure(surface),
        displaced is None ==> maximize_finish(surface, displaced)[0] == MaximizeFinish::Configure(
            surface,
        ),
        maximize_finish(surface, displaced).contains(MaximizeFinish::Reconcile),
        maximize_finish(surface, displaced).last() == MaximizeFinish::Redraw,
{
    broadcast use steps::group_steps;

}

/// A window that is gone is not configured. A toplevel learns of its size at once if it was
/// configured before, an X11 window always.
pub proof fn windows_learn_of_their_place(facts: ConfigureFacts)
    ensures
        !facts.window_known ==> configure_steps(facts).len() == 0,
        configure_steps(facts).contains(ConfigureStep::Relocate) <==> facts.window_known,
        configure_steps(facts).contains(ConfigureStep::SetOutput) <==> facts.window_known
            && facts.output_known,
        configure_steps(facts).contains(ConfigureStep::Pend { maximized: facts.maximized })
            <==> facts.window_known && facts.toplevel,
        !configure_steps(facts).contains(ConfigureStep::Pend { maximized: !facts.maximized }),
        configure_steps(facts).contains(ConfigureStep::SendConfigure) <==> facts.window_known
            && facts.toplevel && facts.initial_configure_sent,
        configure_steps(facts).contains(ConfigureStep::ConfigureX11) <==> facts.window_known
            && !facts.toplevel,
{
    broadcast use steps::group_steps;

}

/// What is held is let go first, the output is cleared, and what is seen is measured before what
/// was there before is taken.
#[verifier::rlimit(60)]
pub proof fn the_output_is_cleared_first(facts: FullscreenFacts)
    ensures
        steps::comes_before(fullscreen_steps(facts), FullscreenStep::CancelGrab, FullscreenStep::Displace),
        steps::comes_before(fullscreen_steps(facts), FullscreenStep::CancelGrab, FullscreenStep::MeasurePresented),
        steps::comes_before(fullscreen_steps(facts), FullscreenStep::CancelGrab, FullscreenStep::TakeRestore),
        steps::comes_before(fullscreen_steps(facts), FullscreenStep::Displace, FullscreenStep::MeasurePresented),
        steps::comes_before(fullscreen_steps(facts), FullscreenStep::Displace, FullscreenStep::TakeRestore),
        steps::comes_before(fullscreen_steps(facts), FullscreenStep::MeasurePresented, FullscreenStep::TakeRestore),
{
    broadcast use {steps::group_steps, steps::group_orders};

}

/// What was there before loses its texture before the camera leaves it, and gets its place then.
#[verifier::rlimit(60)]
pub proof fn what_was_there_is_put_back_in_turn(facts: FullscreenFacts, other: SurfaceId)
    ensures
        steps::comes_before(fullscreen_steps(facts), FullscreenStep::TakeRestore, FullscreenStep::DropTexture(other)),
        steps::comes_before(fullscreen_steps(facts), FullscreenStep::TakeRestore, FullscreenStep::ReleaseCamera),
        steps::comes_before(fullscreen_steps(facts), FullscreenStep::TakeRestore, FullscreenStep::Configure(other)),
        steps::comes_before(fullscreen_steps(facts), FullscreenStep::DropTexture(other), FullscreenStep::ReleaseCamera),
        steps::comes_before(fullscreen_steps(facts), FullscreenStep::DropTexture(other), FullscreenStep::Configure(other)),
        steps::comes_before(fullscreen_steps(facts), FullscreenStep::ReleaseCamera, FullscreenStep::Configure(other)),
        steps::comes_before(fullscreen_steps(facts), FullscreenStep::DropTexture(other), FullscreenStep::HandOverCamera),
        steps::comes_before(fullscreen_steps(facts), FullscreenStep::DropTexture(other), FullscreenStep::Relocate),
        steps::comes_before(fullscreen_steps(facts), FullscreenStep::HandOverCamera, FullscreenStep::Relocate),
{
    broadcast use {steps::group_steps, steps::group_orders};

}

/// The window asks for its new state once the output is cleared.
#[verifier::rlimit(60)]
pub proof fn the_state_changes_in_turn(facts: FullscreenFacts, entering: bool)
    ensures
        steps::comes_before(fullscreen_steps(facts), FullscreenStep::CancelGrab, FullscreenStep::Displace),
        steps::comes_before(fullscreen_steps(facts), FullscreenStep::CancelGrab, FullscreenStep::Request),
        steps::comes_before(fullscreen_steps(facts), FullscreenStep::Displace, FullscreenStep::Request),
        steps::comes_before(fullscreen_steps(facts), FullscreenStep::Displace, FullscreenStep::SetX11(entering)),
        steps::comes_before(fullscreen_steps(facts), FullscreenStep::CancelGrab, FullscreenStep::SetX11(entering)),
        steps::comes_before(fullscreen_steps(facts), FullscreenStep::CancelGrab, FullscreenStep::Unrequest),
{
    broadcast use {steps::group_steps, steps::group_orders};

}

/// What was there before has its place before the window asks for its new state.
#[verifier::rlimit(60)]
pub proof fn places_come_before_the_state(facts: FullscreenFacts, other: SurfaceId, entering: bool)
    ensures
        steps::comes_before(fullscreen_steps(facts), FullscreenStep::Relocate, FullscreenStep::Request),
        steps::comes_before(fullscreen_steps(facts), FullscreenStep::Configure(other), FullscreenStep::Request),
        steps::comes_before(fullscreen_steps(facts), FullscreenStep::Relocate, FullscreenStep::SetX11(entering)),
        steps::comes_before(fullscreen_steps(facts), FullscreenStep::Configure(other), FullscreenStep::SetX11(entering)),
{
    broadcast use {steps::group_steps, steps::group_orders};

}

/// The scene follows the new state, and is drawn at last.
#[verifier::rlimit(60)]
pub proof fn the_scene_follows_the_state(facts: FullscreenFacts, entering: bool)
    ensures
        steps::comes_before(fullscreen_steps(facts), FullscreenStep::Request, FullscreenStep::OverrideRestore),
        steps::comes_before(fullscreen_steps(facts), FullscreenStep::Request, FullscreenStep::Reconcile),
        steps::comes_before(fullscreen_steps(facts), FullscreenStep::Request, FullscreenStep::Redraw),
        steps::comes_before(fullscreen_steps(facts), FullscreenStep::OverrideRestore, FullscreenStep::Reconcile),
        steps::comes_before(fullscreen_steps(facts), FullscreenStep::OverrideRestore, FullscreenStep::Redraw),
        steps::comes_before(fullscreen_steps(facts), FullscreenStep::Reconcile, FullscreenStep::Redraw),
        steps::comes_before(fullscreen_steps(facts), FullscreenStep::SetX11(entering), FullscreenStep::OverrideRestore),
        steps::comes_before(fullscreen_steps(facts), FullscreenStep::SetX11(entering), FullscreenStep::Reconcile),
        steps::comes_before(fullscreen_steps(facts), FullscreenStep::Unrequest, FullscreenStep::Reconcile),
        steps::comes_before(fullscreen_steps(facts), FullscreenStep::Unrequest, FullscreenStep::Redraw),
        steps::comes_before(fullscreen_steps(facts), FullscreenStep::Reconcile, FullscreenStep::Redraw),
{
    broadcast use {steps::group_steps, steps::group_orders};

}

/// A window that gives way is told so, gets its output and its place back, and is forgotten.
#[verifier::rlimit(50)]
pub proof fn occupants_go_back_in_turn(occupant: Occupant)
    ensures
        steps::comes_before(displace_steps(occupant), DisplaceStep::Unrequest(occupant.surface), DisplaceStep::SetOutput(occupant.surface)),
        steps::comes_before(displace_steps(occupant), DisplaceStep::Unrequest(occupant.surface), DisplaceStep::Relocate(occupant.surface)),
        steps::comes_before(displace_steps(occupant), DisplaceStep::Unrequest(occupant.surface), DisplaceStep::Forget(occupant.surface)),
        steps::comes_before(displace_steps(occupant), DisplaceStep::SetOutput(occupant.surface), DisplaceStep::Relocate(occupant.surface)),
        steps::comes_before(displace_steps(occupant), DisplaceStep::SetOutput(occupant.surface), DisplaceStep::Forget(occupant.surface)),
        steps::comes_before(displace_steps(occupant), DisplaceStep::Relocate(occupant.surface), DisplaceStep::Forget(occupant.surface)),
        steps::comes_before(displace_steps(occupant), DisplaceStep::RestoreMaximizedX11(occupant.surface), DisplaceStep::SetOutput(occupant.surface)),
        steps::comes_before(displace_steps(occupant), DisplaceStep::RestoreMaximizedX11(occupant.surface), DisplaceStep::Relocate(occupant.surface)),
        steps::comes_before(displace_steps(occupant), DisplaceStep::SetOutput(occupant.surface), DisplaceStep::Relocate(occupant.surface)),
        steps::comes_before(displace_steps(occupant), DisplaceStep::LeaveX11(occupant.surface), DisplaceStep::SetOutput(occupant.surface)),
        steps::comes_before(displace_steps(occupant), DisplaceStep::LeaveX11(occupant.surface), DisplaceStep::Relocate(occupant.surface)),
        steps::comes_before(displace_steps(occupant), DisplaceStep::SetOutput(occupant.surface), DisplaceStep::Relocate(occupant.surface)),
        steps::comes_before(displace_steps(occupant), DisplaceStep::Forget(occupant.surface), DisplaceStep::DropTexture(occupant.surface)),
{
    broadcast use {steps::group_steps, steps::group_orders};

}

/// What is seen is measured and captured before anything changes, and what is held is let go
/// before the field is cleared.
#[verifier::rlimit(60)]
pub proof fn maximizing_measures_first(facts: MaximizeFacts)
    ensures
        steps::comes_before(maximize_steps(facts), MaximizeStep::MeasurePresented, MaximizeStep::CaptureTexture),
        steps::comes_before(maximize_steps(facts), MaximizeStep::MeasurePresented, MaximizeStep::CancelGrab),
        steps::comes_before(maximize_steps(facts), MaximizeStep::MeasurePresented, MaximizeStep::Displace),
        steps::comes_before(maximize_steps(facts), MaximizeStep::CaptureTexture, MaximizeStep::CancelGrab),
        steps::comes_before(maximize_steps(facts), MaximizeStep::CaptureTexture, MaximizeStep::Displace),
        steps::comes_before(maximize_steps(facts), MaximizeStep::CancelGrab, MaximizeStep::Displace),
{
    broadcast use {steps::group_steps, steps::group_orders};

}

/// The field is cleared and the camera handed over before fullscreen is left.
#[verifier::rlimit(60)]
pub proof fn fullscreen_is_left_in_turn(facts: MaximizeFacts)
    ensures
        steps::comes_before(maximize_steps(facts), MaximizeStep::Displace, MaximizeStep::HandOverCamera),
        steps::comes_before(maximize_steps(facts), MaximizeStep::Displace, MaximizeStep::RetireFullscreen),
        steps::comes_before(maximize_steps(facts), MaximizeStep::HandOverCamera, MaximizeStep::RetireFullscreen),
        steps::comes_before(maximize_steps(facts), MaximizeStep::HandOverCamera, MaximizeStep::LeaveX11Fullscreen),
        steps::comes_before(maximize_steps(facts), MaximizeStep::HandOverCamera, MaximizeStep::ForgetFullscreen),
        steps::comes_before(maximize_steps(facts), MaximizeStep::LeaveX11Fullscreen, MaximizeStep::ForgetFullscreen),
{
    broadcast use {steps::group_steps, steps::group_orders};

}

/// Fullscreen is left, or the camera is not handed over, before the window is toggled; its place
/// in the field comes after that.
#[verifier::rlimit(60)]
pub proof fn maximizing_toggles_at_last(facts: MaximizeFacts)
    ensures
        steps::comes_before(maximize_steps(facts), MaximizeStep::RetireFullscreen, MaximizeStep::Toggle),
        steps::comes_before(maximize_steps(facts), MaximizeStep::RetireFullscreen, MaximizeStep::OverrideWindowed),
        steps::comes_before(maximize_steps(facts), MaximizeStep::Toggle, MaximizeStep::OverrideWindowed),
        steps::comes_before(maximize_steps(facts), MaximizeStep::ForgetFullscreen, MaximizeStep::Toggle),
        steps::comes_before(maximize_steps(facts), MaximizeStep::CancelGrab, MaximizeStep::ClearCameraHandoff),
        steps::comes_before(maximize_steps(facts), MaximizeStep::CancelGrab, MaximizeStep::Toggle),
        steps::comes_before(maximize_steps(facts), MaximizeStep::ClearCameraHandoff, MaximizeStep::Toggle),
{
    broadcast use {steps::group_steps, steps::group_orders};

}

/// A window is on its output before it is placed, and placed before it is told.
#[verifier::rlimit(50)]
pub proof fn windows_learn_of_their_place_in_turn(facts: ConfigureFacts)
    ensures
        steps::comes_before(configure_steps(facts), ConfigureStep::SetOutput, ConfigureStep::Relocate),
        steps::comes_before(configure_steps(facts), ConfigureStep::SetOutput, ConfigureStep::Pend { maximized: facts.maximized }),
        steps::comes_before(configure_steps(facts), ConfigureStep::SetOutput, ConfigureStep::SendConfigure),
        steps::comes_before(configure_steps(facts), ConfigureStep::Relocate, ConfigureStep::Pend { maximized: facts.maximized }),
        steps::comes_before(configure_steps(facts), ConfigureStep::Relocate, ConfigureStep::SendConfigure),
        steps::comes_before(configure_steps(facts), ConfigureStep::Pend { maximized: facts.maximized }, ConfigureStep::SendConfigure),
        steps::comes_before(configure_steps(facts), ConfigureStep::SetOutput, ConfigureStep::Relocate),
        steps::comes_before(configure_steps(facts), ConfigureStep::SetOutput, ConfigureStep::ConfigureX11),
        steps::comes_before(configure_steps(facts), ConfigureStep::Relocate, ConfigureStep::ConfigureX11),
{
    broadcast use {steps::group_steps, steps::group_orders};

}

/// The texture of a displaced window goes before it is told of its place, and that before the
/// maximized one is told of its own; the scene follows, and is drawn at last.
#[verifier::rlimit(50)]
pub proof fn maximizing_finishes_in_turn(surface: SurfaceId, other: SurfaceId)
    requires
        surface != other,
    ensures
        steps::comes_before(maximize_finish(surface, Some(other)), MaximizeFinish::DropTexture(other), MaximizeFinish::Configure(other)),
        steps::comes_before(maximize_finish(surface, Some(other)), MaximizeFinish::DropTexture(other), MaximizeFinish::Configure(surface)),
        steps::comes_before(maximize_finish(surface, Some(other)), MaximizeFinish::DropTexture(other), MaximizeFinish::Reconcile),
        steps::comes_before(maximize_finish(surface, Some(other)), MaximizeFinish::Configure(other), MaximizeFinish::Configure(surface)),
        steps::comes_before(maximize_finish(surface, Some(other)), MaximizeFinish::Configure(other), MaximizeFinish::Reconcile),
        steps::comes_before(maximize_finish(surface, Some(other)), MaximizeFinish::Configure(surface), MaximizeFinish::Reconcile),
        steps::comes_before(maximize_finish(surface, Some(other)), MaximizeFinish::Configure(surface), MaximizeFinish::Reconcile),
        steps::comes_before(maximize_finish(surface, Some(other)), MaximizeFinish::Configure(surface), MaximizeFinish::Redraw),
        steps::comes_before(maximize_finish(surface, Some(other)), MaximizeFinish::Reconcile, MaximizeFinish::Redraw),
{
    broadcast use {steps::group_steps, steps::group_orders};

}

/// Windows give way one after the other, each wholly before the next.
pub proof fn occupants_go_one_by_one(first: Seq<Occupant>, second: Seq<Occupant>)
    ensures
        displace_all(first + second) == displace_all(first) + displace_all(second),
    decreases second.len(),
{
    if second.len() == 0 {
        assert(first + second =~= first);
        assert(displace_all(first) + displace_all(second) =~= displace_all(first));
    } else {
        assert((first + second).drop_last() =~= first + second.drop_last());
        occupants_go_one_by_one(first, second.drop_last());
        assert(displace_all(first + second) =~= displace_all(first) + displace_all(second));
    }
}

/// A request changes a window that is not collapsed, where it is not as requested already; so
/// that the same request again changes nothing.
pub proof fn requests_that_hold_already_change_nothing(maximized: bool, requested: bool, collapsed: Option<bool>, toggles: bool)
    requires
        call_ensures(set_surface_field_maximized, (maximized, requested, collapsed), toggles),
    ensures
        toggles ==> maximized != requested,
        collapsed == Some(false) && maximized != requested ==> toggles,
        collapsed is None || collapsed == Some(true) ==> !toggles,
{
}

} // verus!
