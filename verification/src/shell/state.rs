//! State of the shell, whatever it is drawn with.

use vstd::prelude::*;

use crate::ids::NodeId;
use crate::session::settings::Section;
use crate::shell::apogee::ApogeeState;
use crate::shell::bearings::BearingsState;
use crate::shell::cluster_composer::ClusterComposerState;
use crate::shell::overlay::{OverlayManager, ZoomIndicator};

verus! {

/// The choice of a window from a list, open or not.
#[derive(Clone, Copy, Debug, PartialEq, Eq, Structural)]
pub struct FocusCycleState {
    pub open: bool,
    pub selected: Option<NodeId>,
}

impl Default for FocusCycleState {
    fn default() -> (r: Self)
        ensures
            !r.open,
            r.selected is None,
    {
        FocusCycleState { open: false, selected: None }
    }
}

/// Renderer-independent state owned by the shell.
///
/// Its features remain state machines of their own, but who owns them is plain.
#[derive(Debug)]
pub struct ShellState {
    pub overlays: OverlayManager,
    pub bearings: BearingsState,
    pub focus_cycle: FocusCycleState,
    pub apogee: ApogeeState,
    pub cluster_composer: ClusterComposerState,
}

impl ShellState {
    pub fn new(bearings: Section) -> (r: Self)
        ensures
            r.overlays.exit is None,
            r.overlays.notification is None,
            r.overlays.zoom_indicators@ == Map::<Seq<char>, ZoomIndicator>::empty(),
            r.bearings.config == bearings,
            !r.bearings.visible,
            r.bearings.held() == Set::<u32>::empty(),
            !r.focus_cycle.open,
            r.focus_cycle.selected is None,
            r.apogee.session is None,
            r.cluster_composer.session is None,
    {
        ShellState {
            overlays: OverlayManager::default(),
            bearings: BearingsState::new(bearings),
            focus_cycle: FocusCycleState::default(),
            apogee: ApogeeState::default(),
            cluster_composer: ClusterComposerState::default(),
        }
    }
}

} // verus!
