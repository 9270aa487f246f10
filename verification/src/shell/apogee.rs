//! The overview of every window.

use vstd::prelude::*;

use crate::geometry::{Point, Rectangle};
use crate::ids::{ClusterId, NodeId};
use crate::session::input::actions::Heading;
use crate::session::interaction::Grab;
use crate::shell::settle::{
    at_rest, equal_numbers, hold_in_unit, is_at_rest, is_settling, same_number, settles, unit_bits,
    Endpoint, Settle,
};
use crate::shell::tiles::{self, Spot};
use crate::text::same_text;
use crate::time::{millis, Duration};

verus! {

/// A step of the selection.
#[derive(Clone, Copy, Debug, PartialEq, Eq, Structural)]
pub enum Direction {
    Left,
    Right,
    Up,
    Down,
}

pub open spec fn heading_of(direction: Direction) -> Heading {
    match direction {
        Direction::Left => Heading::Left,
        Direction::Right => Heading::Right,
        Direction::Up => Heading::Up,
        Direction::Down => Heading::Down,
    }
}

fn heading(direction: Direction) -> (r: Heading)
    ensures
        r == heading_of(direction),
{
    match direction {
        Direction::Left => Heading::Left,
        Direction::Right => Heading::Right,
        Direction::Up => Heading::Up,
        Direction::Down => Heading::Down,
    }
}

#[derive(Clone, Copy, Debug, PartialEq, Eq, Structural)]
pub enum TileKind {
    Window,
    ClusterCore(ClusterId),
}

/// A window or the core of a cluster in the overview.
#[derive(Debug)]
pub struct Tile {
    pub id: NodeId,
    pub kind: TileKind,
    pub output: String,
    pub target: Rectangle,
    pub source_stack_index: usize,
    pub source_stack_order: u64,
}

/// The nodes and places of tiles.
pub open spec fn spots_of(tiles: Seq<Tile>) -> Seq<Spot> {
    tiles.map_values(|tile: Tile| Spot { id: tile.id, target: tile.target })
}

fn spots(tiles: &Vec<Tile>) -> (spots: Vec<Spot>)
    ensures
        spots@ == spots_of(tiles@),
{
    let mut spots: Vec<Spot> = Vec::new();
    let mut index: usize = 0;
    while index < tiles.len()
        invariant
            index <= tiles@.len(),
            spots@ == spots_of(tiles@.take(index as int)),
        decreases tiles@.len() - index,
    {
        spots.push(Spot { id: tiles[index].id, target: tiles[index].target });
        proof {
            assert(spots_of(tiles@.take(index as int + 1)) =~= spots_of(
                tiles@.take(index as int),
            ).push(Spot { id: tiles@[index as int].id, target: tiles@[index as int].target }));
        }
        index += 1;
    }
    assert(tiles@.take(index as int) =~= tiles@);
    spots
}

/// How far the overview is open.
#[derive(Clone, Copy, Debug, PartialEq, Eq, Structural)]
pub enum Progress {
    /// A gesture holds it, at these bits of a number between zero and one.
    Manual(u32),
    Settling(Settle),
    Open,
}

/// The overview while it is shown.
#[derive(Debug)]
pub struct Session {
    pub tiles: Vec<Tile>,
    pub hovered: Option<NodeId>,
    pub selected: Option<NodeId>,
    pub settle: Option<Settle>,
    /// The bits of the progress that a gesture has set.
    pub manual_progress: Option<u32>,
    pub pending_activation: Option<NodeId>,
}

impl Session {
    pub open spec fn spec_progress(self) -> Progress {
        match self.manual_progress {
            Some(bits) => Progress::Manual(unit_bits(bits)),
            None => match self.settle {
                Some(settle) => Progress::Settling(settle),
                None => Progress::Open,
            },
        }
    }

    /// How far the overview is open. What a gesture has set wins over a settling.
    pub fn progress(&self) -> (progress: Progress)
        ensures
            progress == self.spec_progress(),
    {
        match self.manual_progress {
            Some(bits) => Progress::Manual(hold_in_unit(bits)),
            None => match self.settle {
                Some(settle) => Progress::Settling(settle),
                None => Progress::Open,
            },
        }
    }

    pub open spec fn closes(self) -> bool {
        self.settle is Some && self.settle->0.to == Endpoint::Closed
    }

    pub fn is_closing(&self) -> (r: bool)
        ensures
            r == self.closes(),
    {
        match self.settle {
            Some(settle) => settle.to == Endpoint::Closed,
            None => false,
        }
    }

    /// The first tile of a node.
    pub fn tile(&self, id: NodeId) -> (tile: Option<&Tile>)
        ensures
            match tile {
                Some(tile) => exists|i: int| #[trigger]
                    tiles::is_tile_of(spots_of(self.tiles@), id, i) && self.tiles@[i] == *tile,
                None => !tiles::has_tile(spots_of(self.tiles@), id),
            },
    {
        let spots = spots(&self.tiles);
        match tiles::find(&spots, id) {
            Some(index) => Some(&self.tiles[index]),
            None => None,
        }
    }

    /// The node under a pixel.
    pub fn hit_test(&self, pixel: Point) -> (hit: Option<NodeId>)
        ensures
            is_hit_of(spots_of(self.tiles@), pixel, hit),
    {
        let spots = spots(&self.tiles);
        match tiles::hit_test(&spots, pixel) {
            Some(index) => Some(spots[index].id),
            None => None,
        }
    }

    /// All but what is hovered and selected is as it was.
    pub open spec fn same_but_marks(self, other: Self) -> bool {
        &&& self.tiles == other.tiles
        &&& self.settle == other.settle
        &&& self.manual_progress == other.manual_progress
        &&& self.pending_activation == other.pending_activation
    }
}

/// The node whose tile is the first to hold the pixel.
pub open spec fn is_hit_of(spots: Seq<Spot>, pixel: Point, hit: Option<NodeId>) -> bool {
    match hit {
        Some(id) => exists|i: int| #[trigger]
            tiles::is_hit(spots, pixel, i) && spots[i].id == id,
        None => forall|j: int|
            0 <= j < spots.len() ==> !(#[trigger] spots[j]).target.holds_pixel(pixel),
    }
}

/// `after` is `before` on its way to being closed, to activate a node or none.
pub open spec fn closed_for(
    before: Session,
    after: Session,
    activation: Option<NodeId>,
    from_bits: u32,
    duration: Duration,
    now: Duration,
) -> bool {
    &&& after.manual_progress is None
    &&& after.pending_activation == activation
    &&& after.settle == Some(Settle { from_bits, to: Endpoint::Closed, started_at: now, duration })
    &&& after.tiles == before.tiles
    &&& after.hovered == before.hovered
    &&& after.selected == before.selected
}

/// What a moment of the overview brings.
#[derive(Clone, Copy, Debug, PartialEq, Eq, Structural)]
pub enum Tick {
    Idle,
    Active { animating: bool },
    /// It is closed, and this node was chosen.
    Closed(Option<NodeId>),
}

/// The overview, shown or not.
#[derive(Debug)]
pub struct ApogeeState {
    pub session: Option<Session>,
}

impl Default for ApogeeState {
    fn default() -> (r: Self)
        ensures
            r.session is None,
    {
        ApogeeState { session: None }
    }
}

impl ApogeeState {
    pub fn is_active(&self) -> (r: bool)
        ensures
            r == (self.session is Some),
    {
        self.session.is_some()
    }

    /// The overview takes input.
    pub open spec fn is_open(self) -> bool {
        self.session is Some && !self.session->0.closes()
    }

    /// The overview is seen while it closes, but takes no input any more.
    pub fn accepts_input(&self) -> (r: bool)
        ensures
            r == self.is_open(),
    {
        match &self.session {
            Some(session) => !session.is_closing(),
            None => false,
        }
    }

    pub fn accepts_live_previews(&self) -> (r: bool)
        ensures
            r == self.is_open(),
    {
        self.accepts_input()
    }

    pub fn contains(&self, id: NodeId) -> (r: bool)
        ensures
            r == (self.session is Some && tiles::has_tile(
                spots_of(self.session->0.tiles@),
                id,
            )),
    {
        match &self.session {
            Some(session) => {
                let spots = spots(&session.tiles);
                let found = tiles::find(&spots, id);
                proof {
                    if found is Some {
                        assert(spots@[found->0 as int].id == id);
                    }
                }
                found.is_some()
            },
            None => false,
        }
    }

    pub fn hovered(&self) -> (r: Option<NodeId>)
        ensures
            r == (match self.session {
                Some(session) => session.hovered,
                None => None,
            }),
    {
        match &self.session {
            Some(session) => session.hovered,
            None => None,
        }
    }

    pub fn selected(&self) -> (r: Option<NodeId>)
        ensures
            r == (match self.session {
                Some(session) => session.selected,
                None => None,
            }),
    {
        match &self.session {
            Some(session) => session.selected,
            None => None,
        }
    }

    /// Opens the overview on these tiles, if it is enabled and not shown yet. Without
    /// tiles it stays closed.
    pub fn open(&mut self, enabled: bool, tiles: Vec<Tile>, transition_ms: u64, now: Duration)
        -> (opened: bool)
        ensures
            opened == (enabled && old(self).session is None && tiles@.len() > 0),
            !opened ==> *final(self) == *old(self),
            opened ==> final(self).session is Some && {
                let session = final(self).session->0;
                &&& session.tiles == tiles
                &&& session.hovered is None
                &&& session.selected is None
                &&& session.manual_progress is None
                &&& session.pending_activation is None
                &&& session.settle is Some
                &&& session.settle->0.from_bits == 0
                &&& session.settle->0.to == Endpoint::Open
                &&& session.settle->0.started_at == now
                &&& session.settle->0.duration.nanos == millis(transition_ms as int)
            },
    {
        if !enabled || self.session.is_some() || tiles.len() == 0 {
            return false;
        }
        let settle = Settle {
            from_bits: 0,
            to: Endpoint::Open,
            started_at: now,
            duration: Duration::from_millis(transition_ms),
        };
        self.session = Some(
            Session {
                tiles,
                hovered: None,
                selected: None,
                settle: Some(settle),
                manual_progress: None,
                pending_activation: None,
            },
        );
        true
    }

    /// Lets a gesture hold the overview, opened on these tiles where it is not shown.
    pub fn begin_interactive(&mut self, enabled: bool, tiles: Vec<Tile>) -> (held: bool)
        ensures
            held == (enabled && (old(self).session is Some || tiles@.len() > 0)),
            !held ==> *final(self) == *old(self),
            held ==> final(self).session is Some && {
                let session = final(self).session->0;
                &&& session.settle is None
                &&& session.manual_progress is Some
                &&& match old(self).session {
                    Some(before) => {
                        &&& session.manual_progress->0 == (match before.manual_progress {
                            Some(bits) => bits,
                            None => 0,
                        })
                        &&& session.tiles == before.tiles
                        &&& session.hovered == before.hovered
                        &&& session.selected == before.selected
                        &&& session.pending_activation == before.pending_activation
                    },
                    None => {
                        &&& session.manual_progress->0 == 0
                        &&& session.tiles == tiles
                        &&& session.hovered is None
                        &&& session.selected is None
                        &&& session.pending_activation is None
                    },
                }
            },
    {
        if !enabled {
            return false;
        }
        match self.session.take() {
            Some(session) => {
                let bits: u32 = match session.manual_progress {
                    Some(bits) => bits,
                    None => 0,
                };
                self.session = Some(
                    Session {
                        tiles: session.tiles,
                        hovered: session.hovered,
                        selected: session.selected,
                        settle: None,
                        manual_progress: Some(bits),
                        pending_activation: session.pending_activation,
                    },
                );
                true
            },
            None => {
                if tiles.len() == 0 {
                    return false;
                }
                self.session = Some(
                    Session {
                        tiles,
                        hovered: None,
                        selected: None,
                        settle: None,
                        manual_progress: Some(0),
                        pending_activation: None,
                    },
                );
                true
            },
        }
    }

    /// A gesture moves the overview.
    pub fn set_interactive_progress(&mut self, bits: u32) -> (changed: bool)
        ensures
            old(self).session is None ==> !changed && *final(self) == *old(self),
            old(self).session is Some ==> final(self).session is Some && {
                let before = old(self).session->0;
                let session = final(self).session->0;
                &&& session.manual_progress == Some(unit_bits(bits))
                &&& changed == !(before.manual_progress is Some && equal_numbers(
                    before.manual_progress->0,
                    unit_bits(bits),
                ))
                &&& session.tiles == before.tiles
                &&& session.hovered == before.hovered
                &&& session.selected == before.selected
                &&& session.settle == before.settle
                &&& session.pending_activation == before.pending_activation
            },
    {
        match self.session.take() {
            Some(session) => {
                let next: u32 = hold_in_unit(bits);
                let changed = match session.manual_progress {
                    Some(held) => !same_number(held, next),
                    None => true,
                };
                self.session = Some(
                    Session {
                        tiles: session.tiles,
                        hovered: session.hovered,
                        selected: session.selected,
                        settle: session.settle,
                        manual_progress: Some(next),
                        pending_activation: session.pending_activation,
                    },
                );
                changed
            },
            None => false,
        }
    }

    /// A gesture lets go of the overview, which opens or closes from where it was held.
    /// `duration` is the share of the whole transition that is left.
    pub fn finish_interactive(&mut self, commit: bool, duration: Duration, now: Duration)
        -> (settling: bool)
        ensures
            settling == (old(self).session is Some),
            old(self).session is None ==> *final(self) == *old(self),
            settling ==> final(self).session is Some && {
                let before = old(self).session->0;
                let session = final(self).session->0;
                &&& session.manual_progress is None
                &&& session.settle == Some(
                    Settle {
                        from_bits: match before.manual_progress {
                            Some(bits) => bits,
                            None => 0,
                        },
                        to: if commit {
                            Endpoint::Open
                        } else {
                            Endpoint::Closed
                        },
                        started_at: now,
                        duration,
                    },
                )
                &&& session.tiles == before.tiles
                &&& session.hovered == before.hovered
                &&& session.selected == before.selected
                &&& session.pending_activation == before.pending_activation
            },
    {
        match self.session.take() {
            Some(session) => {
                let from_bits: u32 = match session.manual_progress {
                    Some(bits) => bits,
                    None => 0,
                };
                let to = if commit {
                    Endpoint::Open
                } else {
                    Endpoint::Closed
                };
                self.session = Some(
                    Session {
                        tiles: session.tiles,
                        hovered: session.hovered,
                        selected: session.selected,
                        settle: Some(Settle { from_bits, to, started_at: now, duration }),
                        manual_progress: None,
                        pending_activation: session.pending_activation,
                    },
                );
                true
            },
            None => false,
        }
    }

    /// Closes the overview from where it is, to activate a node or none. One that
    /// closes already keeps the node that it closes for.
    pub fn close(
        &mut self,
        activation: Option<NodeId>,
        from_bits: u32,
        duration: Duration,
        now: Duration,
    ) -> (closed: bool)
        ensures
            closed == old(self).is_open(),
            !closed ==> *final(self) == *old(self),
            closed ==> final(self).session is Some && closed_for(
                old(self).session->0,
                final(self).session->0,
                activation,
                from_bits,
                duration,
                now,
            ),
    {
        if !self.accepts_input() {
            return false;
        }
        match self.session.take() {
            Some(session) => {
                let to = Endpoint::Closed;
                self.session = Some(
                    Session {
                        tiles: session.tiles,
                        hovered: session.hovered,
                        selected: session.selected,
                        settle: Some(Settle { from_bits, to, started_at: now, duration }),
                        manual_progress: None,
                        pending_activation: activation,
                    },
                );
                true
            },
            None => false,
        }
    }

    /// The pointer moves over the overview. The tile under it is selected, and stays so
    /// when the pointer leaves it.
    pub fn hover(&mut self, pixel: Point) -> (changed: bool)
        ensures
            old(self).session is None ==> !changed && *final(self) == *old(self),
            old(self).session is Some ==> final(self).session is Some && {
                let before = old(self).session->0;
                let session = final(self).session->0;
                &&& is_hit_of(spots_of(before.tiles@), pixel, session.hovered)
                &&& changed == (before.hovered != session.hovered)
                &&& session.selected == (if session.hovered is Some {
                    session.hovered
                } else {
                    before.selected
                })
                &&& session.same_but_marks(before)
            },
    {
        match self.session.take() {
            Some(session) => {
                let hovered = session.hit_test(pixel);
                let changed = session.hovered != hovered;
                let selected = if hovered.is_some() {
                    hovered
                } else {
                    session.selected
                };
                self.session = Some(
                    Session {
                        tiles: session.tiles,
                        hovered,
                        selected,
                        settle: session.settle,
                        manual_progress: session.manual_progress,
                        pending_activation: session.pending_activation,
                    },
                );
                changed
            },
            None => false,
        }
    }

    /// The node that a press activates.
    pub fn target_at(&self, pixel: Point) -> (target: Option<NodeId>)
        ensures
            match self.session {
                Some(session) => is_hit_of(spots_of(session.tiles@), pixel, target),
                None => target is None,
            },
    {
        match &self.session {
            Some(session) => session.hit_test(pixel),
            None => None,
        }
    }

    /// Closes the overview for the node under a pixel; without one nothing is activated.
    pub fn activate_at(&mut self, pixel: Point, from_bits: u32, duration: Duration, now: Duration)
        -> (closed: bool)
        ensures
            closed == old(self).is_open(),
            !closed ==> *final(self) == *old(self),
            closed ==> final(self).session is Some && {
                let before = old(self).session->0;
                let session = final(self).session->0;
                &&& is_hit_of(spots_of(before.tiles@), pixel, session.pending_activation)
                &&& closed_for(
                    before,
                    session,
                    session.pending_activation,
                    from_bits,
                    duration,
                    now,
                )
            },
    {
        let target = self.target_at(pixel);
        self.close(target, from_bits, duration, now)
    }

    /// Moves the selection one tile.
    pub fn move_selection(&mut self, direction: Direction) -> (moved: bool)
        ensures
            old(self).session is None ==> !moved && *final(self) == *old(self),
            old(self).session is Some ==> final(self).session is Some && {
                let before = old(self).session->0;
                let session = final(self).session->0;
                &&& tiles::is_move(
                    spots_of(before.tiles@),
                    before.selected,
                    heading_of(direction),
                    session.selected,
                    moved,
                )
                &&& session.hovered == (if is_stuck(before, direction) {
                    before.hovered
                } else {
                    None
                })
                &&& session.same_but_marks(before)
            },
    {
        match self.session.take() {
            Some(session) => {
                let spots = spots(&session.tiles);
                let (selected, moved) = tiles::move_focus(
                    &spots,
                    session.selected,
                    heading(direction),
                );
                let known = match session.selected {
                    Some(id) => {
                        let found = tiles::find(&spots, id);
                        proof {
                            if found is Some {
                                assert(spots@[found->0 as int].id == id);
                            }
                        }
                        found.is_some()
                    },
                    None => false,
                };
                let hovered = if known && !moved {
                    session.hovered
                } else {
                    None
                };
                proof {
                    if known {
                        let i = choose|i: int| #[trigger]
                            tiles::is_tile_of(spots@, session.selected->0, i) && (
                            if tiles::is_edge(spots@, spots@[i], heading_of(direction)) {
                                selected == session.selected && !moved
                            } else {
                                moved && selected is Some && exists|k: int| #[trigger]
                                    tiles::is_step(spots@, spots@[i], heading_of(direction), k)
                                        && selected == Some(spots@[k].id)
                            });
                        assert forall|j: int| #[trigger]
                            tiles::is_tile_of(spots@, session.selected->0, j) implies j == i by {
                            if j < i {
                                assert(spots@[j].id != session.selected->0);
                            }
                            if i < j {
                                assert(spots@[i].id != session.selected->0);
                            }
                        }
                    }
                }
                self.session = Some(
                    Session {
                        tiles: session.tiles,
                        hovered,
                        selected,
                        settle: session.settle,
                        manual_progress: session.manual_progress,
                        pending_activation: session.pending_activation,
                    },
                );
                moved
            },
            None => false,
        }
    }

    /// What this moment brings. An overview that has closed is gone.
    pub fn tick(&mut self, now: Duration) -> (tick: Tick)
        ensures
            match old(self).session {
                None => tick == Tick::Idle && *final(self) == *old(self),
                Some(session) => if is_closed(session, now) {
                    tick == Tick::Closed(session.pending_activation) && final(self).session is None
                } else {
                    &&& tick == (Tick::Active { animating: is_animating(session, now) })
                    &&& *final(self) == *old(self)
                },
            },
    {
        let (closed, animating, activation) = match &self.session {
            None => {
                return Tick::Idle;
            },
            Some(session) => {
                let settling = match session.settle {
                    Some(settle) => is_settling(settle.started_at, settle.duration, now),
                    None => false,
                };
                let rests = match session.manual_progress {
                    Some(bits) => at_rest(hold_in_unit(bits)),
                    None => true,
                };
                (session.is_closing() && !settling && rests, settling, session.pending_activation)
            },
        };
        if closed {
            self.session = None;
            return Tick::Closed(activation);
        }
        Tick::Active { animating }
    }
}

/// The selection has a tile, and none lies in the direction.
pub open spec fn is_stuck(session: Session, direction: Direction) -> bool {
    let spots = spots_of(session.tiles@);
    session.selected is Some && exists|i: int| #[trigger]
        tiles::is_tile_of(spots, session.selected->0, i) && tiles::is_edge(
            spots,
            spots[i],
            heading_of(direction),
        )
}

/// The overview settles.
pub open spec fn is_animating(session: Session, now: Duration) -> bool {
    session.settle is Some && settles(
        session.settle->0.started_at,
        session.settle->0.duration,
        now,
    )
}

/// The overview was to close, and has. A settling that has ended has come to its
/// endpoint; a gesture that holds it may not have.
pub open spec fn is_closed(session: Session, now: Duration) -> bool {
    session.closes() && !is_animating(session, now) && (session.manual_progress is None
        || is_at_rest(unit_bits(session.manual_progress->0)))
}

/// Closes the overview, and activates nothing; `true` where something is to be drawn.
pub fn cancel(apogee: &mut ApogeeState, from_bits: u32, duration: Duration, now: Duration)
    -> (redraw: bool)
    ensures
        redraw == old(apogee).is_open(),
        !redraw ==> *final(apogee) == *old(apogee),
        redraw ==> final(apogee).session is Some && closed_for(
            old(apogee).session->0,
            final(apogee).session->0,
            None,
            from_bits,
            duration,
            now,
        ),
{
    apogee.close(None, from_bits, duration, now)
}

/// Closes the overview for what is selected; `true` where something is to be drawn.
pub fn select(apogee: &mut ApogeeState, from_bits: u32, duration: Duration, now: Duration)
    -> (redraw: bool)
    ensures
        redraw == old(apogee).is_open(),
        !redraw ==> *final(apogee) == *old(apogee),
        redraw ==> final(apogee).session is Some && closed_for(
            old(apogee).session->0,
            final(apogee).session->0,
            old(apogee).session->0.selected,
            from_bits,
            duration,
            now,
        ),
{
    let target = apogee.selected();
    apogee.close(target, from_bits, duration, now)
}

/// The pointer moves over the overview: whether another tile is under it, and the image of
/// the cursor there.
pub fn pointer_motion(apogee: &mut ApogeeState, pixel: Point) -> (r: (bool, OverviewCursor))
    ensures
        old(apogee).session is None ==> r == (false, OverviewCursor::Default) && *final(apogee)
            == *old(apogee),
        old(apogee).session is Some ==> final(apogee).session is Some && {
            let before = old(apogee).session->0;
            let session = final(apogee).session->0;
            &&& is_hit_of(spots_of(before.tiles@), pixel, session.hovered)
            &&& r.0 == (before.hovered != session.hovered)
            &&& r.1 == (if session.hovered is Some {
                OverviewCursor::Pointer
            } else {
                OverviewCursor::Default
            })
            &&& session.selected == (if session.hovered is Some {
                session.hovered
            } else {
                before.selected
            })
            &&& session.same_but_marks(before)
        },
{
    let changed = apogee.hover(pixel);
    (changed, overview_cursor(apogee.hovered()))
}

/// A press on the overview; `true` where something is to be drawn.
pub fn pointer_press(
    apogee: &mut ApogeeState,
    pixel: Point,
    from_bits: u32,
    duration: Duration,
    now: Duration,
) -> (redraw: bool)
    ensures
        redraw == old(apogee).is_open(),
        !redraw ==> *final(apogee) == *old(apogee),
        redraw ==> final(apogee).session is Some && {
            let before = old(apogee).session->0;
            let session = final(apogee).session->0;
            &&& is_hit_of(spots_of(before.tiles@), pixel, session.pending_activation)
            &&& closed_for(before, session, session.pending_activation, from_bits, duration, now)
        },
{
    apogee.activate_at(pixel, from_bits, duration, now)
}

/// The windows on an output whose previews draw again. `shown` says for each tile whether
/// its window is there and not collapsed.
pub open spec fn preview_nodes(tiles: Seq<Tile>, shown: Seq<bool>, output: Seq<char>) -> Seq<NodeId>
    decreases tiles.len(),
{
    if tiles.len() == 0 {
        Seq::empty()
    } else {
        let before = preview_nodes(tiles.drop_last(), shown, output);
        let last = tiles.last();
        if last.output@ == output && last.kind == TileKind::Window && shown[tiles.len() - 1] {
            before.push(last.id)
        } else {
            before
        }
    }
}

/// The windows on an output whose previews draw again.
pub fn send_preview_frames(apogee: &ApogeeState, output: &str, shown: &Vec<bool>) -> (nodes: Vec<
    NodeId,
>)
    requires
        apogee.session is Some ==> shown@.len() == apogee.session->0.tiles@.len(),
    ensures
        nodes@ == (match apogee.session {
            Some(session) => preview_nodes(session.tiles@, shown@, output@),
            None => Seq::empty(),
        }),
{
    let mut nodes: Vec<NodeId> = Vec::new();
    let session = match &apogee.session {
        Some(session) => session,
        None => {
            return nodes;
        },
    };
    let mut index: usize = 0;
    while index < session.tiles.len()
        invariant
            index <= session.tiles@.len(),
            shown@.len() == session.tiles@.len(),
            nodes@ == preview_nodes(session.tiles@.take(index as int), shown@, output@),
        decreases session.tiles@.len() - index,
    {
        let tile = &session.tiles[index];
        proof {
            let longer = session.tiles@.take(index as int + 1);
            assert(longer.drop_last() =~= session.tiles@.take(index as int));
            assert(longer.last() == session.tiles@[index as int]);
        }
        if same_text(tile.output.as_str(), output) && tile.kind == TileKind::Window
            && shown[index] {
            nodes.push(tile.id);
        }
        index += 1;
    }
    assert(session.tiles@.take(index as int) =~= session.tiles@);
    nodes
}

/// Moves the selection one tile; `true` where something is to be drawn.
pub fn move_selection(apogee: &mut ApogeeState, direction: Direction) -> (redraw: bool)
    ensures
        old(apogee).session is None ==> !redraw && *final(apogee) == *old(apogee),
        old(apogee).session is Some ==> final(apogee).session is Some && {
            let before = old(apogee).session->0;
            let session = final(apogee).session->0;
            &&& tiles::is_move(
                spots_of(before.tiles@),
                before.selected,
                heading_of(direction),
                session.selected,
                redraw,
            )
            &&& session.hovered == (if is_stuck(before, direction) {
                before.hovered
            } else {
                None
            })
            &&& session.same_but_marks(before)
        },
{
    apogee.move_selection(direction)
}

/// What follows a moment of the overview.
#[derive(Clone, Copy, Debug, PartialEq, Eq, Structural)]
pub struct TickFollowUp {
    /// The next frame will differ.
    pub animating: bool,
    /// The overview has just closed: the cursor's image is its own again, and what is
    /// under the pointer is looked up.
    pub closed: bool,
    /// The node that is activated.
    pub activate: Option<NodeId>,
}

/// Lets a moment of the overview pass.
pub fn tick(apogee: &mut ApogeeState, now: Duration) -> (follow_up: TickFollowUp)
    ensures
        match old(apogee).session {
            None => follow_up == (TickFollowUp {
                animating: false,
                closed: false,
                activate: None,
            }) && *final(apogee) == *old(apogee),
            Some(session) => if is_closed(session, now) {
                &&& follow_up == (TickFollowUp {
                    animating: false,
                    closed: true,
                    activate: session.pending_activation,
                })
                &&& final(apogee).session is None
            } else {
                &&& follow_up == (TickFollowUp {
                    animating: is_animating(session, now),
                    closed: false,
                    activate: None,
                })
                &&& *final(apogee) == *old(apogee)
            },
        },
{
    match apogee.tick(now) {
        Tick::Idle => TickFollowUp { animating: false, closed: false, activate: None },
        Tick::Active { animating } => TickFollowUp { animating, closed: false, activate: None },
        Tick::Closed(activate) => TickFollowUp { animating: false, closed: true, activate },
    }
}

/// What the key or gesture that shows the overview does.
#[derive(Clone, Copy, Debug, PartialEq, Eq, Structural)]
pub enum Toggle {
    Close,
    Open,
    /// A capture, the focus cycle or something that is held comes first.
    Refuse,
}

pub fn toggle(apogee: &ApogeeState, capture_active: bool, focus_cycle_open: bool, grab: &Grab)
    -> (step: Toggle)
    ensures
        step == (if apogee.session is Some {
            Toggle::Close
        } else if capture_active || focus_cycle_open || grab !is Idle {
            Toggle::Refuse
        } else {
            Toggle::Open
        }),
{
    let held = match grab {
        Grab::Idle => false,
        _ => true,
    };
    if apogee.is_active() {
        Toggle::Close
    } else if capture_active || focus_cycle_open || held {
        Toggle::Refuse
    } else {
        Toggle::Open
    }
}

/// Images of the cursor over the overview.
#[derive(Clone, Copy, Debug, PartialEq, Eq, Structural)]
pub enum OverviewCursor {
    Default,
    Pointer,
}

/// The image of the cursor over the overview: a hand over a tile.
pub fn overview_cursor(hovered: Option<NodeId>) -> (cursor: OverviewCursor)
    ensures
        cursor == (if hovered is Some {
            OverviewCursor::Pointer
        } else {
            OverviewCursor::Default
        }),
{
    if hovered.is_some() {
        OverviewCursor::Pointer
    } else {
        OverviewCursor::Default
    }
}

/// Members of a cluster are shown by its core.
pub fn participates_in_window_mosaic(attached: bool, cluster_member: bool) -> (r: bool)
    ensures
        r == (attached && !cluster_member),
{
    attached && !cluster_member
}

/// Activating a cluster opens or closes it, so that one that is open is left alone.
pub fn cluster_needs_activation(active: Option<ClusterId>, selected: ClusterId) -> (r: bool)
    ensures
        r == (active != Some(selected)),
{
    match active {
        Some(cluster) => cluster != selected,
        None => true,
    }
}

/// What is known of a node that was chosen.
#[derive(Clone, Copy, Debug, PartialEq, Eq, Structural)]
pub enum TargetFacts {
    Gone,
    /// The core of a cluster whose output is known.
    Core { cluster: ClusterId, active: Option<ClusterId>, output_mapped: bool },
    /// A window's node, and the cluster that is open on its output.
    Node { active: Option<ClusterId> },
}

#[derive(Clone, Copy, Debug, PartialEq, Eq, Structural)]
pub enum ActivateStep {
    /// Opens the cluster, or closes it where it is open.
    ToggleCluster(ClusterId),
    FocusCluster(ClusterId),
    CenterPointer,
    FocusNode,
}

pub open spec fn activate_steps(target: TargetFacts) -> Seq<ActivateStep> {
    match target {
        TargetFacts::Gone => Seq::empty(),
        TargetFacts::Core { cluster, active, output_mapped } => crate::steps::when(
            active != Some(cluster),
            seq![ActivateStep::ToggleCluster(cluster)],
        ) + crate::steps::when(output_mapped, seq![ActivateStep::FocusCluster(cluster)])
            + seq![ActivateStep::CenterPointer],
        TargetFacts::Node { active } => (match active {
            Some(cluster) => seq![ActivateStep::ToggleCluster(cluster)],
            None => Seq::empty(),
        }) + seq![ActivateStep::FocusNode],
    }
}

/// Activates what was chosen. A node of the field closes the cluster that is open on
/// its output; a core opens its own.
pub fn activate_target(target: TargetFacts) -> (list: Vec<ActivateStep>)
    ensures
        list@ == activate_steps(target),
{
    let mut list: Vec<ActivateStep> = Vec::new();
    match target {
        TargetFacts::Gone => {},
        TargetFacts::Core { cluster, active, output_mapped } => {
            if cluster_needs_activation(active, cluster) {
                list.push(ActivateStep::ToggleCluster(cluster));
            }
            if output_mapped {
                list.push(ActivateStep::FocusCluster(cluster));
            }
            list.push(ActivateStep::CenterPointer);
        },
        TargetFacts::Node { active } => {
            if let Some(cluster) = active {
                list.push(ActivateStep::ToggleCluster(cluster));
            }
            list.push(ActivateStep::FocusNode);
        },
    }
    list
}

/// Choosing the core of the cluster that is open leaves it open.
pub proof fn open_clusters_stay_open(cluster: ClusterId, output_mapped: bool)
    ensures
        !activate_steps(
            TargetFacts::Core { cluster, active: Some(cluster), output_mapped },
        ).contains(ActivateStep::ToggleCluster(cluster)),
{
}

/// An overview that closes and is not held is gone once its time is up.
pub proof fn closing_ends(session: Session, now: Duration)
    requires
        session.closes(),
        session.manual_progress is None,
        session.settle->0.started_at.nanos + session.settle->0.duration.nanos <= now.nanos,
    ensures
        is_closed(session, now),
{
}

/// The selection moves as the direction says.
pub proof fn directions_are_headings(direction: Direction)
    ensures
        heading_of(direction) is Left <==> direction is Left,
        heading_of(direction) is Right <==> direction is Right,
        heading_of(direction) is Up <==> direction is Up,
        heading_of(direction) is Down <==> direction is Down,
{
}

/// The node under a pixel is that of the first tile that holds it, and there is none exactly
/// where no tile does.
pub proof fn the_first_tile_is_under_the_pointer(
    tiles: Seq<Tile>,
    pixel: Point,
    hit: Option<NodeId>,
    i: int,
)
    requires
        is_hit_of(spots_of(tiles), pixel, hit),
        0 <= i < tiles.len(),
        tiles[i].target.loc.x <= pixel.x < tiles[i].target.loc.x + tiles[i].target.size.w,
        tiles[i].target.loc.y <= pixel.y < tiles[i].target.loc.y + tiles[i].target.size.h,
        forall|j: int|
            0 <= j < i ==> {
                let target = (#[trigger] tiles[j]).target;
                !(target.loc.x <= pixel.x < target.loc.x + target.size.w && target.loc.y <= pixel.y
                    < target.loc.y + target.size.h)
            },
    ensures
        hit == Some(tiles[i].id),
{
    let spots = spots_of(tiles);
    assert(spots[i].target == tiles[i].target);
    assert(spots[i].target.holds_pixel(pixel));
    let k = choose|k: int| #[trigger] tiles::is_hit(spots, pixel, k) && spots[k].id == hit->0;
    assert(spots[k].target == tiles[k].target);
    if k < i {
        assert(tiles[k].target.holds_pixel(pixel));
    }
    assert(k == i);
}

/// A hit is the node of a tile that holds the pixel.
pub proof fn what_is_under_the_pointer_has_a_tile(tiles: Seq<Tile>, pixel: Point, hit: NodeId)
    requires
        is_hit_of(spots_of(tiles), pixel, Some(hit)),
    ensures
        exists|i: int|
            0 <= i < tiles.len() && (#[trigger] tiles[i]).id == hit && tiles[i].target.loc.x
                <= pixel.x < tiles[i].target.loc.x + tiles[i].target.size.w
                && tiles[i].target.loc.y <= pixel.y < tiles[i].target.loc.y
                + tiles[i].target.size.h,
{
    let spots = spots_of(tiles);
    let k = choose|k: int| #[trigger] tiles::is_hit(spots, pixel, k) && spots[k].id == hit;
    assert(spots[k].target == tiles[k].target && spots[k].id == tiles[k].id);
}

/// What a gesture has set wins; without it a settling goes on; without either the overview is
/// open.
pub proof fn gestures_win_over_settling(session: Session)
    ensures
        session.spec_progress() is Manual <==> session.manual_progress is Some,
        session.spec_progress() is Settling <==> session.manual_progress is None && session.settle
            is Some,
        session.spec_progress() is Open <==> session.manual_progress is None && session.settle
            is None,
        session.spec_progress() is Settling ==> session.spec_progress()->Settling_0
            == session.settle->0,
        session.spec_progress() is Manual && session.manual_progress->0 <= 0x3f80_0000
            ==> session.spec_progress()->Manual_0 == session.manual_progress->0,
{
}

/// An overview that is closed from where it is takes no more input, and is gone exactly once
/// its time is up, for the node that it was closed for.
pub proof fn closing_takes_its_time(
    before: Session,
    after: Session,
    activation: Option<NodeId>,
    from_bits: u32,
    duration: Duration,
    start: Duration,
    now: Duration,
)
    requires
        closed_for(before, after, activation, from_bits, duration, start),
    ensures
        after.closes(),
        after.pending_activation == activation,
        after.tiles == before.tiles && after.hovered == before.hovered && after.selected
            == before.selected,
        is_animating(after, now) <==> duration.nanos > 0 && now.nanos < start.nanos
            + duration.nanos,
        is_closed(after, now) <==> duration.nanos == 0 || now.nanos >= start.nanos + duration.nanos,
        after.spec_progress() is Settling,
        after.settle->0.from_bits == from_bits,
{
}

/// An overview that opens, or is open, never closes by itself; one that a gesture holds is
/// closed only at rest.
pub proof fn open_overviews_stay(session: Session, now: Duration)
    ensures
        session.settle is None ==> !session.closes() && !is_closed(session, now)
            && !is_animating(session, now),
        session.settle is Some && session.settle->0.to is Open ==> !session.closes()
            && !is_closed(session, now),
        session.settle is Some && session.settle->0.to is Closed ==> session.closes(),
        session.manual_progress is Some && 0x3400_0000 < session.manual_progress->0 <= 0x7f80_0000
            ==> !is_closed(session, now),
        is_closed(session, now) ==> !is_animating(session, now),
{
}

/// The previews that draw again are those of the windows on the output that are shown, and no
/// others.
pub proof fn shown_windows_draw_previews(
    tiles: Seq<Tile>,
    shown: Seq<bool>,
    output: Seq<char>,
    id: NodeId,
)
    requires
        shown.len() >= tiles.len(),
    ensures
        preview_nodes(tiles, shown, output).contains(id) <==> exists|i: int|
            0 <= i < tiles.len() && (#[trigger] tiles[i]).id == id && tiles[i].kind is Window
                && tiles[i].output@ == output && shown[i],
    decreases tiles.len(),
{
    broadcast use crate::steps::group_steps;

    if tiles.len() > 0 {
        let rest = tiles.drop_last();
        shown_windows_draw_previews(rest, shown, output, id);
        if preview_nodes(rest, shown, output).contains(id) {
            let i = choose|i: int|
                0 <= i < rest.len() && (#[trigger] rest[i]).id == id && rest[i].kind is Window
                    && rest[i].output@ == output && shown[i];
            assert(tiles[i] == rest[i]);
        }
        if exists|i: int|
            0 <= i < tiles.len() && (#[trigger] tiles[i]).id == id && tiles[i].kind is Window
                && tiles[i].output@ == output && shown[i] {
            let i = choose|i: int|
                0 <= i < tiles.len() && (#[trigger] tiles[i]).id == id && tiles[i].kind is Window
                    && tiles[i].output@ == output && shown[i];
            if i < rest.len() {
                assert(rest[i] == tiles[i]);
            }
        }
    }
}

/// What is chosen is activated: a core opens its own cluster where that is not open, and is
/// focused where its output is there; a node closes the cluster that is open, and is focused.
pub proof fn choices_are_activated(
    cluster: ClusterId,
    other: ClusterId,
    active: Option<ClusterId>,
    output_mapped: bool,
)
    ensures
        ({
            let core = activate_steps(TargetFacts::Core { cluster, active, output_mapped });
            let node = activate_steps(TargetFacts::Node { active });
            &&& core.contains(ActivateStep::ToggleCluster(cluster)) <==> active != Some(cluster)
            &&& core.contains(ActivateStep::ToggleCluster(other)) ==> other == cluster
            &&& core.contains(ActivateStep::FocusCluster(cluster)) <==> output_mapped
            &&& core.contains(ActivateStep::FocusCluster(other)) ==> other == cluster
            &&& core.last() == ActivateStep::CenterPointer
            &&& !core.contains(ActivateStep::FocusNode)
            &&& node.contains(ActivateStep::ToggleCluster(other)) <==> active == Some(other)
            &&& node.last() == ActivateStep::FocusNode
            &&& !node.contains(ActivateStep::CenterPointer)
            &&& !node.contains(ActivateStep::FocusCluster(other))
            &&& activate_steps(TargetFacts::Gone).len() == 0
        }),
{
    broadcast use crate::steps::group_steps;

}

/// A selection without a tile is never stuck, and one with a tile is exactly where no other
/// node's tile lies in the direction.
pub proof fn selections_are_stuck_at_the_edge(session: Session, direction: Direction, i: int, j: int)
    requires
        session.selected is Some,
        tiles::is_tile_of(spots_of(session.tiles@), session.selected->0, i),
        0 <= j < session.tiles@.len(),
        session.tiles@[j].id != session.selected->0,
        tiles::ahead(heading_of(direction), session.tiles@[i].target, session.tiles@[j].target) > 0,
    ensures
        !is_stuck(session, direction),
{
    let spots = spots_of(session.tiles@);
    assert(spots[j].target == session.tiles@[j].target && spots[j].id == session.tiles@[j].id);
    assert(spots[i].target == session.tiles@[i].target && spots[i].id == session.tiles@[i].id);
    assert(tiles::in_reach(heading_of(direction), spots[i], spots[j]));
}

/// A core opens its cluster before that is focused, and the pointer follows; a node gets the
/// focus once the cluster before it is closed.
pub proof fn clusters_open_before_they_are_focused(cluster: ClusterId, active: Option<ClusterId>, other: ClusterId, output_mapped: bool)
    ensures
        crate::steps::comes_before(activate_steps(TargetFacts::Core { cluster, active, output_mapped }), ActivateStep::ToggleCluster(cluster), ActivateStep::FocusCluster(cluster)),
        crate::steps::comes_before(activate_steps(TargetFacts::Core { cluster, active, output_mapped }), ActivateStep::ToggleCluster(cluster), ActivateStep::CenterPointer),
        crate::steps::comes_before(activate_steps(TargetFacts::Core { cluster, active, output_mapped }), ActivateStep::FocusCluster(cluster), ActivateStep::CenterPointer),
        crate::steps::comes_before(activate_steps(TargetFacts::Node { active }), ActivateStep::ToggleCluster(other), ActivateStep::FocusNode),
{
    broadcast use {crate::steps::group_steps, crate::steps::group_orders};

}

/// Where only the marks change, the tiles and how far the overview is open stay.
pub proof fn marks_leave_the_rest(before: Session, after: Session)
    requires
        after.same_but_marks(before),
    ensures
        after.tiles == before.tiles,
        after.spec_progress() == before.spec_progress(),
        after.closes() == before.closes(),
        after.pending_activation == before.pending_activation,
{
}

/// The overview is closed wherever it is shown, and opened only where nothing comes first.
pub proof fn the_overview_opens_only_alone(
    apogee: &ApogeeState,
    capture_active: bool,
    focus_cycle_open: bool,
    grab: &Grab,
    step: Toggle,
)
    requires
        call_ensures(toggle, (apogee, capture_active, focus_cycle_open, grab), step),
    ensures
        step is Close <==> apogee.session is Some,
        step is Open ==> !capture_active && !focus_cycle_open && grab is Idle,
        apogee.session is None && !capture_active && !focus_cycle_open && grab is Idle ==> step
            is Open,
{
}

/// The cursor is a hand exactly over a tile; windows that are in no cluster have one, and a
/// cluster that is open is not activated again.
pub proof fn the_cursor_is_a_hand_over_tiles(hovered: Option<NodeId>, cursor: OverviewCursor, attached: bool, member: bool, shown: bool, active: Option<ClusterId>, selected: ClusterId, needed: bool)
    requires
        call_ensures(overview_cursor, (hovered,), cursor),
        call_ensures(participates_in_window_mosaic, (attached, member), shown),
        call_ensures(cluster_needs_activation, (active, selected), needed),
    ensures
        cursor is Pointer <==> hovered is Some,
        shown ==> attached && !member,
        attached && !member ==> shown,
        !needed <==> active is Some && active->0 == selected,
{
}

} // verus!
