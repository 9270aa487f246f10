//! The overview in which a cluster is put together.

use vstd::prelude::*;

use crate::geometry::{Point, Rectangle};
use crate::ids::NodeId;
use crate::session::input::actions::Heading;
use crate::shell::apogee::is_hit_of;
use crate::shell::overlay::ErrorMessage;
use crate::shell::settle::{is_settling, settles, Endpoint, Settle, ONE_BITS};
use crate::shell::tiles::{self, Spot};
use crate::steps;
use crate::text::same_text;
use crate::time::{millis, Duration};

verus! {

/// A step of the focus.
#[derive(Clone, Copy, Debug, PartialEq, Eq, Structural)]
pub enum Direction {
    Left,
    Right,
    Up,
    Down,
}

pub open spec fn heading_of(direction: Direction) -> Heading {
    match direction {
        Direction::Left => Heading::Left,
        Direction::Right => Heading::Right,
        Direction::Up => Heading::Up,
        Direction::Down => Heading::Down,
    }
}

fn heading(direction: Direction) -> (r: Heading)
    ensures
        r == heading_of(direction),
{
    match direction {
        Direction::Left => Heading::Left,
        Direction::Right => Heading::Right,
        Direction::Up => Heading::Up,
        Direction::Down => Heading::Down,
    }
}

/// Where the overview is on its way.
#[derive(Clone, Copy, Debug, PartialEq, Eq, Structural)]
pub enum Phase {
    Opening,
    Interactive,
    Canceling,
    Committing,
    /// The end of the commit is shown until it was drawn.
    CommitEndpointHeld,
    Revealing,
}

#[derive(Clone, Copy, Debug, PartialEq, Eq, Structural)]
pub struct Tile {
    pub id: NodeId,
    pub target: Rectangle,
    pub source_stack_index: usize,
    pub source_stack_order: u64,
}

/// The nodes and places of tiles.
pub open spec fn spots_of(tiles: Seq<Tile>) -> Seq<Spot> {
    tiles.map_values(|tile: Tile| Spot { id: tile.id, target: tile.target })
}

fn spots(tiles: &Vec<Tile>) -> (spots: Vec<Spot>)
    ensures
        spots@ == spots_of(tiles@),
{
    let mut spots: Vec<Spot> = Vec::new();
    let mut index: usize = 0;
    while index < tiles.len()
        invariant
            index <= tiles@.len(),
            spots@ == spots_of(tiles@.take(index as int)),
        decreases tiles@.len() - index,
    {
        spots.push(Spot { id: tiles[index].id, target: tiles[index].target });
        proof {
            assert(spots_of(tiles@.take(index as int + 1)) =~= spots_of(
                tiles@.take(index as int),
            ).push(Spot { id: tiles@[index as int].id, target: tiles@[index as int].target }));
        }
        index += 1;
    }
    assert(tiles@.take(index as int) =~= tiles@);
    spots
}

/// A cluster that is ready to be made.
#[derive(Debug)]
pub struct PreparedCreation {
    pub output: String,
    pub members: Vec<NodeId>,
    pub name: String,
    /// The bits of the place of its core.
    pub core_x_bits: u32,
    pub core_y_bits: u32,
    pub focus_core: bool,
}

/// The flight of the members into their core.
#[derive(Debug)]
pub struct CommitTransition {
    pub prepared: PreparedCreation,
    /// The bits of how far the overview was open when it began.
    pub opening_bits: u32,
    pub started_at: Duration,
    pub duration: Duration,
}

/// How far the overview is open.
#[derive(Clone, Copy, Debug, PartialEq, Eq, Structural)]
pub enum Progress {
    Settling(Settle),
    Open,
}

/// How far the commit has come.
#[derive(Clone, Copy, Debug, PartialEq, Eq, Structural)]
pub enum CommitProgress {
    NotBegun,
    Under { started_at: Duration, duration: Duration },
    Complete,
}

/// The overview while it is shown.
#[derive(Debug)]
pub struct Session {
    pub output: String,
    pub tiles: Vec<Tile>,
    pub hovered: Option<NodeId>,
    pub focused: Option<NodeId>,
    pub phase: Phase,
    pub settle: Option<Settle>,
    pub commit: Option<CommitTransition>,
    pub endpoint_rendered: bool,
}

/// The overview takes input.
pub open spec fn takes_input(phase: Phase) -> bool {
    phase == Phase::Opening || phase == Phase::Interactive
}

impl Session {
    pub fn phase(&self) -> (r: Phase)
        ensures
            r == self.phase,
    {
        self.phase
    }

    pub open spec fn spec_progress(self) -> Progress {
        if self.phase == Phase::Opening || self.phase == Phase::Canceling || self.phase
            == Phase::Revealing {
            match self.settle {
                Some(settle) => Progress::Settling(settle),
                None => Progress::Open,
            }
        } else {
            Progress::Open
        }
    }

    /// How far the overview is open. What is drawn of a commit goes by its own.
    pub fn progress(&self) -> (progress: Progress)
        ensures
            progress == self.spec_progress(),
    {
        match self.phase {
            Phase::Opening | Phase::Canceling | Phase::Revealing => match self.settle {
                Some(settle) => Progress::Settling(settle),
                None => Progress::Open,
            },
            _ => Progress::Open,
        }
    }

    /// How far the commit has come.
    pub fn commit_progress(&self) -> (progress: CommitProgress)
        ensures
            progress == (match self.phase {
                Phase::Committing => match self.commit {
                    Some(commit) => CommitProgress::Under {
                        started_at: commit.started_at,
                        duration: commit.duration,
                    },
                    None => CommitProgress::NotBegun,
                },
                Phase::CommitEndpointHeld => CommitProgress::Complete,
                _ => CommitProgress::NotBegun,
            }),
    {
        match self.phase {
            Phase::Committing => match &self.commit {
                Some(commit) => CommitProgress::Under {
                    started_at: commit.started_at,
                    duration: commit.duration,
                },
                None => CommitProgress::NotBegun,
            },
            Phase::CommitEndpointHeld => CommitProgress::Complete,
            _ => CommitProgress::NotBegun,
        }
    }

    /// The bits of how far the overview was open when the commit began.
    pub fn commit_opening_progress(&self) -> (bits: u32)
        ensures
            bits == (match self.commit {
                Some(commit) => commit.opening_bits,
                None => ONE_BITS,
            }),
    {
        match &self.commit {
            Some(commit) => commit.opening_bits,
            None => ONE_BITS,
        }
    }

    pub fn prepared(&self) -> (prepared: Option<&PreparedCreation>)
        ensures
            match prepared {
                Some(prepared) => self.commit is Some && *prepared == self.commit->0.prepared,
                None => self.commit is None,
            },
    {
        match &self.commit {
            Some(commit) => Some(&commit.prepared),
            None => None,
        }
    }

    /// While it is revealed the ordinary scene is drawn under it.
    pub fn replaces_scene(&self) -> (r: bool)
        ensures
            r == (self.phase != Phase::Revealing),
    {
        self.phase != Phase::Revealing
    }

    /// Notes that the end of the commit was drawn.
    pub fn mark_endpoint_rendered(&mut self)
        ensures
            rendered(*old(self), *final(self)),
    {
        if self.phase == Phase::CommitEndpointHeld {
            self.endpoint_rendered = true;
        }
    }

    pub open spec fn same_but_rendered(self, other: Self) -> bool {
        &&& self.output == other.output
        &&& self.tiles == other.tiles
        &&& self.hovered == other.hovered
        &&& self.focused == other.focused
        &&& self.phase == other.phase
        &&& self.settle == other.settle
        &&& self.commit == other.commit
    }

    /// The first tile of a node.
    pub fn tile(&self, id: NodeId) -> (tile: Option<&Tile>)
        ensures
            match tile {
                Some(tile) => exists|i: int| #[trigger]
                    tiles::is_tile_of(spots_of(self.tiles@), id, i) && self.tiles@[i] == *tile,
                None => !tiles::has_tile(spots_of(self.tiles@), id),
            },
    {
        let spots = spots(&self.tiles);
        match tiles::find(&spots, id) {
            Some(index) => Some(&self.tiles[index]),
            None => None,
        }
    }

    /// The node under a pixel.
    pub fn hit_test(&self, pixel: Point) -> (hit: Option<NodeId>)
        ensures
            is_hit_of(spots_of(self.tiles@), pixel, hit),
    {
        let spots = spots(&self.tiles);
        match tiles::hit_test(&spots, pixel) {
            Some(index) => Some(spots[index].id),
            None => None,
        }
    }

    /// The output and the tiles are as they were.
    pub open spec fn same_scene(self, other: Self) -> bool {
        self.output == other.output && self.tiles == other.tiles
    }
}

/// What a moment of the overview brings.
#[derive(Clone, Copy, Debug, PartialEq, Eq, Structural)]
pub enum Tick {
    Idle,
    Active { animating: bool },
    CommitReady,
    Cancelled,
    Finished,
}

/// The node that gets the focus when the overview opens: the one that has it on the
/// output, if it has a tile; else the first in reading order.
pub open spec fn is_initial_focus(
    spots: Seq<Spot>,
    on_output: Option<NodeId>,
    focused: Option<NodeId>,
) -> bool {
    if on_output is Some && tiles::has_tile(spots, on_output->0) {
        focused == on_output
    } else {
        is_first_focus(spots, focused)
    }
}

/// The first node in reading order, if there is any.
pub open spec fn is_first_focus(spots: Seq<Spot>, focused: Option<NodeId>) -> bool {
    match focused {
        Some(id) => exists|k: int| #[trigger]
            tiles::is_first_read(spots, k) && spots[k].id == id,
        None => spots.len() == 0,
    }
}

fn first_focus(spots: &Vec<Spot>) -> (focused: Option<NodeId>)
    ensures
        is_first_focus(spots@, focused),
{
    match tiles::first_read(spots) {
        Some(index) => Some(spots[index].id),
        None => None,
    }
}

fn contains_node(spots: &Vec<Spot>, id: NodeId) -> (r: bool)
    ensures
        r == tiles::has_tile(spots@, id),
{
    match tiles::find(spots, id) {
        Some(index) => {
            assert(spots@[index as int].id == id);
            true
        },
        None => false,
    }
}

/// `after` is `before` without the tiles that are not kept. A node that has lost its tile
/// is no longer hovered, and hands the focus to the first in reading order.
pub open spec fn pruned(before: Session, after: Session, kept: Seq<bool>) -> bool {
    let spots = spots_of(after.tiles@);
    &&& after.tiles@ == kept_tiles(before.tiles@, kept)
    &&& if before.focused is Some && !tiles::has_tile(spots, before.focused->0) {
        is_first_focus(spots, after.focused)
    } else {
        after.focused == before.focused
    }
    &&& after.hovered == (if before.hovered is Some && !tiles::has_tile(
        spots,
        before.hovered->0,
    ) {
        None
    } else {
        before.hovered
    })
    &&& after.output == before.output
    &&& after.phase == before.phase
    &&& after.settle == before.settle
    &&& after.commit == before.commit
    &&& after.endpoint_rendered == before.endpoint_rendered
}

/// `after` is `before` on its way to being closed, without a cluster.
pub open spec fn canceling(
    before: Session,
    after: Session,
    from_bits: u32,
    duration: Duration,
    now: Duration,
) -> bool {
    &&& after.phase == Phase::Canceling
    &&& after.settle == Some(Settle { from_bits, to: Endpoint::Closed, started_at: now, duration })
    &&& after.same_scene(before)
    &&& after.hovered == before.hovered
    &&& after.focused == before.focused
    &&& after.commit == before.commit
    &&& after.endpoint_rendered == before.endpoint_rendered
}

/// `after` is `before` with its commit taken back.
pub open spec fn taken_back(before: Session, after: Session) -> bool {
    &&& after.phase == Phase::Interactive
    &&& after.commit is None
    &&& after.settle is None
    &&& !after.endpoint_rendered
    &&& after.same_scene(before)
    &&& after.hovered == before.hovered
    &&& after.focused == before.focused
}

/// `after` is `before` with its members on their way into their core.
pub open spec fn committing(
    before: Session,
    after: Session,
    prepared: PreparedCreation,
    opening_bits: u32,
    transition_ms: u64,
    now: Duration,
) -> bool {
    &&& after.phase == Phase::Committing
    &&& after.settle is None
    &&& after.commit is Some
    &&& after.commit->0.prepared == prepared
    &&& after.commit->0.opening_bits == opening_bits
    &&& after.commit->0.started_at == now
    &&& after.commit->0.duration.nanos == millis(transition_ms as int)
    &&& after.hovered is None
    &&& !after.endpoint_rendered
    &&& after.same_scene(before)
    &&& after.focused == before.focused
}

/// `after` is `before` once it was drawn: the end of a commit is known to have been.
pub open spec fn rendered(before: Session, after: Session) -> bool {
    &&& after.endpoint_rendered == (before.endpoint_rendered || before.phase
        == Phase::CommitEndpointHeld)
    &&& after.same_but_rendered(before)
}

/// `after` is `before` while the scene is uncovered.
pub open spec fn revealing(before: Session, after: Session, transition_ms: u64, now: Duration)
    -> bool {
    &&& after.phase == Phase::Revealing
    &&& after.settle is Some
    &&& after.settle->0.from_bits == ONE_BITS
    &&& after.settle->0.to == Endpoint::Closed
    &&& after.settle->0.started_at == now
    &&& after.settle->0.duration.nanos == reveal_nanos(transition_ms)
    &&& after.commit == before.commit
    &&& after.same_scene(before)
    &&& after.hovered == before.hovered
    &&& after.focused == before.focused
    &&& after.endpoint_rendered == before.endpoint_rendered
}

/// The overview, shown or not.
#[derive(Debug)]
pub struct ClusterComposerState {
    pub session: Option<Session>,
}

impl Default for ClusterComposerState {
    fn default() -> (r: Self)
        ensures
            r.session is None,
    {
        ClusterComposerState { session: None }
    }
}

impl ClusterComposerState {
    pub fn is_active(&self) -> (r: bool)
        ensures
            r == (self.session is Some),
    {
        self.session.is_some()
    }

    pub open spec fn is_open(self) -> bool {
        self.session is Some && takes_input(self.session->0.phase)
    }

    pub fn accepts_input(&self) -> (r: bool)
        ensures
            r == self.is_open(),
    {
        match &self.session {
            Some(session) => session.phase == Phase::Opening || session.phase
                == Phase::Interactive,
            None => false,
        }
    }

    /// The output whose scene the overview replaces.
    pub fn replacement_output(&self) -> (output: Option<String>)
        ensures
            steps::text_of(output) == (match self.session {
                Some(session) => if session.phase != Phase::Revealing {
                    Some(session.output@)
                } else {
                    None
                },
                None => None,
            }),
    {
        match &self.session {
            Some(session) => if session.replaces_scene() {
                Some(session.output.clone())
            } else {
                None
            },
            None => None,
        }
    }

    /// The output that the cluster is for.
    pub fn target_output(&self) -> (output: Option<String>)
        ensures
            steps::text_of(output) == (match self.session {
                Some(session) => Some(session.output@),
                None => None,
            }),
    {
        match &self.session {
            Some(session) => Some(session.output.clone()),
            None => None,
        }
    }

    pub fn reveal_on(&self, output: &str) -> (r: bool)
        ensures
            r == (self.session is Some && self.session->0.output@ == output@
                && self.session->0.phase == Phase::Revealing),
    {
        match &self.session {
            Some(session) => same_text(session.output.as_str(), output) && session.phase
                == Phase::Revealing,
            None => false,
        }
    }

    pub fn focused(&self) -> (r: Option<NodeId>)
        ensures
            r == (match self.session {
                Some(session) => session.focused,
                None => None,
            }),
    {
        match &self.session {
            Some(session) => session.focused,
            None => None,
        }
    }

    /// Opens the overview on the tiles of an output, if it is not shown yet.
    pub fn open(
        &mut self,
        output: &str,
        tiles: Vec<Tile>,
        focused_on_output: Option<NodeId>,
        transition_ms: u64,
        now: Duration,
    ) -> (opened: bool)
        ensures
            opened == (old(self).session is None && tiles@.len() > 0),
            !opened ==> *final(self) == *old(self),
            opened ==> final(self).session is Some && {
                let session = final(self).session->0;
                &&& session.output@ == output@
                &&& session.tiles == tiles
                &&& session.hovered is None
                &&& is_initial_focus(spots_of(tiles@), focused_on_output, session.focused)
                &&& session.phase == Phase::Opening
                &&& session.settle is Some
                &&& session.settle->0.from_bits == 0
                &&& session.settle->0.to == Endpoint::Open
                &&& session.settle->0.started_at == now
                &&& session.settle->0.duration.nanos == millis(transition_ms as int)
                &&& session.commit is None
                &&& !session.endpoint_rendered
            },
    {
        if self.session.is_some() || tiles.len() == 0 {
            return false;
        }
        let spots = spots(&tiles);
        let kept = match focused_on_output {
            Some(id) => contains_node(&spots, id),
            None => false,
        };
        let focused = if kept {
            focused_on_output
        } else {
            first_focus(&spots)
        };
        let settle = Settle {
            from_bits: 0,
            to: Endpoint::Open,
            started_at: now,
            duration: Duration::from_millis(transition_ms),
        };
        self.session = Some(
            Session {
                output: output.to_owned(),
                tiles,
                hovered: None,
                focused,
                phase: Phase::Opening,
                settle: Some(settle),
                commit: None,
                endpoint_rendered: false,
            },
        );
        true
    }

    /// The pointer moves over the overview. The tile under it gets the focus.
    pub fn hover(&mut self, pixel: Point) -> (changed: bool)
        ensures
            !old(self).is_open() ==> !changed && *final(self) == *old(self),
            old(self).is_open() ==> final(self).session is Some && {
                let before = old(self).session->0;
                let session = final(self).session->0;
                &&& is_hit_of(spots_of(before.tiles@), pixel, session.hovered)
                &&& changed == (before.hovered != session.hovered)
                &&& session.focused == (if session.hovered is Some {
                    session.hovered
                } else {
                    before.focused
                })
                &&& session.same_scene(before)
                &&& session.phase == before.phase
                &&& session.settle == before.settle
                &&& session.commit == before.commit
                &&& session.endpoint_rendered == before.endpoint_rendered
            },
    {
        if !self.accepts_input() {
            return false;
        }
        match self.session.take() {
            Some(mut session) => {
                let hovered = session.hit_test(pixel);
                let changed = session.hovered != hovered;
                session.hovered = hovered;
                if hovered.is_some() {
                    session.focused = hovered;
                }
                self.session = Some(session);
                changed
            },
            None => false,
        }
    }

    /// Moves the focus one tile.
    pub fn move_focus(&mut self, direction: Direction) -> (moved: bool)
        ensures
            !old(self).is_open() ==> !moved && *final(self) == *old(self),
            old(self).is_open() ==> final(self).session is Some && {
                let before = old(self).session->0;
                let session = final(self).session->0;
                &&& tiles::is_move(
                    spots_of(before.tiles@),
                    before.focused,
                    heading_of(direction),
                    session.focused,
                    moved,
                )
                &&& session.hovered == (if moved || before.focused is None || !tiles::has_tile(
                    spots_of(before.tiles@),
                    before.focused->0,
                ) {
                    None
                } else {
                    before.hovered
                })
                &&& session.same_scene(before)
                &&& session.phase == before.phase
                &&& session.settle == before.settle
                &&& session.commit == before.commit
                &&& session.endpoint_rendered == before.endpoint_rendered
            },
    {
        if !self.accepts_input() {
            return false;
        }
        match self.session.take() {
            Some(mut session) => {
                let spots = spots(&session.tiles);
                let known = match session.focused {
                    Some(id) => contains_node(&spots, id),
                    None => false,
                };
                let (focused, moved) = tiles::move_focus(&spots, session.focused, heading(direction));
                session.focused = focused;
                if moved || !known {
                    session.hovered = None;
                }
                self.session = Some(session);
                moved
            },
            None => false,
        }
    }

    /// Closes the overview from where it is, without a cluster. `duration` is the share
    /// of the whole transition that is left.
    pub fn close(&mut self, from_bits: u32, duration: Duration, now: Duration) -> (closed: bool)
        ensures
            closed == old(self).is_open(),
            !closed ==> *final(self) == *old(self),
            closed ==> final(self).session is Some && canceling(
                old(self).session->0,
                final(self).session->0,
                from_bits,
                duration,
                now,
            ),
    {
        if !self.accepts_input() {
            return false;
        }
        match self.session.take() {
            Some(mut session) => {
                session.phase = Phase::Canceling;
                session.settle = Some(
                    Settle { from_bits, to: Endpoint::Closed, started_at: now, duration },
                );
                self.session = Some(session);
                true
            },
            None => false,
        }
    }

    /// Lets the members fly into their core. The cluster is for the output that the
    /// overview is on, or nothing happens.
    pub fn begin_commit(
        &mut self,
        prepared: PreparedCreation,
        opening_bits: u32,
        transition_ms: u64,
        now: Duration,
    ) -> (begun: bool)
        ensures
            begun == (old(self).is_open() && old(self).session->0.output@ == prepared.output@),
            !begun ==> *final(self) == *old(self),
            begun ==> final(self).session is Some && committing(
                old(self).session->0,
                final(self).session->0,
                prepared,
                opening_bits,
                transition_ms,
                now,
            ),
    {
        if !self.accepts_input() {
            return false;
        }
        let same_output = match &self.session {
            Some(session) => same_text(session.output.as_str(), prepared.output.as_str()),
            None => false,
        };
        if !same_output {
            return false;
        }
        match self.session.take() {
            Some(mut session) => {
                session.phase = Phase::Committing;
                session.settle = None;
                session.commit = Some(
                    CommitTransition {
                        prepared,
                        opening_bits,
                        started_at: now,
                        duration: Duration::from_millis(transition_ms),
                    },
                );
                session.hovered = None;
                session.endpoint_rendered = false;
                self.session = Some(session);
                true
            },
            None => false,
        }
    }

    /// The overview is on its way to a cluster.
    pub open spec fn is_committing(self) -> bool {
        self.session is Some && (self.session->0.phase == Phase::Committing
            || self.session->0.phase == Phase::CommitEndpointHeld)
    }

    /// Takes a commit back.
    pub fn abort_commit(&mut self) -> (aborted: bool)
        ensures
            aborted == old(self).is_committing(),
            !aborted ==> *final(self) == *old(self),
            aborted ==> final(self).session is Some && taken_back(
                old(self).session->0,
                final(self).session->0,
            ),
    {
        let committing = match &self.session {
            Some(session) => session.phase == Phase::Committing || session.phase
                == Phase::CommitEndpointHeld,
            None => false,
        };
        if !committing {
            return false;
        }
        match self.session.take() {
            Some(mut session) => {
                session.phase = Phase::Interactive;
                session.commit = None;
                session.settle = None;
                session.endpoint_rendered = false;
                self.session = Some(session);
                true
            },
            None => false,
        }
    }

    /// Uncovers the scene once the cluster is made. What was prepared stays until then,
    /// so that the core can be drawn above what fades.
    pub fn begin_reveal(&mut self, transition_ms: u64, now: Duration) -> (begun: bool)
        ensures
            begun == (old(self).session is Some && old(self).session->0.phase
                == Phase::CommitEndpointHeld),
            !begun ==> *final(self) == *old(self),
            begun ==> final(self).session is Some && revealing(
                old(self).session->0,
                final(self).session->0,
                transition_ms,
                now,
            ),
    {
        let held = match &self.session {
            Some(session) => session.phase == Phase::CommitEndpointHeld,
            None => false,
        };
        if !held {
            return false;
        }
        match self.session.take() {
            Some(mut session) => {
                session.phase = Phase::Revealing;
                session.settle = Some(
                    Settle {
                        from_bits: ONE_BITS,
                        to: Endpoint::Closed,
                        started_at: now,
                        duration: reveal_duration(transition_ms),
                    },
                );
                self.session = Some(session);
                true
            },
            None => false,
        }
    }

    /// Drops the tiles of nodes that can no longer be chosen. `kept` says for each tile
    /// whether its node still can.
    pub fn prune(&mut self, kept: &Vec<bool>) -> (changed: bool)
        requires
            old(self).session is Some ==> kept@.len() == old(self).session->0.tiles@.len(),
        ensures
            old(self).session is None ==> !changed && *final(self) == *old(self),
            old(self).session is Some ==> final(self).session is Some && {
                let before = old(self).session->0;
                let session = final(self).session->0;
                &&& pruned(before, session, kept@)
                &&& changed == (session.tiles@.len() != before.tiles@.len())
            },
    {
        match self.session.take() {
            Some(mut session) => {
                let tiles = retain(&session.tiles, kept);
                let changed = tiles.len() != session.tiles.len();
                let spots = spots(&tiles);
                session.tiles = tiles;
                let lost_focus = match session.focused {
                    Some(id) => !contains_node(&spots, id),
                    None => false,
                };
                if lost_focus {
                    session.focused = first_focus(&spots);
                }
                let lost_hover = match session.hovered {
                    Some(id) => !contains_node(&spots, id),
                    None => false,
                };
                if lost_hover {
                    session.hovered = None;
                }
                self.session = Some(session);
                changed
            },
            None => false,
        }
    }

    /// What this moment brings.
    pub fn tick(&mut self, now: Duration) -> (tick: Tick)
        ensures
            tick == tick_of(old(self).session, now),
            tick_leads(old(self).session, final(self).session, now),
    {
        match self.session.take() {
            None => Tick::Idle,
            Some(mut session) => match session.phase {
                Phase::Opening => {
                    let animating = match session.settle {
                        Some(settle) => is_settling(settle.started_at, settle.duration, now),
                        None => false,
                    };
                    if !animating {
                        session.phase = Phase::Interactive;
                        session.settle = None;
                    }
                    self.session = Some(session);
                    Tick::Active { animating }
                },
                Phase::Interactive => {
                    self.session = Some(session);
                    Tick::Active { animating: false }
                },
                Phase::Canceling => {
                    let animating = match session.settle {
                        Some(settle) => is_settling(settle.started_at, settle.duration, now),
                        None => false,
                    };
                    if animating {
                        self.session = Some(session);
                        Tick::Active { animating: true }
                    } else {
                        Tick::Cancelled
                    }
                },
                Phase::Committing => {
                    let animating = match &session.commit {
                        Some(commit) => is_settling(commit.started_at, commit.duration, now),
                        None => false,
                    };
                    if !animating {
                        session.phase = Phase::CommitEndpointHeld;
                        session.endpoint_rendered = false;
                    }
                    self.session = Some(session);
                    Tick::Active { animating: true }
                },
                Phase::CommitEndpointHeld => {
                    let ready = session.endpoint_rendered;
                    self.session = Some(session);
                    if ready {
                        Tick::CommitReady
                    } else {
                        Tick::Active { animating: true }
                    }
                },
                Phase::Revealing => {
                    let animating = match session.settle {
                        Some(settle) => is_settling(settle.started_at, settle.duration, now),
                        None => false,
                    };
                    if animating {
                        self.session = Some(session);
                        Tick::Active { animating: true }
                    } else {
                        Tick::Finished
                    }
                },
            },
        }
    }
}

/// The settling of the overview is under way.
pub open spec fn is_moving(session: Session, now: Duration) -> bool {
    session.settle is Some && settles(
        session.settle->0.started_at,
        session.settle->0.duration,
        now,
    )
}

/// The commit is under way.
pub open spec fn is_flying(session: Session, now: Duration) -> bool {
    session.commit is Some && settles(
        session.commit->0.started_at,
        session.commit->0.duration,
        now,
    )
}

pub open spec fn tick_of(session: Option<Session>, now: Duration) -> Tick {
    match session {
        None => Tick::Idle,
        Some(session) => match session.phase {
            Phase::Opening => Tick::Active { animating: is_moving(session, now) },
            Phase::Interactive => Tick::Active { animating: false },
            Phase::Canceling => if is_moving(session, now) {
                Tick::Active { animating: true }
            } else {
                Tick::Cancelled
            },
            Phase::Committing => Tick::Active { animating: true },
            Phase::CommitEndpointHeld => if session.endpoint_rendered {
                Tick::CommitReady
            } else {
                Tick::Active { animating: true }
            },
            Phase::Revealing => if is_moving(session, now) {
                Tick::Active { animating: true }
            } else {
                Tick::Finished
            },
        },
    }
}

/// The overview after a moment in which it did not end.
pub open spec fn ticked(before: Session, after: Session, now: Duration) -> bool {
    &&& after.same_scene(before)
    &&& after.hovered == before.hovered
    &&& after.focused == before.focused
    &&& after.commit == before.commit
    &&& if before.phase == Phase::Opening && !is_moving(before, now) {
        &&& after.phase == Phase::Interactive
        &&& after.settle is None
        &&& after.endpoint_rendered == before.endpoint_rendered
    } else if before.phase == Phase::Committing && !is_flying(before, now) {
        &&& after.phase == Phase::CommitEndpointHeld
        &&& after.settle == before.settle
        &&& !after.endpoint_rendered
    } else {
        &&& after.phase == before.phase
        &&& after.settle == before.settle
        &&& after.endpoint_rendered == before.endpoint_rendered
    }
}

/// What a moment leaves of the overview, shown or not.
pub open spec fn tick_leads(before: Option<Session>, after: Option<Session>, now: Duration) -> bool {
    match tick_of(before, now) {
        Tick::Cancelled => after is None,
        Tick::Finished => after is None,
        _ => match before {
            None => after is None,
            Some(before) => after is Some && ticked(before, after->0, now),
        },
    }
}

/// The tiles that are kept.
pub open spec fn kept_tiles(tiles: Seq<Tile>, kept: Seq<bool>) -> Seq<Tile>
    decreases tiles.len(),
{
    if tiles.len() == 0 {
        Seq::empty()
    } else {
        let before = kept_tiles(tiles.drop_last(), kept);
        if kept[tiles.len() - 1] {
            before.push(tiles.last())
        } else {
            before
        }
    }
}

fn retain(tiles: &Vec<Tile>, kept: &Vec<bool>) -> (r: Vec<Tile>)
    requires
        tiles@.len() == kept@.len(),
    ensures
        r@ == kept_tiles(tiles@, kept@),
{
    let mut list: Vec<Tile> = Vec::new();
    let mut index: usize = 0;
    while index < tiles.len()
        invariant
            index <= tiles@.len(),
            tiles@.len() == kept@.len(),
            list@ == kept_tiles(tiles@.take(index as int), kept@),
        decreases tiles@.len() - index,
    {
        proof {
            let longer = tiles@.take(index as int + 1);
            assert(longer.drop_last() =~= tiles@.take(index as int));
            assert(longer.last() == tiles@[index as int]);
        }
        if kept[index] {
            list.push(tiles[index]);
        }
        index += 1;
    }
    assert(tiles@.take(index as int) =~= tiles@);
    list
}

/// What follows a moment of the overview.
#[derive(Clone, Copy, Debug, PartialEq, Eq, Structural)]
pub enum ComposerStep {
    /// The selection has changed under a commit, and the user is told by the message of the
    /// tick.
    ReportChanged,
    /// The cluster is made; what comes of that is handed to `finish_commit`.
    MakeCluster,
    /// What was chosen is dropped.
    CancelCreation,
    /// The cursor's image is its own again, and what is under the pointer is looked up.
    ReleasePointer,
    Redraw,
}

/// What a moment of the overview does, and whether the next frame will differ.
#[derive(Debug)]
pub struct SessionTick {
    pub steps: Vec<ComposerStep>,
    /// What the user is told, where the commit was taken back.
    pub message: Option<ErrorMessage>,
    pub animating: bool,
}

/// What is known of the cluster that is put together.
#[derive(Clone, Copy, Debug, PartialEq, Eq, Structural)]
pub struct ComposerFacts {
    /// A cluster is still ready to be made.
    pub prepared: bool,
    /// The bits of how far the overview is open, and the share of the transition that
    /// is left from there.
    pub progress_bits: u32,
    pub closing: Duration,
}

/// The overview whose tiles were looked at, with the commit that lost its cluster taken
/// back and the empty overview closed.
pub open spec fn tick_steps(tick: Tick, changed: bool) -> Seq<ComposerStep> {
    match tick {
        Tick::Idle => steps::when(changed, seq![ComposerStep::Redraw]),
        Tick::Active { animating } => steps::when(
            changed || animating,
            seq![ComposerStep::Redraw],
        ),
        Tick::CommitReady => seq![ComposerStep::MakeCluster, ComposerStep::Redraw],
        Tick::Cancelled => seq![
            ComposerStep::CancelCreation,
            ComposerStep::ReleasePointer,
            ComposerStep::Redraw,
        ],
        Tick::Finished => seq![ComposerStep::ReleasePointer, ComposerStep::Redraw],
    }
}

pub open spec fn tick_animates(tick: Tick) -> bool {
    match tick {
        Tick::Active { animating } => animating,
        Tick::CommitReady => true,
        _ => false,
    }
}

/// Lets a moment of the overview pass. Tiles of nodes that are gone go first. A commit
/// whose cluster can no longer be made is taken back, and an overview without tiles
/// closes.
pub fn tick_session(
    composer: &mut ClusterComposerState,
    kept: &Vec<bool>,
    facts: ComposerFacts,
    now: Duration,
) -> (tick: SessionTick)
    requires
        old(composer).session is Some ==> kept@.len() == old(composer).session->0.tiles@.len(),
    ensures
        ({
            let before = old(composer).session;
            let after = final(composer).session;
            let left = kept_tiles(before->0.tiles@, kept@);
            let changed = before is Some && left.len() != before->0.tiles@.len();
            let lost = old(composer).is_committing() && !facts.prepared;
            &&& tick.message is Some == lost
            &&& lost ==> tick.message->0.tells(
                before->0.output@,
                "Cluster changed\\nReview the remaining selection"@,
            )
            &&& if before is None {
                &&& tick.steps@.len() == 0
                &&& !tick.animating
                &&& after is None
            } else if lost {
                &&& tick.steps@ == seq![ComposerStep::ReportChanged, ComposerStep::Redraw]
                &&& !tick.animating
                &&& after is Some
                &&& exists|mid: Session| #[trigger]
                    pruned(before->0, mid, kept@) && taken_back(mid, after->0)
            } else if old(composer).is_open() && left.len() == 0 {
                &&& tick.animating == (facts.closing.nanos > 0)
                &&& tick.steps@ == tick_steps(
                    if facts.closing.nanos > 0 {
                        Tick::Active { animating: true }
                    } else {
                        Tick::Cancelled
                    },
                    changed,
                )
                &&& facts.closing.nanos > 0 ==> after is Some && exists|mid: Session| #[trigger]
                    pruned(before->0, mid, kept@) && canceling(
                        mid,
                        after->0,
                        facts.progress_bits,
                        facts.closing,
                        now,
                    )
                &&& facts.closing.nanos == 0 ==> after is None
            } else {
                let outcome = tick_of(before, now);
                &&& tick.steps@ == tick_steps(outcome, changed)
                &&& tick.animating == tick_animates(outcome)
                &&& outcome is Cancelled || outcome is Finished ==> after is None
                &&& !(outcome is Cancelled || outcome is Finished) ==> after is Some
                    && exists|mid: Session| #[trigger]
                    pruned(before->0, mid, kept@) && ticked(mid, after->0, now)
            }
        }),
{
    let changed = composer.prune(kept);
    let committing = match &composer.session {
        Some(session) => session.phase == Phase::Committing || session.phase
            == Phase::CommitEndpointHeld,
        None => false,
    };
    let mut list: Vec<ComposerStep> = Vec::new();
    if committing && !facts.prepared {
        let message = match composer.target_output() {
            Some(output) => Some(
                ErrorMessage {
                    output,
                    text: "Cluster changed\\nReview the remaining selection".to_owned(),
                    duration_ms: 3_000,
                },
            ),
            None => None,
        };
        composer.abort_commit();
        list.push(ComposerStep::ReportChanged);
        list.push(ComposerStep::Redraw);
        return SessionTick { steps: list, message, animating: false };
    }
    let empty = match &composer.session {
        Some(session) => session.tiles.len() == 0,
        None => false,
    };
    if empty && composer.accepts_input() {
        composer.close(facts.progress_bits, facts.closing, now);
    }
    let outcome = composer.tick(now);
    let animating = match outcome {
        Tick::Active { animating } => animating,
        Tick::CommitReady => true,
        _ => false,
    };
    match outcome {
        Tick::Idle => {
            if changed {
                list.push(ComposerStep::Redraw);
            }
        },
        Tick::Active { animating } => {
            if changed || animating {
                list.push(ComposerStep::Redraw);
            }
        },
        Tick::CommitReady => {
            list.push(ComposerStep::MakeCluster);
            list.push(ComposerStep::Redraw);
        },
        Tick::Cancelled => {
            list.push(ComposerStep::CancelCreation);
            list.push(ComposerStep::ReleasePointer);
            list.push(ComposerStep::Redraw);
        },
        Tick::Finished => {
            list.push(ComposerStep::ReleasePointer);
            list.push(ComposerStep::Redraw);
        },
    }
    assert(list@ =~= tick_steps(outcome, changed));
    SessionTick { steps: list, message: None, animating }
}

/// Follows the attempt to make the cluster: the scene is uncovered, or the commit is
/// taken back. `true` where what was prepared is to be dropped.
pub fn finish_commit(
    composer: &mut ClusterComposerState,
    made: bool,
    transition_ms: u64,
    now: Duration,
) -> (dropped: bool)
    requires
        old(composer).session is Some,
        old(composer).session->0.phase == Phase::CommitEndpointHeld,
    ensures
        dropped == !made,
        final(composer).session is Some,
        made ==> revealing(
            old(composer).session->0,
            final(composer).session->0,
            transition_ms,
            now,
        ),
        !made ==> taken_back(old(composer).session->0, final(composer).session->0),
{
    if made {
        composer.begin_reveal(transition_ms, now);
        false
    } else {
        composer.abort_commit();
        true
    }
}

/// The nodes whose previews draw again. `shown` says for each tile whether its window is
/// there and not collapsed.
pub open spec fn preview_nodes(tiles: Seq<Tile>, shown: Seq<bool>) -> Seq<NodeId>
    decreases tiles.len(),
{
    if tiles.len() == 0 {
        Seq::empty()
    } else {
        let before = preview_nodes(tiles.drop_last(), shown);
        if shown[tiles.len() - 1] {
            before.push(tiles.last().id)
        } else {
            before
        }
    }
}

/// The nodes on an output whose previews draw again: all that are shown, on the output of
/// the overview.
pub fn send_preview_frames(composer: &ClusterComposerState, output: &str, shown: &Vec<bool>)
    -> (nodes: Vec<NodeId>)
    requires
        composer.session is Some ==> shown@.len() == composer.session->0.tiles@.len(),
    ensures
        nodes@ == (match composer.session {
            Some(session) => if session.output@ == output@ {
                preview_nodes(session.tiles@, shown@)
            } else {
                Seq::empty()
            },
            None => Seq::empty(),
        }),
{
    let mut nodes: Vec<NodeId> = Vec::new();
    let session = match &composer.session {
        Some(session) => session,
        None => {
            return nodes;
        },
    };
    if !same_text(session.output.as_str(), output) {
        return nodes;
    }
    let mut index: usize = 0;
    while index < session.tiles.len()
        invariant
            index <= session.tiles@.len(),
            shown@.len() == session.tiles@.len(),
            nodes@ == preview_nodes(session.tiles@.take(index as int), shown@),
        decreases session.tiles@.len() - index,
    {
        proof {
            let longer = session.tiles@.take(index as int + 1);
            assert(longer.drop_last() =~= session.tiles@.take(index as int));
            assert(longer.last() == session.tiles@[index as int]);
        }
        if shown[index] {
            nodes.push(session.tiles[index].id);
        }
        index += 1;
    }
    assert(session.tiles@.take(index as int) =~= session.tiles@);
    nodes
}

pub open spec fn can_be_chosen(
    attached: bool,
    record_output: Seq<char>,
    target_output: Seq<char>,
    is_member: bool,
) -> bool {
    attached && record_output == target_output && !is_member
}

/// Whether a node can be chosen: its window is there, on the same output, and in no
/// cluster. That it is collapsed does not matter.
pub fn is_candidate(attached: bool, record_output: &str, target_output: &str, is_member: bool)
    -> (r: bool)
    ensures
        r == can_be_chosen(attached, record_output@, target_output@, is_member),
{
    attached && same_text(record_output, target_output) && !is_member
}

/// A third of the transition, between one and a hundred and twenty milliseconds.
pub open spec fn reveal_nanos(base_ms: u64) -> int {
    let third = base_ms as int / 3;
    millis(
        if third < 1 {
            1
        } else if third > 120 {
            120
        } else {
            third
        },
    )
}

pub fn reveal_duration(base_ms: u64) -> (r: Duration)
    ensures
        r.nanos == reveal_nanos(base_ms),
{
    let third: u64 = base_ms / 3;
    let held: u64 = if third < 1 {
        1
    } else if third > 120 {
        120
    } else {
        third
    };
    Duration::from_millis(held)
}

/// A commit is made only once its end was held and drawn.
pub proof fn commits_wait_for_their_endpoint(session: Session, now: Duration)
    ensures
        tick_of(Some(session), now) == Tick::CommitReady ==> session.phase
            == Phase::CommitEndpointHeld && session.endpoint_rendered,
        session.phase == Phase::Committing ==> forall|after: Session| #[trigger]
            ticked(session, after, now) && after.phase == Phase::CommitEndpointHeld
                ==> !after.endpoint_rendered,
{
}

/// What happens to the overview while it commits.
pub enum CommitMove {
    Tick { now: Duration, tick: Tick },
    /// It was drawn.
    Rendered,
    Prune { kept: Seq<bool> },
}

pub open spec fn move_leads(before: Option<Session>, after: Option<Session>, step: CommitMove)
    -> bool {
    match step {
        CommitMove::Tick { now, tick } => tick == tick_of(before, now) && tick_leads(
            before,
            after,
            now,
        ),
        CommitMove::Rendered => after is Some == before is Some && (before is Some ==> rendered(
            before->0,
            after->0,
        )),
        CommitMove::Prune { kept } => after is Some == before is Some && (before is Some
            ==> pruned(before->0, after->0, kept)),
    }
}

/// The states that the overview goes through, one more than something happened to it.
pub open spec fn is_commit_run(states: Seq<Option<Session>>, moves: Seq<CommitMove>) -> bool {
    &&& states.len() == moves.len() + 1
    &&& forall|i: int|
        #![trigger moves[i]]
        0 <= i < moves.len() ==> move_leads(states[i], states[i + 1], moves[i])
}

/// A tick that finds the flight of the members over: at its end, or later.
pub open spec fn lands(step: CommitMove, begun: Duration, transition_ms: u64) -> bool {
    step matches CommitMove::Tick { now, .. } && now.nanos >= begun.nanos + millis(
        transition_ms as int,
    )
}

/// One of the first `count` moves found the flight over.
pub open spec fn landed(moves: Seq<CommitMove>, count: int, begun: Duration, transition_ms: u64)
    -> bool {
    exists|i: int| 0 <= i < count && lands(#[trigger] moves[i], begun, transition_ms)
}

/// One of the first `count` moves drew the overview after the flight was found over.
pub open spec fn endpoint_drawn(
    moves: Seq<CommitMove>,
    count: int,
    begun: Duration,
    transition_ms: u64,
) -> bool {
    exists|i: int|
        0 <= i < count && #[trigger] moves[i] is Rendered && landed(moves, i, begun, transition_ms)
}

/// After so many moves the overview waits for its endpoint, and for nothing else.
spec fn waits(
    state: Option<Session>,
    moves: Seq<CommitMove>,
    count: int,
    begun: Duration,
    transition_ms: u64,
) -> bool {
    &&& state is Some
    &&& state->0.commit is Some
    &&& state->0.commit->0.started_at == begun
    &&& state->0.commit->0.duration.nanos == millis(transition_ms as int)
    &&& state->0.phase == (if landed(moves, count, begun, transition_ms) {
        Phase::CommitEndpointHeld
    } else {
        Phase::Committing
    })
    &&& state->0.endpoint_rendered == endpoint_drawn(moves, count, begun, transition_ms)
}

proof fn lemma_waits(
    states: Seq<Option<Session>>,
    moves: Seq<CommitMove>,
    count: int,
    begun: Duration,
    transition_ms: u64,
)
    requires
        is_commit_run(states, moves),
        waits(states[0], moves, 0, begun, transition_ms),
        forall|i: int|
            0 <= i < moves.len() ==> ((#[trigger] moves[i]) matches CommitMove::Tick { now, .. }
                ==> now.nanos >= begun.nanos || transition_ms > 0),
        0 <= count <= moves.len(),
    ensures
        waits(states[count], moves, count, begun, transition_ms),
    decreases count,
{
    if count > 0 {
        let last = count - 1;
        lemma_waits(states, moves, last, begun, transition_ms);
        assert(move_leads(states[last], states[last + 1], moves[last]));
        let before = states[last]->0;
        if lands(moves[last], begun, transition_ms) {
            assert(landed(moves, count, begun, transition_ms));
        } else if landed(moves, count, begun, transition_ms) {
            let i = choose|i: int|
                0 <= i < count && lands(#[trigger] moves[i], begun, transition_ms);
            assert(landed(moves, last, begun, transition_ms));
        }
        if landed(moves, last, begun, transition_ms) {
            let i = choose|i: int|
                0 <= i < last && lands(#[trigger] moves[i], begun, transition_ms);
            assert(landed(moves, count, begun, transition_ms));
        }
        if endpoint_drawn(moves, last, begun, transition_ms) {
            let i = choose|i: int|
                0 <= i < last && #[trigger] moves[i] is Rendered && landed(
                    moves,
                    i,
                    begun,
                    transition_ms,
                );
            assert(endpoint_drawn(moves, count, begun, transition_ms));
            let k = choose|k: int| 0 <= k < i && lands(#[trigger] moves[k], begun, transition_ms);
            assert(landed(moves, last, begun, transition_ms));
        }
        if endpoint_drawn(moves, count, begun, transition_ms) && !endpoint_drawn(
            moves,
            last,
            begun,
            transition_ms,
        ) {
            let i = choose|i: int|
                0 <= i < count && #[trigger] moves[i] is Rendered && landed(
                    moves,
                    i,
                    begun,
                    transition_ms,
                );
            assert(i == last);
        }
        if moves[last] is Rendered && landed(moves, last, begun, transition_ms) {
            assert(endpoint_drawn(moves, count, begun, transition_ms));
        }
    }
}

/// Where the clock does not run backwards, or the flight takes time at all:
/// a commit that is not taken back is ready at a tick if and only if an earlier tick found
/// its flight over and the overview was drawn after that, however often it is drawn and
/// pruned. Until then every tick asks for another frame, and the overview stays.
pub proof fn whole_commits_wait_for_their_endpoint(
    before: Session,
    prepared: PreparedCreation,
    opening_bits: u32,
    transition_ms: u64,
    begun: Duration,
    states: Seq<Option<Session>>,
    moves: Seq<CommitMove>,
    index: int,
)
    requires
        is_commit_run(states, moves),
        states[0] is Some,
        committing(before, states[0]->0, prepared, opening_bits, transition_ms, begun),
        forall|i: int|
            0 <= i < moves.len() ==> ((#[trigger] moves[i]) matches CommitMove::Tick { now, .. }
                ==> now.nanos >= begun.nanos || transition_ms > 0),
        0 <= index < moves.len(),
    ensures
        states[index] is Some,
        states[index + 1] is Some,
        states[index]->0.phase == (if landed(moves, index, begun, transition_ms) {
            Phase::CommitEndpointHeld
        } else {
            Phase::Committing
        }),
        moves[index] matches CommitMove::Tick { tick, .. } ==> tick == (if endpoint_drawn(
            moves,
            index,
            begun,
            transition_ms,
        ) {
            Tick::CommitReady
        } else {
            Tick::Active { animating: true }
        }),
{
    assert(waits(states[0], moves, 0, begun, transition_ms));
    lemma_waits(states, moves, index, begun, transition_ms);
    lemma_waits(states, moves, index + 1, begun, transition_ms);
    assert(move_leads(states[index], states[index + 1], moves[index]));
    if endpoint_drawn(moves, index, begun, transition_ms) {
        let i = choose|i: int|
            0 <= i < index && #[trigger] moves[i] is Rendered && landed(
                moves,
                i,
                begun,
                transition_ms,
            );
        let k = choose|k: int| 0 <= k < i && lands(#[trigger] moves[k], begun, transition_ms);
        assert(landed(moves, index, begun, transition_ms));
    }
}

/// The overview is cancelled only once it has closed again.
pub proof fn cancelling_waits_for_its_end(session: Session, now: Duration)
    ensures
        tick_of(Some(session), now) == Tick::Cancelled ==> session.phase == Phase::Canceling
            && !is_moving(session, now),
        session.phase == Phase::Canceling && is_moving(session, now) ==> tick_of(
            Some(session),
            now,
        ) == (Tick::Active { animating: true }),
{
}

/// The focus moves as the direction says.
pub proof fn directions_are_headings(direction: Direction)
    ensures
        heading_of(direction) is Left <==> direction is Left,
        heading_of(direction) is Right <==> direction is Right,
        heading_of(direction) is Up <==> direction is Up,
        heading_of(direction) is Down <==> direction is Down,
{
}

/// Input is taken until the overview closes or commits, and how far it is open is seen of its
/// settling while it opens, closes or uncovers the scene.
pub proof fn input_ends_with_the_choice(session: Session)
    ensures
        takes_input(session.phase) <==> session.phase is Opening || session.phase is Interactive,
        session.phase is Interactive || session.phase is Committing || session.phase
            is CommitEndpointHeld ==> session.spec_progress() is Open,
        (session.phase is Opening || session.phase is Canceling || session.phase is Revealing)
            && session.settle is Some ==> session.spec_progress() == Progress::Settling(
            session.settle->0,
        ),
        session.settle is None ==> session.spec_progress() is Open,
{
}

/// The uncovering takes a third of the transition, in whole milliseconds, but no more than a
/// hundred and twenty of them and no less than one.
pub proof fn the_scene_is_uncovered_in_a_third(base_ms: u64, longer_ms: u64)
    requires
        base_ms <= longer_ms,
    ensures
        1_000_000 <= reveal_nanos(base_ms) <= reveal_nanos(longer_ms) <= 120_000_000,
        reveal_nanos(base_ms) % 1_000_000 == 0,
        3 <= base_ms <= 360 ==> 3 * reveal_nanos(base_ms) <= base_ms * 1_000_000 < 3 * reveal_nanos(
            base_ms,
        ) + 3_000_000,
        base_ms > 360 ==> reveal_nanos(base_ms) == 120_000_000,
{
}

/// Closing without a cluster takes the time that it is given, from where the overview was, and
/// drops nothing until it ends.
pub proof fn cancelling_takes_its_time(
    before: Session,
    after: Session,
    from_bits: u32,
    duration: Duration,
    start: Duration,
    now: Duration,
)
    requires
        canceling(before, after, from_bits, duration, start),
    ensures
        after.tiles == before.tiles && after.output == before.output && after.focused
            == before.focused,
        !takes_input(after.phase),
        after.spec_progress() is Settling,
        after.settle->0.from_bits == from_bits && after.settle->0.to is Closed,
        tick_of(Some(after), now) is Cancelled <==> duration.nanos == 0 || now.nanos >= start.nanos
            + duration.nanos,
        !(tick_of(Some(after), now) is Cancelled) ==> tick_of(Some(after), now) == (Tick::Active {
            animating: true,
        }),
{
}

/// Uncovering the scene takes its time, and ends the overview.
pub proof fn uncovering_takes_its_time(
    before: Session,
    after: Session,
    transition_ms: u64,
    start: Duration,
    now: Duration,
)
    requires
        revealing(before, after, transition_ms, start),
    ensures
        after.commit == before.commit && after.tiles == before.tiles && after.output
            == before.output,
        !takes_input(after.phase),
        after.spec_progress() is Settling,
        after.settle->0.from_bits == 0x3f80_0000 && after.settle->0.to is Closed,
        tick_of(Some(after), now) is Finished <==> now.nanos >= start.nanos + reveal_nanos(
            transition_ms,
        ),
        !(tick_of(Some(after), now) is Finished) ==> tick_of(Some(after), now) == (Tick::Active {
            animating: true,
        }),
{
}

/// An overview opens for as long as it settles, and is interactive from the tick that finds
/// that over; from then on a tick changes nothing.
pub proof fn opening_leads_to_input(before: Session, after: Session, later: Session, now: Duration)
    requires
        before.phase is Opening,
        before.settle is Some,
        ticked(before, after, now),
        ticked(after, later, now),
    ensures
        tick_of(Some(before), now) == (Tick::Active {
            animating: now.nanos < before.settle->0.started_at.nanos
                + before.settle->0.duration.nanos && before.settle->0.duration.nanos > 0,
        }),
        after.phase is Interactive <==> before.settle->0.duration.nanos == 0 || now.nanos
            >= before.settle->0.started_at.nanos + before.settle->0.duration.nanos,
        after.phase is Interactive ==> after.settle is None && tick_of(Some(after), now) == (
        Tick::Active { animating: false }),
        !(after.phase is Interactive) ==> after.phase is Opening && after.settle == before.settle,
        later.phase == after.phase && later.settle == after.settle,
        takes_input(after.phase),
{
}

/// A commit that is taken back leaves the overview as it was before, open for input.
pub proof fn commits_that_are_taken_back_leave_the_choice(
    before: Session,
    committed: Session,
    after: Session,
    prepared: PreparedCreation,
    opening_bits: u32,
    transition_ms: u64,
    now: Duration,
)
    requires
        committing(before, committed, prepared, opening_bits, transition_ms, now),
        taken_back(committed, after),
    ensures
        !takes_input(committed.phase),
        committed.commit is Some && committed.commit->0.prepared == prepared,
        committed.commit->0.opening_bits == opening_bits,
        is_flying(committed, now) <==> transition_ms > 0,
        committed.hovered is None,
        takes_input(after.phase),
        after.commit is None,
        after.settle is None,
        after.tiles == before.tiles && after.output == before.output && after.focused
            == before.focused,
{
}

/// The tiles that stay are those that are kept, and no others.
pub proof fn kept_tiles_stay(tiles: Seq<Tile>, kept: Seq<bool>, tile: Tile)
    requires
        kept.len() >= tiles.len(),
    ensures
        kept_tiles(tiles, kept).contains(tile) <==> exists|i: int|
            0 <= i < tiles.len() && #[trigger] tiles[i] == tile && kept[i],
        kept_tiles(tiles, kept).len() <= tiles.len(),
    decreases tiles.len(),
{
    broadcast use steps::group_steps;

    if tiles.len() > 0 {
        let rest = tiles.drop_last();
        kept_tiles_stay(rest, kept, tile);
        if kept_tiles(rest, kept).contains(tile) {
            let i = choose|i: int| 0 <= i < rest.len() && #[trigger] rest[i] == tile && kept[i];
            assert(tiles[i] == tile);
        }
        if exists|i: int| 0 <= i < tiles.len() && #[trigger] tiles[i] == tile && kept[i] {
            let i = choose|i: int| 0 <= i < tiles.len() && #[trigger] tiles[i] == tile && kept[i];
            if i < rest.len() {
                assert(rest[i] == tile);
            }
        }
    }
}

/// Where all tiles are kept nothing changes, and where none is none is left; those of two
/// parts are those of the first and then those of the second.
pub proof fn tiles_stay_in_order(tiles: Seq<Tile>, kept: Seq<bool>, count: int)
    requires
        kept.len() == tiles.len(),
        0 <= count <= tiles.len(),
    ensures
        (forall|i: int| 0 <= i < kept.len() ==> #[trigger] kept[i]) ==> kept_tiles(tiles, kept)
            == tiles,
        (forall|i: int| 0 <= i < kept.len() ==> !(#[trigger] kept[i])) ==> kept_tiles(
            tiles,
            kept,
        ).len() == 0,
        kept_tiles(tiles, kept) == kept_tiles(tiles.take(count), kept.take(count)) + kept_tiles(
            tiles.skip(count),
            kept.skip(count),
        ),
    decreases tiles.len(),
{
    lemma_kept_prefix(tiles.take(count), kept, kept.take(count));
    if count == tiles.len() {
        assert(tiles.take(count) =~= tiles);
        assert(kept_tiles(tiles.skip(count), kept.skip(count)) =~= Seq::empty());
    }
    if tiles.len() > 0 {
        let n = tiles.len() - 1;
        let rest = tiles.drop_last();
        let fewer = kept.drop_last();
        lemma_kept_prefix(rest, kept, fewer);
        if count < tiles.len() {
            tiles_stay_in_order(rest, fewer, count);
            assert(rest.take(count) =~= tiles.take(count));
            assert(fewer.take(count) =~= kept.take(count));
            assert(tiles.skip(count).drop_last() =~= rest.skip(count));
            lemma_kept_prefix(rest.skip(count), kept.skip(count), fewer.skip(count));
            assert(kept.skip(count)[n - count] == kept[n]);
            assert(tiles.skip(count).last() == tiles[n]);
            assert(kept_tiles(tiles, kept) =~= kept_tiles(tiles.take(count), kept.take(count))
                + kept_tiles(tiles.skip(count), kept.skip(count)));
        } else {
            tiles_stay_in_order(rest, fewer, n);
        }
        assert(tiles =~= rest.push(tiles[n]));
        if forall|i: int| 0 <= i < kept.len() ==> #[trigger] kept[i] {
            assert(forall|i: int| 0 <= i < fewer.len() ==> #[trigger] fewer[i] == kept[i]);
        }
        if forall|i: int| 0 <= i < kept.len() ==> !(#[trigger] kept[i]) {
            assert(forall|i: int| 0 <= i < fewer.len() ==> #[trigger] fewer[i] == kept[i]);
        }
    }
}

/// Only the marks of the tiles count.
proof fn lemma_kept_prefix(tiles: Seq<Tile>, kept: Seq<bool>, same: Seq<bool>)
    requires
        forall|i: int| 0 <= i < tiles.len() ==> #[trigger] kept[i] == same[i],
    ensures
        kept_tiles(tiles, kept) == kept_tiles(tiles, same),
    decreases tiles.len(),
{
    if tiles.len() > 0 {
        lemma_kept_prefix(tiles.drop_last(), kept, same);
        assert(kept[tiles.len() - 1] == same[tiles.len() - 1]);
    }
}

/// The previews that draw again are those of the tiles that are shown, and no others.
pub proof fn shown_windows_draw_previews(tiles: Seq<Tile>, shown: Seq<bool>, id: NodeId)
    requires
        shown.len() >= tiles.len(),
    ensures
        preview_nodes(tiles, shown).contains(id) <==> exists|i: int|
            0 <= i < tiles.len() && (#[trigger] tiles[i]).id == id && shown[i],
    decreases tiles.len(),
{
    broadcast use steps::group_steps;

    if tiles.len() > 0 {
        let rest = tiles.drop_last();
        shown_windows_draw_previews(rest, shown, id);
        if preview_nodes(rest, shown).contains(id) {
            let i = choose|i: int| 0 <= i < rest.len() && (#[trigger] rest[i]).id == id && shown[i];
            assert(tiles[i] == rest[i]);
        }
        if exists|i: int| 0 <= i < tiles.len() && (#[trigger] tiles[i]).id == id && shown[i] {
            let i = choose|i: int|
                0 <= i < tiles.len() && (#[trigger] tiles[i]).id == id && shown[i];
            if i < rest.len() {
                assert(rest[i] == tiles[i]);
            }
        }
    }
}

/// A node that loses its tile is neither hovered nor focused any more; one that keeps it stays
/// as it was, and all else of the overview too.
pub proof fn pruning_drops_only_what_is_gone(before: Session, after: Session, kept: Seq<bool>)
    requires
        pruned(before, after, kept),
    ensures
        ({
            let spots = spots_of(after.tiles@);
            &&& before.focused is Some && tiles::has_tile(spots, before.focused->0)
                ==> after.focused == before.focused
            &&& after.focused is Some && before.focused is Some ==> tiles::has_tile(
                spots,
                after.focused->0,
            )
            &&& before.focused is Some && after.tiles@.len() > 0 ==> after.focused is Some
            &&& before.focused is None ==> after.focused is None
            &&& after.hovered is Some ==> tiles::has_tile(spots, after.hovered->0)
                && after.hovered == before.hovered
            &&& before.hovered is Some && tiles::has_tile(spots, before.hovered->0)
                ==> after.hovered == before.hovered
            &&& after.phase == before.phase && after.commit == before.commit && after.settle
                == before.settle && after.output == before.output
        }),
{
    let spots = spots_of(after.tiles@);
    if before.focused is Some && !tiles::has_tile(spots, before.focused->0) {
        if after.focused is Some {
            let k = choose|k: int| #[trigger]
                tiles::is_first_read(spots, k) && spots[k].id == after.focused->0;
            assert(spots[k].id == after.focused->0);
        }
    }
}

/// The focus starts where it is on the output, if that has a tile, and else at the top left.
pub proof fn the_focus_starts_on_a_tile(
    spots: Seq<Spot>,
    on_output: Option<NodeId>,
    focused: Option<NodeId>,
    j: int,
)
    requires
        is_initial_focus(spots, on_output, focused),
        0 <= j < spots.len(),
    ensures
        focused is Some,
        tiles::has_tile(spots, focused->0),
        on_output is Some && on_output->0 == spots[j].id ==> focused == on_output,
        on_output is None ==> exists|k: int|
            0 <= k < spots.len() && (#[trigger] spots[k]).id == focused->0
                && spots[k].target.loc.y <= spots[j].target.loc.y,
{
    if on_output is Some && on_output->0 == spots[j].id {
        assert(tiles::has_tile(spots, on_output->0));
    }
    if is_first_focus(spots, focused) {
        let k = choose|k: int| #[trigger]
            tiles::is_first_read(spots, k) && spots[k].id == focused->0;
        assert(spots[k].id == focused->0);
        tiles::the_first_tile_is_at_the_top_left(spots, k, j);
    }
}

/// A cluster is made when it is ready, a choice is dropped when it was cancelled, and the
/// pointer is let go when the overview is gone. All these, and what moves, are drawn.
pub proof fn ticks_do_what_they_bring(tick: Tick, changed: bool)
    ensures
        tick_steps(tick, changed).contains(ComposerStep::MakeCluster) <==> tick is CommitReady,
        tick_steps(tick, changed).contains(ComposerStep::CancelCreation) <==> tick is Cancelled,
        tick_steps(tick, changed).contains(ComposerStep::ReleasePointer) <==> tick is Cancelled
            || tick is Finished,
        tick_steps(tick, changed).contains(ComposerStep::Redraw) <==> changed || tick is CommitReady
            || tick is Cancelled || tick is Finished || (tick is Active && tick->animating),
        !tick_steps(tick, changed).contains(ComposerStep::ReportChanged),
        tick_steps(tick, changed).len() > 0 ==> tick_steps(tick, changed).last()
            == ComposerStep::Redraw,
        tick_animates(tick) <==> tick is CommitReady || (tick is Active && tick->animating),
{
    broadcast use steps::group_steps;

}

/// A dropped choice is dropped before the pointer is let go.
pub proof fn choices_are_dropped_first(changed: bool)
    ensures
        tick_steps(Tick::Cancelled, changed)[0] == ComposerStep::CancelCreation,
        tick_steps(Tick::Cancelled, changed)[1] == ComposerStep::ReleasePointer,
        tick_steps(Tick::CommitReady, changed)[0] == ComposerStep::MakeCluster,
{
}

/// A node can be chosen exactly where its window is there, on the output, and in no cluster.
pub proof fn only_free_windows_can_be_chosen(
    record_output: Seq<char>,
    target_output: Seq<char>,
    is_member: bool,
)
    ensures
        can_be_chosen(true, target_output, target_output, false),
        !can_be_chosen(false, record_output, target_output, is_member),
        !can_be_chosen(true, record_output, target_output, true),
        record_output != target_output ==> !can_be_chosen(
            true,
            record_output,
            target_output,
            is_member,
        ),
{
}

/// Being drawn changes nothing but that the end of a commit was.
pub proof fn drawing_leaves_the_rest(before: Session, after: Session)
    requires
        rendered(before, after),
    ensures
        after.hovered == before.hovered && after.focused == before.focused,
        after.tiles == before.tiles && after.output == before.output,
        after.phase == before.phase && after.settle == before.settle && after.commit
            == before.commit,
        before.phase is CommitEndpointHeld ==> after.endpoint_rendered,
        !(before.phase is CommitEndpointHeld) ==> after.endpoint_rendered
            == before.endpoint_rendered,
{
}

/// A moment that does not end the overview leaves what is chosen, hovered and committed.
pub proof fn moments_leave_the_rest(before: Session, after: Session, now: Duration)
    requires
        ticked(before, after, now),
    ensures
        after.hovered == before.hovered && after.focused == before.focused,
        after.tiles == before.tiles && after.output == before.output,
        after.commit == before.commit,
        before.phase is Committing && before.commit is Some ==> (after.phase is CommitEndpointHeld
            <==> before.commit->0.duration.nanos == 0 || now.nanos
            >= before.commit->0.started_at.nanos + before.commit->0.duration.nanos),
        before.phase is CommitEndpointHeld ==> after.phase is CommitEndpointHeld
            && after.endpoint_rendered == before.endpoint_rendered,
        before.phase is Interactive || before.phase is Canceling || before.phase is Revealing
            ==> after.phase == before.phase && after.settle == before.settle,
{
}

/// Closing without a cluster leaves what was hovered and committed.
pub proof fn cancelling_leaves_the_rest(
    before: Session,
    after: Session,
    from_bits: u32,
    duration: Duration,
    now: Duration,
)
    requires
        canceling(before, after, from_bits, duration, now),
    ensures
        after.hovered == before.hovered,
        after.commit == before.commit,
        after.endpoint_rendered == before.endpoint_rendered,
{
}

/// Input is taken until the choice is made; from then on the overview commits until the scene
/// is uncovered.
pub proof fn overviews_commit_or_take_input(composer: ClusterComposerState)
    ensures
        composer.is_committing() <==> composer.session is Some && (composer.session->0.phase
            is Committing || composer.session->0.phase is CommitEndpointHeld),
        composer.is_open() <==> composer.session is Some && (composer.session->0.phase is Opening
            || composer.session->0.phase is Interactive),
{
}

} // verus!
