//! Walking one layer of the pyramid.
//!
//! Down-sampling a layer alternates storage work with painting. The storage
//! is not this crate's business, so the work is laid out as a list of tasks
//! that a driver carries out one by one: for each parent tile of a rectangle,
//! row by row, open the tile, give each of its four children a turn, store the
//! tile. The tile is stored whether or not any child was found.

use vstd::prelude::*;
use crate::coords::{Quadrant, TileCoord, TileId};

verus! {

/// What a driver has to do next.
#[derive(Clone, Copy, Debug, PartialEq, Eq, Structural)]
pub enum Task {
    /// Load this parent tile, or make a fresh one where none is stored.
    Open(TileId),
    /// Try to load this child tile, and let it paint its quarter of the open
    /// parent tile. A child that is not stored is skipped.
    Paint(TileId, Quadrant),
    /// Store the open parent tile under this identity.
    Store(TileId),
}

/// The steps taken for one parent tile, in order.
#[derive(Clone, Copy, Debug, PartialEq, Eq, Structural)]
pub enum Stage {
    /// The parent tile is to be opened.
    Open,
    /// The child of this quadrant is to have its turn.
    Paint(Quadrant),
    /// The parent tile is to be stored.
    Store,
}

impl Stage {
    /// Number of steps taken for one parent tile.
    pub open spec fn count() -> int {
        6
    }

    /// Position of the step among those of its tile.
    pub open spec fn rank(self) -> int {
        match self {
            Stage::Open => 0,
            Stage::Paint(quadrant) => 1 + quadrant.rank(),
            Stage::Store => 5,
        }
    }
}

/// Why a layer cannot be down-sampled.
#[derive(Clone, Copy, Debug, PartialEq, Eq, Structural)]
pub enum LayerError {
    /// Layer 0 has no finer layer to take children from.
    NoFinerLayer,
    /// The position of a child tile exceeds `u32`.
    CoordinateOverflow,
}

/// Where a walk stands: on a tile, before one of the steps taken for it.
#[derive(Clone, Copy, Debug, PartialEq, Eq, Structural)]
pub struct Position {
    /// The parent tile that is worked on.
    pub tile: TileCoord,
    /// The step that is next for this tile.
    pub stage: Stage,
}

/// The state of a walk over the parent tiles `first` to `last`, both included,
/// of layer `lod`.
#[derive(Clone, Copy, Debug, PartialEq, Eq, Structural)]
pub struct WalkState {
    /// The layer of the parent tiles.
    pub lod: u32,
    /// The top left tile of the rectangle.
    pub first: TileCoord,
    /// The bottom right tile of the rectangle.
    pub last: TileCoord,
    /// The tile and the step that are next, `None` when the walk is over.
    pub position: Option<Position>,
}

/// Whether the rectangle from `first` to `last` holds no tile.
pub open spec fn is_empty(first: TileCoord, last: TileCoord) -> bool {
    first.x > last.x || first.y > last.y
}

impl WalkState {
    /// Number of tiles in one row of the rectangle.
    pub open spec fn columns(self) -> int {
        self.last.x - self.first.x + 1
    }

    /// Number of rows of the rectangle.
    pub open spec fn rows(self) -> int {
        self.last.y - self.first.y + 1
    }

    /// A walk that is not over stands on a tile of its rectangle, and all
    /// children of the rectangle's tiles can be named.
    pub open spec fn wf(self) -> bool {
        self.position matches Some(Position { tile, .. }) ==> {
            &&& self.first.x <= tile.x <= self.last.x
            &&& self.first.y <= tile.y <= self.last.y
            &&& self.lod >= 1
            &&& 2 * self.last.x + 1 <= u32::MAX
            &&& 2 * self.last.y + 1 <= u32::MAX
        }
    }

    /// Whether every task of the walk has been handed out.
    pub open spec fn finished(self) -> bool {
        self.position is None
    }

    /// The task that is next.
    pub open spec fn task(self) -> Option<Task> {
        match self.position {
            None => None,
            Some(Position { tile, stage }) => {
                let parent = TileId { lod: self.lod, x: tile.x, y: tile.y };
                Some(
                    match stage {
                        Stage::Open => Task::Open(parent),
                        Stage::Paint(quadrant) => Task::Paint(
                            TileId {
                                lod: (self.lod - 1) as u32,
                                x: (2 * tile.x + quadrant.dx()) as u32,
                                y: (2 * tile.y + quadrant.dy()) as u32,
                            },
                            quadrant,
                        ),
                        Stage::Store => Task::Store(parent),
                    },
                )
            },
        }
    }

    /// The tile after `tile`, going through the rectangle row by row, from
    /// left to right. `None` after the last tile.
    pub open spec fn tile_after(self, tile: TileCoord) -> Option<TileCoord> {
        if tile.x < self.last.x {
            Some(TileCoord { x: (tile.x + 1) as u32, y: tile.y })
        } else if tile.y < self.last.y {
            Some(TileCoord { x: self.first.x, y: (tile.y + 1) as u32 })
        } else {
            None
        }
    }

    /// The walk after its next task was carried out.
    pub open spec fn advanced(self) -> WalkState {
        let position = match self.position {
            None => None,
            Some(Position { tile, stage: Stage::Open }) => Some(
                Position { tile, stage: Stage::Paint(Quadrant::TopLeft) },
            ),
            Some(Position { tile, stage: Stage::Paint(quadrant) }) => match quadrant.successor() {
                Some(next) => Some(Position { tile, stage: Stage::Paint(next) }),
                None => Some(Position { tile, stage: Stage::Store }),
            },
            Some(Position { tile, stage: Stage::Store }) => match self.tile_after(tile) {
                Some(next) => Some(Position { tile: next, stage: Stage::Open }),
                None => None,
            },
        };
        WalkState { position, ..self }
    }

    /// The walk after its next `count` tasks were carried out.
    pub open spec fn after(self, count: nat) -> WalkState
        decreases count,
    {
        if count == 0 {
            self
        } else {
            self.advanced().after((count - 1) as nat)
        }
    }

    /// Number of tasks that were carried out so far.
    pub open spec fn done(self) -> int {
        match self.position {
            None => self.total(),
            Some(Position { tile, stage }) => Stage::count() * ((tile.y - self.first.y) * self.columns() + (
            tile.x - self.first.x)) + stage.rank(),
        }
    }

    /// Number of tasks of the whole walk.
    pub open spec fn total(self) -> int {
        if is_empty(self.first, self.last) {
            0
        } else {
            Stage::count() * (self.rows() * self.columns())
        }
    }
}

/// A walk over the parent tiles of one layer, handing out one task after the
/// other. It always stands within its rectangle, on a tile whose children can
/// be named.
#[derive(Clone, Copy, Debug)]
pub struct LayerWalk {
    state: WalkState,
}

impl View for LayerWalk {
    type V = WalkState;

    closed spec fn view(&self) -> WalkState {
        self.state
    }
}

impl LayerWalk {
    #[verifier::type_invariant]
    spec fn inv(self) -> bool {
        self.state.wf()
    }

    /// Begins a walk over the parent tiles `first` to `last` of layer `lod`.
    ///
    /// A rectangle without tiles gives a walk that is over at once. Otherwise
    /// the layer must have a finer one below it, and the positions of the
    /// children of its tiles must fit `u32`.
    pub fn start(lod: u32, first: TileCoord, last: TileCoord) -> (result: Result<LayerWalk, LayerError>)
        ensures
            match result {
                Ok(walk) => {
                    &&& walk@.wf()
                    &&& walk@.done() == 0
                    &&& walk@ == (WalkState {
                        lod,
                        first,
                        last,
                        position: if is_empty(first, last) {
                            None
                        } else {
                            Some(Position { tile: first, stage: Stage::Open })
                        },
                    })
                    &&& is_empty(first, last) || (lod >= 1 && 2 * last.x + 1 <= u32::MAX && 2 * last.y
                        + 1 <= u32::MAX)
                },
                Err(LayerError::NoFinerLayer) => !is_empty(first, last) && lod == 0,
                Err(LayerError::CoordinateOverflow) => !is_empty(first, last) && lod >= 1 && (2
                    * last.x + 1 > u32::MAX || 2 * last.y + 1 > u32::MAX),
            },
    {
        if first.x > last.x || first.y > last.y {
            Ok(LayerWalk { state: WalkState { lod, first, last, position: None } })
        } else if lod == 0 {
            Err(LayerError::NoFinerLayer)
        } else if last.x > (u32::MAX - 1) / 2 || last.y > (u32::MAX - 1) / 2 {
            Err(LayerError::CoordinateOverflow)
        } else {
            Ok(
                LayerWalk {
                    state: WalkState {
                        lod,
                        first,
                        last,
                        position: Some(Position { tile: first, stage: Stage::Open }),
                    },
                },
            )
        }
    }

    /// The task that is next, `None` when the walk is over.
    pub fn task(&self) -> (task: Option<Task>)
        ensures
            self@.wf(),
            task == self@.task(),
            task is None <==> self@.finished(),
    {
        proof {
            use_type_invariant(self);
        }
        match self.state.position {
            None => None,
            Some(Position { tile, stage }) => {
                let parent = TileId { lod: self.state.lod, x: tile.x, y: tile.y };
                match stage {
                    Stage::Open => Some(Task::Open(parent)),
                    Stage::Paint(quadrant) => match parent.child(quadrant) {
                        Some(child) => Some(Task::Paint(child, quadrant)),
                        None => None,
                    },
                    Stage::Store => Some(Task::Store(parent)),
                }
            },
        }
    }

    /// Moves on to the task after the next one. A walk that is over stays so.
    pub fn advance(&mut self)
        ensures
            old(self)@.wf(),
            final(self)@.wf(),
            final(self)@ == old(self)@.advanced(),
    {
        proof {
            use_type_invariant(&*self);
        }
        let state = self.state;
        let position = match state.position {
            None => None,
            Some(Position { tile, stage: Stage::Open }) => Some(
                Position { tile, stage: Stage::Paint(Quadrant::TopLeft) },
            ),
            Some(Position { tile, stage: Stage::Paint(quadrant) }) => match quadrant.next() {
                Some(next) => Some(Position { tile, stage: Stage::Paint(next) }),
                None => Some(Position { tile, stage: Stage::Store }),
            },
            Some(Position { tile, stage: Stage::Store }) => if tile.x < state.last.x {
                Some(Position { tile: TileCoord { x: tile.x + 1, y: tile.y }, stage: Stage::Open })
            } else if tile.y < state.last.y {
                Some(Position { tile: TileCoord { x: state.first.x, y: tile.y + 1 }, stage: Stage::Open })
            } else {
                None
            },
        };
        self.state = WalkState { lod: state.lod, first: state.first, last: state.last, position };
    }

    /// The state of the walk: its rectangle and where it stands.
    pub fn state(&self) -> (state: WalkState)
        ensures
            state == self@,
            state.wf(),
    {
        proof {
            use_type_invariant(self);
        }
        self.state
    }
}

/// Carrying out a task is one step forward: a walk that is not over has one
/// more task behind it afterwards, and stays within its rectangle.
pub proof fn advancing_counts_one_task(walk: WalkState)
    requires
        walk.wf(),
        !walk.finished(),
    ensures
        walk.advanced().wf(),
        walk.advanced().done() == walk.done() + 1,
{
    let position = walk.position->Some_0;
    let columns = walk.columns();
    let row = position.tile.y - walk.first.y;
    assert((row + 1) * columns == row * columns + columns) by (nonlinear_arith);
    assert(walk.rows() * columns == (walk.rows() - 1) * columns + columns) by (nonlinear_arith);
}

/// A walk is over exactly when all of its tasks are behind it.
pub proof fn finished_when_all_is_done(walk: WalkState)
    requires
        walk.wf(),
    ensures
        0 <= walk.done() <= walk.total(),
        walk.finished() <==> walk.done() == walk.total(),
{
    if let Some(position) = walk.position {
        let columns = walk.columns();
        let rows = walk.rows();
        let row = position.tile.y - walk.first.y;
        assert(0 <= row * columns) by (nonlinear_arith)
            requires
                0 <= row,
                0 < columns,
        ;
        assert(row * columns + columns <= rows * columns) by (nonlinear_arith)
            requires
                0 <= row < rows,
                0 < columns,
        ;
    } else {
        if !is_empty(walk.first, walk.last) {
            assert(0 <= walk.rows() * walk.columns()) by (nonlinear_arith)
                requires
                    0 < walk.rows(),
                    0 < walk.columns(),
            ;
        }
    }
}

/// A tile that is opened is stored: its four children have their turns, top
/// left, top right, bottom left, bottom right, and then the tile is stored
/// under the identity it was opened with. No outcome of a child's turn stands
/// in the way, since none is asked for.
pub proof fn opened_tile_is_stored(walk: WalkState, tile: TileCoord)
    requires
        walk.wf(),
        walk.position == Some(Position { tile, stage: Stage::Open }),
    ensures
        walk.task() == Some(Task::Open(TileId { lod: walk.lod, x: tile.x, y: tile.y })),
        walk.after(1).position == Some(Position { tile, stage: Stage::Paint(Quadrant::TopLeft) }),
        walk.after(2).position == Some(Position { tile, stage: Stage::Paint(Quadrant::TopRight) }),
        walk.after(3).position == Some(Position { tile, stage: Stage::Paint(Quadrant::BottomLeft) }),
        walk.after(4).position == Some(Position { tile, stage: Stage::Paint(Quadrant::BottomRight) }),
        walk.after(5).position == Some(Position { tile, stage: Stage::Store }),
        walk.after(5).task() == Some(Task::Store(TileId { lod: walk.lod, x: tile.x, y: tile.y })),
{
    reveal_with_fuel(WalkState::after, 6);
}

/// Carrying out `count` tasks is `count` steps forward, as long as that many
/// tasks are left.
pub proof fn tasks_are_counted(walk: WalkState, count: nat)
    requires
        walk.wf(),
        walk.done() + count <= walk.total(),
    ensures
        walk.after(count).wf(),
        walk.after(count).done() == walk.done() + count,
        walk.after(count).lod == walk.lod,
        walk.after(count).first == walk.first,
        walk.after(count).last == walk.last,
    decreases count,
{
    if count > 0 {
        finished_when_all_is_done(walk);
        advancing_counts_one_task(walk);
        tasks_are_counted(walk.advanced(), (count - 1) as nat);
    }
}

/// The number of tasks behind a walk tells where it stands: two walks over the
/// same rectangle with as many tasks behind them stand at the same place.
pub proof fn count_tells_the_position(one: WalkState, other: WalkState)
    requires
        one.wf(),
        other.wf(),
        one.first == other.first,
        one.last == other.last,
        one.done() == other.done(),
    ensures
        one.position == other.position,
{
    finished_when_all_is_done(one);
    finished_when_all_is_done(other);
    if let Some(a) = one.position {
        let b = other.position->Some_0;
        let columns = one.columns();
        let row_a = a.tile.y - one.first.y;
        let row_b = b.tile.y - one.first.y;
        let column_a = a.tile.x - one.first.x;
        let column_b = b.tile.x - one.first.x;
        assert(a.stage.rank() == b.stage.rank() && row_a * columns + column_a == row_b * columns
            + column_b);
        assert(row_a == row_b) by (nonlinear_arith)
            requires
                row_a * columns + column_a == row_b * columns + column_b,
                0 <= column_a < columns,
                0 <= column_b < columns,
        ;
        assert(a.stage == b.stage);
        assert(a.tile == b.tile);
    }
}

/// A walk reaches every tile of its rectangle: going row by row, from left to
/// right, it opens each tile after all the tasks of the tiles before it, six
/// for each. With `opened_tile_is_stored`, every tile of the rectangle is
/// opened, painted and stored, each exactly once.
pub proof fn walk_opens_every_tile(lod: u32, first: TileCoord, last: TileCoord, tile: TileCoord)
    requires
        lod >= 1,
        2 * last.x + 1 <= u32::MAX,
        2 * last.y + 1 <= u32::MAX,
        first.x <= tile.x <= last.x,
        first.y <= tile.y <= last.y,
    ensures
        ({
            let start = WalkState {
                lod,
                first,
                last,
                position: Some(Position { tile: first, stage: Stage::Open }),
            };
            let before = (tile.y - first.y) * start.columns() + (tile.x - first.x);
            &&& before >= 0
            &&& start.after((Stage::count() * before) as nat) == WalkState {
                lod,
                first,
                last,
                position: Some(Position { tile, stage: Stage::Open }),
            }
        }),
{
    let start = WalkState { lod, first, last, position: Some(Position { tile: first, stage: Stage::Open }) };
    let target = WalkState { lod, first, last, position: Some(Position { tile, stage: Stage::Open }) };
    finished_when_all_is_done(target);
    let count = target.done() as nat;
    assert(start.done() == 0) by (nonlinear_arith)
        requires
            start.done() == 6 * (0 * start.columns() + 0) + 0,
    ;
    tasks_are_counted(start, count);
    count_tells_the_position(start.after(count), target);
}

/// A walk ends: after as many tasks as it has, and not before.
pub proof fn walk_ends_when_all_is_done(lod: u32, first: TileCoord, last: TileCoord, count: nat)
    requires
        lod >= 1,
        2 * last.x + 1 <= u32::MAX,
        2 * last.y + 1 <= u32::MAX,
        !is_empty(first, last),
    ensures
        ({
            let start = WalkState {
                lod,
                first,
                last,
                position: Some(Position { tile: first, stage: Stage::Open }),
            };
            &&& count < start.total() ==> !start.after(count).finished()
            &&& count == start.total() ==> start.after(count).finished()
        }),
{
    let start = WalkState { lod, first, last, position: Some(Position { tile: first, stage: Stage::Open }) };
    assert(start.done() == 0) by (nonlinear_arith)
        requires
            start.done() == 6 * (0 * start.columns() + 0) + 0,
    ;
    finished_when_all_is_done(start);
    if count <= start.total() {
        tasks_are_counted(start, count);
        finished_when_all_is_done(start.after(count));
    }
}

} // verus!
