//! Fixed layout of the intersection: screen size, road width, stop lines,
//! spawn points, and the four travel directions with their step vectors.
//!
//! Units: one pixel is two grid units; a vehicle advances `STEP` units per
//! tick, and `STEP` divides every stop-line and checkpoint offset, so all
//! positional checks are exact equalities.

use vstd::prelude::*;

verus! {

/// Full width of a road (both lanes), in grid units.
pub const ROAD_WIDTH: i32 = 120;

/// Side of one intersection cell (half a road width); also the drawn size
/// of a vehicle and the pruning margin around the screen.
pub const CELL: i32 = 60;

/// Distance a vehicle advances per tick.
pub const STEP: i32 = 10;

/// Minimum longitudinal separation between same-direction vehicles:
/// 1.75 intersection cells.
pub const MIN_GAP: i32 = 105;

/// Visible width of the world.
pub const WIDTH: i32 = 1600;

/// Visible height of the world.
pub const HEIGHT: i32 = 1200;

/// Horizontal center of the crossing.
pub const CENTER_X: i32 = 800;

/// Vertical center of the crossing.
pub const CENTER_Y: i32 = 600;

/// A queued vehicle counts toward an approach's green time while it is
/// within this distance of the center, measured along its axis of travel.
pub const QUEUE_RANGE: i32 = 400;

/// The layout constants form a consistent geometry: the road is two
/// cells wide, the center is the middle of the visible area, the minimum
/// gap covers at least one cell, and the per-tick step divides the cell
/// size and the center coordinates — so the exact stop-line and
/// checkpoint equalities are reachable from every spawn point.
pub proof fn lemma_geometry_consistent()
    ensures
        ROAD_WIDTH == 2 * CELL,
        MIN_GAP >= CELL,
        STEP > 0,
        WIDTH == 2 * CENTER_X,
        HEIGHT == 2 * CENTER_Y,
        CELL % STEP == 0,
        CENTER_X % STEP == 0,
        CENTER_Y % STEP == 0,
        QUEUE_RANGE % STEP == 0,
{
}

/// One of the four travel directions. The y axis grows downward, so
/// `Down` is the direction of vehicles entering from the top edge.
#[derive(Clone, Copy, Debug, PartialEq, Eq, Structural)]
pub enum Dir {
    Down,
    Up,
    Right,
    Left,
}

impl Dir {
    /// Horizontal component of the per-tick step vector.
    pub open spec fn spec_dx(self) -> int {
        match self {
            Dir::Down => 0,
            Dir::Up => 0,
            Dir::Right => STEP as int,
            Dir::Left => -(STEP as int),
        }
    }

    /// Vertical component of the per-tick step vector.
    pub open spec fn spec_dy(self) -> int {
        match self {
            Dir::Down => STEP as int,
            Dir::Up => -(STEP as int),
            Dir::Right => 0,
            Dir::Left => 0,
        }
    }

    pub fn dx(self) -> (r: i32)
        ensures
            r == self.spec_dx(),
    {
        match self {
            Dir::Down => 0,
            Dir::Up => 0,
            Dir::Right => STEP,
            Dir::Left => -STEP,
        }
    }

    pub fn dy(self) -> (r: i32)
        ensures
            r == self.spec_dy(),
    {
        match self {
            Dir::Down => STEP,
            Dir::Up => -STEP,
            Dir::Right => 0,
            Dir::Left => 0,
        }
    }

    /// Direction after a 90-degree left turn: (dx, dy) becomes (dy, -dx).
    pub open spec fn spec_left_turn(self) -> Dir {
        match self {
            Dir::Down => Dir::Right,
            Dir::Up => Dir::Left,
            Dir::Right => Dir::Up,
            Dir::Left => Dir::Down,
        }
    }

    /// Direction after a 90-degree right turn: (dx, dy) becomes (-dy, dx).
    pub open spec fn spec_right_turn(self) -> Dir {
        match self {
            Dir::Down => Dir::Left,
            Dir::Up => Dir::Right,
            Dir::Right => Dir::Down,
            Dir::Left => Dir::Up,
        }
    }

    #[verifier::when_used_as_spec(spec_left_turn)]
    pub fn left_turn(self) -> (r: Dir)
        ensures
            r == self.spec_left_turn(),
    {
        match self {
            Dir::Down => Dir::Right,
            Dir::Up => Dir::Left,
            Dir::Right => Dir::Up,
            Dir::Left => Dir::Down,
        }
    }

    #[verifier::when_used_as_spec(spec_right_turn)]
    pub fn right_turn(self) -> (r: Dir)
        ensures
            r == self.spec_right_turn(),
    {
        match self {
            Dir::Down => Dir::Left,
            Dir::Up => Dir::Right,
            Dir::Right => Dir::Down,
            Dir::Left => Dir::Up,
        }
    }
}

} // verus!
