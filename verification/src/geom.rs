//! Grid geometry: board constants, points, directions, and toroidal movement.

use vstd::prelude::*;

verus! {

/// Width of the board in tiles. Level layouts hard-code absolute wall
/// coordinates, so changing this requires re-authoring the levels.
pub const BOARD_WIDTH: i8 = 15;

/// Height of the board in tiles.
pub const BOARD_HEIGHT: i8 = 15;

/// A grid cell. Valid cells satisfy [`in_bounds`].
#[derive(PartialEq, Eq, Structural, Copy, Clone, Debug)]
pub struct Point {
    pub x: i8,
    pub y: i8,
}

/// One of the four cardinal movement directions.
#[derive(PartialEq, Eq, Structural, Copy, Clone, Debug)]
pub enum Dir {
    Right,
    Down,
    Left,
    Up,
}

/// A cell lies on the board.
pub open spec fn in_bounds(p: Point) -> bool {
    0 <= p.x < BOARD_WIDTH && 0 <= p.y < BOARD_HEIGHT
}

/// Horizontal component of a direction's unit vector.
pub open spec fn dir_dx(d: Dir) -> int {
    match d {
        Dir::Right => 1,
        Dir::Left => -1,
        Dir::Down => 0,
        Dir::Up => 0,
    }
}

/// Vertical component of a direction's unit vector (y grows downward).
pub open spec fn dir_dy(d: Dir) -> int {
    match d {
        Dir::Right => 0,
        Dir::Left => 0,
        Dir::Down => 1,
        Dir::Up => -1,
    }
}

/// Wraps a coordinate one step past either edge back onto `[0, limit)`.
pub open spec fn wrap_coord(v: int, limit: int) -> int {
    if v >= limit {
        0
    } else if v < 0 {
        limit - 1
    } else {
        v
    }
}

/// The cell one step from `head` in direction `d`, with toroidal wraparound
/// on each axis independently.
pub open spec fn spec_advance(head: Point, d: Dir) -> Point {
    Point {
        x: wrap_coord(head.x + dir_dx(d), BOARD_WIDTH as int) as i8,
        y: wrap_coord(head.y + dir_dy(d), BOARD_HEIGHT as int) as i8,
    }
}

/// Moves `head` one step in direction `d`, wrapping around the board edges:
/// a coordinate that reaches the board dimension wraps to 0 and one that
/// drops below 0 wraps to dimension - 1. The result is always on the board;
/// edges are only lethal where a wall tile was explicitly placed.
pub fn advance(head: Point, d: Dir) -> (r: Point)
    requires
        in_bounds(head),
    ensures
        r == spec_advance(head, d),
        in_bounds(r),
{
    let (dx, dy): (i8, i8) = match d {
        Dir::Right => (1, 0),
        Dir::Down => (0, 1),
        Dir::Left => (-1, 0),
        Dir::Up => (0, -1),
    };
    let mut nx: i8 = head.x + dx;
    let mut ny: i8 = head.y + dy;
    if nx >= BOARD_WIDTH {
        nx = 0;
    } else if nx < 0 {
        nx = BOARD_WIDTH - 1;
    }
    if ny >= BOARD_HEIGHT {
        ny = 0;
    } else if ny < 0 {
        ny = BOARD_HEIGHT - 1;
    }
    Point { x: nx, y: ny }
}

/// Linear scan for a cell in a list of cells.
pub fn contains_point(v: &Vec<Point>, p: Point) -> (r: bool)
    ensures
        r == v@.contains(p),
{
    let mut i: usize = 0;
    while i < v.len()
        invariant
            i <= v@.len(),
            forall|k: int| 0 <= k < i ==> v@[k] != p,
        decreases v@.len() - i,
    {
        if v[i] == p {
            assert(v@.contains(p));
            return true;
        }
        i = i + 1;
    }
    assert(!v@.contains(p));
    false
}

} // verus!
