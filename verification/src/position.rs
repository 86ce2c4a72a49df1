//! World coordinates, the 8-way heading octants, and the direction table
//! that maps a movement delta to the closest heading.

use vstd::prelude::*;

verus! {

/// Identity of an in-world object, unique for the lifetime of the process.
pub type ObjectId = u32;

/// A tile position on some map, with the 8-way heading octant the object
/// faces (0=S, 1=SW, 2=W, 3=NW, 4=N, 5=NE, 6=E, 7=SE).
#[derive(Clone, Copy, Debug, PartialEq, Eq, Structural)]
pub struct Position {
    pub x: i32,
    pub y: i32,
    pub map_id: i32,
    pub heading: i32,
}

/// Heading chosen for a movement delta: south-facing octants carry
/// positive `dy`, east-facing octants positive `dx`; `(0, 0)` defaults to 0.
pub open spec fn direction_of(dx: int, dy: int) -> int {
    if dx == 0 && dy > 0 {
        0
    } else if dx < 0 && dy > 0 {
        1
    } else if dx < 0 && dy == 0 {
        2
    } else if dx < 0 && dy < 0 {
        3
    } else if dx == 0 && dy < 0 {
        4
    } else if dx > 0 && dy < 0 {
        5
    } else if dx > 0 && dy == 0 {
        6
    } else if dx > 0 && dy > 0 {
        7
    } else {
        0
    }
}

/// Change in `x` for one step along `heading`.
pub open spec fn dx_of(heading: int) -> int {
    if heading == 1 || heading == 2 || heading == 3 {
        -1
    } else if heading == 5 || heading == 6 || heading == 7 {
        1
    } else {
        0
    }
}

/// Change in `y` for one step along `heading`.
pub open spec fn dy_of(heading: int) -> int {
    if heading == 0 || heading == 1 || heading == 7 {
        1
    } else if heading == 3 || heading == 4 || heading == 5 {
        -1
    } else {
        0
    }
}

/// Chebyshev distance between two positions: the number of king moves
/// between their tiles.
pub open spec fn chebyshev(ax: int, ay: int, bx: int, by: int) -> int {
    let dx = if ax >= bx {
        ax - bx
    } else {
        bx - ax
    };
    let dy = if ay >= by {
        ay - by
    } else {
        by - ay
    };
    if dx >= dy {
        dx
    } else {
        dy
    }
}

impl Position {
    pub fn new(x: i32, y: i32, map_id: i32) -> (p: Position)
        ensures
            p.x == x,
            p.y == y,
            p.map_id == map_id,
            p.heading == 0,
    {
        Position { x, y, map_id, heading: 0 }
    }

    /// Chebyshev tile distance to another position, ignoring maps.
    pub fn tile_distance(&self, other: &Position) -> (d: i64)
        ensures
            d == chebyshev(self.x as int, self.y as int, other.x as int, other.y as int),
            d >= 0,
    {
        let dx: i64 = if self.x as i64 >= other.x as i64 {
            self.x as i64 - other.x as i64
        } else {
            other.x as i64 - self.x as i64
        };
        let dy: i64 = if self.y as i64 >= other.y as i64 {
            self.y as i64 - other.y as i64
        } else {
            other.y as i64 - self.y as i64
        };
        if dx >= dy {
            dx
        } else {
            dy
        }
    }
}

/// Convert a `(dx, dy)` movement delta to the closest heading octant.
pub fn direction_from_delta(dx: i32, dy: i32) -> (h: i32)
    ensures
        h == direction_of(dx as int, dy as int),
        0 <= h < 8,
{
    if dx == 0 && dy > 0 {
        0
    } else if dx < 0 && dy > 0 {
        1
    } else if dx < 0 && dy == 0 {
        2
    } else if dx < 0 && dy < 0 {
        3
    } else if dx == 0 && dy < 0 {
        4
    } else if dx > 0 && dy < 0 {
        5
    } else if dx > 0 && dy == 0 {
        6
    } else if dx > 0 && dy > 0 {
        7
    } else {
        0
    }
}

/// One-tile step for a heading octant; headings outside 0..8 do not move.
pub fn heading_delta(heading: i32) -> (d: (i32, i32))
    ensures
        d.0 == dx_of(heading as int),
        d.1 == dy_of(heading as int),
{
    if heading == 0 {
        (0, 1)
    } else if heading == 1 {
        (-1, 1)
    } else if heading == 2 {
        (-1, 0)
    } else if heading == 3 {
        (-1, -1)
    } else if heading == 4 {
        (0, -1)
    } else if heading == 5 {
        (1, -1)
    } else if heading == 6 {
        (1, 0)
    } else if heading == 7 {
        (1, 1)
    } else {
        (0, 0)
    }
}

/// The direction table is total over the 8 non-zero unit deltas: each maps
/// to a heading in 0..8, no two deltas share a heading, and `(0, 0)` maps
/// to the fixed default 0.
pub proof fn lemma_direction_table_total()
    ensures
        forall|dx: int, dy: int|
            -1 <= dx <= 1 && -1 <= dy <= 1 && !(dx == 0 && dy == 0) ==> 0 <= #[trigger] direction_of(
                dx,
                dy,
            ) < 8,
        forall|ax: int, ay: int, bx: int, by: int|
            -1 <= ax <= 1 && -1 <= ay <= 1 && !(ax == 0 && ay == 0) && -1 <= bx <= 1 && -1 <= by
                <= 1 && !(bx == 0 && by == 0) && (ax != bx || ay != by) ==> #[trigger] direction_of(
                ax,
                ay,
            ) != #[trigger] direction_of(bx, by),
        direction_of(0, 0) == 0,
{
}

/// Each heading's one-tile step is a non-zero delta that the direction
/// table maps back to the same heading.
pub proof fn lemma_heading_delta_inverse()
    ensures
        forall|h: int|
            0 <= h < 8 ==> !(dx_of(h) == 0 && dy_of(h) == 0) && direction_of(dx_of(h), dy_of(h))
                == h,
{
}

} // verus!
