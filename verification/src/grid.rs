//! Cells of the grid and the four directions of travel.

use vstd::prelude::*;

verus! {

/// One cell of the grid: its column, then its row. Column 0 is the left edge
/// and row 0 the top edge.
#[derive(Clone, Copy, Debug, PartialEq, Eq, Structural)]
pub struct SnakePiece(pub u32, pub u32);

/// A direction of travel. `UP` leads towards row 0, `LEFT` towards column 0.
#[derive(Clone, Copy, Debug, PartialEq, Eq, Structural)]
pub enum Direction {
    UP,
    DOWN,
    LEFT,
    RIGHT,
}

impl Direction {
    /// The direction that leads straight back.
    pub open spec fn opposite_spec(self) -> Direction {
        match self {
            Direction::UP => Direction::DOWN,
            Direction::DOWN => Direction::UP,
            Direction::LEFT => Direction::RIGHT,
            Direction::RIGHT => Direction::LEFT,
        }
    }

    /// Change of column made by one step in this direction.
    pub open spec fn dx(self) -> int {
        match self {
            Direction::LEFT => -1,
            Direction::RIGHT => 1,
            _ => 0,
        }
    }

    /// Change of row made by one step in this direction.
    pub open spec fn dy(self) -> int {
        match self {
            Direction::UP => -1,
            Direction::DOWN => 1,
            _ => 0,
        }
    }

    /// The heading that results when `requested` is asked for while heading
    /// `self`: the request, unless it is the exact opposite of `self`.
    pub open spec fn turned(self, requested: Direction) -> Direction {
        if requested == self.opposite_spec() {
            self
        } else {
            requested
        }
    }

    #[verifier::when_used_as_spec(opposite_spec)]
    pub fn opposite(self) -> (r: Direction)
        ensures
            r == self.opposite_spec(),
    {
        match self {
            Direction::UP => Direction::DOWN,
            Direction::DOWN => Direction::UP,
            Direction::LEFT => Direction::RIGHT,
            Direction::RIGHT => Direction::LEFT,
        }
    }
}

impl SnakePiece {
    /// The cell lies on a grid of `cols` columns and `rows` rows.
    pub open spec fn in_grid(self, cols: u32, rows: u32) -> bool {
        self.0 < cols && self.1 < rows
    }

    /// One step in direction `dir` leads from this cell to a cell of the grid.
    pub open spec fn can_step(self, dir: Direction, cols: u32, rows: u32) -> bool {
        0 <= self.0 + dir.dx() < cols && 0 <= self.1 + dir.dy() < rows
    }

    /// The neighbour of this cell in direction `dir`.
    pub open spec fn stepped(self, dir: Direction) -> SnakePiece
        recommends
            0 <= self.0 + dir.dx() <= u32::MAX,
            0 <= self.1 + dir.dy() <= u32::MAX,
    {
        SnakePiece((self.0 + dir.dx()) as u32, (self.1 + dir.dy()) as u32)
    }

    /// This cell comes before `other` when the grid is read row by row, each
    /// row from left to right.
    pub open spec fn row_major_before(self, other: SnakePiece) -> bool {
        self.1 < other.1 || (self.1 == other.1 && self.0 < other.0)
    }

    /// The neighbour in direction `dir`, or `None` where that step leaves the
    /// grid. Nothing wraps around an edge.
    pub fn step(self, dir: Direction, cols: u32, rows: u32) -> (r: Option<SnakePiece>)
        ensures
            r == if self.can_step(dir, cols, rows) {
                Some(self.stepped(dir))
            } else {
                None::<SnakePiece>
            },
    {
        match dir {
            Direction::UP => {
                if self.0 < cols && 0 < self.1 && self.1 <= rows {
                    Some(SnakePiece(self.0, self.1 - 1))
                } else {
                    None
                }
            },
            Direction::DOWN => {
                if self.0 < cols && rows > 0 && self.1 < rows - 1 {
                    Some(SnakePiece(self.0, self.1 + 1))
                } else {
                    None
                }
            },
            Direction::LEFT => {
                if self.1 < rows && 0 < self.0 && self.0 <= cols {
                    Some(SnakePiece(self.0 - 1, self.1))
                } else {
                    None
                }
            },
            Direction::RIGHT => {
                if self.1 < rows && cols > 0 && self.0 < cols - 1 {
                    Some(SnakePiece(self.0 + 1, self.1))
                } else {
                    None
                }
            },
        }
    }

    /// The top left corner, in pixels, of the square that shows this cell
    /// when every cell is `width` pixels wide.
    pub fn corner(self, width: u32) -> (r: (u64, u64))
        ensures
            r.0 == self.0 * width,
            r.1 == self.1 * width,
    {
        let x: u64 = self.0 as u64;
        let y: u64 = self.1 as u64;
        let w: u64 = width as u64;
        assert(x * w <= 0xFFFF_FFFF * 0xFFFF_FFFF) by (nonlinear_arith)
            requires
                x <= 0xFFFF_FFFF,
                w <= 0xFFFF_FFFF,
        ;
        assert(y * w <= 0xFFFF_FFFF * 0xFFFF_FFFF) by (nonlinear_arith)
            requires
                y <= 0xFFFF_FFFF,
                w <= 0xFFFF_FFFF,
        ;
        (x * w, y * w)
    }
}

} // verus!
