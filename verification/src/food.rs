//! The food: where it lies, whether the snake has reached it, and where it
//! goes next.

use crate::grid::SnakePiece;
use crate::snake::Snake;
use rand::Rng;
use vstd::prelude::*;

verus! {

/// The one piece of food on the grid.
pub struct Food {
    /// Its column.
    pub x: u32,
    /// Its row.
    pub y: u32,
}

impl View for Food {
    type V = SnakePiece;

    /// The cell that the food lies on.
    open spec fn view(&self) -> SnakePiece {
        SnakePiece(self.x, self.y)
    }
}

/// Cell `c` lies on the grid and no segment of `parts` lies on it.
pub open spec fn is_free(parts: Seq<SnakePiece>, cols: u32, rows: u32, c: SnakePiece) -> bool {
    c.in_grid(cols, rows) && !parts.contains(c)
}

/// The snake leaves at least one cell of the grid free.
pub open spec fn has_free_cell(parts: Seq<SnakePiece>, cols: u32, rows: u32) -> bool {
    exists|c: SnakePiece| is_free(parts, cols, rows, c)
}

/// `cells` holds exactly the free cells of the grid, each once, in the order
/// in which the grid is read row by row.
pub open spec fn lists_free_cells(
    cells: Seq<SnakePiece>,
    parts: Seq<SnakePiece>,
    cols: u32,
    rows: u32,
) -> bool {
    &&& forall|c: SnakePiece| cells.contains(c) <==> is_free(parts, cols, rows, c)
    &&& forall|i: int, j: int|
        0 <= i < j < cells.len() ==> (#[trigger] cells[i]).row_major_before(#[trigger] cells[j])
}

/// A pushed cell is contained, and nothing else is that was not before.
proof fn lemma_push_contains(cells: Seq<SnakePiece>, last: SnakePiece)
    ensures
        forall|c: SnakePiece| cells.push(last).contains(c) <==> (cells.contains(c) || c == last),
{
    let grown = cells.push(last);
    assert forall|c: SnakePiece| grown.contains(c) <==> (cells.contains(c) || c == last) by {
        if cells.contains(c) {
            let i = choose|i: int| 0 <= i < cells.len() && cells[i] == c;
            assert(grown[i] == c);
        }
        if c == last {
            assert(grown[cells.len() as int] == c);
        }
        if grown.contains(c) {
            let i = choose|i: int| 0 <= i < grown.len() && grown[i] == c;
            if i < cells.len() {
                assert(cells[i] == c);
            }
        }
    }
}

/// The free cells of the grid, read row by row.
pub fn free_cells(snake: &Snake, cols: u32, rows: u32) -> (free: Vec<SnakePiece>)
    ensures
        lists_free_cells(free@, snake@, cols, rows),
{
    let mut free: Vec<SnakePiece> = Vec::new();
    let mut y: u32 = 0;
    while y < rows
        invariant
            y <= rows,
            forall|c: SnakePiece|
                free@.contains(c) <==> (is_free(snake@, cols, rows, c) && c.1 < y),
            forall|i: int, j: int|
                0 <= i < j < free@.len() ==> (#[trigger] free@[i]).row_major_before(
                    #[trigger] free@[j],
                ),
        decreases rows - y,
    {
        let mut x: u32 = 0;
        while x < cols
            invariant
                x <= cols,
                y < rows,
                forall|c: SnakePiece|
                    free@.contains(c) <==> (is_free(snake@, cols, rows, c) && (c.1 < y || (c.1 == y
                        && c.0 < x))),
                forall|i: int, j: int|
                    0 <= i < j < free@.len() ==> (#[trigger] free@[i]).row_major_before(
                        #[trigger] free@[j],
                    ),
            decreases cols - x,
        {
            let c = SnakePiece(x, y);
            let ghost before = free@;
            if !snake.occupies(c) {
                proof {
                    assert forall|i: int| 0 <= i < free@.len() implies (#[trigger] free@[i]).row_major_before(
                        c,
                    ) by {
                        assert(free@.contains(free@[i]));
                    }
                }
                free.push(c);
            }
            proof {
                lemma_push_contains(before, c);
                assert forall|d: SnakePiece|
                    free@.contains(d) <==> (is_free(snake@, cols, rows, d) && (d.1 < y || (d.1 == y
                        && d.0 < x + 1))) by {
                    if d.1 == y && d.0 == x {
                        assert(d == c);
                    }
                    if before.contains(d) {
                        assert(d != c);
                    }
                }
            }
            x += 1;
        }
        y += 1;
    }
    free
}

/// Draws an index below `bound` from the calling thread's random number
/// generator, by `rand::thread_rng` and `rand::Rng::gen_range` with the range
/// from 0 up to, and without, `bound`. The draw is a matter of chance: all
/// that is claimed of it is that it lies in that range. `gen_range` panics on
/// an empty range, which `bound > 0` leaves out.
#[verifier::external_body]
fn random_index(bound: usize) -> (index: usize)
    requires
        bound > 0,
    ensures
        index < bound,
{
    rand::thread_rng().gen_range(0, bound)
}

impl Food {
    /// Food on column `x`, row `y`.
    pub fn new(x: u32, y: u32) -> (food: Food)
        ensures
            food@ == SnakePiece(x, y),
    {
        Food { x, y }
    }

    /// The cell that the food lies on.
    pub fn position(&self) -> (cell: SnakePiece)
        ensures
            cell == self@,
    {
        SnakePiece(self.x, self.y)
    }

    /// Whether the snake's head has reached the food.
    pub fn check_eaten(&self, snake_head: SnakePiece) -> (eaten: bool)
        ensures
            eaten == (self@ == snake_head),
    {
        self.x == snake_head.0 && self.y == snake_head.1
    }

    /// Puts the food on the cell that `draw` picks among `free`.
    pub fn place(&mut self, free: &Vec<SnakePiece>, draw: usize)
        requires
            draw < free@.len(),
        ensures
            final(self)@ == free@[draw as int],
    {
        let cell: SnakePiece = free[draw];
        self.x = cell.0;
        self.y = cell.1;
    }

    /// Moves the food to a cell drawn at random among the free cells of the
    /// grid, and reports whether there was one. On a grid that the snake
    /// fills the food stays where it is. Which free cell it is, is a matter
    /// of chance, and the contract leaves it open.
    pub fn relocate(&mut self, snake: &Snake, cols: u32, rows: u32) -> (moved: bool)
        ensures
            moved == has_free_cell(snake@, cols, rows),
            moved ==> is_free(snake@, cols, rows, final(self)@),
            !moved ==> final(self)@ == old(self)@,
    {
        let free: Vec<SnakePiece> = free_cells(snake, cols, rows);
        if free.len() == 0 {
            assert forall|c: SnakePiece| !is_free(snake@, cols, rows, c) by {
                assert(!free@.contains(c));
            }
            return false;
        }
        let draw: usize = random_index(free.len());
        self.place(&free, draw);
        assert(free@.contains(free@[draw as int]));
        true
    }
}

} // verus!
