//! The snake: its segments, head first, and its heading.

use crate::grid::{Direction, SnakePiece};
use std::collections::VecDeque;
use vstd::prelude::*;

verus! {

/// The snake's body and heading.
pub struct Snake {
    /// The occupied cells, head first, tail last.
    pub snake_parts: VecDeque<SnakePiece>,
    /// Width of one cell in pixels.
    pub width: u32,
    /// The direction of the next move.
    pub move_dir: Direction,
}

impl View for Snake {
    type V = Seq<SnakePiece>;

    /// The segments, head first.
    open spec fn view(&self) -> Seq<SnakePiece> {
        self.snake_parts@
    }
}

/// No cell occurs twice in `parts`.
pub open spec fn distinct(parts: Seq<SnakePiece>) -> bool {
    forall|i: int, j: int| 0 <= i < j < parts.len() ==> parts[i] != parts[j]
}

/// The segments that stay in place during a move: all of them when the snake
/// has just eaten, all but the tail otherwise.
pub open spec fn retained(parts: Seq<SnakePiece>, just_eaten: bool) -> Seq<SnakePiece> {
    if just_eaten {
        parts
    } else {
        parts.drop_last()
    }
}

/// The move in direction `dir` leads the head out of the grid.
pub open spec fn hits_wall(parts: Seq<SnakePiece>, dir: Direction, cols: u32, rows: u32) -> bool {
    !parts[0].can_step(dir, cols, rows)
}

/// The move in direction `dir` stays on the grid and leads the head onto a
/// segment that stays in place.
pub open spec fn hits_self(
    parts: Seq<SnakePiece>,
    dir: Direction,
    just_eaten: bool,
    cols: u32,
    rows: u32,
) -> bool {
    &&& parts[0].can_step(dir, cols, rows)
    &&& retained(parts, just_eaten).contains(parts[0].stepped(dir))
}

/// The move in direction `dir` ends the game.
pub open spec fn collides(
    parts: Seq<SnakePiece>,
    dir: Direction,
    just_eaten: bool,
    cols: u32,
    rows: u32,
) -> bool {
    hits_wall(parts, dir, cols, rows) || hits_self(parts, dir, just_eaten, cols, rows)
}

/// The segments after one move in direction `dir`. A move into a wall leaves
/// them as they are; a move into the snake itself leaves those that stay in
/// place; any other move puts the new head in front of those.
pub open spec fn moved(
    parts: Seq<SnakePiece>,
    dir: Direction,
    just_eaten: bool,
    cols: u32,
    rows: u32,
) -> Seq<SnakePiece> {
    if hits_wall(parts, dir, cols, rows) {
        parts
    } else if hits_self(parts, dir, just_eaten, cols, rows) {
        retained(parts, just_eaten)
    } else {
        seq![parts[0].stepped(dir)] + retained(parts, just_eaten)
    }
}

impl Snake {
    /// The snake has a head, lies on the grid, and crosses itself nowhere.
    pub open spec fn wf(&self, cols: u32, rows: u32) -> bool {
        &&& self@.len() > 0
        &&& forall|i: int| 0 <= i < self@.len() ==> (#[trigger] self@[i]).in_grid(cols, rows)
        &&& distinct(self@)
    }

    /// A snake of one segment at `head`.
    pub fn new(head: SnakePiece, move_dir: Direction, width: u32) -> (snake: Snake)
        ensures
            snake@ == seq![head],
            snake.move_dir == move_dir,
            snake.width == width,
    {
        let mut snake_parts: VecDeque<SnakePiece> = VecDeque::new();
        snake_parts.push_front(head);
        assert(snake_parts@ =~= seq![head]);
        Snake { snake_parts, width, move_dir }
    }

    /// The cell of the head.
    pub fn head(&self) -> (head: SnakePiece)
        requires
            self@.len() > 0,
        ensures
            head == self@[0],
    {
        self.snake_parts[0]
    }

    /// The number of segments.
    pub fn len(&self) -> (n: usize)
        ensures
            n == self@.len(),
    {
        self.snake_parts.len()
    }

    /// The direction of the next move.
    pub fn heading(&self) -> (dir: Direction)
        ensures
            dir == self.move_dir,
    {
        self.move_dir
    }

    /// Whether some segment lies on `pos`.
    pub fn occupies(&self, pos: SnakePiece) -> (r: bool)
        ensures
            r == self@.contains(pos),
    {
        let n: usize = self.snake_parts.len();
        let mut i: usize = 0;
        while i < n
            invariant
                i <= n,
                n == self.snake_parts@.len(),
                forall|j: int| 0 <= j < i ==> self.snake_parts@[j] != pos,
            decreases n - i,
        {
            let p: SnakePiece = self.snake_parts[i];
            if p.0 == pos.0 && p.1 == pos.1 {
                return true;
            }
            i += 1;
        }
        false
    }

    /// Takes `requested` as the new heading, unless it is the exact opposite
    /// of the current one: such a request changes nothing.
    pub fn set_heading(&mut self, requested: Direction)
        ensures
            final(self).move_dir == old(self).move_dir.turned(requested),
            final(self)@ == old(self)@,
            final(self).width == old(self).width,
    {
        if requested != self.move_dir.opposite() {
            self.move_dir = requested;
        }
    }

    /// Moves the snake one cell along its heading and reports whether the game
    /// goes on. A snake that has just eaten keeps its tail and so grows by one
    /// segment; otherwise the tail leaves its cell before the head arrives.
    /// The move fails where the head would leave the grid, and then nothing
    /// changes; it also fails where the head would land on a segment that
    /// stays in place, and then only the tail has left.
    pub fn update(&mut self, just_eaten: bool, cols: u32, rows: u32) -> (r: bool)
        requires
            old(self)@.len() > 0,
        ensures
            r == !collides(old(self)@, old(self).move_dir, just_eaten, cols, rows),
            final(self)@ == moved(old(self)@, old(self).move_dir, just_eaten, cols, rows),
            final(self).move_dir == old(self).move_dir,
            final(self).width == old(self).width,
            r ==> final(self)@.len() == old(self)@.len() + if just_eaten { 1int } else { 0int },
            r ==> final(self)@[0] == old(self)@[0].stepped(old(self).move_dir),
            old(self).wf(cols, rows) ==> final(self).wf(cols, rows),
    {
        let head: SnakePiece = self.snake_parts[0];
        let new_front: SnakePiece = match head.step(self.move_dir, cols, rows) {
            None => {
                return false;
            },
            Some(cell) => cell,
        };
        if !just_eaten {
            self.remove_last_square();
        }
        assert(self@ =~= retained(old(self)@, just_eaten));
        proof {
            lemma_retained_keeps_wf(old(self)@, just_eaten, cols, rows);
        }
        if self.occupies(new_front) {
            return false;
        }
        self.snake_parts.push_front(new_front);
        proof {
            lemma_new_head_keeps_wf(retained(old(self)@, just_eaten), new_front, cols, rows);
        }
        true
    }

    /// Takes the tail off.
    fn remove_last_square(&mut self)
        requires
            old(self)@.len() > 0,
        ensures
            final(self)@ == old(self)@.drop_last(),
            final(self).move_dir == old(self).move_dir,
            final(self).width == old(self).width,
    {
        self.snake_parts.pop_back();
    }
}

/// The segments that stay in place lie on the grid and are distinct where all
/// the segments were.
proof fn lemma_retained_keeps_wf(
    parts: Seq<SnakePiece>,
    just_eaten: bool,
    cols: u32,
    rows: u32,
)
    requires
        parts.len() > 0,
    ensures
        (forall|i: int| 0 <= i < parts.len() ==> (#[trigger] parts[i]).in_grid(cols, rows))
            ==> forall|i: int|
            0 <= i < retained(parts, just_eaten).len() ==> (#[trigger] retained(
                parts,
                just_eaten,
            )[i]).in_grid(cols, rows),
        distinct(parts) ==> distinct(retained(parts, just_eaten)),
        forall|c: SnakePiece| retained(parts, just_eaten).contains(c) ==> parts.contains(c),
{
    let kept = retained(parts, just_eaten);
    assert forall|i: int| 0 <= i < kept.len() implies kept[i] == parts[i] by {}
    assert forall|c: SnakePiece| kept.contains(c) implies parts.contains(c) by {
        let i = choose|i: int| 0 <= i < kept.len() && kept[i] == c;
        assert(parts[i] == c);
    }
}

/// A new head on the grid that lies on none of the segments keeps them
/// distinct and on the grid.
proof fn lemma_new_head_keeps_wf(
    kept: Seq<SnakePiece>,
    new_head: SnakePiece,
    cols: u32,
    rows: u32,
)
    requires
        !kept.contains(new_head),
    ensures
        distinct(kept) ==> distinct(seq![new_head] + kept),
        (new_head.in_grid(cols, rows) && forall|i: int|
            0 <= i < kept.len() ==> (#[trigger] kept[i]).in_grid(cols, rows)) ==> forall|i: int|
            0 <= i < kept.len() + 1 ==> (#[trigger] (seq![new_head] + kept)[i]).in_grid(
                cols,
                rows,
            ),
{
    let grown = seq![new_head] + kept;
    assert forall|i: int| 1 <= i < grown.len() implies grown[i] == kept[i - 1] by {}
    assert(grown[0] == new_head);
    if distinct(kept) {
        assert forall|i: int, j: int| 0 <= i < j < grown.len() implies grown[i] != grown[j] by {
            if i == 0 {
                assert(kept.contains(kept[j - 1]));
            } else {
                assert(kept[i - 1] != kept[j - 1]);
            }
        }
    }
}

} // verus!
