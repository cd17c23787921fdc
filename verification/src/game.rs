//! One game: the grid, the snake, the food and the score, and the rules of
//! one tick and of one request to turn.

use crate::food::{has_free_cell, is_free, Food};
use crate::grid::{Direction, SnakePiece};
use crate::snake::{collides, moved, Snake};
use vstd::prelude::*;

verus! {

/// What a new game is made from.
pub struct GameRequiredArgs {
    /// Number of columns of the grid.
    pub cols: u32,
    /// Number of rows of the grid.
    pub rows: u32,
    /// Width of one cell in pixels.
    pub square_width: u32,
}

/// The state of one game.
pub struct Game {
    /// Number of rows of the grid.
    pub rows: u32,
    /// Number of columns of the grid.
    pub cols: u32,
    pub snake: Snake,
    /// Width of one cell in pixels.
    pub square_width: u32,
    /// Number of meals counted so far.
    pub score: u32,
    /// The last tick ended with the head on the food: the next tick lets the
    /// snake grow and counts the meal.
    pub just_eaten: bool,
    pub food: Food,
    /// The game is running. Once it is over it stays over.
    pub alive: bool,
}

/// The meal that the next tick will count: 1 after a tick that ended on the
/// food, 0 otherwise.
pub open spec fn pending(game: Game) -> int {
    if game.just_eaten {
        1
    } else {
        0
    }
}

/// Grid, cell width and heading are the same in both states.
pub open spec fn same_setup(pre: Game, post: Game) -> bool {
    &&& post.cols == pre.cols
    &&& post.rows == pre.rows
    &&& post.square_width == pre.square_width
    &&& post.snake.width == pre.snake.width
    &&& post.snake.move_dir == pre.snake.move_dir
}

/// Snake, food, score and the pending meal are the same in both states.
pub open spec fn same_board(pre: Game, post: Game) -> bool {
    &&& post.snake@ == pre.snake@
    &&& post.food@ == pre.food@
    &&& post.score == pre.score
    &&& post.just_eaten == pre.just_eaten
}

/// What the tick leaves of a game whose snake has moved without a collision:
/// the pending meal is counted; the head either misses the food, which then
/// stays, or reaches it, and then the food goes to some free cell, or, on a
/// grid without one, stays and the game is over.
pub open spec fn settles(pre: Game, post: Game) -> bool {
    &&& post.score == pre.score + pending(pre)
    &&& post.just_eaten == (post.snake@[0] == pre.food@)
    &&& if !post.just_eaten {
        post.alive && post.food@ == pre.food@
    } else if has_free_cell(post.snake@, pre.cols, pre.rows) {
        post.alive && is_free(post.snake@, pre.cols, pre.rows, post.food@)
    } else {
        !post.alive && post.food@ == pre.food@
    }
}

/// One tick leads from `pre` to `post`. A game that is over stays as it is.
/// In a running game the snake moves; a collision ends the game and changes
/// nothing else; otherwise the game settles as `settles` says.
pub open spec fn tick_relates(pre: Game, post: Game) -> bool {
    &&& same_setup(pre, post)
    &&& if !pre.alive {
        !post.alive && same_board(pre, post)
    } else {
        &&& post.snake@ == moved(
            pre.snake@,
            pre.snake.move_dir,
            pre.just_eaten,
            pre.cols,
            pre.rows,
        )
        &&& if collides(pre.snake@, pre.snake.move_dir, pre.just_eaten, pre.cols, pre.rows) {
            &&& !post.alive
            &&& post.food@ == pre.food@
            &&& post.score == pre.score
            &&& post.just_eaten == pre.just_eaten
        } else {
            settles(pre, post)
        }
    }
}

/// A request for `requested` leads from `pre` to `post`: a running game
/// turns its snake unless the request is the opposite of its heading; nothing
/// else changes, and a game that is over does not change at all.
pub open spec fn turn_relates(pre: Game, requested: Direction, post: Game) -> bool {
    &&& post.cols == pre.cols
    &&& post.rows == pre.rows
    &&& post.square_width == pre.square_width
    &&& post.snake.width == pre.snake.width
    &&& post.alive == pre.alive
    &&& same_board(pre, post)
    &&& post.snake.move_dir == if pre.alive {
        pre.snake.move_dir.turned(requested)
    } else {
        pre.snake.move_dir
    }
}

/// The cell of the first food on a grid of `cols` columns and `rows` rows,
/// where the snake starts as one segment at the centre: column 1 of row 1
/// where that cell is free, else the top left cell where that one is free.
/// On a grid without a free cell no choice is right, and column 1 of row 1
/// stands for the food that cannot be placed.
pub open spec fn opening_food(cols: u32, rows: u32) -> SnakePiece {
    let start = seq![SnakePiece(cols / 2, rows / 2)];
    if is_free(start, cols, rows, SnakePiece(1, 1)) {
        SnakePiece(1, 1)
    } else if is_free(start, cols, rows, SnakePiece(0, 0)) {
        SnakePiece(0, 0)
    } else {
        SnakePiece(1, 1)
    }
}

/// On a grid of two or more cells the first food lies on the grid and off
/// the snake's first segment; where it is not on column 1 of row 1, it is on
/// the first free cell of the grid read row by row.
pub proof fn lemma_opening_food_is_free(cols: u32, rows: u32)
    requires
        cols > 0,
        rows > 0,
        cols * rows >= 2,
    ensures
        is_free(seq![SnakePiece(cols / 2, rows / 2)], cols, rows, opening_food(cols, rows)),
        opening_food(cols, rows) != SnakePiece(1, 1) ==> forall|c: SnakePiece|
            is_free(seq![SnakePiece(cols / 2, rows / 2)], cols, rows, c) ==> c == opening_food(
                cols,
                rows,
            ) || opening_food(cols, rows).row_major_before(c),
{
    let start = seq![SnakePiece(cols / 2, rows / 2)];
    assert(cols >= 2 || rows >= 2) by (nonlinear_arith)
        requires
            cols > 0,
            rows > 0,
            cols * rows >= 2,
    ;
    assert(start[0] != SnakePiece(0, 0));
    assert(!start.contains(SnakePiece(0, 0)));
}

/// A new game: the snake is one segment at the centre of the grid and heads
/// down, nothing has been scored, and the food lies where `opening_food`
/// says: on column 1 of row 1 unless the snake starts there or the grid is
/// too small to have that cell.
pub fn init(args: &GameRequiredArgs) -> (game: Game)
    ensures
        game.cols == args.cols,
        game.rows == args.rows,
        game.square_width == args.square_width,
        game.snake@ == seq![SnakePiece(args.cols / 2, args.rows / 2)],
        game.snake.move_dir == Direction::DOWN,
        game.snake.width == args.square_width,
        game.food@ == opening_food(args.cols, args.rows),
        is_free(game.snake@, args.cols, args.rows, SnakePiece(1, 1)) ==> game.food@ == SnakePiece(
            1,
            1,
        ),
        args.cols > 0 && args.rows > 0 && args.cols * args.rows >= 2 ==> is_free(
            game.snake@,
            args.cols,
            args.rows,
            game.food@,
        ),
        game.score == 0,
        !game.just_eaten,
        game.alive,
        args.cols > 0 && args.rows > 0 ==> game.wf(),
{
    let snake = Snake::new(
        SnakePiece(args.cols / 2, args.rows / 2),
        Direction::DOWN,
        args.square_width,
    );
    let food = if 1 < args.cols && 1 < args.rows && !snake.occupies(SnakePiece(1, 1)) {
        Food::new(1, 1)
    } else if 0 < args.cols && 0 < args.rows && !snake.occupies(SnakePiece(0, 0)) {
        Food::new(0, 0)
    } else {
        Food::new(1, 1)
    };
    proof {
        if args.cols > 0 && args.rows > 0 && args.cols * args.rows >= 2 {
            lemma_opening_food_is_free(args.cols, args.rows);
        }
    }
    Game {
        score: 0,
        just_eaten: false,
        rows: args.rows,
        cols: args.cols,
        food,
        square_width: args.square_width,
        snake,
        alive: true,
    }
}

impl Game {
    /// The snake has a head, lies on the grid, and crosses itself nowhere.
    pub open spec fn wf(&self) -> bool {
        self.snake.wf(self.cols, self.rows)
    }

    /// The game is running and the next move of its snake meets neither a
    /// wall nor the snake.
    pub open spec fn moves(&self) -> bool {
        self.alive && !collides(
            self.snake@,
            self.snake.move_dir,
            self.just_eaten,
            self.cols,
            self.rows,
        )
    }

    /// Advances the game by one tick and reports whether it is still running.
    ///
    /// The snake moves one cell; a collision with a wall or with itself ends
    /// the game. Otherwise the meal of the tick before, if there was one, is
    /// counted, and if the head has now reached the food, the food goes to a
    /// free cell drawn at random. Where the snake has left no cell free, the
    /// game is over. A game that is over stays as it is, whatever its state.
    pub fn update(&mut self) -> (running: bool)
        requires
            old(self).alive ==> old(self).snake@.len() > 0,
            old(self).alive && old(self).just_eaten ==> old(self).score < u32::MAX,
        ensures
            tick_relates(*old(self), *final(self)),
            running == final(self).alive,
            old(self).snake@.len() > 0 ==> final(self).snake@.len() > 0,
            old(self).wf() ==> final(self).wf(),
            old(self).moves() ==> final(self).snake@.len() == old(self).snake@.len() + pending(
                *old(self),
            ),
            old(self).moves() ==> final(self).score == old(self).score + pending(*old(self)),
            !old(self).moves() ==> final(self).score == old(self).score,
            running ==> old(self).moves(),
            running && final(self).just_eaten ==> is_free(
                final(self).snake@,
                final(self).cols,
                final(self).rows,
                final(self).food@,
            ),
            running && final(self).just_eaten ==> final(self).food@ != old(self).food@,
            running && !final(self).just_eaten ==> final(self).food@ == old(self).food@,
    {
        if !self.alive {
            return false;
        }
        if !self.snake.update(self.just_eaten, self.cols, self.rows) {
            self.alive = false;
            return false;
        }
        if self.just_eaten {
            self.score += 1;
            self.just_eaten = false;
        }
        self.just_eaten = self.food.check_eaten(self.snake.head());
        if self.just_eaten {
            if !self.food.relocate(&self.snake, self.cols, self.rows) {
                self.alive = false;
                return false;
            }
        }
        true
    }

    /// Takes a request to turn the snake. A request for the exact opposite of
    /// the current heading is ignored, and so is any request once the game is
    /// over.
    pub fn pressed(&mut self, requested: Direction)
        ensures
            turn_relates(*old(self), requested, *final(self)),
    {
        if self.alive {
            self.snake.set_heading(requested);
        }
    }
}

} // verus!
