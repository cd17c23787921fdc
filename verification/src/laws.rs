//! Laws of the game, proved from the rules of a tick and of a turn.

use crate::game::{pending, tick_relates, turn_relates, Game};
use crate::grid::{Direction, SnakePiece};
use crate::snake::retained;
use vstd::prelude::*;

verus! {

/// For a cell of the grid, the step that leaves the grid is the step up from
/// row 0, left from column 0, down from the last row or right from the last
/// column.
pub proof fn lemma_only_edges_block(head: SnakePiece, dir: Direction, cols: u32, rows: u32)
    requires
        head.in_grid(cols, rows),
    ensures
        !head.can_step(dir, cols, rows) <==> {
            ||| dir == Direction::UP && head.1 == 0
            ||| dir == Direction::LEFT && head.0 == 0
            ||| dir == Direction::DOWN && head.1 == rows - 1
            ||| dir == Direction::RIGHT && head.0 == cols - 1
        },
{
}

/// A running game whose snake heads right with its head in the last column
/// is over after the next tick: the snake stays where it is, its head wraps
/// to no other column, and the score stays.
pub proof fn lemma_right_edge_ends_game(pre: Game, post: Game)
    requires
        pre.alive,
        pre.snake@.len() > 0,
        pre.snake@[0].0 == pre.cols - 1,
        pre.snake.move_dir == Direction::RIGHT,
        tick_relates(pre, post),
    ensures
        !post.alive,
        post.snake@ == pre.snake@,
        post.score == pre.score,
{
}

/// Whatever is requested, the heading after the request is not the opposite
/// of the heading before it.
pub proof fn lemma_turn_never_reverses(heading: Direction, requested: Direction)
    ensures
        heading.turned(requested) != heading.opposite_spec(),
        requested != heading.opposite_spec() ==> heading.turned(requested) == requested,
{
}

/// A snake of two or more segments whose head has come from its second
/// segment along its heading does not step back onto that segment, whatever
/// turn is requested before the next move.
pub proof fn lemma_no_step_onto_second_segment(
    parts: Seq<SnakePiece>,
    heading: Direction,
    requested: Direction,
    cols: u32,
    rows: u32,
)
    requires
        parts.len() >= 2,
        parts[1].can_step(heading, cols, rows),
        parts[0] == parts[1].stepped(heading),
    ensures
        parts[0].can_step(heading.turned(requested), cols, rows) ==> parts[0].stepped(
            heading.turned(requested),
        ) != parts[1],
{
}

/// After a tick that moved the snake, and one request to turn, the next move
/// does not lead the head back onto the second segment: one request cannot
/// make a snake collide with itself by reversing. Two requests between two
/// ticks can, since each is held against the heading that the one before
/// left.
pub proof fn lemma_no_reversal_after_tick(
    before: Game,
    after: Game,
    requested: Direction,
    turned: Game,
)
    requires
        before.snake@.len() > 0,
        before.moves(),
        tick_relates(before, after),
        after.snake@.len() >= 2,
        turn_relates(after, requested, turned),
    ensures
        turned.snake@[0].can_step(turned.snake.move_dir, turned.cols, turned.rows)
            ==> turned.snake@[0].stepped(turned.snake.move_dir) != turned.snake@[1],
{
    let kept = retained(before.snake@, before.just_eaten);
    assert(after.snake@[1] == kept[0]);
    assert(kept[0] == before.snake@[0]);
    lemma_no_step_onto_second_segment(
        after.snake@,
        before.snake.move_dir,
        requested,
        before.cols,
        before.rows,
    );
}

/// Food that lies off the snake before a tick lies off the snake after it,
/// as long as the game runs: the food is under no segment at any time.
pub proof fn lemma_food_stays_off_snake(pre: Game, post: Game)
    requires
        pre.snake@.len() > 0,
        !pre.snake@.contains(pre.food@),
        tick_relates(pre, post),
        post.alive,
    ensures
        !post.snake@.contains(post.food@),
{
    if !post.just_eaten {
        let kept = retained(pre.snake@, pre.just_eaten);
        if post.snake@.contains(post.food@) {
            let i = choose|i: int| 0 <= i < post.snake@.len() && post.snake@[i] == post.food@;
            assert(i > 0);
            assert(kept[i - 1] == post.food@);
            assert(pre.snake@[i - 1] == post.food@);
        }
    }
}

/// One step of play leads from `pre` to `post`: a tick where `request` is
/// `None`, a request to turn otherwise.
pub open spec fn step_relates(pre: Game, request: Option<Direction>, post: Game) -> bool {
    match request {
        None => tick_relates(pre, post),
        Some(requested) => turn_relates(pre, requested, post),
    }
}

/// The step from `pre` to `post` was a tick that ended with the head on the
/// food: the snake moved without a collision, and a meal is pending.
pub open spec fn ate(pre: Game, request: Option<Direction>, post: Game) -> bool {
    request == None::<Direction> && pre.moves() && post.just_eaten
}

/// `trace` is a play with the steps `requests`: each state but the first
/// comes from the one before it by the step of the same index.
pub open spec fn is_play(trace: Seq<Game>, requests: Seq<Option<Direction>>) -> bool {
    &&& trace.len() == requests.len() + 1
    &&& forall|i: int|
        0 <= i < requests.len() ==> step_relates(#[trigger] trace[i], requests[i], trace[i + 1])
}

/// The number of ticks among the first `n` steps of the play that ended with
/// the head on the food.
pub open spec fn meals(trace: Seq<Game>, requests: Seq<Option<Direction>>, n: int) -> int
    decreases n,
{
    if n <= 0 {
        0
    } else {
        meals(trace, requests, n - 1) + if ate(trace[n - 1], requests[n - 1], trace[n]) {
            1int
        } else {
            0int
        }
    }
}

/// What the game has scored after `n` steps, ticks and requests to turn in
/// any order, together with the meal that is still pending, is what it had at
/// the start plus the number of ticks among them that ended on the food.
/// After a tick that moved the snake, the score alone is that number for the
/// steps before that tick: each meal is counted exactly one tick late.
pub proof fn lemma_score_counts_meals(
    trace: Seq<Game>,
    requests: Seq<Option<Direction>>,
    n: int,
)
    requires
        is_play(trace, requests),
        0 <= n < trace.len(),
    ensures
        trace[n].score + pending(trace[n]) == trace[0].score + pending(trace[0]) + meals(
            trace,
            requests,
            n,
        ),
        n > 0 && requests[n - 1] == None::<Direction> && (trace[n - 1].moves()
            || !trace[n].just_eaten) ==> trace[n].score == trace[0].score + pending(trace[0])
            + meals(trace, requests, n - 1),
    decreases n,
{
    if n > 0 {
        lemma_score_counts_meals(trace, requests, n - 1);
        assert(step_relates(trace[n - 1], requests[n - 1], trace[n - 1 + 1]));
    }
}

/// While the game runs, the snake has grown by what has been scored: after
/// any steps, ticks and requests to turn in any order, the snake is longer
/// than at the start by the rise of the score, and all states up to there
/// are running. A game that starts with one segment and no score has a snake
/// of one segment more than its score.
pub proof fn lemma_length_follows_score(
    trace: Seq<Game>,
    requests: Seq<Option<Direction>>,
    n: int,
)
    requires
        is_play(trace, requests),
        0 <= n < trace.len(),
        trace[0].snake@.len() > 0,
        trace[n].alive,
    ensures
        trace[n].snake@.len() > 0,
        trace[n].snake@.len() - trace[0].snake@.len() == trace[n].score - trace[0].score,
        forall|i: int| 0 <= i <= n ==> (#[trigger] trace[i]).alive,
    decreases n,
{
    if n > 0 {
        let pre = trace[n - 1];
        let post = trace[n];
        assert(step_relates(pre, requests[n - 1], trace[n - 1 + 1]));
        lemma_length_follows_score(trace, requests, n - 1);
        if requests[n - 1] == None::<Direction> {
            let kept = retained(pre.snake@, pre.just_eaten);
            assert(kept.len() == pre.snake@.len() - 1 + pending(pre));
            assert(post.snake@.len() == kept.len() + 1);
        }
    }
}

} // verus!
