use snake_game::food::Food;
use snake_game::game::{init, Game, GameRequiredArgs};
use snake_game::grid::{Direction, SnakePiece};
use snake_game::snake::Snake;
use std::collections::VecDeque;

fn game_on(cols: u32, rows: u32) -> Game {
    init(&GameRequiredArgs { cols, rows, square_width: 20 })
}

fn cells_of(game: &Game) -> Vec<(u32, u32)> {
    game.snake.snake_parts.iter().map(|p| (p.0, p.1)).collect()
}

fn snake_of(cells: Vec<(u32, u32)>, move_dir: Direction) -> Snake {
    let parts: Vec<SnakePiece> = cells.into_iter().map(|(x, y)| SnakePiece(x, y)).collect();
    Snake { snake_parts: VecDeque::from(parts), width: 20, move_dir }
}

#[test]
fn init_puts_the_snake_at_the_centre() {
    let g = game_on(30, 20);
    assert_eq!(g.cols, 30);
    assert_eq!(g.rows, 20);
    assert_eq!(g.square_width, 20);
    assert_eq!(cells_of(&g), vec![(15, 10)]);
    assert_eq!(g.snake.heading(), Direction::DOWN);
    assert_eq!(g.snake.width, 20);
    assert_eq!(g.food.position(), SnakePiece(1, 1));
    assert_eq!(g.score, 0);
    assert!(!g.just_eaten);
    assert!(g.alive);
}

#[test]
fn init_on_an_odd_grid() {
    let g = game_on(5, 7);
    assert_eq!(cells_of(&g), vec![(2, 3)]);
    let g = game_on(1, 1);
    assert_eq!(cells_of(&g), vec![(0, 0)]);
}

#[test]
fn eating_then_growing_then_scoring() {
    let mut g = game_on(5, 5);
    assert_eq!(cells_of(&g), vec![(2, 2)]);
    assert_eq!(g.snake.heading(), Direction::DOWN);
    g.food = Food::new(2, 4);

    assert!(g.update());
    assert_eq!(cells_of(&g), vec![(2, 3)]);
    assert!(!g.just_eaten);
    assert_eq!(g.food.position(), SnakePiece(2, 4));
    assert_eq!(g.score, 0);

    assert!(g.update());
    assert_eq!(g.snake.head(), SnakePiece(2, 4));
    assert!(g.just_eaten);
    assert_eq!(g.snake.len(), 1);
    assert_eq!(g.score, 0);
    assert_ne!(g.food.position(), SnakePiece(2, 4));
    assert!(g.food.x < 5 && g.food.y < 5);

    g.pressed(Direction::LEFT);
    assert!(g.update());
    assert_eq!(cells_of(&g), vec![(1, 4), (2, 4)]);
    assert_eq!(g.snake.len(), 2);
    assert_eq!(g.score, 1);
    assert_ne!(g.food.position(), SnakePiece(1, 4));
    assert_ne!(g.food.position(), SnakePiece(2, 4));
    assert!(!g.snake.occupies(g.food.position()));
}

#[test]
fn up_from_the_top_row_ends_the_game() {
    let mut g = game_on(3, 3);
    g.snake = Snake::new(SnakePiece(0, 0), Direction::UP, 20);
    assert!(!g.update());
    assert!(!g.alive);
    assert_eq!(g.score, 0);
    assert_eq!(cells_of(&g), vec![(0, 0)]);
}

#[test]
fn right_edge_ends_the_game_without_wrapping() {
    let mut y: u32 = 0;
    while y < 4 {
        let mut g = game_on(6, 4);
        g.snake = snake_of(vec![(5, y)], Direction::RIGHT);
        assert!(!g.update());
        assert!(!g.alive);
        assert_eq!(cells_of(&g), vec![(5, y)]);
        assert_eq!(g.score, 0);
        y += 1;
    }
}

#[test]
fn a_finished_game_stays_as_it_is() {
    let mut g = game_on(3, 3);
    g.snake = snake_of(vec![(2, 1), (1, 1)], Direction::RIGHT);
    g.just_eaten = true;
    g.score = 4;
    assert!(!g.update());
    assert!(!g.alive);
    assert_eq!(g.score, 4);
    assert!(g.just_eaten);
    g.pressed(Direction::UP);
    assert_eq!(g.snake.heading(), Direction::RIGHT);
    assert!(!g.update());
    assert!(!g.alive);
    assert_eq!(g.score, 4);
    assert_eq!(cells_of(&g), vec![(2, 1), (1, 1)]);
    assert_eq!(g.food.position(), SnakePiece(0, 0));
}

#[test]
fn self_collision_ends_the_game() {
    let mut g = game_on(5, 5);
    g.snake = snake_of(vec![(1, 1), (2, 1), (2, 2), (1, 2), (0, 2)], Direction::DOWN);
    g.food = Food::new(4, 4);
    assert!(!g.update());
    assert!(!g.alive);
    assert_eq!(g.score, 0);
    assert_eq!(g.food.position(), SnakePiece(4, 4));
}

#[test]
fn pressed_turns_a_running_game() {
    let mut g = game_on(5, 5);
    g.pressed(Direction::UP);
    assert_eq!(g.snake.heading(), Direction::DOWN);
    g.pressed(Direction::RIGHT);
    assert_eq!(g.snake.heading(), Direction::RIGHT);
    g.pressed(Direction::LEFT);
    assert_eq!(g.snake.heading(), Direction::RIGHT);
    g.pressed(Direction::DOWN);
    assert_eq!(g.snake.heading(), Direction::DOWN);
    assert_eq!(cells_of(&g), vec![(2, 2)]);
    assert_eq!(g.score, 0);
    assert!(g.alive);
}

#[test]
fn growth_follows_each_meal_by_one_tick() {
    let mut g = game_on(6, 1);
    g.snake = snake_of(vec![(0, 0)], Direction::RIGHT);
    g.food = Food::new(1, 0);
    let mut meals: u32 = 0;
    let mut tick: u32 = 0;
    while tick < 5 {
        let before = g.snake.len();
        let pending = g.just_eaten;
        let score = g.score;
        assert!(g.update());
        assert_eq!(g.snake.len(), before + if pending { 1 } else { 0 });
        assert_eq!(g.score, score + if pending { 1 } else { 0 });
        if g.just_eaten {
            meals += 1;
        }
        assert_eq!(g.score + if g.just_eaten { 1 } else { 0 }, meals);
        if g.just_eaten {
            assert!(!g.snake.occupies(g.food.position()));
            assert!(g.food.x < 6 && g.food.y == 0);
        }
        tick += 1;
    }
    assert_eq!(g.snake.head(), SnakePiece(5, 0));
    assert!(meals >= 1);
    assert!(!g.update());
    assert!(!g.alive);
}

#[test]
fn score_counts_a_meal_on_the_next_tick() {
    let mut g = game_on(4, 4);
    g.snake = snake_of(vec![(0, 0)], Direction::RIGHT);
    g.food = Food::new(1, 0);
    assert!(g.update());
    assert!(g.just_eaten);
    assert_eq!(g.score, 0);
    g.food = Food::new(3, 3);
    assert!(g.update());
    assert!(!g.just_eaten);
    assert_eq!(g.score, 1);
    assert_eq!(cells_of(&g), vec![(2, 0), (1, 0)]);
    assert!(g.update());
    assert_eq!(g.score, 1);
    assert_eq!(cells_of(&g), vec![(3, 0), (2, 0)]);
}

#[test]
fn a_filled_grid_ends_the_game() {
    let mut g = game_on(2, 1);
    g.snake = snake_of(vec![(0, 0)], Direction::RIGHT);
    g.food = Food::new(1, 0);
    g.just_eaten = true;
    g.score = 0;
    assert!(!g.update());
    assert!(!g.alive);
    assert_eq!(cells_of(&g), vec![(1, 0), (0, 0)]);
    assert_eq!(g.score, 1);
    assert!(g.just_eaten);
    assert_eq!(g.food.position(), SnakePiece(1, 0));
}

#[test]
fn food_moves_to_the_last_free_cell() {
    let mut g = game_on(2, 2);
    g.snake = snake_of(vec![(0, 0), (0, 1)], Direction::RIGHT);
    g.food = Food::new(1, 0);
    g.just_eaten = true;
    assert!(g.update());
    assert_eq!(cells_of(&g), vec![(1, 0), (0, 0), (0, 1)]);
    assert!(g.just_eaten);
    assert_eq!(g.food.position(), SnakePiece(1, 1));
    assert_eq!(g.score, 1);
}

#[test]
fn init_keeps_the_food_off_the_snake_on_small_grids() {
    let g = game_on(3, 3);
    assert_eq!(cells_of(&g), vec![(1, 1)]);
    assert_eq!(g.food.position(), SnakePiece(0, 0));
    let g = game_on(2, 2);
    assert_eq!(cells_of(&g), vec![(1, 1)]);
    assert_eq!(g.food.position(), SnakePiece(0, 0));
    let g = game_on(2, 3);
    assert_eq!(cells_of(&g), vec![(1, 1)]);
    assert_eq!(g.food.position(), SnakePiece(0, 0));
    let g = game_on(3, 2);
    assert_eq!(cells_of(&g), vec![(1, 1)]);
    assert_eq!(g.food.position(), SnakePiece(0, 0));
}

#[test]
fn init_keeps_the_food_on_a_narrow_grid() {
    let g = game_on(1, 2);
    assert_eq!(cells_of(&g), vec![(0, 1)]);
    assert_eq!(g.food.position(), SnakePiece(0, 0));
    let g = game_on(2, 1);
    assert_eq!(cells_of(&g), vec![(1, 0)]);
    assert_eq!(g.food.position(), SnakePiece(0, 0));
    let g = game_on(1, 9);
    assert_eq!(cells_of(&g), vec![(0, 4)]);
    assert_eq!(g.food.position(), SnakePiece(0, 0));
}

#[test]
fn init_puts_the_food_on_column_one_of_row_one_where_it_is_free() {
    let g = game_on(4, 2);
    assert_eq!(cells_of(&g), vec![(2, 1)]);
    assert_eq!(g.food.position(), SnakePiece(1, 1));
    let g = game_on(2, 4);
    assert_eq!(cells_of(&g), vec![(1, 2)]);
    assert_eq!(g.food.position(), SnakePiece(1, 1));
    let g = game_on(5, 5);
    assert_eq!(g.food.position(), SnakePiece(1, 1));
}

#[test]
fn init_on_a_grid_without_a_free_cell() {
    let g = game_on(1, 1);
    assert_eq!(cells_of(&g), vec![(0, 0)]);
    assert_eq!(g.food.position(), SnakePiece(1, 1));
    let g = game_on(0, 3);
    assert_eq!(g.food.position(), SnakePiece(1, 1));
}

#[test]
fn first_tick_on_the_smallest_grids() {
    let mut g = game_on(3, 3);
    assert!(g.update());
    assert_eq!(cells_of(&g), vec![(1, 2)]);
    assert!(!g.just_eaten);
    assert_eq!(g.food.position(), SnakePiece(0, 0));
    let mut g = game_on(1, 2);
    g.pressed(Direction::UP);
    assert_eq!(g.snake.heading(), Direction::DOWN);
    assert!(!g.update());
    assert!(!g.alive);
    assert_eq!(g.score, 0);
}

#[test]
fn a_finished_game_takes_a_tick_at_the_highest_score() {
    let mut g = game_on(2, 1);
    g.snake = snake_of(vec![(0, 0)], Direction::RIGHT);
    g.food = Food::new(1, 0);
    g.just_eaten = true;
    g.score = u32::MAX - 1;
    assert!(!g.update());
    assert!(!g.alive);
    assert_eq!(g.score, u32::MAX);
    assert!(g.just_eaten);
    assert!(!g.update());
    assert!(!g.alive);
    assert_eq!(g.score, u32::MAX);
    assert!(g.just_eaten);
    assert_eq!(cells_of(&g), vec![(1, 0), (0, 0)]);
    assert_eq!(g.food.position(), SnakePiece(1, 0));
}

#[test]
fn length_is_one_more_than_the_score_while_running() {
    let mut g = game_on(6, 6);
    g.food = Food::new(3, 4);
    let turns = vec![
        None,
        Some(Direction::LEFT),
        Some(Direction::RIGHT),
        None,
        Some(Direction::DOWN),
        None,
        Some(Direction::UP),
        None,
        Some(Direction::RIGHT),
        None,
    ];
    let mut meals: u32 = 0;
    for turn in turns {
        if let Some(requested) = turn {
            g.pressed(requested);
        }
        let pending = g.just_eaten;
        if !g.update() {
            break;
        }
        if pending {
            meals += 1;
        }
        assert_eq!(g.score, meals);
        assert_eq!(g.snake.len(), 1 + g.score as usize);
        assert!(!g.snake.occupies(g.food.position()));
    }
    assert!(meals >= 1);
}
