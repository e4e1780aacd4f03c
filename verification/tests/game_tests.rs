use std::collections::VecDeque;

use snake::direction::Direction;
use snake::game::{BoardState, Game, GameOverState, Step};

fn make_game(
    board_size: (usize, usize),
    cells: Vec<(usize, usize)>,
    apple: (usize, usize),
    direction: Direction,
) -> Game {
    let snake: VecDeque<(usize, usize)> = cells.into_iter().collect();
    Game {
        apple_pos: apple,
        apple_old: apple,
        board_size,
        snake_old: snake.clone(),
        snake,
        direction,
    }
}

#[test]
fn new_game_initial_state() {
    let g = Game::new((20, 40));
    assert_eq!(g.board_size, (20, 40));
    assert_eq!(g.direction, Direction::Right);
    let cells: Vec<(usize, usize)> = g.snake.iter().copied().collect();
    assert_eq!(cells, vec![(0, 0), (0, 1), (0, 2), (0, 3), (0, 4)]);
    assert_eq!(g.snake_old, g.snake);
    assert!(g.apple_pos.0 < 20 && g.apple_pos.1 < 40);
    assert!(g.apple_old.0 < 20 && g.apple_old.1 < 40);
}

#[test]
fn next_pos_each_heading() {
    let cells = vec![(2, 2), (2, 3)];
    let g = make_game((5, 5), cells.clone(), (4, 4), Direction::Right);
    assert_eq!(g.next_pos(), Ok((2, 4)));
    let g = make_game((5, 5), cells.clone(), (4, 4), Direction::Down);
    assert_eq!(g.next_pos(), Ok((3, 3)));
    let g = make_game((5, 5), vec![(2, 3), (2, 2)], (4, 4), Direction::Left);
    assert_eq!(g.next_pos(), Ok((2, 1)));
    let g = make_game((5, 5), vec![(2, 3), (2, 2)], (4, 4), Direction::Up);
    assert_eq!(g.next_pos(), Ok((1, 2)));
}

#[test]
fn next_pos_up_below_zero_is_out_of_bounds() {
    let g = make_game((5, 5), vec![(1, 1), (0, 1)], (4, 4), Direction::Up);
    assert_eq!(g.next_pos(), Err(GameOverState::OutOfBounds));
}

#[test]
fn next_pos_left_below_zero_is_out_of_bounds() {
    let g = make_game((5, 5), vec![(1, 1), (1, 0)], (4, 4), Direction::Left);
    assert_eq!(g.next_pos(), Err(GameOverState::OutOfBounds));
}

#[test]
fn check_pos_past_bounds_is_out_of_bounds() {
    let g = make_game((5, 5), vec![(2, 2)], (4, 4), Direction::Right);
    assert_eq!(g.check_pos((5, 0)), Err(GameOverState::OutOfBounds));
    assert_eq!(g.check_pos((0, 5)), Err(GameOverState::OutOfBounds));
    assert_eq!(g.check_pos((7, 7)), Err(GameOverState::OutOfBounds));
}

#[test]
fn check_pos_body_cell_is_snake_bite() {
    let g = make_game((5, 5), vec![(2, 2), (2, 3)], (4, 4), Direction::Right);
    assert_eq!(g.check_pos((2, 2)), Err(GameOverState::SnakeBite));
    assert_eq!(g.check_pos((2, 3)), Err(GameOverState::SnakeBite));
}

#[test]
fn check_pos_apple_and_empty() {
    let g = make_game((5, 5), vec![(2, 2)], (4, 4), Direction::Right);
    assert_eq!(g.check_pos((4, 4)), Ok(BoardState::Apple));
    assert_eq!(g.check_pos((0, 0)), Ok(BoardState::Empty));
}

#[test]
fn advance_onto_empty_keeps_length() {
    let mut g = make_game((5, 5), vec![(2, 2), (2, 3)], (4, 4), Direction::Right);
    assert_eq!(g.advance(), Ok(()));
    let cells: Vec<(usize, usize)> = g.snake.iter().copied().collect();
    assert_eq!(cells, vec![(2, 3), (2, 4)]);
    assert_eq!(g.snake.len(), 2);
    assert_eq!(g.apple_pos, (4, 4));
}

#[test]
fn advance_onto_apple_grows() {
    let mut g = make_game((5, 5), vec![(2, 2), (2, 3)], (2, 4), Direction::Right);
    assert_eq!(g.advance(), Ok(()));
    let cells: Vec<(usize, usize)> = g.snake.iter().copied().collect();
    assert_eq!(cells, vec![(2, 2), (2, 3), (2, 4)]);
    assert_eq!(g.snake.len(), 3);
    assert!(g.apple_pos.0 < 5 && g.apple_pos.1 < 5);
}

#[test]
fn advance_onto_body_is_snake_bite() {
    let mut g = make_game(
        (5, 5),
        vec![(1, 1), (1, 2), (2, 2), (2, 1)],
        (4, 4),
        Direction::Up,
    );
    assert_eq!(g.advance(), Err(GameOverState::SnakeBite));
    assert_eq!(g.snake.len(), 4);
}

#[test]
fn advance_out_of_bounds_leaves_state() {
    let mut g = make_game((5, 5), vec![(0, 1), (0, 0)], (4, 4), Direction::Left);
    assert_eq!(g.advance(), Err(GameOverState::OutOfBounds));
    let cells: Vec<(usize, usize)> = g.snake.iter().copied().collect();
    assert_eq!(cells, vec![(0, 1), (0, 0)]);
    assert_eq!(g.apple_pos, (4, 4));
}

#[test]
fn get_step_empty_queue_keeps_heading() {
    let g = make_game((5, 5), vec![(2, 2)], (4, 4), Direction::Right);
    let turns: Vec<Direction> = Vec::new();
    assert_eq!(g.get_step(&turns), Step::Turn(Direction::Right));
}

#[test]
fn get_step_single_valid_turn() {
    let g = make_game((5, 5), vec![(2, 2)], (4, 4), Direction::Right);
    assert_eq!(g.get_step(&vec![Direction::Up]), Step::Turn(Direction::Up));
}

#[test]
fn get_step_two_valid_turns() {
    let g = make_game((5, 5), vec![(2, 2)], (4, 4), Direction::Right);
    assert_eq!(
        g.get_step(&vec![Direction::Up, Direction::Left]),
        Step::MoveAndTurn {
            step_direction: Direction::Up,
            new_direction: Direction::Left,
        }
    );
}

#[test]
fn get_step_single_invalid_turn_falls_back() {
    let g = make_game((5, 5), vec![(2, 2)], (4, 4), Direction::Up);
    assert_eq!(g.get_step(&vec![Direction::Down]), Step::Turn(Direction::Up));
}

#[test]
fn get_step_considers_last_two_only() {
    let g = make_game((5, 5), vec![(2, 2)], (4, 4), Direction::Right);
    assert_eq!(
        g.get_step(&vec![Direction::Down, Direction::Up, Direction::Left]),
        Step::MoveAndTurn {
            step_direction: Direction::Up,
            new_direction: Direction::Left,
        }
    );
}

#[test]
fn get_step_invalid_pair_falls_back() {
    let g = make_game((5, 5), vec![(2, 2)], (4, 4), Direction::Right);
    assert_eq!(
        g.get_step(&vec![Direction::Up, Direction::Down]),
        Step::Turn(Direction::Right)
    );
}

#[test]
fn update_turn_sets_heading_and_moves() {
    let mut g = make_game((5, 5), vec![(2, 2), (2, 3)], (4, 4), Direction::Right);
    assert_eq!(g.update(Step::Turn(Direction::Down)), Ok(()));
    assert_eq!(g.direction, Direction::Down);
    let cells: Vec<(usize, usize)> = g.snake.iter().copied().collect();
    assert_eq!(cells, vec![(2, 3), (3, 3)]);
}

#[test]
fn update_move_and_turn_moves_once() {
    let mut g = make_game((5, 5), vec![(2, 2), (2, 3)], (4, 4), Direction::Right);
    let step = Step::MoveAndTurn {
        step_direction: Direction::Down,
        new_direction: Direction::Left,
    };
    assert_eq!(g.update(step), Ok(()));
    assert_eq!(g.direction, Direction::Left);
    let cells: Vec<(usize, usize)> = g.snake.iter().copied().collect();
    assert_eq!(cells, vec![(2, 3), (3, 3)]);
}

#[test]
fn tick_out_of_bounds_scenario() {
    let mut g = make_game(
        (5, 5),
        vec![(0, 0), (0, 1), (0, 2), (0, 3), (0, 4)],
        (2, 2),
        Direction::Right,
    );
    let turns: Vec<Direction> = Vec::new();
    assert_eq!(g.tick(&turns), Err(GameOverState::OutOfBounds));
}

#[test]
fn tick_apple_scenario() {
    let mut g = make_game(
        (5, 5),
        vec![(0, 0), (0, 1), (0, 2), (0, 3), (0, 4)],
        (1, 4),
        Direction::Right,
    );
    assert_eq!(g.tick(&vec![Direction::Down]), Ok(()));
    assert_eq!(g.direction, Direction::Down);
    assert_eq!(g.snake.len(), 6);
    let cells: Vec<(usize, usize)> = g.snake.iter().copied().collect();
    assert_eq!(cells, vec![(0, 0), (0, 1), (0, 2), (0, 3), (0, 4), (1, 4)]);
    assert!(g.apple_pos.0 < 5 && g.apple_pos.1 < 5);
}

#[test]
fn new_apple_on_unit_board_is_origin() {
    let mut g = make_game((1, 1), vec![(0, 0)], (0, 0), Direction::Right);
    g.new_apple();
    assert_eq!(g.apple_pos, (0, 0));
}

#[test]
fn new_apple_stays_on_board() {
    let mut g = make_game((3, 7), vec![(0, 0)], (2, 6), Direction::Right);
    for _ in 0..200 {
        g.new_apple();
        assert!(g.apple_pos.0 < 3 && g.apple_pos.1 < 7);
    }
}

#[test]
fn commit_snapshot_copies_live_state() {
    let mut g = make_game((5, 5), vec![(2, 2), (2, 3)], (4, 4), Direction::Right);
    g.advance().unwrap();
    assert_ne!(g.snake_old, g.snake);
    g.commit_snapshot();
    assert_eq!(g.snake_old, g.snake);
    assert_eq!(g.apple_old, g.apple_pos);
}
