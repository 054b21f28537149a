use snake_engine::board::Block;
use snake_engine::board::Board;
use snake_engine::error::GameError;
use snake_engine::heading::Dir;
use snake_engine::input::Input;
use snake_engine::input::KeyMap;
use snake_engine::snake::Collision;
use snake_engine::snake::Snake;

const LEFT: i32 = 260;
const RIGHT: i32 = 261;
const UP: i32 = 259;
const DOWN: i32 = 258;

fn field() -> Board {
    Board { x_min: 1, y_min: 1, width: 18, height: 18 }
}

fn at(x: i32, y: i32) -> Block {
    Block { x, y }
}

fn snake_of(id: i8, dir: Dir, cells: Vec<Block>) -> Snake {
    Snake::with_body(field(), id, dir, cells).unwrap()
}

fn cells_of(snake: &Snake) -> Vec<Block> {
    let mut cells: Vec<Block> = Vec::new();
    let mut i: usize = 0;
    while i < snake.len() {
        cells.push(snake.segment(i));
        i += 1;
    }
    cells
}

fn asking(keys: &[i32]) -> Input {
    let mut input = Input::with_keys(KeyMap::with_arrows(LEFT, RIGHT, UP, DOWN));
    for key in keys {
        input.handle_ch(*key);
    }
    input
}

#[test]
fn first_player_starts_in_the_first_corner() {
    let snake = Snake::new(0);
    assert_eq!(cells_of(&snake), vec![at(0, 0)]);
    assert_eq!(snake.heading(), Dir::Right);
    assert_eq!(snake.id(), 0);
    assert!(!snake.grows());
    assert_eq!(snake.board(), Board::standard());
    assert_eq!(snake.head(), at(0, 0));
    assert_eq!(snake.len(), 1);
}

#[test]
fn second_player_starts_in_the_last_corner() {
    let snake = Snake::new(1);
    assert_eq!(cells_of(&snake), vec![at(39, 21)]);
    assert_eq!(snake.heading(), Dir::Left);
    assert_eq!(snake.id(), 1);
    assert!(!snake.grows());
    assert_eq!(snake.board(), Board::standard());
}

#[test]
fn with_body_keeps_what_it_is_given() {
    let snake = snake_of(1, Dir::Up, vec![at(5, 5), at(4, 5), at(3, 5)]);
    assert_eq!(cells_of(&snake), vec![at(5, 5), at(4, 5), at(3, 5)]);
    assert_eq!(snake.heading(), Dir::Up);
    assert_eq!(snake.id(), 1);
    assert!(!snake.grows());
    assert_eq!(snake.board(), field());
    assert_eq!(snake.head(), at(5, 5));
}

#[test]
fn with_body_refuses_a_bad_board() {
    let board = Board { x_min: 0, y_min: 0, width: 0, height: 4 };
    let made = Snake::with_body(board, 0, Dir::Right, vec![at(0, 0)]);
    assert_eq!(made.err(), Some(GameError::BadBoard));
}

#[test]
fn with_body_refuses_a_bad_slot() {
    let made = Snake::with_body(field(), 2, Dir::Right, vec![at(1, 1)]);
    assert_eq!(made.err(), Some(GameError::BadSlot));
    let made = Snake::with_body(field(), -1, Dir::Right, vec![at(1, 1)]);
    assert_eq!(made.err(), Some(GameError::BadSlot));
}

#[test]
fn with_body_refuses_no_segment() {
    let made = Snake::with_body(field(), 0, Dir::Right, Vec::new());
    assert_eq!(made.err(), Some(GameError::EmptyBody));
}

#[test]
fn with_body_refuses_a_segment_outside() {
    let made = Snake::with_body(field(), 0, Dir::Right, vec![at(1, 1), at(0, 1)]);
    assert_eq!(made.err(), Some(GameError::OutsideBoard));
    let made = Snake::with_body(field(), 0, Dir::Right, vec![at(19, 19)]);
    assert_eq!(made.err(), Some(GameError::OutsideBoard));
}

#[test]
fn with_body_names_the_first_fault() {
    let board = Board { x_min: 0, y_min: 0, width: 0, height: 4 };
    let made = Snake::with_body(board, 7, Dir::Right, Vec::new());
    assert_eq!(made.err(), Some(GameError::BadBoard));
    let made = Snake::with_body(field(), 7, Dir::Right, Vec::new());
    assert_eq!(made.err(), Some(GameError::BadSlot));
    let made = Snake::with_body(field(), 1, Dir::Right, Vec::new());
    assert_eq!(made.err(), Some(GameError::EmptyBody));
}

#[test]
fn one_segment_runs_along_a_row_and_wraps() {
    let mut snake = snake_of(0, Dir::Right, vec![at(1, 1)]);
    let other = snake_of(1, Dir::Left, vec![at(9, 9)]);
    let egg = at(3, 12);
    let mut moves: i32 = 0;
    while moves < 17 {
        snake.update_pos();
        assert_eq!(snake.check_collision(&egg, &other), Collision::Null);
        moves += 1;
    }
    assert_eq!(cells_of(&snake), vec![at(18, 1)]);
    snake.update_pos();
    assert_eq!(cells_of(&snake), vec![at(1, 1)]);
    assert_eq!(snake.check_collision(&egg, &other), Collision::Null);
}

#[test]
fn turning_back_is_refused() {
    let mut snake = snake_of(0, Dir::Right, vec![at(5, 5), at(4, 5), at(3, 5)]);
    snake.update_dir(&asking(&[LEFT]), 0);
    assert_eq!(snake.heading(), Dir::Right);
    assert_eq!(cells_of(&snake), vec![at(5, 5), at(4, 5), at(3, 5)]);
}

#[test]
fn turning_back_is_refused_for_each_heading() {
    let pairs = [
        (Dir::Right, LEFT),
        (Dir::Left, RIGHT),
        (Dir::Up, DOWN),
        (Dir::Down, UP),
    ];
    for (heading, key) in pairs {
        let mut snake = snake_of(0, heading, vec![at(5, 5)]);
        snake.update_dir(&asking(&[key]), 0);
        assert_eq!(snake.heading(), heading);
    }
}

#[test]
fn turning_aside_is_taken() {
    let cases = [
        (Dir::Right, UP, Dir::Up),
        (Dir::Right, DOWN, Dir::Down),
        (Dir::Right, RIGHT, Dir::Right),
        (Dir::Left, UP, Dir::Up),
        (Dir::Left, DOWN, Dir::Down),
        (Dir::Left, LEFT, Dir::Left),
        (Dir::Up, LEFT, Dir::Left),
        (Dir::Up, RIGHT, Dir::Right),
        (Dir::Up, UP, Dir::Up),
        (Dir::Down, LEFT, Dir::Left),
        (Dir::Down, RIGHT, Dir::Right),
        (Dir::Down, DOWN, Dir::Down),
    ];
    for (heading, key, expected) in cases {
        let mut snake = snake_of(0, heading, vec![at(5, 5)]);
        snake.update_dir(&asking(&[key]), 0);
        assert_eq!(snake.heading(), expected);
    }
}

#[test]
fn no_request_keeps_the_heading() {
    let mut snake = snake_of(0, Dir::Down, vec![at(5, 5)]);
    snake.update_dir(&asking(&[]), 0);
    assert_eq!(snake.heading(), Dir::Down);
}

#[test]
fn each_player_hears_its_own_keys() {
    let input = asking(&[UP, 's' as i32]);
    let mut first = snake_of(0, Dir::Right, vec![at(5, 5)]);
    let mut second = snake_of(1, Dir::Left, vec![at(9, 9)]);
    first.update_dir(&input, 0);
    second.update_dir(&input, 1);
    assert_eq!(first.heading(), Dir::Up);
    assert_eq!(second.heading(), Dir::Down);
}

#[test]
fn an_unknown_slot_hears_nothing() {
    let input = asking(&[UP, 's' as i32]);
    let mut snake = snake_of(0, Dir::Right, vec![at(5, 5)]);
    snake.update_dir(&input, 2);
    assert_eq!(snake.heading(), Dir::Right);
    snake.update_dir(&input, -1);
    assert_eq!(snake.heading(), Dir::Right);
}

#[test]
fn a_move_shifts_every_segment() {
    let mut snake = snake_of(0, Dir::Right, vec![at(5, 5), at(4, 5), at(3, 5)]);
    snake.update_pos();
    assert_eq!(cells_of(&snake), vec![at(6, 5), at(5, 5), at(4, 5)]);
    snake.update_dir(&asking(&[DOWN]), 0);
    snake.update_pos();
    assert_eq!(cells_of(&snake), vec![at(6, 6), at(6, 5), at(5, 5)]);
}

#[test]
fn a_move_shifts_segments_that_do_not_touch() {
    let mut snake = snake_of(0, Dir::Up, vec![at(5, 5), at(9, 2), at(14, 17)]);
    snake.update_pos();
    assert_eq!(cells_of(&snake), vec![at(5, 4), at(5, 5), at(9, 2)]);
}

#[test]
fn a_move_wraps_at_each_edge() {
    let mut snake = snake_of(0, Dir::Left, vec![at(1, 4), at(2, 4)]);
    snake.update_pos();
    assert_eq!(cells_of(&snake), vec![at(18, 4), at(1, 4)]);
    let mut snake = snake_of(0, Dir::Up, vec![at(4, 1), at(4, 2)]);
    snake.update_pos();
    assert_eq!(cells_of(&snake), vec![at(4, 18), at(4, 1)]);
    let mut snake = snake_of(0, Dir::Down, vec![at(4, 18), at(4, 17)]);
    snake.update_pos();
    assert_eq!(cells_of(&snake), vec![at(4, 1), at(4, 18)]);
    let mut snake = snake_of(0, Dir::Right, vec![at(18, 4), at(17, 4)]);
    snake.update_pos();
    assert_eq!(cells_of(&snake), vec![at(1, 4), at(18, 4)]);
}

#[test]
fn a_move_keeps_every_segment_on_the_board() {
    let board = Board { x_min: 2, y_min: 3, width: 3, height: 2 };
    let headings = [Dir::Left, Dir::Right, Dir::Up, Dir::Down];
    let mut pos: i32 = 0;
    while pos < board.area() {
        for dir in headings {
            let mut snake =
                Snake::with_body(board, 0, dir, vec![board.cell(pos), board.cell(0)]).unwrap();
            snake.mark_growth();
            snake.update_pos();
            assert_eq!(snake.len(), 3);
            for cell in cells_of(&snake) {
                assert!(board.holds(&cell));
            }
        }
        pos += 1;
    }
}

#[test]
fn growth_comes_with_the_next_move() {
    let mut snake = snake_of(0, Dir::Right, vec![at(5, 5), at(4, 5), at(3, 5)]);
    snake.update_pos();
    snake.mark_growth();
    assert!(snake.grows());
    assert_eq!(snake.len(), 3);
    assert_eq!(cells_of(&snake), vec![at(6, 5), at(5, 5), at(4, 5)]);
    snake.update_pos();
    assert!(!snake.grows());
    assert_eq!(cells_of(&snake), vec![at(7, 5), at(6, 5), at(5, 5), at(4, 5)]);
    snake.update_pos();
    assert_eq!(cells_of(&snake), vec![at(8, 5), at(7, 5), at(6, 5), at(5, 5)]);
}

#[test]
fn growth_of_one_segment() {
    let mut snake = snake_of(0, Dir::Down, vec![at(5, 5)]);
    snake.mark_growth();
    snake.update_pos();
    assert_eq!(cells_of(&snake), vec![at(5, 6), at(5, 5)]);
    assert!(!snake.grows());
}

#[test]
fn marking_twice_grows_once() {
    let mut snake = snake_of(0, Dir::Down, vec![at(5, 5)]);
    snake.mark_growth();
    snake.mark_growth();
    snake.update_pos();
    snake.update_pos();
    assert_eq!(snake.len(), 2);
}

#[test]
fn head_on_own_segment_is_a_loss() {
    let first = snake_of(
        0,
        Dir::Left,
        vec![at(4, 5), at(5, 5), at(5, 6), at(4, 6), at(4, 5)],
    );
    let second = snake_of(
        1,
        Dir::Left,
        vec![at(9, 9), at(10, 9), at(9, 9)],
    );
    let far = snake_of(1, Dir::Left, vec![at(15, 15)]);
    let far_first = snake_of(0, Dir::Left, vec![at(15, 15)]);
    let egg = at(12, 3);
    assert_eq!(first.check_collision(&egg, &far), Collision::Player1);
    assert_eq!(second.check_collision(&egg, &far_first), Collision::Player2);
}

#[test]
fn head_on_the_other_snake_is_a_loss() {
    let first = snake_of(0, Dir::Right, vec![at(9, 9), at(8, 9)]);
    let second = snake_of(1, Dir::Up, vec![at(9, 8), at(9, 9), at(9, 10)]);
    let egg = at(12, 3);
    assert_eq!(first.check_collision(&egg, &second), Collision::Player1);
    assert_eq!(second.check_collision(&egg, &first), Collision::Null);
}

#[test]
fn head_on_head_is_a_loss_for_both() {
    let first = snake_of(0, Dir::Right, vec![at(9, 9), at(8, 9)]);
    let second = snake_of(1, Dir::Left, vec![at(9, 9), at(10, 9)]);
    let egg = at(9, 9);
    assert_eq!(first.check_collision(&egg, &second), Collision::Player1);
    assert_eq!(second.check_collision(&egg, &first), Collision::Player2);
}

#[test]
fn head_on_the_egg() {
    let first = snake_of(0, Dir::Right, vec![at(9, 9), at(8, 9)]);
    let second = snake_of(1, Dir::Left, vec![at(3, 3)]);
    assert_eq!(first.check_collision(&at(9, 9), &second), Collision::Egg);
    assert_eq!(second.check_collision(&at(9, 9), &first), Collision::Null);
    assert_eq!(second.check_collision(&at(3, 3), &first), Collision::Egg);
}

#[test]
fn the_egg_under_a_segment_behind_the_head_is_not_met() {
    let first = snake_of(0, Dir::Right, vec![at(9, 9), at(8, 9)]);
    let second = snake_of(1, Dir::Left, vec![at(3, 3)]);
    assert_eq!(first.check_collision(&at(8, 9), &second), Collision::Null);
}

#[test]
fn a_loss_goes_before_the_egg() {
    let first = snake_of(
        0,
        Dir::Left,
        vec![at(4, 5), at(5, 5), at(5, 6), at(4, 6), at(4, 5)],
    );
    let second = snake_of(1, Dir::Left, vec![at(15, 15)]);
    assert_eq!(first.check_collision(&at(4, 5), &second), Collision::Player1);
    let runner = snake_of(1, Dir::Left, vec![at(5, 6)]);
    assert_eq!(runner.check_collision(&at(5, 6), &first), Collision::Player2);
}

#[test]
fn one_segment_never_bites_itself() {
    let board = Board { x_min: 0, y_min: 0, width: 3, height: 3 };
    let other = Snake::with_body(board, 1, Dir::Left, vec![at(2, 2)]).unwrap();
    let egg = at(2, 0);
    let headings = [Dir::Left, Dir::Right, Dir::Up, Dir::Down];
    for dir in headings {
        let mut snake = Snake::with_body(board, 0, dir, vec![at(0, 1)]).unwrap();
        let mut moves: i32 = 0;
        while moves < 3 {
            snake.update_pos();
            assert_eq!(snake.check_collision(&egg, &other), Collision::Null);
            moves += 1;
        }
        assert_eq!(snake.head(), at(0, 1));
    }
}

#[test]
fn covers_finds_every_segment() {
    let snake = snake_of(0, Dir::Right, vec![at(5, 5), at(4, 5), at(3, 5)]);
    assert!(snake.covers(&at(5, 5)));
    assert!(snake.covers(&at(4, 5)));
    assert!(snake.covers(&at(3, 5)));
    assert!(!snake.covers(&at(6, 5)));
    assert!(!snake.covers(&at(5, 4)));
}

#[test]
fn overlaps_finds_a_shared_cell() {
    let first = snake_of(0, Dir::Right, vec![at(5, 5), at(4, 5), at(3, 5)]);
    let apart = snake_of(1, Dir::Left, vec![at(5, 6), at(4, 6)]);
    let across = snake_of(1, Dir::Left, vec![at(3, 4), at(3, 5), at(3, 6)]);
    assert!(!first.overlaps(&apart));
    assert!(!apart.overlaps(&first));
    assert!(first.overlaps(&across));
    assert!(across.overlaps(&first));
}
