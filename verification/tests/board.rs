use snake_engine::board::Block;
use snake_engine::board::Board;
use snake_engine::board::GAME_HEIGHT;
use snake_engine::board::GAME_WIDTH;
use snake_engine::board::INFO_HEIGHT;
use snake_engine::board::INFO_WIDTH;
use snake_engine::board::MAIN_HEIGHT;
use snake_engine::board::MAIN_WIDTH;
use snake_engine::heading::Dir;

fn inset_board() -> Board {
    Board { x_min: 1, y_min: 1, width: 18, height: 18 }
}

#[test]
fn layout_constants() {
    assert_eq!(MAIN_HEIGHT, 24);
    assert_eq!(MAIN_WIDTH, 70);
    assert_eq!(GAME_HEIGHT, 22);
    assert_eq!(GAME_WIDTH, 40);
    assert_eq!(INFO_HEIGHT, 22);
    assert_eq!(INFO_WIDTH, 27);
}

#[test]
fn new_block_is_the_corner() {
    assert_eq!(Block::new(), Block { x: 0, y: 0 });
}

#[test]
fn standard_board_is_forty_by_twenty_two() {
    let board = Board::standard();
    assert_eq!(board, Board { x_min: 0, y_min: 0, width: 40, height: 22 });
    assert!(board.is_valid());
    assert_eq!(board.area(), 880);
}

#[test]
fn boards_that_are_none() {
    assert!(!Board { x_min: 0, y_min: 0, width: 0, height: 5 }.is_valid());
    assert!(!Board { x_min: 0, y_min: 0, width: 5, height: 0 }.is_valid());
    assert!(!Board { x_min: -1, y_min: 0, width: 5, height: 5 }.is_valid());
    assert!(!Board { x_min: 0, y_min: -1, width: 5, height: 5 }.is_valid());
    assert!(!Board { x_min: 0, y_min: 0, width: -3, height: 5 }.is_valid());
    assert!(!Board { x_min: i32::MAX, y_min: 0, width: 1, height: 1 }.is_valid());
    assert!(!Board { x_min: 0, y_min: i32::MAX - 1, width: 1, height: 2 }.is_valid());
    assert!(!Board { x_min: 0, y_min: 0, width: 65536, height: 32768 }.is_valid());
}

#[test]
fn boards_at_the_limits() {
    assert!(Board { x_min: 0, y_min: 0, width: 1, height: 1 }.is_valid());
    assert!(Board { x_min: 0, y_min: 0, width: i32::MAX, height: 1 }.is_valid());
    assert!(Board { x_min: 0, y_min: 0, width: 1, height: i32::MAX }.is_valid());
    assert!(Board { x_min: i32::MAX - 1, y_min: 0, width: 1, height: 1 }.is_valid());
    assert!(Board { x_min: 0, y_min: 0, width: 65535, height: 32768 }.is_valid());
    assert!(Board { x_min: 0, y_min: 0, width: 46340, height: 46341 }.is_valid());
    assert!(!Board { x_min: 0, y_min: 0, width: 46341, height: 46341 }.is_valid());
}

#[test]
fn holds_tells_the_edges() {
    let board = inset_board();
    assert!(board.holds(&Block { x: 1, y: 1 }));
    assert!(board.holds(&Block { x: 18, y: 18 }));
    assert!(board.holds(&Block { x: 1, y: 18 }));
    assert!(!board.holds(&Block { x: 0, y: 1 }));
    assert!(!board.holds(&Block { x: 1, y: 0 }));
    assert!(!board.holds(&Block { x: 19, y: 1 }));
    assert!(!board.holds(&Block { x: 1, y: 19 }));
}

#[test]
fn linear_index_counts_row_by_row() {
    let standard = Board::standard();
    assert_eq!(Block { x: 0, y: 0 }.to_i32(&standard), 0);
    assert_eq!(Block { x: 39, y: 0 }.to_i32(&standard), 39);
    assert_eq!(Block { x: 0, y: 1 }.to_i32(&standard), 40);
    assert_eq!(Block { x: 7, y: 3 }.to_i32(&standard), 127);
    assert_eq!(Block { x: 39, y: 21 }.to_i32(&standard), 879);
}

#[test]
fn linear_index_takes_the_inset_off() {
    let board = inset_board();
    assert_eq!(Block { x: 1, y: 1 }.to_i32(&board), 0);
    assert_eq!(Block { x: 18, y: 1 }.to_i32(&board), 17);
    assert_eq!(Block { x: 1, y: 2 }.to_i32(&board), 18);
    assert_eq!(Block { x: 5, y: 5 }.to_i32(&board), 76);
    assert_eq!(Block { x: 18, y: 18 }.to_i32(&board), 323);
}

#[test]
fn cell_is_column_remainder_and_row_quotient() {
    let standard = Board::standard();
    assert_eq!(standard.cell(0), Block { x: 0, y: 0 });
    assert_eq!(standard.cell(127), Block { x: 7, y: 3 });
    assert_eq!(standard.cell(879), Block { x: 39, y: 21 });
    let board = inset_board();
    assert_eq!(board.cell(0), Block { x: 1, y: 1 });
    assert_eq!(board.cell(76), Block { x: 5, y: 5 });
    assert_eq!(board.cell(323), Block { x: 18, y: 18 });
}

#[test]
fn cell_and_index_undo_each_other() {
    let board = Board { x_min: 2, y_min: 3, width: 7, height: 5 };
    let mut pos: i32 = 0;
    while pos < board.area() {
        let cell = board.cell(pos);
        assert!(board.holds(&cell));
        assert_eq!(cell.to_i32(&board), pos);
        pos += 1;
    }
}

#[test]
fn step_inside_the_board() {
    let board = inset_board();
    let from = Block { x: 5, y: 5 };
    assert_eq!(board.step(from, Dir::Left), Block { x: 4, y: 5 });
    assert_eq!(board.step(from, Dir::Right), Block { x: 6, y: 5 });
    assert_eq!(board.step(from, Dir::Up), Block { x: 5, y: 4 });
    assert_eq!(board.step(from, Dir::Down), Block { x: 5, y: 6 });
}

#[test]
fn step_wraps_at_each_edge() {
    let board = inset_board();
    assert_eq!(board.step(Block { x: 1, y: 7 }, Dir::Left), Block { x: 18, y: 7 });
    assert_eq!(board.step(Block { x: 18, y: 7 }, Dir::Right), Block { x: 1, y: 7 });
    assert_eq!(board.step(Block { x: 7, y: 1 }, Dir::Up), Block { x: 7, y: 18 });
    assert_eq!(board.step(Block { x: 7, y: 18 }, Dir::Down), Block { x: 7, y: 1 });
}

#[test]
fn step_wraps_on_the_standard_board() {
    let board = Board::standard();
    assert_eq!(board.step(Block { x: 0, y: 0 }, Dir::Left), Block { x: 39, y: 0 });
    assert_eq!(board.step(Block { x: 39, y: 21 }, Dir::Right), Block { x: 0, y: 21 });
    assert_eq!(board.step(Block { x: 0, y: 0 }, Dir::Up), Block { x: 0, y: 21 });
    assert_eq!(board.step(Block { x: 39, y: 21 }, Dir::Down), Block { x: 39, y: 0 });
}

#[test]
fn step_never_leaves_the_board() {
    let board = Board { x_min: 3, y_min: 2, width: 4, height: 3 };
    let headings = [Dir::Left, Dir::Right, Dir::Up, Dir::Down];
    let mut pos: i32 = 0;
    while pos < board.area() {
        let cell = board.cell(pos);
        for dir in headings {
            assert!(board.holds(&board.step(cell, dir)));
        }
        pos += 1;
    }
}

#[test]
fn step_on_a_board_of_one_cell_stays() {
    let board = Board { x_min: 4, y_min: 9, width: 1, height: 1 };
    let only = Block { x: 4, y: 9 };
    assert_eq!(board.step(only, Dir::Left), only);
    assert_eq!(board.step(only, Dir::Right), only);
    assert_eq!(board.step(only, Dir::Up), only);
    assert_eq!(board.step(only, Dir::Down), only);
}
