use tetris::Block;
use tetris::BlockColor;
use tetris::Board;
use tetris::Tetromino;
use tetris::TetrominoShape;

fn offsets(t: &Tetromino) -> Vec<(i32, i32)> {
    let mut v = Vec::new();
    let mut i = 0;
    while i < 4 {
        let c = t.block(i);
        v.push((c.0, c.1));
        i += 1;
    }
    v
}

#[test]
fn block_new_keeps_color() {
    let b = Block::new(BlockColor::Red);
    assert_eq!(b.color, BlockColor::Red);
}

#[test]
fn spawn_piece_anchor_and_cells() {
    let t = Tetromino::new(TetrominoShape::I);
    assert_eq!(t.anchor_x(), 4);
    assert_eq!(t.anchor_y(), 0);
    assert_eq!(offsets(&t), vec![(-1, -1), (0, -1), (1, -1), (2, -1)]);
    let c = t.block(0);
    assert_eq!(c.2.color, BlockColor::Cyan);
}

#[test]
fn move_left_clamps_at_wall() {
    // The leftmost cell of the horizontal bar has offset -1, so the anchor
    // stops at column 1 rather than going negative.
    let board = Board::new();
    let mut t = Tetromino::new(TetrominoShape::I);
    for _ in 0..5 {
        t.move_left(&board);
    }
    assert_eq!(t.anchor_x(), 1);
    assert_eq!(t.anchor_y(), 0);
    assert_eq!(offsets(&t), vec![(-1, -1), (0, -1), (1, -1), (2, -1)]);
}

#[test]
fn move_right_clamps_at_wall() {
    // The rightmost cell of the horizontal bar has offset 2, so the anchor
    // stops at column 7.
    let board = Board::new();
    let mut t = Tetromino::new(TetrominoShape::I);
    for _ in 0..8 {
        t.move_right(&board);
    }
    assert_eq!(t.anchor_x(), 7);
}

#[test]
fn move_down_on_empty_board_until_floor() {
    // Cells of the horizontal bar sit one row above the anchor, so descent
    // succeeds while the anchor is at most row 19 and stops at row 20.
    let board = Board::new();
    let mut t = Tetromino::new(TetrominoShape::I);
    let mut steps = 0;
    while t.move_down(&board) {
        steps += 1;
        assert!(steps <= 20);
    }
    assert_eq!(steps, 20);
    assert_eq!(t.anchor_y(), 20);
    assert!(!t.move_down(&board));
    assert_eq!(t.anchor_y(), 20);
}

#[test]
fn move_down_square_until_floor() {
    // The square has cells at the anchor row itself, so it rests one row
    // higher than the bar.
    let board = Board::new();
    let mut t = Tetromino::new(TetrominoShape::O);
    let mut steps = 0;
    while t.move_down(&board) {
        steps += 1;
        assert!(steps <= 19);
    }
    assert_eq!(steps, 19);
    assert_eq!(t.anchor_y(), 19);
}

#[test]
fn rotation_of_square_shifts_offsets_down() {
    // Rotating the square about its corner anchor does not fix its offset
    // set: each offset (dx, dy) becomes (-dy, dx), carrying the 2x2 square
    // one row down.
    let board = Board::new();
    let mut t = Tetromino::new(TetrominoShape::O);
    t.rotate_clockwise(&board);
    assert_eq!(offsets(&t), vec![(1, 0), (1, 1), (0, 0), (0, 1)]);
}

#[test]
fn four_rotations_restore_offsets() {
    let board = Board::new();
    for shape in [
        TetrominoShape::I,
        TetrominoShape::O,
        TetrominoShape::T,
        TetrominoShape::S,
        TetrominoShape::Z,
        TetrominoShape::J,
        TetrominoShape::L,
    ] {
        let mut t = Tetromino::new(shape);
        // Keep clear of the walls and the rim so no rotation collides.
        t.move_down(&board);
        t.move_down(&board);
        let before = offsets(&t);
        let x = t.anchor_x();
        for _ in 0..4 {
            t.rotate_clockwise(&board);
        }
        assert_eq!(offsets(&t), before);
        assert_eq!(t.anchor_x(), x);
    }
}

#[test]
fn rotation_wall_kick_to_the_right() {
    // A T piece rotated once, pushed to the left wall, then rotated again:
    // the unshifted rotation and the left kick collide, the right kick
    // succeeds, so the anchor moves from column 0 to column 1.
    let board = Board::new();
    let mut t = Tetromino::new(TetrominoShape::T);
    t.rotate_clockwise(&board);
    assert_eq!(offsets(&t), vec![(0, -1), (0, 0), (0, 1), (1, 0)]);
    for _ in 0..5 {
        t.move_left(&board);
    }
    assert_eq!(t.anchor_x(), 0);
    t.rotate_clockwise(&board);
    assert_eq!(t.anchor_x(), 1);
    assert_eq!(offsets(&t), vec![(1, 0), (0, 0), (-1, 0), (0, 1)]);
}

#[test]
fn rotation_reverts_when_all_kicks_collide() {
    // A vertical bar hugging the left wall cannot lay itself flat: the
    // unshifted rotation and both kicks all leave the side bounds, so both
    // the anchor and the offsets are restored.
    let board = Board::new();
    let mut t = Tetromino::new(TetrominoShape::I);
    t.rotate_clockwise(&board);
    assert_eq!(offsets(&t), vec![(1, -1), (1, 0), (1, 1), (1, 2)]);
    for _ in 0..6 {
        t.move_left(&board);
    }
    assert_eq!(t.anchor_x(), -1);
    t.rotate_clockwise(&board);
    assert_eq!(t.anchor_x(), -1);
    assert_eq!(offsets(&t), vec![(1, -1), (1, 0), (1, 1), (1, 2)]);
}

#[test]
fn board_starts_empty() {
    let board = Board::new();
    for x in 0..10 {
        for y in 0..20 {
            assert!(board.cell(x, y).is_none());
        }
    }
}

#[test]
fn add_tetromino_writes_cells_and_nothing_else() {
    let mut board = Board::new();
    let mut t = Tetromino::new(TetrominoShape::I);
    t.move_down(&board);
    // Anchor (4, 1): cells at columns 3..=6 of row 0.
    board.add_tetromino(&t);
    for x in 0..10 {
        for y in 0..20 {
            if y == 0 && (3..=6).contains(&x) {
                let cell = board.cell(x, y).unwrap();
                assert_eq!(cell.color, BlockColor::Cyan);
            } else {
                assert!(board.cell(x, y).is_none());
            }
        }
    }
}

#[test]
fn move_left_blocked_by_occupied_cell() {
    // Lock a bar at the bottom left, then rest a square beside it: the
    // square cannot move left into the occupied row.
    let mut board = Board::new();
    let mut bar = Tetromino::new(TetrominoShape::I);
    for _ in 0..3 {
        bar.move_left(&board);
    }
    while bar.move_down(&board) {}
    assert_eq!(bar.anchor_x(), 1);
    assert_eq!(bar.anchor_y(), 20);
    // Cells at columns 0..=3 of row 19.
    board.add_tetromino(&bar);

    let mut square = Tetromino::new(TetrominoShape::O);
    let mut steps = 0;
    while square.move_down(&board) {
        steps += 1;
    }
    // Columns 4 and 5 are free down to the floor.
    assert_eq!(steps, 19);
    assert_eq!(square.anchor_y(), 19);
    // Moving left would put a cell on column 3 of row 19, which is occupied.
    square.move_left(&board);
    assert_eq!(square.anchor_x(), 4);
}

#[test]
fn piece_rests_on_locked_cells() {
    let mut board = Board::new();
    let mut first = Tetromino::new(TetrominoShape::I);
    while first.move_down(&board) {}
    board.add_tetromino(&first);
    // Row 19, columns 3..=6 are now occupied.
    let mut second = Tetromino::new(TetrominoShape::I);
    let mut steps = 0;
    while second.move_down(&board) {
        steps += 1;
    }
    assert_eq!(steps, 19);
    assert_eq!(second.anchor_y(), 19);
}
