use tetris::Game;
use tetris::game::shape_from_index;
use tetris::TetrominoShape;

#[test]
fn shape_from_index_covers_all_seven() {
    assert_eq!(shape_from_index(0), TetrominoShape::I);
    assert_eq!(shape_from_index(1), TetrominoShape::O);
    assert_eq!(shape_from_index(2), TetrominoShape::T);
    assert_eq!(shape_from_index(3), TetrominoShape::S);
    assert_eq!(shape_from_index(4), TetrominoShape::Z);
    assert_eq!(shape_from_index(5), TetrominoShape::J);
    assert_eq!(shape_from_index(6), TetrominoShape::L);
}

#[test]
fn new_game_spawns_at_anchor_with_empty_board() {
    let game = Game::new();
    assert_eq!(game.tetromino().anchor_x(), 4);
    assert_eq!(game.tetromino().anchor_y(), 0);
    for x in 0..10 {
        for y in 0..20 {
            assert!(game.board().cell(x, y).is_none());
        }
    }
    assert!(game.lock_is_safe());
}

#[test]
fn advance_time_accumulates_to_one_descent() {
    // 999 ms is under the interval, the next millisecond forces one step.
    let mut game = Game::new();
    assert!(game.lock_is_safe());
    game.advance_ms(999);
    assert_eq!(game.tetromino().anchor_y(), 0);
    assert!(game.lock_is_safe());
    game.advance_ms(1);
    assert_eq!(game.tetromino().anchor_y(), 1);
}

#[test]
fn advance_time_takes_one_step_per_call() {
    // A single large jump still forces only one descent step.
    let mut game = Game::new();
    assert!(game.lock_is_safe());
    game.advance_ms(2500);
    assert_eq!(game.tetromino().anchor_y(), 1);
    // The timer was reset by the forced step, so the next interval starts
    // from zero again.
    assert!(game.lock_is_safe());
    game.advance_ms(999);
    assert_eq!(game.tetromino().anchor_y(), 1);
    assert!(game.lock_is_safe());
    game.advance_ms(1);
    assert_eq!(game.tetromino().anchor_y(), 2);
}

#[test]
fn input_down_descends_one_row() {
    let mut game = Game::new();
    assert!(game.lock_is_safe());
    game.input_down();
    assert_eq!(game.tetromino().anchor_y(), 1);
}

#[test]
fn inputs_move_the_active_piece() {
    let mut game = Game::new();
    game.input_left();
    assert_eq!(game.tetromino().anchor_x(), 3);
    game.input_right();
    game.input_right();
    assert_eq!(game.tetromino().anchor_x(), 5);
}

#[test]
fn lock_writes_cells_and_respawns_at_anchor() {
    // Soft-drop until the first lock: afterwards the fresh piece stands at
    // the spawn anchor and the old piece's four cells sit in the board with
    // their colors.
    let mut game = Game::new();
    let mut locked = false;
    for _ in 0..30 {
        let px = game.tetromino().anchor_x();
        let py = game.tetromino().anchor_y();
        let mut cells = Vec::new();
        for i in 0..4 {
            cells.push(game.tetromino().block(i));
        }
        assert!(game.lock_is_safe());
        game.input_down();
        if game.tetromino().anchor_y() == 0 {
            // Only a lock can bring the anchor row back to 0.
            assert_eq!(game.tetromino().anchor_x(), 4);
            for (dx, dy, block) in cells {
                let cell = game.board().cell((px + dx) as usize, (py + dy) as usize);
                assert_eq!(cell, Some(block));
            }
            locked = true;
            break;
        }
    }
    assert!(locked);
}

#[test]
fn gravity_alone_eventually_locks() {
    // Driven only by time, the piece descends and locks; the board is no
    // longer empty afterwards and a fresh piece stands at the spawn anchor.
    let mut game = Game::new();
    let mut locked = false;
    for _ in 0..30 {
        assert!(game.lock_is_safe());
        game.advance_ms(1000);
        if game.tetromino().anchor_y() == 0 {
            locked = true;
            break;
        }
    }
    assert!(locked);
    let mut occupied = 0;
    for x in 0..10 {
        for y in 0..20 {
            if game.board().cell(x, y).is_some() {
                occupied += 1;
            }
        }
    }
    assert_eq!(occupied, 4);
}
