//! The game: one active piece over one board, a millisecond gravity timer,
//! and the discrete inputs that drive them.

use vstd::prelude::*;

use crate::board::Board;
use crate::board::BoardV;
use crate::board::board_empty;
use crate::board::board_wf;
use crate::board::place_piece;
use crate::piece::PieceV;
use crate::piece::Tetromino;
use crate::piece::TetrominoShape;
use crate::piece::cells_distinct;
use crate::piece::piece_collides;
use crate::piece::piece_in_grid;
use crate::piece::piece_wf;
use crate::piece::spawn_piece;
use crate::piece::try_rotate;
use crate::piece::try_shift;

verus! {

/// Milliseconds of accumulated fall time that force one descent step.
pub const FALL_INTERVAL_MS: u32 = 1000;

/// Mathematical model of a game: the board grid, the active piece, and the
/// milliseconds accumulated since the piece last fell one row.
pub ghost struct GameV {
    pub board: BoardV,
    pub piece: PieceV,
    pub time: int,
}

/// The board and the active piece are well formed and the piece's cells sit
/// at distinct offsets.
pub open spec fn game_parts_wf(g: GameV) -> bool {
    &&& board_wf(g.board)
    &&& piece_wf(g.piece)
    &&& cells_distinct(g.piece.cells)
}

/// Every game reachable from `Game::new` satisfies this between calls: well
/// formed parts, and a fall timer that a forced descent has not yet reset.
pub open spec fn game_wf(g: GameV) -> bool {
    &&& game_parts_wf(g)
    &&& 0 <= g.time < FALL_INTERVAL_MS
}

/// When the active piece is resting (one step down would collide), all of
/// its cells lie inside the grid, so a lock stores them without writing
/// outside it. A piece resting with cells above the top rim violates this;
/// locking such a piece is not defined.
pub open spec fn lock_safe(g: GameV) -> bool {
    piece_collides(g.piece.shifted(0, 1), g.board) ==> piece_in_grid(g.piece)
}

/// How one forced or requested descent step relates the state before it to
/// the state after it: the timer is reset; a piece free to fall moves one
/// row down and the board is untouched; a resting piece is written into the
/// board and a fresh piece of some shape stands at the spawn anchor.
pub open spec fn down_step(pre: GameV, post: GameV) -> bool {
    &&& post.time == 0
    &&& ({
        let moved = pre.piece.shifted(0, 1);
        if !piece_collides(moved, pre.board) {
            post.piece == moved && post.board == pre.board
        } else {
            post.board == place_piece(pre.board, pre.piece) && (exists|s: TetrominoShape|
                post.piece == spawn_piece(s))
        }
    })
}

/// Relies on rand::random_range: a draw from the half-open range `0..7`
/// with the thread-local generator, so the result is always below 7.
#[verifier::external_body]
fn random_below_seven() -> (r: u32)
    ensures
        r < 7,
{
    rand::random_range(0..7u32)
}

/// The shape assigned to each selector index, in the fixed order the
/// selector draws from.
pub open spec fn index_shape(i: int) -> TetrominoShape {
    if i == 0 {
        TetrominoShape::I
    } else if i == 1 {
        TetrominoShape::O
    } else if i == 2 {
        TetrominoShape::T
    } else if i == 3 {
        TetrominoShape::S
    } else if i == 4 {
        TetrominoShape::Z
    } else if i == 5 {
        TetrominoShape::J
    } else {
        TetrominoShape::L
    }
}

/// Maps a selector index below 7 to its shape.
pub fn shape_from_index(i: u32) -> (s: TetrominoShape)
    requires
        i < 7,
    ensures
        s == index_shape(i as int),
{
    match i {
        0 => TetrominoShape::I,
        1 => TetrominoShape::O,
        2 => TetrominoShape::T,
        3 => TetrominoShape::S,
        4 => TetrominoShape::Z,
        5 => TetrominoShape::J,
        _ => TetrominoShape::L,
    }
}

/// Orchestrates one active piece over a board and turns external input and
/// elapsed time into state transitions.
pub struct Game {
    board: Board,
    tetromino: Tetromino,
    time: u32,
}

impl View for Game {
    type V = GameV;

    closed spec fn view(&self) -> GameV {
        GameV { board: self.board@, piece: self.tetromino@, time: self.time as int }
    }
}

impl Game {
    /// Starts a game: an empty board, a piece of a freshly drawn shape at
    /// the spawn anchor, and a zeroed fall timer.
    pub fn new() -> (g: Game)
        ensures
            game_wf(g@),
            g@.time == 0,
            board_empty(g@.board),
            exists|s: TetrominoShape| g@.piece == spawn_piece(s),
    {
        let board = Board::new();
        let tetromino = Tetromino::new(Game::get_random_shape());
        Game { board, tetromino, time: 0 }
    }

    /// Forwards a move-left event to the active piece.
    pub fn input_left(&mut self)
        requires
            game_wf(old(self)@),
        ensures
            game_wf(final(self)@),
            final(self)@.piece == try_shift(old(self)@.piece, old(self)@.board, -1, 0),
            final(self)@.board == old(self)@.board,
            final(self)@.time == old(self)@.time,
    {
        self.tetromino.move_left(&self.board);
    }

    /// Forwards a move-right event to the active piece.
    pub fn input_right(&mut self)
        requires
            game_wf(old(self)@),
        ensures
            game_wf(final(self)@),
            final(self)@.piece == try_shift(old(self)@.piece, old(self)@.board, 1, 0),
            final(self)@.board == old(self)@.board,
            final(self)@.time == old(self)@.time,
    {
        self.tetromino.move_right(&self.board);
    }

    /// Forwards a rotate event to the active piece.
    pub fn input_rotate(&mut self)
        requires
            game_wf(old(self)@),
        ensures
            game_wf(final(self)@),
            final(self)@.piece == try_rotate(old(self)@.piece, old(self)@.board),
            final(self)@.board == old(self)@.board,
            final(self)@.time == old(self)@.time,
    {
        self.tetromino.rotate_clockwise(&self.board);
        proof {
            crate::piece::lemma_rotated_cells_distinct(old(self)@.piece.cells);
        }
    }

    /// One descent step without the public timer bound: shared by the soft
    /// drop and the gravity tick, which calls it with the timer already over
    /// the interval.
    fn force_down(&mut self)
        requires
            game_parts_wf(old(self)@),
            lock_safe(old(self)@),
        ensures
            game_wf(final(self)@),
            down_step(old(self)@, final(self)@),
    {
        self.time = 0;
        let did_move = self.tetromino.move_down(&self.board);
        if !did_move {
            self.board.add_tetromino(&self.tetromino);
            self.tetromino = Tetromino::new(Game::get_random_shape());
        }
    }

    /// A soft drop: resets the fall timer, then steps the piece down once;
    /// a piece that cannot move is locked into the board and replaced by a
    /// fresh piece of a freshly drawn shape at the spawn anchor.
    pub fn input_down(&mut self)
        requires
            game_wf(old(self)@),
            lock_safe(old(self)@),
        ensures
            game_wf(final(self)@),
            down_step(old(self)@, final(self)@),
    {
        self.force_down();
    }

    /// Accumulates elapsed milliseconds into the fall timer; once the timer
    /// reaches the fall interval, exactly one forced descent step is taken,
    /// however much time has elapsed.
    pub fn advance_ms(&mut self, ms: u32)
        requires
            game_wf(old(self)@),
            ms <= u32::MAX - (FALL_INTERVAL_MS - 1),
            old(self)@.time + ms >= FALL_INTERVAL_MS ==> lock_safe(old(self)@),
        ensures
            game_wf(final(self)@),
            ({
                let t = old(self)@.time + ms;
                if t < FALL_INTERVAL_MS {
                    final(self)@ == (GameV { time: t, ..old(self)@ })
                } else {
                    down_step(old(self)@, final(self)@)
                }
            }),
    {
        self.time = self.time + ms;
        if self.time >= FALL_INTERVAL_MS {
            self.force_down();
        }
    }

    /// Read access to the board, for drawing the locked cells.
    pub fn board(&self) -> (b: &Board)
        ensures
            b@ == self@.board,
    {
        &self.board
    }

    /// Read access to the active piece, for drawing its cells.
    pub fn tetromino(&self) -> (t: &Tetromino)
        ensures
            t@ == self@.piece,
    {
        &self.tetromino
    }

    /// True when a descent step now is defined: either the piece can still
    /// fall, or it rests entirely inside the grid, ready to lock. Callers
    /// outside verified code check this before a descent.
    pub fn lock_is_safe(&self) -> (r: bool)
        requires
            game_wf(self@),
        ensures
            r == lock_safe(self@),
    {
        if self.tetromino.blocked_below(&self.board) {
            self.tetromino.in_grid()
        } else {
            true
        }
    }

    /// Draws a shape uniformly at random for the next piece.
    fn get_random_shape() -> TetrominoShape {
        shape_from_index(random_below_seven())
    }
}

} // verus!
