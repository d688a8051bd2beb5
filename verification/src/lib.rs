//! Core engine of a falling-block puzzle game: a fixed 10 x 20 board of
//! colored cells, one active four-cell piece, collision-checked movement and
//! rotation with a wall-kick, locking, and a millisecond gravity timer.

pub mod block;
pub mod board;
pub mod game;
pub mod laws;
pub mod piece;

pub use block::Block;
pub use block::BlockColor;
pub use board::Board;
pub use game::Game;
pub use piece::Tetromino;
pub use piece::TetrominoShape;
