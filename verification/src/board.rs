//! The fixed 10 x 20 grid of optional colored cells that locked pieces are
//! written into.

use vstd::prelude::*;

use crate::block::Block;
use crate::block::BlockColor;
use crate::piece::PieceV;
use crate::piece::Tetromino;
use crate::piece::piece_in_grid;
use crate::piece::piece_wf;

verus! {

/// Number of columns of the grid.
pub const BOARD_WIDTH: usize = 10;

/// Number of rows of the grid.
pub const BOARD_HEIGHT: usize = 20;

/// Mathematical model of the grid: a sequence of `BOARD_WIDTH` columns, each
/// a sequence of `BOARD_HEIGHT` optional cell colors, indexed `[x][y]`.
pub type BoardV = Seq<Seq<Option<BlockColor>>>;

/// The color held by an optional stored block.
pub open spec fn opt_color(o: Option<Block>) -> Option<BlockColor> {
    match o {
        Some(b) => Some(b.color),
        None => None,
    }
}

/// The model has exactly the fixed grid dimensions.
pub open spec fn board_wf(b: BoardV) -> bool {
    &&& b.len() == BOARD_WIDTH
    &&& forall|x: int| 0 <= x < b.len() ==> (#[trigger] b[x]).len() == BOARD_HEIGHT
}

/// No cell of the grid is occupied.
pub open spec fn board_empty(b: BoardV) -> bool {
    forall|x: int, y: int|
        0 <= x < b.len() && 0 <= y < b[x].len() ==> (#[trigger] b[x][y]) is None
}

/// The grid with the single cell `(x, y)` set to color `c`.
pub open spec fn place_cell(g: BoardV, x: int, y: int, c: BlockColor) -> BoardV {
    g.update(x, g[x].update(y, Some(c)))
}

/// The grid after the first `n` cells of the piece have been written at their
/// anchor-relative positions, in cell order; a later write wins over an
/// earlier one to the same position.
pub open spec fn place_cells(g: BoardV, p: PieceV, n: int) -> BoardV
    decreases n,
{
    if n <= 0 {
        g
    } else {
        let c = p.cells[n - 1];
        place_cell(place_cells(g, p, n - 1), p.x + c.0, p.y + c.1, c.2)
    }
}

/// The grid after every cell of the piece has been written: what a lock
/// leaves behind.
pub open spec fn place_piece(g: BoardV, p: PieceV) -> BoardV {
    place_cells(g, p, p.cells.len() as int)
}

/// A fixed-size grid of optional occupied cells.
pub struct Board {
    grid: Vec<Vec<Option<Block>>>,
}

impl View for Board {
    type V = BoardV;

    closed spec fn view(&self) -> BoardV {
        self.grid@.map_values(
            |col: Vec<Option<Block>>| col@.map_values(|o: Option<Block>| opt_color(o)),
        )
    }
}

impl Board {
    /// The stored grid has the fixed dimensions.
    pub open spec fn wf(&self) -> bool {
        board_wf(self@)
    }

    /// Returns an all-empty grid.
    pub fn new() -> (b: Board)
        ensures
            b.wf(),
            board_empty(b@),
    {
        let mut grid: Vec<Vec<Option<Block>>> = Vec::new();
        let mut x: usize = 0;
        while x < BOARD_WIDTH
            invariant
                x <= BOARD_WIDTH,
                grid@.len() == x,
                forall|i: int| 0 <= i < x ==> (#[trigger] grid@[i])@.len() == BOARD_HEIGHT,
                forall|i: int, j: int|
                    0 <= i < x && 0 <= j < BOARD_HEIGHT ==> (#[trigger] grid@[i]@[j]) is None,
            decreases BOARD_WIDTH - x,
        {
            let mut col: Vec<Option<Block>> = Vec::new();
            let mut y: usize = 0;
            while y < BOARD_HEIGHT
                invariant
                    y <= BOARD_HEIGHT,
                    col@.len() == y,
                    forall|j: int| 0 <= j < y ==> (#[trigger] col@[j]) is None,
                decreases BOARD_HEIGHT - y,
            {
                col.push(None);
                y = y + 1;
            }
            grid.push(col);
            x = x + 1;
        }
        let b = Board { grid };
        proof {
            assert(forall|i: int| 0 <= i < BOARD_WIDTH ==> (#[trigger] b@[i]).len() == BOARD_HEIGHT);
        }
        b
    }

    /// Occupancy lookup at column `x`, row `y`.
    pub fn cell(&self, x: usize, y: usize) -> (r: Option<Block>)
        requires
            self.wf(),
            x < BOARD_WIDTH,
            y < BOARD_HEIGHT,
        ensures
            opt_color(r) == self@[x as int][y as int],
    {
        proof {
            assert(self@[x as int] == self.grid@[x as int]@.map_values(
                |o: Option<Block>| opt_color(o),
            ));
            assert(self@[x as int].len() == BOARD_HEIGHT);
        }
        let col: &Vec<Option<Block>> = &self.grid[x];
        col[y]
    }

    /// Unconditionally writes each of the piece's cells' colors into the grid
    /// at its anchor-relative position; the caller must already have checked
    /// that every position is inside the grid.
    pub fn add_tetromino(&mut self, t: &Tetromino)
        requires
            old(self).wf(),
            piece_wf(t@),
            piece_in_grid(t@),
        ensures
            final(self).wf(),
            final(self)@ == place_piece(old(self)@, t@),
    {
        let mut i: usize = 0;
        while i < 4
            invariant
                i <= 4,
                self.wf(),
                piece_wf(t@),
                piece_in_grid(t@),
                self@ == place_cells(old(self)@, t@, i as int),
            decreases 4 - i,
        {
            let c = t.block(i);
            proof {
                assert(t@.cells[i as int].0 == c.0 as int && t@.cells[i as int].1 == c.1 as int);
            }
            let bx = (t.anchor_x() + c.0) as usize;
            let by = (t.anchor_y() + c.1) as usize;
            let ghost prev = self@;
            proof {
                assert(prev[bx as int] == self.grid@[bx as int]@.map_values(
                    |o: Option<Block>| opt_color(o),
                ));
                assert(prev[bx as int].len() == BOARD_HEIGHT);
            }
            let col: &mut Vec<Option<Block>> = &mut self.grid[bx];
            col[by] = Some(c.2);
            proof {
                assert(self@[bx as int] =~= place_cell(prev, bx as int, by as int, c.2.color)[bx as int]);
                assert(self@ =~= place_cell(prev, bx as int, by as int, c.2.color));
            }
            i = i + 1;
        }
    }
}

} // verus!
