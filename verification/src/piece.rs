//! The falling piece: four colored cells at integer offsets from an anchor,
//! moved and rotated against a board with revert-on-collision semantics.

use vstd::prelude::*;

use crate::block::Block;
use crate::block::BlockColor;
use crate::board::BOARD_HEIGHT;
use crate::board::BOARD_WIDTH;
use crate::board::Board;
use crate::board::BoardV;

verus! {

/// The seven canonical piece shapes.
#[derive(Copy, Clone, PartialEq, Eq, Structural, Debug)]
pub enum TetrominoShape {
    I,
    O,
    T,
    S,
    Z,
    J,
    L,
}

/// Mathematical model of a piece: an anchor in board-cell coordinates and a
/// sequence of cells, each an offset from the anchor carrying its color.
pub ghost struct PieceV {
    pub x: int,
    pub y: int,
    pub cells: Seq<(int, int, BlockColor)>,
}

impl PieceV {
    /// The same cells with the anchor shifted by `(dx, dy)`.
    pub open spec fn shifted(self, dx: int, dy: int) -> PieceV {
        PieceV { x: self.x + dx, y: self.y + dy, cells: self.cells }
    }

    /// Every offset turned a quarter turn clockwise (y grows downward),
    /// anchor unchanged.
    pub open spec fn rotated(self) -> PieceV {
        PieceV { x: self.x, y: self.y, cells: rotated_cells(self.cells) }
    }
}

/// One cell offset turned a quarter turn clockwise: `(dx, dy)` becomes
/// `(-dy, dx)`; the color is kept.
pub open spec fn rot_cell(c: (int, int, BlockColor)) -> (int, int, BlockColor) {
    (-c.1, c.0, c.2)
}

/// Every cell offset turned a quarter turn clockwise.
pub open spec fn rotated_cells(cells: Seq<(int, int, BlockColor)>) -> Seq<(int, int, BlockColor)> {
    cells.map_values(|c: (int, int, BlockColor)| rot_cell(c))
}

/// No two cells of the sequence share an offset.
pub open spec fn cells_distinct(cells: Seq<(int, int, BlockColor)>) -> bool {
    forall|i: int, j: int|
        0 <= i < j < cells.len() ==> ((#[trigger] cells[i]).0, cells[i].1) != (
        (#[trigger] cells[j]).0,
        cells[j].1,
        )
}

/// Every offset lies within two cells of the anchor. This holds of the seven
/// spawn shapes and is kept by rotation; it bounds all anchor arithmetic.
pub open spec fn offsets_bounded(cells: Seq<(int, int, BlockColor)>) -> bool {
    forall|i: int|
        0 <= i < cells.len() ==> {
            let c = #[trigger] cells[i];
            -2 <= c.0 <= 2 && -2 <= c.1 <= 2
        }
}

/// Anchor positions that a collision check may be asked about: at most one
/// step outside the range of anchors a legal piece can rest at.
pub open spec fn anchor_in_reach(x: int, y: int) -> bool {
    -3 <= x <= 12 && 0 <= y <= 22
}

/// Every piece reachable from a spawn satisfies this: exactly four cells,
/// offsets within two of the anchor, and an anchor no further out than the
/// bounds checks ever allow a piece to stay.
pub open spec fn piece_wf(p: PieceV) -> bool {
    &&& p.cells.len() == 4
    &&& offsets_bounded(p.cells)
    &&& -2 <= p.x <= 11
    &&& 0 <= p.y <= 21
}

/// A lone cell position collides when it leaves the side or bottom bounds
/// or, at a non-negative row, lands on an occupied grid cell; positions above
/// the top rim (`y < 0`) are held to the side bounds only.
pub open spec fn cell_collides(b: BoardV, x: int, y: int) -> bool {
    ||| x < 0
    ||| x >= BOARD_WIDTH as int
    ||| y >= BOARD_HEIGHT as int
    ||| (y >= 0 && b[x][y] is Some)
}

/// A piece collides when any of its cells does.
pub open spec fn piece_collides(p: PieceV, b: BoardV) -> bool {
    exists|i: int|
        0 <= i < p.cells.len() && cell_collides(
            b,
            p.x + (#[trigger] p.cells[i]).0,
            p.y + p.cells[i].1,
        )
}

/// Every cell of the piece lies strictly inside the stored grid.
pub open spec fn piece_in_grid(p: PieceV) -> bool {
    forall|i: int|
        0 <= i < p.cells.len() ==> {
            let c = #[trigger] p.cells[i];
            0 <= p.x + c.0 < BOARD_WIDTH as int && 0 <= p.y + c.1 < BOARD_HEIGHT as int
        }
}

/// The four cell offsets and the color of each canonical shape, in the order
/// they are laid out at spawn.
pub open spec fn shape_cells(shape: TetrominoShape) -> Seq<(int, int, BlockColor)> {
    match shape {
        TetrominoShape::I => seq![
            (-1, -1, BlockColor::Cyan),
            (0, -1, BlockColor::Cyan),
            (1, -1, BlockColor::Cyan),
            (2, -1, BlockColor::Cyan),
        ],
        TetrominoShape::O => seq![
            (0, -1, BlockColor::Yellow),
            (1, -1, BlockColor::Yellow),
            (0, 0, BlockColor::Yellow),
            (1, 0, BlockColor::Yellow),
        ],
        TetrominoShape::T => seq![
            (-1, 0, BlockColor::Purple),
            (0, 0, BlockColor::Purple),
            (1, 0, BlockColor::Purple),
            (0, -1, BlockColor::Purple),
        ],
        TetrominoShape::S => seq![
            (-1, 0, BlockColor::Green),
            (0, 0, BlockColor::Green),
            (0, -1, BlockColor::Green),
            (1, -1, BlockColor::Green),
        ],
        TetrominoShape::Z => seq![
            (-1, -1, BlockColor::Red),
            (0, -1, BlockColor::Red),
            (0, 0, BlockColor::Red),
            (1, 0, BlockColor::Red),
        ],
        TetrominoShape::J => seq![
            (-1, -1, BlockColor::Blue),
            (-1, 0, BlockColor::Blue),
            (0, 0, BlockColor::Blue),
            (1, 0, BlockColor::Blue),
        ],
        TetrominoShape::L => seq![
            (1, -1, BlockColor::Orange),
            (-1, 0, BlockColor::Orange),
            (0, 0, BlockColor::Orange),
            (1, 0, BlockColor::Orange),
        ],
    }
}

/// Where every new piece starts: anchor at column 4, row 0, with the shape's
/// spawn cells.
pub open spec fn spawn_piece(shape: TetrominoShape) -> PieceV {
    PieceV { x: 4, y: 0, cells: shape_cells(shape) }
}

/// A spawned piece is well formed and its cells sit at distinct offsets.
pub proof fn lemma_spawn_piece_wf(shape: TetrominoShape)
    ensures
        piece_wf(spawn_piece(shape)),
        cells_distinct(shape_cells(shape)),
{
}

/// Rotation keeps cell offsets pairwise distinct: the quarter turn is
/// injective on offsets.
pub proof fn lemma_rotated_cells_distinct(cells: Seq<(int, int, BlockColor)>)
    requires
        cells_distinct(cells),
    ensures
        cells_distinct(rotated_cells(cells)),
{
    let r = rotated_cells(cells);
    assert forall|i: int, j: int|
        0 <= i < j < r.len() implies ((#[trigger] r[i]).0, r[i].1) != ((#[trigger] r[j]).0, r[j].1) by {
        assert(r[i] == rot_cell(cells[i]));
        assert(r[j] == rot_cell(cells[j]));
        assert(((cells[i]).0, cells[i].1) != ((cells[j]).0, cells[j].1));
    }
}

/// What a horizontal or vertical step leaves behind: the shifted piece when
/// the shift is collision-free, the unmoved piece otherwise.
pub open spec fn try_shift(p: PieceV, b: BoardV, dx: int, dy: int) -> PieceV {
    if piece_collides(p.shifted(dx, dy), b) {
        p
    } else {
        p.shifted(dx, dy)
    }
}

/// What a rotation attempt leaves behind: the rotated cells at the first
/// collision-free anchor among unmoved, one column left, one column right,
/// tried in that order; the piece is unchanged when all three collide.
pub open spec fn try_rotate(p: PieceV, b: BoardV) -> PieceV {
    let r = p.rotated();
    if !piece_collides(r, b) {
        r
    } else if !piece_collides(r.shifted(-1, 0), b) {
        r.shifted(-1, 0)
    } else if !piece_collides(r.shifted(1, 0), b) {
        r.shifted(1, 0)
    } else {
        p
    }
}

/// The model of one stored cell: its offsets widened and its color.
pub open spec fn cell_view(c: (i32, i32, Block)) -> (int, int, BlockColor) {
    (c.0 as int, c.1 as int, c.2.color)
}

/// A set of four relative cell offsets plus a board-space anchor position.
pub struct Tetromino {
    x: i32,
    y: i32,
    blocks: Vec<(i32, i32, Block)>,
}

impl View for Tetromino {
    type V = PieceV;

    closed spec fn view(&self) -> PieceV {
        PieceV {
            x: self.x as int,
            y: self.y as int,
            cells: self.blocks@.map_values(|c: (i32, i32, Block)| cell_view(c)),
        }
    }
}

/// Builds the block vector of a freshly spawned piece from four offsets
/// sharing one color.
fn four_blocks(color: BlockColor, o0: (i32, i32), o1: (i32, i32), o2: (i32, i32), o3: (i32, i32)) -> (v: Vec<(i32, i32, Block)>)
    ensures
        v@ == seq![
            (o0.0, o0.1, (Block { color })),
            (o1.0, o1.1, (Block { color })),
            (o2.0, o2.1, (Block { color })),
            (o3.0, o3.1, (Block { color })),
        ],
{
    let b = Block::new(color);
    let mut v: Vec<(i32, i32, Block)> = Vec::new();
    v.push((o0.0, o0.1, b));
    v.push((o1.0, o1.1, b));
    v.push((o2.0, o2.1, b));
    v.push((o3.0, o3.1, b));
    proof {
        assert(v@ =~= seq![
            (o0.0, o0.1, (Block { color })),
            (o1.0, o1.1, (Block { color })),
            (o2.0, o2.1, (Block { color })),
            (o3.0, o3.1, (Block { color })),
        ]);
    }
    v
}

/// True when any cell of `blocks`, placed at anchor `(ax, ay)`, collides
/// with the bounds or an occupied cell of the board.
fn cells_collide(board: &Board, blocks: &Vec<(i32, i32, Block)>, ax: i32, ay: i32) -> (r: bool)
    requires
        board.wf(),
        offsets_bounded(blocks@.map_values(|c: (i32, i32, Block)| cell_view(c))),
        anchor_in_reach(ax as int, ay as int),
    ensures
        r == piece_collides(
            PieceV {
                x: ax as int,
                y: ay as int,
                cells: blocks@.map_values(|c: (i32, i32, Block)| cell_view(c)),
            },
            board@,
        ),
{
    let ghost p = PieceV {
        x: ax as int,
        y: ay as int,
        cells: blocks@.map_values(|c: (i32, i32, Block)| cell_view(c)),
    };
    let n = blocks.len();
    let mut i: usize = 0;
    while i < n
        invariant
            i <= n,
            n == blocks@.len(),
            board.wf(),
            offsets_bounded(p.cells),
            anchor_in_reach(ax as int, ay as int),
            p == (PieceV {
                x: ax as int,
                y: ay as int,
                cells: blocks@.map_values(|c: (i32, i32, Block)| cell_view(c)),
            }),
            forall|j: int|
                0 <= j < i ==> !cell_collides(
                    board@,
                    p.x + (#[trigger] p.cells[j]).0,
                    p.y + p.cells[j].1,
                ),
        decreases n - i,
    {
        let c = blocks[i];
        proof {
            assert(p.cells[i as int] == cell_view(c));
        }
        let bx = ax + c.0;
        let by = ay + c.1;
        if bx < 0 || bx >= BOARD_WIDTH as i32 || by >= BOARD_HEIGHT as i32 {
            proof {
                assert(cell_collides(board@, p.x + p.cells[i as int].0, p.y + p.cells[i as int].1));
            }
            return true;
        }
        if by >= 0 {
            if board.cell(bx as usize, by as usize).is_some() {
                proof {
                    assert(cell_collides(
                        board@,
                        p.x + p.cells[i as int].0,
                        p.y + p.cells[i as int].1,
                    ));
                }
                return true;
            }
        }
        i = i + 1;
    }
    false
}

impl Tetromino {
    /// Creates a fresh piece of the given shape at the fixed spawn anchor.
    pub fn new(shape: TetrominoShape) -> (t: Tetromino)
        ensures
            t@ == spawn_piece(shape),
            piece_wf(t@),
            cells_distinct(t@.cells),
    {
        let blocks = match shape {
            TetrominoShape::I => four_blocks(BlockColor::Cyan, (-1, -1), (0, -1), (1, -1), (2, -1)),
            TetrominoShape::O => four_blocks(BlockColor::Yellow, (0, -1), (1, -1), (0, 0), (1, 0)),
            TetrominoShape::T => four_blocks(BlockColor::Purple, (-1, 0), (0, 0), (1, 0), (0, -1)),
            TetrominoShape::S => four_blocks(BlockColor::Green, (-1, 0), (0, 0), (0, -1), (1, -1)),
            TetrominoShape::Z => four_blocks(BlockColor::Red, (-1, -1), (0, -1), (0, 0), (1, 0)),
            TetrominoShape::J => four_blocks(BlockColor::Blue, (-1, -1), (-1, 0), (0, 0), (1, 0)),
            TetrominoShape::L => four_blocks(BlockColor::Orange, (1, -1), (-1, 0), (0, 0), (1, 0)),
        };
        let t = Tetromino { x: 4, y: 0, blocks };
        proof {
            assert(t@.cells =~= shape_cells(shape));
            lemma_spawn_piece_wf(shape);
        }
        t
    }

    /// True when the piece, at its current anchor, collides with the bounds
    /// or an occupied cell of the board.
    fn check_collision(&self, board: &Board) -> (r: bool)
        requires
            board.wf(),
            offsets_bounded(self@.cells),
            anchor_in_reach(self@.x, self@.y),
        ensures
            r == piece_collides(self@, board@),
    {
        cells_collide(board, &self.blocks, self.x, self.y)
    }

    /// Shifts the piece one column left; on collision the move is undone, so
    /// the call always succeeds, as a no-op at a wall.
    pub fn move_left(&mut self, board: &Board)
        requires
            piece_wf(old(self)@),
            board.wf(),
        ensures
            final(self)@ == try_shift(old(self)@, board@, -1, 0),
            piece_wf(final(self)@),
    {
        let orig_x = self.x;
        self.x = self.x - 1;
        if self.check_collision(board) {
            self.x = orig_x;
        } else {
            proof {
                let p = self@;
                assert(!cell_collides(board@, p.x + p.cells[0].0, p.y + p.cells[0].1));
            }
        }
    }

    /// Shifts the piece one column right; on collision the move is undone.
    pub fn move_right(&mut self, board: &Board)
        requires
            piece_wf(old(self)@),
            board.wf(),
        ensures
            final(self)@ == try_shift(old(self)@, board@, 1, 0),
            piece_wf(final(self)@),
    {
        let orig_x = self.x;
        self.x = self.x + 1;
        if self.check_collision(board) {
            self.x = orig_x;
        } else {
            proof {
                let p = self@;
                assert(!cell_collides(board@, p.x + p.cells[0].0, p.y + p.cells[0].1));
            }
        }
    }

    /// Shifts the piece one row down and reports whether it moved; on
    /// collision the move is undone and the piece is ready to lock.
    pub fn move_down(&mut self, board: &Board) -> (moved: bool)
        requires
            piece_wf(old(self)@),
            board.wf(),
        ensures
            final(self)@ == try_shift(old(self)@, board@, 0, 1),
            moved == !piece_collides(old(self)@.shifted(0, 1), board@),
            piece_wf(final(self)@),
    {
        let orig_y = self.y;
        self.y = self.y + 1;
        if self.check_collision(board) {
            self.y = orig_y;
            return false;
        }
        proof {
            let p = self@;
            assert(!cell_collides(board@, p.x + p.cells[0].0, p.y + p.cells[0].1));
        }
        true
    }

    /// Turns every cell offset a quarter turn clockwise, then keeps the first
    /// collision-free placement among the unshifted anchor, one column left,
    /// and one column right (the wall-kick); when all three collide the
    /// rotation is discarded entirely.
    pub fn rotate_clockwise(&mut self, board: &Board)
        requires
            piece_wf(old(self)@),
            board.wf(),
        ensures
            final(self)@ == try_rotate(old(self)@, board@),
            piece_wf(final(self)@),
    {
        let mut rotated: Vec<(i32, i32, Block)> = Vec::new();
        let n = self.blocks.len();
        let mut i: usize = 0;
        while i < n
            invariant
                i <= n,
                n == self.blocks@.len(),
                piece_wf(self@),
                rotated@.len() == i,
                forall|j: int|
                    0 <= j < i ==> #[trigger] cell_view(rotated@[j]) == rot_cell(
                        cell_view(self.blocks@[j]),
                    ),
            decreases n - i,
        {
            let c = self.blocks[i];
            proof {
                assert(self@.cells[i as int] == cell_view(c));
            }
            rotated.push((-c.1, c.0, c.2));
            i = i + 1;
        }
        let ghost rv = rotated@.map_values(|c: (i32, i32, Block)| cell_view(c));
        proof {
            assert(rv =~= rotated_cells(old(self)@.cells));
        }
        if !cells_collide(board, &rotated, self.x, self.y) {
            self.blocks = rotated;
            proof {
                let p = self@;
                assert(!cell_collides(board@, p.x + p.cells[0].0, p.y + p.cells[0].1));
            }
        } else if !cells_collide(board, &rotated, self.x - 1, self.y) {
            self.x = self.x - 1;
            self.blocks = rotated;
            proof {
                let p = self@;
                assert(!cell_collides(board@, p.x + p.cells[0].0, p.y + p.cells[0].1));
            }
        } else if !cells_collide(board, &rotated, self.x + 1, self.y) {
            self.x = self.x + 1;
            self.blocks = rotated;
            proof {
                let p = self@;
                assert(!cell_collides(board@, p.x + p.cells[0].0, p.y + p.cells[0].1));
            }
        }
    }

    /// True when one step down from the current position would collide, the
    /// signal that the piece is resting.
    pub fn blocked_below(&self, board: &Board) -> (r: bool)
        requires
            piece_wf(self@),
            board.wf(),
        ensures
            r == piece_collides(self@.shifted(0, 1), board@),
    {
        cells_collide(board, &self.blocks, self.x, self.y + 1)
    }

    /// True when every cell of the piece lies inside the stored grid, so
    /// that locking it writes no cell outside the grid.
    pub fn in_grid(&self) -> (r: bool)
        requires
            piece_wf(self@),
        ensures
            r == piece_in_grid(self@),
    {
        let n = self.blocks.len();
        let mut i: usize = 0;
        while i < n
            invariant
                i <= n,
                n == self.blocks@.len(),
                piece_wf(self@),
                forall|j: int|
                    0 <= j < i ==> {
                        let c = #[trigger] self@.cells[j];
                        0 <= self@.x + c.0 < BOARD_WIDTH as int && 0 <= self@.y + c.1
                            < BOARD_HEIGHT as int
                    },
            decreases n - i,
        {
            let c = self.blocks[i];
            proof {
                assert(self@.cells[i as int] == cell_view(c));
            }
            let bx = self.x + c.0;
            let by = self.y + c.1;
            if bx < 0 || bx >= BOARD_WIDTH as i32 || by < 0 || by >= BOARD_HEIGHT as i32 {
                return false;
            }
            i = i + 1;
        }
        true
    }

    /// The anchor's column.
    pub fn anchor_x(&self) -> (r: i32)
        ensures
            r as int == self@.x,
    {
        self.x
    }

    /// The anchor's row.
    pub fn anchor_y(&self) -> (r: i32)
        ensures
            r as int == self@.y,
    {
        self.y
    }

    /// The `i`-th cell: its offsets from the anchor and its block.
    pub fn block(&self, i: usize) -> (r: (i32, i32, Block))
        requires
            piece_wf(self@),
            i < 4,
        ensures
            cell_view(r) == self@.cells[i as int],
    {
        self.blocks[i]
    }
}

} // verus!
