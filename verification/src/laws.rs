//! Proofs of the global properties of the engine: legality of horizontal
//! moves, the behaviour of rotation under repetition, free descent on an
//! empty board, and what a lock writes into the grid.

use vstd::prelude::*;

use crate::block::BlockColor;
use crate::board::BOARD_HEIGHT;
use crate::board::BOARD_WIDTH;
use crate::board::BoardV;
use crate::board::board_empty;
use crate::board::board_wf;
use crate::board::place_cells;
use crate::board::place_piece;
use crate::game::GameV;
use crate::game::down_step;
use crate::game::game_parts_wf;
use crate::game::lock_safe;
use crate::piece::PieceV;
use crate::piece::TetrominoShape;
use crate::piece::cell_collides;
use crate::piece::cells_distinct;
use crate::piece::piece_collides;
use crate::piece::piece_in_grid;
use crate::piece::piece_wf;
use crate::piece::rot_cell;
use crate::piece::rotated_cells;
use crate::piece::shape_cells;
use crate::piece::spawn_piece;
use crate::piece::try_rotate;
use crate::piece::try_shift;

verus! {

/// A horizontal move of a legally placed piece leaves every cell inside the
/// side bounds and off every occupied board cell, whether the move went
/// through or was undone.
pub proof fn lemma_horizontal_move_keeps_piece_legal(p: PieceV, b: BoardV, dx: int)
    requires
        !piece_collides(p, b),
        dx == -1 || dx == 1,
    ensures
        ({
            let q = try_shift(p, b, dx, 0);
            forall|i: int|
                0 <= i < q.cells.len() ==> {
                    let c = #[trigger] q.cells[i];
                    &&& 0 <= q.x + c.0 < BOARD_WIDTH as int
                    &&& !(q.y + c.1 >= 0 && b[q.x + c.0][q.y + c.1] is Some)
                }
        }),
{
    let q = try_shift(p, b, dx, 0);
    assert(!piece_collides(q, b));
    assert forall|i: int|
        0 <= i < q.cells.len() implies {
        let c = #[trigger] q.cells[i];
        &&& 0 <= q.x + c.0 < BOARD_WIDTH as int
        &&& !(q.y + c.1 >= 0 && b[q.x + c.0][q.y + c.1] is Some)
    } by {
        assert(!cell_collides(b, q.x + q.cells[i].0, q.y + q.cells[i].1));
    }
}

/// Four quarter turns return every cell offset to where it started.
pub proof fn lemma_four_rotations_restore_cells(cells: Seq<(int, int, BlockColor)>)
    ensures
        rotated_cells(rotated_cells(rotated_cells(rotated_cells(cells)))) == cells,
{
    let r1 = rotated_cells(cells);
    let r2 = rotated_cells(r1);
    let r3 = rotated_cells(r2);
    let r4 = rotated_cells(r3);
    assert forall|i: int| 0 <= i < cells.len() implies r4[i] == cells[i] by {
        assert(r1[i] == rot_cell(cells[i]));
        assert(r2[i] == rot_cell(r1[i]));
        assert(r3[i] == rot_cell(r2[i]));
        assert(r4[i] == rot_cell(r3[i]));
    }
    assert(r4 =~= cells);
}

/// Rotating a legally placed piece four times in a row, with every rotation
/// collision-free at the unshifted anchor (so no wall-kick and no revert
/// fires), returns the piece exactly to its original state.
pub proof fn lemma_four_rotations_restore_piece(p: PieceV, b: BoardV)
    requires
        !piece_collides(p, b),
        !piece_collides(p.rotated(), b),
        !piece_collides(p.rotated().rotated(), b),
        !piece_collides(p.rotated().rotated().rotated(), b),
    ensures
        try_rotate(try_rotate(try_rotate(try_rotate(p, b), b), b), b) == p,
{
    let p1 = try_rotate(p, b);
    assert(p1 == p.rotated());
    let p2 = try_rotate(p1, b);
    assert(p2 == p.rotated().rotated());
    let p3 = try_rotate(p2, b);
    assert(p3 == p.rotated().rotated().rotated());
    lemma_four_rotations_restore_cells(p.cells);
    assert(p3.rotated() == p);
    let p4 = try_rotate(p3, b);
    assert(p4 == p);
}

/// On an empty board a legally placed piece descends freely: the next step
/// down is blocked exactly when some cell would land below the bottom row.
pub proof fn lemma_descent_on_empty_board(p: PieceV, b: BoardV)
    requires
        board_wf(b),
        board_empty(b),
        !piece_collides(p, b),
    ensures
        piece_collides(p.shifted(0, 1), b) <==> (exists|i: int|
            0 <= i < p.cells.len() && p.y + (#[trigger] p.cells[i]).1 + 1 >= BOARD_HEIGHT as int),
{
    let q = p.shifted(0, 1);
    if piece_collides(q, b) {
        let i = choose|i: int|
            0 <= i < q.cells.len() && cell_collides(
                b,
                q.x + (#[trigger] q.cells[i]).0,
                q.y + q.cells[i].1,
            );
        assert(!cell_collides(b, p.x + p.cells[i].0, p.y + p.cells[i].1));
        if q.y + q.cells[i].1 < BOARD_HEIGHT as int && 0 <= q.y + q.cells[i].1 {
            assert(b[q.x + q.cells[i].0][q.y + q.cells[i].1] is None);
        }
        assert(p.y + p.cells[i].1 + 1 >= BOARD_HEIGHT as int);
    }
    if exists|i: int|
        0 <= i < p.cells.len() && p.y + (#[trigger] p.cells[i]).1 + 1 >= BOARD_HEIGHT as int {
        let i = choose|i: int|
            0 <= i < p.cells.len() && p.y + (#[trigger] p.cells[i]).1 + 1 >= BOARD_HEIGHT as int;
        assert(cell_collides(b, q.x + q.cells[i].0, q.y + q.cells[i].1));
    }
}

/// Writing the first `n` cells never changes the grid's dimensions.
proof fn lemma_place_cells_dims(g: BoardV, p: PieceV, n: int)
    requires
        board_wf(g),
        piece_wf(p),
        piece_in_grid(p),
        0 <= n <= p.cells.len(),
    ensures
        board_wf(place_cells(g, p, n)),
    decreases n,
{
    if n > 0 {
        lemma_place_cells_dims(g, p, n - 1);
        let h = place_cells(g, p, n - 1);
        let c = p.cells[n - 1];
        assert(0 <= p.x + c.0 < BOARD_WIDTH as int && 0 <= p.y + c.1 < BOARD_HEIGHT as int);
        assert forall|x: int|
            0 <= x < place_cells(g, p, n).len() implies (#[trigger] place_cells(g, p, n)[x]).len()
            == BOARD_HEIGHT by {
            if x == p.x + c.0 {
                assert(place_cells(g, p, n)[x] == h[x].update(p.y + c.1, Some(c.2)));
            } else {
                assert(place_cells(g, p, n)[x] == h[x]);
            }
        }
    }
}

/// A grid cell that none of the first `n` written cells lands on keeps its
/// previous content.
proof fn lemma_place_cells_frame(g: BoardV, p: PieceV, n: int, x: int, y: int)
    requires
        board_wf(g),
        piece_wf(p),
        piece_in_grid(p),
        0 <= n <= p.cells.len(),
        0 <= x < BOARD_WIDTH as int,
        0 <= y < BOARD_HEIGHT as int,
        forall|k: int|
            0 <= k < n ==> !(p.x + (#[trigger] p.cells[k]).0 == x && p.y + p.cells[k].1 == y),
    ensures
        place_cells(g, p, n)[x][y] == g[x][y],
    decreases n,
{
    if n > 0 {
        lemma_place_cells_frame(g, p, n - 1, x, y);
        lemma_place_cells_dims(g, p, n - 1);
        let h = place_cells(g, p, n - 1);
        let c = p.cells[n - 1];
        assert(!(p.x + c.0 == x && p.y + c.1 == y));
        if p.x + c.0 == x {
            assert(place_cells(g, p, n)[x] == h[x].update(p.y + c.1, Some(c.2)));
            assert(place_cells(g, p, n)[x][y] == h[x][y]);
        } else {
            assert(place_cells(g, p, n)[x] == h[x]);
        }
    }
}

/// After the first `n` cells are written, cell `i` of the piece, whose
/// offset no later written cell repeats, reads back with its color.
proof fn lemma_place_cells_cell(g: BoardV, p: PieceV, n: int, i: int)
    requires
        board_wf(g),
        piece_wf(p),
        piece_in_grid(p),
        cells_distinct(p.cells),
        0 <= i < n <= p.cells.len(),
    ensures
        place_cells(g, p, n)[p.x + p.cells[i].0][p.y + p.cells[i].1] == Some(p.cells[i].2),
    decreases n,
{
    lemma_place_cells_dims(g, p, n - 1);
    let h = place_cells(g, p, n - 1);
    let c = p.cells[n - 1];
    let ci = p.cells[i];
    assert(0 <= p.x + c.0 < BOARD_WIDTH as int && 0 <= p.y + c.1 < BOARD_HEIGHT as int);
    assert(0 <= p.x + ci.0 < BOARD_WIDTH as int && 0 <= p.y + ci.1 < BOARD_HEIGHT as int);
    if i == n - 1 {
        assert(place_cells(g, p, n)[p.x + c.0] == h[p.x + c.0].update(p.y + c.1, Some(c.2)));
    } else {
        lemma_place_cells_cell(g, p, n - 1, i);
        assert(((ci).0, ci.1) != ((c).0, c.1));
        if p.x + c.0 == p.x + ci.0 {
            assert(place_cells(g, p, n)[p.x + ci.0] == h[p.x + ci.0].update(p.y + c.1, Some(c.2)));
            assert(p.y + c.1 != p.y + ci.1);
        } else {
            assert(place_cells(g, p, n)[p.x + ci.0] == h[p.x + ci.0]);
        }
    }
}

/// A lock writes exactly the piece: afterwards each of its cells, laid at
/// pairwise distinct offsets, reads back as occupied with that cell's color,
/// and every grid cell the piece does not land on holds what it held before.
pub proof fn lemma_lock_writes_cells(g: BoardV, p: PieceV)
    requires
        board_wf(g),
        piece_wf(p),
        piece_in_grid(p),
        cells_distinct(p.cells),
    ensures
        board_wf(place_piece(g, p)),
        forall|i: int|
            0 <= i < p.cells.len() ==> {
                let c = #[trigger] p.cells[i];
                place_piece(g, p)[p.x + c.0][p.y + c.1] == Some(c.2)
            },
        forall|x: int, y: int|
            0 <= x < BOARD_WIDTH as int && 0 <= y < BOARD_HEIGHT as int && !(exists|i: int|
                0 <= i < p.cells.len() && p.x + (#[trigger] p.cells[i]).0 == x && p.y
                    + p.cells[i].1 == y) ==> #[trigger] place_piece(g, p)[x][y] == g[x][y],
{
    lemma_place_cells_dims(g, p, p.cells.len() as int);
    assert forall|i: int|
        0 <= i < p.cells.len() implies {
        let c = #[trigger] p.cells[i];
        place_piece(g, p)[p.x + c.0][p.y + c.1] == Some(c.2)
    } by {
        lemma_place_cells_cell(g, p, p.cells.len() as int, i);
    }
    assert forall|x: int, y: int|
        0 <= x < BOARD_WIDTH as int && 0 <= y < BOARD_HEIGHT as int && !(exists|i: int|
            0 <= i < p.cells.len() && p.x + (#[trigger] p.cells[i]).0 == x && p.y + p.cells[i].1
                == y) implies #[trigger] place_piece(g, p)[x][y] == g[x][y] by {
        lemma_place_cells_frame(g, p, p.cells.len() as int, x, y);
    }
}

/// After a descent step that locks (one step down from the piece's position
/// collided), the new active piece stands at the fixed spawn anchor and each
/// cell of the previously active piece reads back from the board as occupied
/// with that cell's color, at its pre-lock position.
pub proof fn lemma_lock_step_outcome(pre: GameV, post: GameV)
    requires
        game_parts_wf(pre),
        lock_safe(pre),
        down_step(pre, post),
        piece_collides(pre.piece.shifted(0, 1), pre.board),
    ensures
        post.piece.x == 4 && post.piece.y == 0,
        forall|i: int|
            0 <= i < pre.piece.cells.len() ==> {
                let c = #[trigger] pre.piece.cells[i];
                post.board[pre.piece.x + c.0][pre.piece.y + c.1] == Some(c.2)
            },
{
    let s = choose|s: TetrominoShape| post.piece == spawn_piece(s);
    assert(post.piece == spawn_piece(s));
    lemma_lock_writes_cells(pre.board, pre.piece);
}

/// The set of offsets a cell sequence occupies.
pub open spec fn offset_set(cells: Seq<(int, int, BlockColor)>) -> Set<(int, int)> {
    Set::new(
        |o: (int, int)|
            exists|i: int| 0 <= i < cells.len() && ((#[trigger] cells[i]).0, cells[i].1) == o,
    )
}

/// Rotating the square shape does not leave its offset set unchanged: the
/// quarter turn about the anchor carries the square, which spans the rows
/// just above and at the anchor, to exactly the same set of offsets one row
/// further down.
pub proof fn lemma_o_rotation_shifts_square_down(o: (int, int))
    ensures
        offset_set(rotated_cells(shape_cells(TetrominoShape::O))).contains(o) <==> offset_set(
            shape_cells(TetrominoShape::O),
        ).contains((o.0, o.1 - 1)),
{
    let cells = shape_cells(TetrominoShape::O);
    let r = rotated_cells(cells);
    assert(r =~= seq![
        (1, 0, BlockColor::Yellow),
        (1, 1, BlockColor::Yellow),
        (0, 0, BlockColor::Yellow),
        (0, 1, BlockColor::Yellow),
    ]);
    if offset_set(r).contains(o) {
        let i = choose|i: int| 0 <= i < r.len() && (((#[trigger] r[i]).0, r[i].1) == o);
        if i == 0 {
            assert(((cells[1]).0, cells[1].1) == (o.0, o.1 - 1));
        } else if i == 1 {
            assert(((cells[3]).0, cells[3].1) == (o.0, o.1 - 1));
        } else if i == 2 {
            assert(((cells[0]).0, cells[0].1) == (o.0, o.1 - 1));
        } else {
            assert(((cells[2]).0, cells[2].1) == (o.0, o.1 - 1));
        }
    }
    if offset_set(cells).contains((o.0, o.1 - 1)) {
        let i = choose|i: int|
            0 <= i < cells.len() && (((#[trigger] cells[i]).0, cells[i].1) == (o.0, o.1 - 1));
        if i == 0 {
            assert(((r[2]).0, r[2].1) == o);
        } else if i == 1 {
            assert(((r[0]).0, r[0].1) == o);
        } else if i == 2 {
            assert(((r[3]).0, r[3].1) == o);
        } else {
            assert(((r[1]).0, r[1].1) == o);
        }
    }
}

} // verus!
