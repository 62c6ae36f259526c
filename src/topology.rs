//! The torus lattice: positions, row-major indices and the four neighbours
//! of a cell, with wraparound on both axes.

use vstd::prelude::*;

verus! {

/// A cell of the grid, 0-indexed.
#[derive(Clone, Copy, Debug, PartialEq, Eq, Structural)]
pub struct Position {
    pub row: usize,
    pub col: usize,
}

/// The position `(row, col)` as a spec value.
pub open spec fn pos(row: int, col: int) -> Position {
    Position { row: row as usize, col: col as usize }
}

/// The four neighbours of `(r, c)` on an `rows` x `cols` torus, in the
/// fixed order up, down, left, right.
pub open spec fn torus_neighbors(r: int, c: int, rows: int, cols: int) -> Seq<Position> {
    seq![
        pos((r - 1) % rows, c % cols),
        pos((r + 1) % rows, c % cols),
        pos(r % rows, (c - 1) % cols),
        pos(r % rows, (c + 1) % cols),
    ]
}

/// Stepping by one around a cycle of length `n` moves the remainder by one,
/// wrapping at the ends.
proof fn lemma_step_mod(i: int, n: int)
    requires
        i >= 0,
        n >= 1,
    ensures
        (i - 1) % n == (if i % n == 0 { n - 1 } else { i % n - 1 }),
        (i + 1) % n == (if i % n == n - 1 { 0 } else { i % n + 1 }),
{
    let q = i / n;
    let k = i % n;
    vstd::arithmetic::div_mod::lemma_fundamental_div_mod(i, n);
    assert((q - 1) * n == q * n - n) by (nonlinear_arith);
    assert((q + 1) * n == q * n + n) by (nonlinear_arith);
    if k == 0 {
        vstd::arithmetic::div_mod::lemma_fundamental_div_mod_converse(i - 1, n, q - 1, n - 1);
    } else {
        vstd::arithmetic::div_mod::lemma_fundamental_div_mod_converse(i - 1, n, q, k - 1);
    }
    if k == n - 1 {
        vstd::arithmetic::div_mod::lemma_fundamental_div_mod_converse(i + 1, n, q + 1, 0);
    } else {
        vstd::arithmetic::div_mod::lemma_fundamental_div_mod_converse(i + 1, n, q, k + 1);
    }
}

/// Steps one place back on a cycle of length `n`.
fn wrap_dec(i: usize, n: usize) -> (r: usize)
    requires
        n >= 1,
    ensures
        r == (i - 1) % (n as int),
        r < n,
{
    let k = i % n;
    proof {
        lemma_step_mod(i as int, n as int);
    }
    if k == 0 {
        n - 1
    } else {
        k - 1
    }
}

/// Steps one place forward on a cycle of length `n`.
fn wrap_inc(i: usize, n: usize) -> (r: usize)
    requires
        n >= 1,
    ensures
        r == (i + 1) % (n as int),
        r < n,
{
    let k = i % n;
    proof {
        lemma_step_mod(i as int, n as int);
    }
    if k + 1 == n {
        0
    } else {
        k + 1
    }
}

/// The four torus neighbours of `p` (up, down, left, right). Total for any
/// position once the grid has at least one row and one column; on a grid
/// with a single row or column a cell may be its own neighbour.
pub fn neighbors_of(p: Position, rows: usize, cols: usize) -> (r: Vec<Position>)
    requires
        rows >= 1,
        cols >= 1,
    ensures
        r@ == torus_neighbors(p.row as int, p.col as int, rows as int, cols as int),
        forall|k: int| 0 <= k < 4 ==> r@[k].row < rows && r@[k].col < cols,
{
    let row = p.row % rows;
    let col = p.col % cols;
    let up = Position { row: wrap_dec(p.row, rows), col };
    let down = Position { row: wrap_inc(p.row, rows), col };
    let left = Position { row, col: wrap_dec(p.col, cols) };
    let right = Position { row, col: wrap_inc(p.col, cols) };
    let r = vec![up, down, left, right];
    assert(r@ =~= torus_neighbors(p.row as int, p.col as int, rows as int, cols as int));
    r
}

} // verus!
