//! The discrete cascade mode: each cell is only lit or unlit. A blink lights
//! the cell that receives it and is forwarded to its four neighbours; a
//! one-shot timer, run by the host, later puts the cell out. There is no
//! phase, no natural frequency and no damping.

use vstd::prelude::*;

use crate::error::EngineError;
use crate::grid::{in_grid, index_spec};
use crate::topology::{neighbors_of, torus_neighbors, Position};

verus! {

/// A rows x cols torus of on/off cells, stored row-major.
#[derive(Debug)]
pub struct CascadeGrid {
    rows: usize,
    cols: usize,
    lights: Vec<bool>,
}

impl CascadeGrid {
    /// The number of rows.
    pub closed spec fn num_rows(&self) -> int {
        self.rows as int
    }

    /// The number of columns.
    pub closed spec fn num_cols(&self) -> int {
        self.cols as int
    }

    /// The light of each cell, row-major.
    pub closed spec fn lights(&self) -> Seq<bool> {
        self.lights@
    }

    /// At least one row and one column, and one light per cell.
    pub open spec fn wf(&self) -> bool {
        &&& self.num_rows() >= 1
        &&& self.num_cols() >= 1
        &&& self.lights().len() == self.num_rows() * self.num_cols()
    }

    /// Whether the cell at `(row, col)` is lit.
    pub open spec fn lit_at(&self, row: int, col: int) -> bool {
        self.lights()[index_spec(row, col, self.num_cols())]
    }

    /// A `rows` x `cols` grid with every cell unlit. Fails with
    /// `InvalidDimensions` when either dimension is zero.
    pub fn setup(rows: usize, cols: usize) -> (r: Result<CascadeGrid, EngineError>)
        requires
            rows * cols <= usize::MAX,
        ensures
            r is Err <==> rows == 0 || cols == 0,
            r is Err ==> r == Err::<CascadeGrid, EngineError>(EngineError::InvalidDimensions),
            r matches Ok(g) ==> {
                &&& g.wf()
                &&& g.num_rows() == rows
                &&& g.num_cols() == cols
                &&& forall|k: int| 0 <= k < g.lights().len() ==> !(#[trigger] g.lights()[k])
            },
    {
        if rows == 0 || cols == 0 {
            return Err(EngineError::InvalidDimensions);
        }
        let n = rows * cols;
        let mut lights: Vec<bool> = Vec::with_capacity(n);
        let mut k: usize = 0;
        while k < n
            invariant
                k <= n,
                lights@.len() == k,
                forall|j: int| 0 <= j < k ==> !(#[trigger] lights@[j]),
            decreases n - k,
        {
            lights.push(false);
            k = k + 1;
        }
        Ok(CascadeGrid { rows, cols, lights })
    }

    /// The row-major index of an in-grid position.
    fn index_of(&self, p: Position) -> (r: usize)
        requires
            self.wf(),
            in_grid(p.row as int, p.col as int, self.num_rows(), self.num_cols()),
        ensures
            r == index_spec(p.row as int, p.col as int, self.num_cols()),
            r < self.lights().len(),
    {
        let n = self.lights.len();
        assert(p.row * self.cols + p.col < self.rows * self.cols) by (nonlinear_arith)
            requires
                p.row < self.rows,
                p.col < self.cols,
        ;
        assert(p.row * self.cols + p.col >= 0) by (nonlinear_arith)
            requires
                p.row >= 0,
                p.col >= 0,
                self.cols >= 0,
        ;
        p.row * self.cols + p.col
    }

    /// The cell that a stimulus with this draw lands on: the draw taken
    /// modulo the number of cells, as a row-major index.
    pub fn stimulus_target(&self, draw: u64) -> (r: Position)
        requires
            self.wf(),
        ensures
            in_grid(r.row as int, r.col as int, self.num_rows(), self.num_cols()),
            index_spec(r.row as int, r.col as int, self.num_cols()) == (draw as int) % (self.lights().len() as int),
    {
        assert(self.rows * self.cols >= 1) by (nonlinear_arith)
            requires
                self.rows >= 1,
                self.cols >= 1,
        ;
        let n = self.lights.len() as u64;
        let k = (draw % n) as usize;
        let row = k / self.cols;
        let col = k % self.cols;
        proof {
            vstd::arithmetic::div_mod::lemma_fundamental_div_mod(k as int, self.cols as int);
            assert(row < self.rows) by (nonlinear_arith)
                requires
                    k < self.rows * self.cols,
                    k == self.cols * row + col,
                    0 <= col,
                    self.cols >= 1,
            ;
            assert(row * self.cols == self.cols * row) by (nonlinear_arith);
        }
        Position { row, col }
    }

    /// A blink reaches `p`: the cell is lit, every other cell is left as it
    /// was, and the four neighbours to forward the blink to are returned,
    /// up, down, left, right.
    pub fn on_blink(&mut self, p: Position) -> (r: Vec<Position>)
        requires
            old(self).wf(),
            in_grid(p.row as int, p.col as int, old(self).num_rows(), old(self).num_cols()),
        ensures
            final(self).wf(),
            final(self).num_rows() == old(self).num_rows(),
            final(self).num_cols() == old(self).num_cols(),
            final(self).lights() == old(self).lights().update(index_spec(p.row as int, p.col as int, old(self).num_cols()), true),
            r@ == torus_neighbors(p.row as int, p.col as int, old(self).num_rows(), old(self).num_cols()),
    {
        let k = self.index_of(p);
        self.lights.set(k, true);
        neighbors_of(p, self.rows, self.cols)
    }

    /// The timer of `p` fires: the cell is put out, every other cell is left
    /// as it was.
    pub fn on_timer(&mut self, p: Position)
        requires
            old(self).wf(),
            in_grid(p.row as int, p.col as int, old(self).num_rows(), old(self).num_cols()),
        ensures
            final(self).wf(),
            final(self).num_rows() == old(self).num_rows(),
            final(self).num_cols() == old(self).num_cols(),
            final(self).lights() == old(self).lights().update(index_spec(p.row as int, p.col as int, old(self).num_cols()), false),
    {
        let k = self.index_of(p);
        self.lights.set(k, false);
    }

    /// The lights of row `i`: 1 where the cell is lit. Fails with
    /// `IndexOutOfRange` when `i` is not a row of the grid.
    pub fn snapshot_row(&self, i: usize) -> (r: Result<Vec<u8>, EngineError>)
        requires
            self.wf(),
        ensures
            r is Err <==> i >= self.num_rows(),
            r is Err ==> r == Err::<Vec<u8>, EngineError>(EngineError::IndexOutOfRange),
            r matches Ok(v) ==> v@ == Seq::new(self.num_cols() as nat, |j: int| if self.lit_at(i as int, j) { 1u8 } else { 0u8 }),
    {
        if i >= self.rows {
            return Err(EngineError::IndexOutOfRange);
        }
        let mut out: Vec<u8> = Vec::with_capacity(self.cols);
        let mut j: usize = 0;
        while j < self.cols
            invariant
                self.wf(),
                i < self.num_rows(),
                j <= self.cols,
                out@.len() == j,
                forall|m: int| 0 <= m < j ==> #[trigger] out@[m] == (if self.lit_at(i as int, m) { 1u8 } else { 0u8 }),
            decreases self.cols - j,
        {
            let k = self.index_of(Position { row: i, col: j });
            out.push(if self.lights[k] { 1 } else { 0 });
            j = j + 1;
        }
        assert(out@ =~= Seq::new(self.num_cols() as nat, |j: int| if self.lit_at(i as int, j) { 1u8 } else { 0u8 }));
        Ok(out)
    }
}

} // verus!
