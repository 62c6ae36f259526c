//! The grid: a row-major arena of agent states on a torus, with lookup by
//! position, a binarized row snapshot and the per-cell update step.

use vstd::prelude::*;

use crate::error::EngineError;
use crate::phase::{
    frequency_from_draw, frequency_of_draw, light_bit, light_of, next_phase, next_phase_spec,
    phase_offset, valid_sines, AgentState, PHASE_TURN,
};
use crate::topology::{neighbors_of, torus_neighbors, Position};

verus! {

/// `(row, col)` lies in a `rows` x `cols` grid.
pub open spec fn in_grid(row: int, col: int, rows: int, cols: int) -> bool {
    0 <= row < rows && 0 <= col < cols
}

/// The row-major index of `(row, col)`.
pub open spec fn index_spec(row: int, col: int, cols: int) -> int {
    row * cols + col
}

/// A row-major index of an in-grid cell stays below `rows * cols`.
proof fn lemma_index_in_bounds(row: int, col: int, rows: int, cols: int)
    requires
        in_grid(row, col, rows, cols),
    ensures
        0 <= index_spec(row, col, cols) < rows * cols,
        row * cols + cols <= rows * cols,
{
    assert(row * cols + cols <= rows * cols) by (nonlinear_arith)
        requires
            row + 1 <= rows,
            cols >= 0,
    ;
    assert(row * cols >= 0) by (nonlinear_arith)
        requires
            row >= 0,
            cols >= 0,
    ;
}

/// A rows x cols grid of agents, stored row-major.
#[derive(Debug)]
pub struct Grid {
    rows: usize,
    cols: usize,
    cells: Vec<AgentState>,
}

impl Grid {
    /// The number of rows.
    pub closed spec fn num_rows(&self) -> int {
        self.rows as int
    }

    /// The number of columns.
    pub closed spec fn num_cols(&self) -> int {
        self.cols as int
    }

    /// The agent states, row-major.
    pub closed spec fn states(&self) -> Seq<AgentState> {
        self.cells@
    }

    /// The state of the agent at `(row, col)`.
    pub open spec fn state_of(&self, row: int, col: int) -> AgentState {
        self.states()[index_spec(row, col, self.num_cols())]
    }

    /// At least one row and one column, one state per cell, and every
    /// state well formed: in particular every phase lies in [0, PHASE_TURN).
    pub open spec fn wf(&self) -> bool {
        &&& self.num_rows() >= 1
        &&& self.num_cols() >= 1
        &&& self.states().len() == self.num_rows() * self.num_cols()
        &&& forall|k: int| 0 <= k < self.states().len() ==> (#[trigger] self.states()[k]).wf()
    }

    /// The state that setup gives a cell from its phase and frequency draws.
    pub open spec fn seeded_state(phase_draw: u32, frequency_draw: u32) -> AgentState {
        AgentState {
            phase: (phase_draw % PHASE_TURN) as u32,
            frequency: frequency_of_draw(frequency_draw as int) as u32,
        }
    }

    /// This is the well-formed `rows` x `cols` grid that setup builds from
    /// the draws.
    pub open spec fn seeded(&self, rows: int, cols: int, phase_draws: Seq<u32>, frequency_draws: Seq<u32>) -> bool {
        &&& self.wf()
        &&& self.num_rows() == rows
        &&& self.num_cols() == cols
        &&& forall|k: int| 0 <= k < rows * cols ==> #[trigger] self.states()[k]
            == Grid::seeded_state(phase_draws[k], frequency_draws[k])
    }

    /// The light row `i`: one bit per column, 1 where the phase is lit.
    pub open spec fn row_lights(&self, i: int) -> Seq<u8> {
        Seq::new(self.num_cols() as nat, |j: int| light_bit(self.state_of(i, j).phase as int))
    }

    /// The grid after agent `(row, col)` has taken one update step with the
    /// given sines.
    pub open spec fn ticked(&self, row: int, col: int, sines: Seq<i32>) -> Seq<AgentState> {
        let s = self.state_of(row, col);
        self.states().update(
            index_spec(row, col, self.num_cols()),
            AgentState {
                phase: next_phase_spec(s.phase as int, s.frequency as int, sines) as u32,
                frequency: s.frequency,
            },
        )
    }

    /// Builds a `rows` x `cols` grid; cell `k` (row-major) takes its phase
    /// from `phase_draws[k]` and its natural frequency from
    /// `frequency_draws[k]`. Fails with `InvalidDimensions` when either
    /// dimension is zero.
    pub fn setup(rows: usize, cols: usize, phase_draws: &Vec<u32>, frequency_draws: &Vec<u32>) -> (r: Result<Grid, EngineError>)
        requires
            phase_draws@.len() == rows * cols,
            frequency_draws@.len() == rows * cols,
        ensures
            r is Err <==> rows == 0 || cols == 0,
            r is Err ==> r == Err::<Grid, EngineError>(EngineError::InvalidDimensions),
            r matches Ok(g) ==> g.seeded(rows as int, cols as int, phase_draws@, frequency_draws@),
    {
        if rows == 0 || cols == 0 {
            return Err(EngineError::InvalidDimensions);
        }
        let n = phase_draws.len();
        let mut cells: Vec<AgentState> = Vec::with_capacity(n);
        let mut k: usize = 0;
        while k < n
            invariant
                n == rows * cols,
                phase_draws@.len() == n,
                frequency_draws@.len() == n,
                k <= n,
                cells@.len() == k,
                forall|j: int| 0 <= j < k ==> #[trigger] cells@[j]
                    == Grid::seeded_state(phase_draws@[j], frequency_draws@[j]),
                forall|j: int| 0 <= j < k ==> (#[trigger] cells@[j]).wf(),
            decreases n - k,
        {
            let state = AgentState {
                phase: phase_draws[k] % PHASE_TURN,
                frequency: frequency_from_draw(frequency_draws[k]),
            };
            cells.push(state);
            k = k + 1;
        }
        Ok(Grid { rows, cols, cells })
    }

    /// The number of rows.
    pub fn rows(&self) -> (r: usize)
        ensures
            r == self.num_rows(),
    {
        self.rows
    }

    /// The number of columns.
    pub fn cols(&self) -> (r: usize)
        ensures
            r == self.num_cols(),
    {
        self.cols
    }

    /// The row-major index of an in-grid position.
    pub fn index_of(&self, p: Position) -> (r: usize)
        requires
            self.wf(),
            in_grid(p.row as int, p.col as int, self.num_rows(), self.num_cols()),
        ensures
            r == index_spec(p.row as int, p.col as int, self.num_cols()),
            r < self.states().len(),
    {
        let n = self.cells.len();
        proof {
            lemma_index_in_bounds(p.row as int, p.col as int, self.rows as int, self.cols as int);
        }
        assert(n == self.rows * self.cols);
        p.row * self.cols + p.col
    }

    /// The state of the agent at an in-grid position.
    pub fn state_at(&self, p: Position) -> (r: AgentState)
        requires
            self.wf(),
            in_grid(p.row as int, p.col as int, self.num_rows(), self.num_cols()),
        ensures
            r == self.state_of(p.row as int, p.col as int),
            r.wf(),
    {
        let k = self.index_of(p);
        self.cells[k]
    }

    /// The binarized light pattern of row `i`: `cols` values, 1 where the
    /// phase is above half a turn, 0 elsewhere. Fails with
    /// `IndexOutOfRange` when `i` is not a row of the grid.
    pub fn snapshot_row(&self, i: usize) -> (r: Result<Vec<u8>, EngineError>)
        requires
            self.wf(),
        ensures
            r is Err <==> i >= self.num_rows(),
            r is Err ==> r == Err::<Vec<u8>, EngineError>(EngineError::IndexOutOfRange),
            r matches Ok(v) ==> v@ == self.row_lights(i as int),
            r matches Ok(v) ==> v@.len() == self.num_cols(),
            r matches Ok(v) ==> forall|j: int| 0 <= j < v@.len() ==> #[trigger] v@[j] == 0 || v@[j] == 1,
    {
        if i >= self.rows {
            return Err(EngineError::IndexOutOfRange);
        }
        let n = self.cells.len();
        proof {
            lemma_index_in_bounds(i as int, 0, self.rows as int, self.cols as int);
        }
        assert(n == self.rows * self.cols);
        let base = i * self.cols;
        let mut out: Vec<u8> = Vec::with_capacity(self.cols);
        let mut j: usize = 0;
        while j < self.cols
            invariant
                self.wf(),
                i < self.num_rows(),
                base == index_spec(i as int, 0, self.num_cols()),
                base + self.cols <= self.cells@.len(),
                n == self.cells@.len(),
                j <= self.cols,
                out@.len() == j,
                forall|m: int| 0 <= m < j ==> #[trigger] out@[m]
                    == light_bit(self.state_of(i as int, m).phase as int),
            decreases self.cols - j,
        {
            let bit = light_of(self.cells[base + j].phase);
            out.push(bit);
            j = j + 1;
        }
        assert(out@ =~= self.row_lights(i as int));
        Ok(out)
    }

    /// The four torus neighbours of an in-grid position, up, down, left,
    /// right.
    pub fn neighbors(&self, p: Position) -> (r: Vec<Position>)
        requires
            self.wf(),
        ensures
            r@ == torus_neighbors(p.row as int, p.col as int, self.num_rows(), self.num_cols()),
            forall|k: int| 0 <= k < 4 ==> in_grid(#[trigger] r@[k].row as int, r@[k].col as int, self.num_rows(), self.num_cols()),
    {
        neighbors_of(p, self.rows, self.cols)
    }

    /// The phase of each of the four neighbours of `p`, less `p`'s own phase,
    /// taken around the circle: the differences whose sines drive the next
    /// update step of `p`.
    pub fn neighbor_offsets(&self, p: Position) -> (r: Vec<u32>)
        requires
            self.wf(),
            in_grid(p.row as int, p.col as int, self.num_rows(), self.num_cols()),
        ensures
            r@.len() == 4,
            forall|k: int| 0 <= k < 4 ==> {
                let n = #[trigger] torus_neighbors(p.row as int, p.col as int, self.num_rows(), self.num_cols())[k];
                r@[k] == (self.state_of(n.row as int, n.col as int).phase - self.state_of(p.row as int, p.col as int).phase) % (PHASE_TURN as int)
            },
    {
        let own = self.state_at(p).phase;
        let ns = self.neighbors(p);
        let mut out: Vec<u32> = Vec::with_capacity(4);
        let mut k: usize = 0;
        while k < 4
            invariant
                self.wf(),
                in_grid(p.row as int, p.col as int, self.num_rows(), self.num_cols()),
                own == self.state_of(p.row as int, p.col as int).phase,
                own < PHASE_TURN,
                ns@ == torus_neighbors(p.row as int, p.col as int, self.num_rows(), self.num_cols()),
                forall|m: int| 0 <= m < 4 ==> in_grid(#[trigger] ns@[m].row as int, ns@[m].col as int, self.num_rows(), self.num_cols()),
                k <= 4,
                out@.len() == k,
                forall|m: int| 0 <= m < k ==> #[trigger] out@[m]
                    == (self.state_of(ns@[m].row as int, ns@[m].col as int).phase - own) % (PHASE_TURN as int),
            decreases 4 - k,
        {
            let other = self.state_at(ns[k]).phase;
            out.push(phase_offset(own, other));
            k = k + 1;
        }
        out
    }

    /// One update step of the agent at `p`: its phase becomes
    /// `next_phase_spec` of its phase, its frequency and the sines of its
    /// neighbour offsets; every other agent is left as it was.
    pub fn tick(&mut self, p: Position, sines: [i32; 4])
        requires
            old(self).wf(),
            in_grid(p.row as int, p.col as int, old(self).num_rows(), old(self).num_cols()),
            valid_sines(sines@),
        ensures
            final(self).wf(),
            final(self).num_rows() == old(self).num_rows(),
            final(self).num_cols() == old(self).num_cols(),
            final(self).states() == old(self).ticked(p.row as int, p.col as int, sines@),
    {
        let k = self.index_of(p);
        let s = self.cells[k];
        let phase = next_phase(s.phase, s.frequency, sines);
        self.cells.set(k, AgentState { phase, frequency: s.frequency });
        assert forall|m: int| 0 <= m < self.states().len() implies (#[trigger] self.states()[m]).wf() by {
            if m != k {
                assert(self.states()[m] == old(self).states()[m]);
            }
        }
    }
}

} // verus!
