//! Properties of the engine that relate its operations, proved over the
//! spec functions their contracts use.

use vstd::prelude::*;

use crate::grid::{index_spec, Grid};
use crate::phase::{light_bit, next_phase_spec, valid_phase, PHASE_TURN};
use crate::topology::{pos, torus_neighbors};

verus! {

/// Every update step keeps a phase on the circle [0, PHASE_TURN), whatever
/// the phase, frequency and sines it starts from.
pub proof fn law_step_stays_on_circle(phase: int, frequency: int, sines: Seq<i32>)
    ensures
        valid_phase(next_phase_spec(phase, frequency, sines)),
{
}

/// A tick keeps every agent of a well-formed grid on the circle: the grid
/// it leaves is well formed again.
pub proof fn law_tick_keeps_grid_well_formed(g: Grid, row: int, col: int, sines: Seq<i32>)
    requires
        g.wf(),
        0 <= row < g.num_rows(),
        0 <= col < g.num_cols(),
    ensures
        g.ticked(row, col, sines).len() == g.states().len(),
        forall|k: int| 0 <= k < g.states().len() ==> valid_phase(#[trigger] g.ticked(row, col, sines)[k].phase as int),
{
    let k0 = index_spec(row, col, g.num_cols());
    assert(0 <= k0 < g.states().len()) by (nonlinear_arith)
        requires
            k0 == row * g.num_cols() + col,
            0 <= row < g.num_rows(),
            0 <= col < g.num_cols(),
            g.states().len() == g.num_rows() * g.num_cols(),
    ;
    assert forall|k: int| 0 <= k < g.states().len() implies valid_phase(#[trigger] g.ticked(row, col, sines)[k].phase as int) by {
        if k == k0 {
            let s = g.state_of(row, col);
            law_step_stays_on_circle(s.phase as int, s.frequency as int, sines);
        } else {
            assert(g.states()[k].wf());
        }
    }
}

/// On a torus of at least two rows and two columns the neighbours of the
/// origin are, in order, the last row, the second row, the last column and
/// the second column.
pub proof fn law_origin_neighbors(rows: int, cols: int)
    requires
        rows >= 2,
        cols >= 2,
        rows <= usize::MAX,
        cols <= usize::MAX,
    ensures
        torus_neighbors(0, 0, rows, cols) == seq![pos(rows - 1, 0), pos(1, 0), pos(0, cols - 1), pos(0, 1)],
{
    vstd::arithmetic::div_mod::lemma_fundamental_div_mod_converse(-1, rows, -1, rows - 1);
    vstd::arithmetic::div_mod::lemma_fundamental_div_mod_converse(-1, cols, -1, cols - 1);
    vstd::arithmetic::div_mod::lemma_fundamental_div_mod_converse(1, rows, 0, 1);
    vstd::arithmetic::div_mod::lemma_fundamental_div_mod_converse(1, cols, 0, 1);
    vstd::arithmetic::div_mod::lemma_fundamental_div_mod_converse(0, rows, 0, 0);
    vstd::arithmetic::div_mod::lemma_fundamental_div_mod_converse(0, cols, 0, 0);
    assert(torus_neighbors(0, 0, rows, cols) =~= seq![pos(rows - 1, 0), pos(1, 0), pos(0, cols - 1), pos(0, 1)]);
}

/// On a single-cell torus all four neighbours of the cell are the cell
/// itself.
pub proof fn law_single_cell_neighbors()
    ensures
        torus_neighbors(0, 0, 1, 1) == seq![pos(0, 0), pos(0, 0), pos(0, 0), pos(0, 0)],
{
    vstd::arithmetic::div_mod::lemma_fundamental_div_mod_converse(-1, 1, -1, 0);
    vstd::arithmetic::div_mod::lemma_fundamental_div_mod_converse(1, 1, 1, 0);
    vstd::arithmetic::div_mod::lemma_fundamental_div_mod_converse(0, 1, 0, 0);
    assert(torus_neighbors(0, 0, 1, 1) =~= seq![pos(0, 0), pos(0, 0), pos(0, 0), pos(0, 0)]);
}

/// A freshly set-up grid shows, in each row, exactly the lights of its own
/// phase draws: nothing of an earlier grid shows through.
pub proof fn law_fresh_grid_lights(g: Grid, rows: int, cols: int, phase_draws: Seq<u32>, frequency_draws: Seq<u32>, i: int)
    requires
        g.seeded(rows, cols, phase_draws, frequency_draws),
        0 <= i < rows,
    ensures
        g.row_lights(i) == Seq::new(cols as nat, |j: int| light_bit((phase_draws[i * cols + j] % PHASE_TURN) as int)),
        forall|j: int| 0 <= j < cols ==> #[trigger] g.row_lights(i)[j] == 0 || g.row_lights(i)[j] == 1,
{
    assert forall|j: int| 0 <= j < cols implies #[trigger] g.row_lights(i)[j]
        == light_bit((phase_draws[i * cols + j] % PHASE_TURN) as int) by {
        assert(0 <= i * cols + j < rows * cols) by (nonlinear_arith)
            requires
                0 <= i < rows,
                0 <= j < cols,
        ;
        assert(g.states()[i * cols + j] == Grid::seeded_state(phase_draws[i * cols + j], frequency_draws[i * cols + j]));
    }
    assert(g.row_lights(i) =~= Seq::new(cols as nat, |j: int| light_bit((phase_draws[i * cols + j] % PHASE_TURN) as int)));
}

} // verus!
