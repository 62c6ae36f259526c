//! The engine handle: owns at most one live grid, replaces it on setup,
//! releases it on teardown, and tells each agent task what to do on each
//! tick. Agent tasks carry the generation of the grid they were started
//! for, so a task of a replaced grid can neither read nor write the new one.

use vstd::prelude::*;

use crate::error::EngineError;
use crate::grid::{in_grid, Grid};
use crate::phase::{valid_sines, PHASE_TURN};
use crate::topology::{torus_neighbors, Position};

verus! {

/// The life of one agent task.
#[derive(Clone, Copy, Debug, PartialEq, Eq, Structural)]
pub enum AgentStatus {
    Created,
    Running,
    Stopping,
    Stopped,
}

/// The status that follows `s` on a tick where the task has or has not been
/// told to stop.
pub open spec fn next_status_spec(s: AgentStatus, stop: bool) -> AgentStatus {
    match s {
        AgentStatus::Created => if stop { AgentStatus::Stopped } else { AgentStatus::Running },
        AgentStatus::Running => if stop { AgentStatus::Stopping } else { AgentStatus::Running },
        AgentStatus::Stopping => AgentStatus::Stopped,
        AgentStatus::Stopped => AgentStatus::Stopped,
    }
}

impl AgentStatus {
    /// The next status: a created task starts running unless it is told to
    /// stop first; a running task moves to stopping when told to stop; a
    /// stopping task stops; a stopped task stays stopped.
    pub fn advance(self, stop: bool) -> (r: AgentStatus)
        ensures
            r == next_status_spec(self, stop),
    {
        match self {
            AgentStatus::Created => if stop { AgentStatus::Stopped } else { AgentStatus::Running },
            AgentStatus::Running => if stop { AgentStatus::Stopping } else { AgentStatus::Running },
            AgentStatus::Stopping => AgentStatus::Stopped,
            AgentStatus::Stopped => AgentStatus::Stopped,
        }
    }

    /// Whether the task may still touch the grid.
    pub fn is_active(self) -> (r: bool)
        ensures
            r <==> (self == AgentStatus::Created || self == AgentStatus::Running),
    {
        match self {
            AgentStatus::Created | AgentStatus::Running => true,
            _ => false,
        }
    }
}

/// What an agent task does on its next tick.
#[derive(Clone, Debug, PartialEq, Eq)]
pub enum AgentDirective {
    /// Leave the loop: the grid is gone, was replaced, or has no such cell.
    Exit,
    /// Take the sines of these four neighbour offsets (up, down, left,
    /// right) and hand them back to `apply_tick`.
    Update { offsets: Vec<u32> },
}

/// The process-wide simulation: at most one live grid at a time.
#[derive(Debug)]
pub struct Engine {
    grid: Option<Grid>,
    generation: u64,
}

impl Engine {
    /// The live grid, if any.
    pub closed spec fn live(&self) -> Option<Grid> {
        self.grid
    }

    /// The generation of the latest grid set up.
    pub closed spec fn current_generation(&self) -> u64 {
        self.generation
    }

    /// A live grid is well formed.
    pub open spec fn wf(&self) -> bool {
        self.live() matches Some(g) ==> g.wf()
    }

    /// A task of generation `generation` at `p` may act on the live grid.
    pub open spec fn admits(&self, generation: u64, p: Position) -> bool {
        &&& self.live() is Some
        &&& generation == self.current_generation()
        &&& in_grid(p.row as int, p.col as int, self.live()->0.num_rows(), self.live()->0.num_cols())
    }

    /// An engine with no grid.
    pub fn new() -> (r: Engine)
        ensures
            r.wf(),
            r.live() is None,
            r.current_generation() == 0,
    {
        Engine { grid: None, generation: 0 }
    }

    /// Whether a grid is live.
    pub fn is_initialized(&self) -> (r: bool)
        ensures
            r <==> self.live() is Some,
    {
        self.grid.is_some()
    }

    /// The generation of the latest grid set up.
    pub fn generation(&self) -> (r: u64)
        ensures
            r == self.current_generation(),
    {
        self.generation
    }

    /// Builds a new grid from the draws (see `Grid::setup`) and makes it the
    /// live one, dropping any grid that was live before; returns the new
    /// generation, which differs from the previous one. Fails with
    /// `InvalidDimensions`, leaving the engine as it was, when either
    /// dimension is zero.
    pub fn setup(&mut self, rows: usize, cols: usize, phase_draws: &Vec<u32>, frequency_draws: &Vec<u32>) -> (r: Result<u64, EngineError>)
        requires
            old(self).wf(),
            phase_draws@.len() == rows * cols,
            frequency_draws@.len() == rows * cols,
        ensures
            final(self).wf(),
            r is Err <==> rows == 0 || cols == 0,
            r is Err ==> {
                &&& r == Err::<u64, EngineError>(EngineError::InvalidDimensions)
                &&& final(self).live() == old(self).live()
                &&& final(self).current_generation() == old(self).current_generation()
            },
            r matches Ok(gen) ==> {
                &&& gen == final(self).current_generation()
                &&& gen != old(self).current_generation()
                &&& final(self).live() matches Some(g)
                &&& g.seeded(rows as int, cols as int, phase_draws@, frequency_draws@)
            },
    {
        match Grid::setup(rows, cols, phase_draws, frequency_draws) {
            Err(e) => Err(e),
            Ok(g) => {
                self.grid = Some(g);
                self.generation = self.generation.wrapping_add(1);
                Ok(self.generation)
            },
        }
    }

    /// Releases the live grid; the tasks of its generation are told to exit
    /// from then on. Fails with `NotInitialized` when no grid is live.
    pub fn teardown(&mut self) -> (r: Result<(), EngineError>)
        requires
            old(self).wf(),
        ensures
            final(self).wf(),
            final(self).live() is None,
            final(self).current_generation() == old(self).current_generation(),
            r is Err <==> old(self).live() is None,
            r is Err ==> r == Err::<(), EngineError>(EngineError::NotInitialized),
    {
        if self.grid.is_none() {
            return Err(EngineError::NotInitialized);
        }
        self.grid = None;
        Ok(())
    }

    /// The light pattern of row `i` of the live grid (see
    /// `Grid::snapshot_row`). Fails with `NotInitialized` when no grid is
    /// live, else with `IndexOutOfRange` when `i` is not one of its rows.
    pub fn snapshot_row(&self, i: usize) -> (r: Result<Vec<u8>, EngineError>)
        requires
            self.wf(),
        ensures
            self.live() is None ==> r == Err::<Vec<u8>, EngineError>(EngineError::NotInitialized),
            self.live() matches Some(g) ==> {
                &&& r is Err <==> i >= g.num_rows()
                &&& r is Err ==> r == Err::<Vec<u8>, EngineError>(EngineError::IndexOutOfRange)
                &&& r matches Ok(v) ==> v@ == g.row_lights(i as int) && v@.len() == g.num_cols()
            },
    {
        match &self.grid {
            None => Err(EngineError::NotInitialized),
            Some(g) => g.snapshot_row(i),
        }
    }

    /// What the task of generation `generation` at `p` does next: exit when
    /// no grid is live, the grid is of another generation or `p` is not one
    /// of its cells; else read the four neighbour offsets of `p`.
    pub fn observe(&self, generation: u64, p: Position) -> (r: AgentDirective)
        requires
            self.wf(),
        ensures
            r is Exit <==> !self.admits(generation, p),
            r matches AgentDirective::Update { offsets } ==> {
                let g = self.live()->0;
                &&& offsets@.len() == 4
                &&& forall|k: int| 0 <= k < 4 ==> {
                    let n = #[trigger] torus_neighbors(p.row as int, p.col as int, g.num_rows(), g.num_cols())[k];
                    offsets@[k] == (g.state_of(n.row as int, n.col as int).phase - g.state_of(p.row as int, p.col as int).phase) % (PHASE_TURN as int)
                }
            },
    {
        match &self.grid {
            None => AgentDirective::Exit,
            Some(g) => {
                if generation != self.generation || p.row >= g.rows() || p.col >= g.cols() {
                    AgentDirective::Exit
                } else {
                    AgentDirective::Update { offsets: g.neighbor_offsets(p) }
                }
            },
        }
    }

    /// Applies one update step of the task of generation `generation` at `p`
    /// (see `Grid::tick`) and returns true; where the task is not admitted
    /// (see `observe`) nothing changes and the result is false.
    pub fn apply_tick(&mut self, generation: u64, p: Position, sines: [i32; 4]) -> (r: bool)
        requires
            old(self).wf(),
            valid_sines(sines@),
        ensures
            final(self).wf(),
            r <==> old(self).admits(generation, p),
            final(self).current_generation() == old(self).current_generation(),
            !r ==> final(self).live() == old(self).live(),
            r ==> {
                let g0 = old(self).live()->0;
                let g = final(self).live()->0;
                &&& final(self).live() is Some
                &&& g.num_rows() == g0.num_rows()
                &&& g.num_cols() == g0.num_cols()
                &&& g.states() == g0.ticked(p.row as int, p.col as int, sines@)
            },
    {
        if generation != self.generation {
            return false;
        }
        match &mut self.grid {
            None => false,
            Some(g) => {
                if p.row >= g.rows() || p.col >= g.cols() {
                    false
                } else {
                    g.tick(p, sines);
                    true
                }
            },
        }
    }
}

} // verus!
