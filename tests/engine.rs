use firefly_sync::engine::{AgentDirective, AgentStatus, Engine};
use firefly_sync::error::EngineError;
use firefly_sync::grid::Grid;
use firefly_sync::phase::{
    coupling, frequency_from_draw, light_of, next_phase, phase_offset, BASE_FREQUENCY,
    COUPLING_STRENGTH, FREQUENCY_SPREAD, HALF_TURN, PHASE_TURN, SINE_ONE,
};
use firefly_sync::topology::{neighbors_of, Position};

fn p(row: usize, col: usize) -> Position {
    Position { row, col }
}

fn draws(n: usize, step: u32) -> Vec<u32> {
    (0..n as u32).map(|k| k.wrapping_mul(step).wrapping_add(12_345)).collect()
}

#[test]
fn torus_origin_neighbors() {
    let n = neighbors_of(p(0, 0), 4, 5);
    assert_eq!(n, vec![p(3, 0), p(1, 0), p(0, 4), p(0, 1)]);
}

#[test]
fn torus_inner_and_corner_neighbors() {
    assert_eq!(neighbors_of(p(2, 3), 4, 5), vec![p(1, 3), p(3, 3), p(2, 2), p(2, 4)]);
    assert_eq!(neighbors_of(p(3, 4), 4, 5), vec![p(2, 4), p(0, 4), p(3, 3), p(3, 0)]);
}

#[test]
fn single_cell_is_its_own_neighbor() {
    assert_eq!(neighbors_of(p(0, 0), 1, 1), vec![p(0, 0); 4]);
}

#[test]
fn single_row_wraps_onto_itself() {
    assert_eq!(neighbors_of(p(0, 1), 1, 3), vec![p(0, 1), p(0, 1), p(0, 0), p(0, 2)]);
    assert_eq!(neighbors_of(p(1, 0), 2, 1), vec![p(0, 0), p(0, 0), p(1, 0), p(1, 0)]);
}

#[test]
fn update_step_with_cancelling_sines() {
    // own phase 0, frequency 0.03 rad, neighbour sines 0, 0, 1, -1
    let r = next_phase(0, 4_775, [0, 0, SINE_ONE, -SINE_ONE]);
    assert_eq!(r, 4_775);
}

#[test]
fn coupling_exact_values() {
    assert_eq!(coupling([0, 0, 0, 0]), 0);
    assert_eq!(coupling([SINE_ONE; 4]), COUPLING_STRENGTH as i64);
    assert_eq!(coupling([-SINE_ONE; 4]), -(COUPLING_STRENGTH as i64));
    assert_eq!(coupling([SINE_ONE, 0, 0, 0]), 398);
    assert_eq!(coupling([-SINE_ONE, 0, 0, 0]), -398);
    assert_eq!(coupling([1, 0, 0, 0]), 0);
    assert_eq!(coupling([-1, 0, 0, 0]), -1);
}

#[test]
fn update_step_wraps_past_full_turn() {
    assert_eq!(next_phase(999_000, 5_000, [0; 4]), 4_000);
    assert_eq!(next_phase(999_000, 5_000, [SINE_ONE; 4]), 5_592);
    assert_eq!(next_phase(0, 0, [-SINE_ONE; 4]), PHASE_TURN - 1_592);
}

#[test]
fn lights_split_at_half_turn() {
    assert_eq!(light_of(0), 0);
    assert_eq!(light_of(HALF_TURN), 0);
    assert_eq!(light_of(HALF_TURN + 1), 1);
    assert_eq!(light_of(PHASE_TURN - 1), 1);
}

#[test]
fn frequency_band() {
    assert_eq!(frequency_from_draw(0), BASE_FREQUENCY - FREQUENCY_SPREAD);
    assert_eq!(frequency_from_draw(250), BASE_FREQUENCY);
    assert_eq!(frequency_from_draw(500), BASE_FREQUENCY + FREQUENCY_SPREAD);
    assert_eq!(frequency_from_draw(501), BASE_FREQUENCY - FREQUENCY_SPREAD);
}

#[test]
fn offsets_wrap_around_the_circle() {
    assert_eq!(phase_offset(100, 300), 200);
    assert_eq!(phase_offset(300, 100), PHASE_TURN - 200);
    assert_eq!(phase_offset(7, 7), 0);
}

#[test]
fn grid_setup_seeds_cells() {
    let g = Grid::setup(2, 3, &vec![0, 1_500_000, 700_000, 3, 4, 5], &vec![250; 6]).unwrap();
    assert_eq!(g.rows(), 2);
    assert_eq!(g.cols(), 3);
    assert_eq!(g.state_at(p(0, 1)).phase, 500_000);
    assert_eq!(g.state_at(p(0, 2)).phase, 700_000);
    assert_eq!(g.state_at(p(1, 2)).frequency, BASE_FREQUENCY);
    assert_eq!(g.snapshot_row(0), Ok(vec![0, 0, 1]));
}

#[test]
fn grid_neighbor_offsets_and_tick() {
    let mut g = Grid::setup(2, 2, &vec![0, 250_000, 500_000, 750_000], &vec![250; 4]).unwrap();
    assert_eq!(g.neighbor_offsets(p(0, 0)), vec![500_000, 500_000, 250_000, 250_000]);
    g.tick(p(0, 0), [0, 0, SINE_ONE, SINE_ONE]);
    assert_eq!(g.state_at(p(0, 0)).phase, 5_000 + 796);
    assert_eq!(g.state_at(p(0, 1)).phase, 250_000);
}

#[test]
fn setup_rejects_empty_dimensions() {
    assert!(matches!(Grid::setup(0, 3, &vec![], &vec![]), Err(EngineError::InvalidDimensions)));
    let mut e = Engine::new();
    assert_eq!(e.setup(3, 0, &vec![], &vec![]), Err(EngineError::InvalidDimensions));
    assert!(!e.is_initialized());
}

#[test]
fn snapshot_shape_for_every_row() {
    let mut e = Engine::new();
    e.setup(3, 7, &draws(21, 333_331), &draws(21, 17)).unwrap();
    for i in 0..3 {
        let row = e.snapshot_row(i).unwrap();
        assert_eq!(row.len(), 7);
        assert!(row.iter().all(|&b| b == 0 || b == 1));
    }
}

#[test]
fn snapshot_out_of_range_and_uninitialized() {
    let mut e = Engine::new();
    assert_eq!(e.snapshot_row(0), Err(EngineError::NotInitialized));
    e.setup(3, 2, &draws(6, 1), &draws(6, 1)).unwrap();
    assert_eq!(e.snapshot_row(3), Err(EngineError::IndexOutOfRange));
    assert!(e.snapshot_row(2).is_ok());
}

#[test]
fn fresh_grid_snapshot() {
    let mut e = Engine::new();
    e.setup(4, 4, &draws(16, 98_765), &draws(16, 3)).unwrap();
    let row = e.snapshot_row(0).unwrap();
    assert_eq!(row.len(), 4);
    assert!(row.iter().all(|&b| b == 0 || b == 1));
}

#[test]
fn replacing_grid_shuts_out_old_tasks() {
    let mut e = Engine::new();
    let old = e.setup(2, 2, &vec![0; 4], &vec![250; 4]).unwrap();
    let new = e.setup(2, 3, &vec![600_000; 6], &vec![250; 6]).unwrap();
    assert_ne!(old, new);
    assert_eq!(e.observe(old, p(0, 0)), AgentDirective::Exit);
    assert!(!e.apply_tick(old, p(0, 0), [SINE_ONE; 4]));
    assert_eq!(e.snapshot_row(0), Ok(vec![1, 1, 1]));
    assert_eq!(e.snapshot_row(1), Ok(vec![1, 1, 1]));
    assert_eq!(e.observe(new, p(1, 2)), AgentDirective::Update { offsets: vec![0; 4] });
}

#[test]
fn teardown_releases_grid() {
    let mut e = Engine::new();
    assert_eq!(e.teardown(), Err(EngineError::NotInitialized));
    let gen = e.setup(2, 2, &vec![0; 4], &vec![0; 4]).unwrap();
    assert_eq!(e.teardown(), Ok(()));
    assert_eq!(e.observe(gen, p(0, 0)), AgentDirective::Exit);
    assert!(!e.apply_tick(gen, p(0, 0), [0; 4]));
    assert_eq!(e.snapshot_row(0), Err(EngineError::NotInitialized));
    assert_eq!(e.teardown(), Err(EngineError::NotInitialized));
}

#[test]
fn observe_rejects_cells_outside_grid() {
    let mut e = Engine::new();
    let gen = e.setup(2, 2, &vec![0; 4], &vec![0; 4]).unwrap();
    assert_eq!(e.observe(gen, p(2, 0)), AgentDirective::Exit);
    assert!(!e.apply_tick(gen, p(0, 2), [0; 4]));
}

#[test]
fn phases_stay_on_circle_over_many_ticks() {
    let mut e = Engine::new();
    let gen = e.setup(3, 4, &draws(12, 777_777), &draws(12, 91)).unwrap();
    let mut g = Grid::setup(3, 4, &draws(12, 777_777), &draws(12, 91)).unwrap();
    for t in 0..2_000u32 {
        let cell = p((t % 3) as usize, (t % 4) as usize);
        let offsets = match e.observe(gen, cell) {
            AgentDirective::Update { offsets } => offsets,
            AgentDirective::Exit => panic!("task of the live grid told to exit"),
        };
        assert_eq!(offsets, g.neighbor_offsets(cell));
        let sines: Vec<i32> = offsets
            .iter()
            .map(|&o| ((o as f64) * std::f64::consts::TAU / PHASE_TURN as f64).sin())
            .map(|s| (s * SINE_ONE as f64).round() as i32)
            .collect();
        let sines = [sines[0], sines[1], sines[2], sines[3]];
        assert!(e.apply_tick(gen, cell, sines));
        g.tick(cell, sines);
        for r in 0..3 {
            for c in 0..4 {
                assert!(g.state_at(p(r, c)).phase < PHASE_TURN);
            }
            assert_eq!(e.snapshot_row(r).unwrap().len(), 4);
        }
    }
}

#[test]
fn agent_status_transitions() {
    assert_eq!(AgentStatus::Created.advance(false), AgentStatus::Running);
    assert_eq!(AgentStatus::Created.advance(true), AgentStatus::Stopped);
    assert_eq!(AgentStatus::Running.advance(false), AgentStatus::Running);
    assert_eq!(AgentStatus::Running.advance(true), AgentStatus::Stopping);
    assert_eq!(AgentStatus::Stopping.advance(false), AgentStatus::Stopped);
    assert_eq!(AgentStatus::Stopped.advance(false), AgentStatus::Stopped);
    assert!(AgentStatus::Running.is_active());
    assert!(!AgentStatus::Stopping.is_active());
}

#[test]
fn error_messages() {
    assert_eq!(EngineError::IndexOutOfRange.message(), "row index out of range");
    assert_ne!(EngineError::NotInitialized.message(), EngineError::InvalidDimensions.message());
}

fn circular_spread(g: &Grid, rows: usize, cols: usize) -> f64 {
    let phases: Vec<u32> = (0..rows)
        .flat_map(|r| (0..cols).map(move |c| (r, c)))
        .map(|(r, c)| g.state_at(p(r, c)).phase)
        .collect();
    let mut total = 0.0;
    let mut pairs = 0.0;
    for a in 0..phases.len() {
        for b in a + 1..phases.len() {
            let d = phase_offset(phases[a], phases[b]);
            total += d.min(PHASE_TURN - d) as f64;
            pairs += 1.0;
        }
    }
    total / pairs
}

#[test]
fn identical_frequencies_drift_together() {
    let (rows, cols) = (4, 4);
    let mut g = Grid::setup(rows, cols, &draws(16, 2_654_435_761), &vec![250; 16]).unwrap();
    let start = circular_spread(&g, rows, cols);
    let mut previous = start;
    for round in 1..=1_000 {
        for r in 0..rows {
            for c in 0..cols {
                let offsets = g.neighbor_offsets(p(r, c));
                let sines: Vec<i32> = offsets
                    .iter()
                    .map(|&o| ((o as f64) * std::f64::consts::TAU / PHASE_TURN as f64).sin())
                    .map(|s| (s * SINE_ONE as f64).round() as i32)
                    .collect();
                g.tick(p(r, c), [sines[0], sines[1], sines[2], sines[3]]);
            }
        }
        if round % 100 == 0 {
            let now = circular_spread(&g, rows, cols);
            assert!(now <= previous + 1.0, "spread grew from {} to {}", previous, now);
            previous = now;
        }
    }
    assert!(previous < start, "spread {} did not fall below {}", previous, start);
}
