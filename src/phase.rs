//! Fixed-point phase arithmetic for one oscillator.
//!
//! The phase circle [0, 2π) is held as the integers [0, PHASE_TURN): one unit
//! is a millionth of a turn, so π is HALF_TURN. A sine is a fixed-point value
//! in [-SINE_ONE, SINE_ONE]. The sines themselves are supplied by the caller.

use vstd::prelude::*;

verus! {

/// One full turn of the phase circle (2π).
pub const PHASE_TURN: u32 = 1_000_000;

/// Half a turn (π): a phase above it is lit.
pub const HALF_TURN: u32 = 500_000;

/// The fixed-point value of a sine equal to one.
pub const SINE_ONE: i32 = 1_000_000;

/// Coupling strength: 0.01 rad, in phase units.
pub const COUPLING_STRENGTH: u32 = 1_592;

/// Base natural frequency: π/100 rad per tick, in phase units.
pub const BASE_FREQUENCY: u32 = 5_000;

/// Half-width of the band of natural frequencies around the base rate.
pub const FREQUENCY_SPREAD: u32 = 250;

/// The state of one agent: a phase in [0, PHASE_TURN) and a fixed natural
/// frequency, in phase units per tick, below half a turn.
#[derive(Clone, Copy, Debug, PartialEq, Eq, Structural)]
pub struct AgentState {
    pub phase: u32,
    pub frequency: u32,
}

impl AgentState {
    /// The phase lies on the circle and the frequency below half a turn.
    pub open spec fn wf(&self) -> bool {
        self.phase < PHASE_TURN && self.frequency < HALF_TURN
    }
}

/// A phase that lies on the circle.
pub open spec fn valid_phase(p: int) -> bool {
    0 <= p < PHASE_TURN
}

/// Whether a phase counts as lit: strictly above half a turn.
pub open spec fn lit(p: int) -> bool {
    p > HALF_TURN
}

/// The binarized light value of a phase.
pub open spec fn light_bit(p: int) -> u8 {
    if lit(p) { 1 } else { 0 }
}

/// Four sines, each within [-SINE_ONE, SINE_ONE].
pub open spec fn valid_sines(s: Seq<i32>) -> bool {
    s.len() == 4 && forall|k: int| 0 <= k < 4 ==> -SINE_ONE <= #[trigger] s[k] <= SINE_ONE
}

/// The sum of the four sines.
pub open spec fn sine_sum(s: Seq<i32>) -> int {
    s[0] + s[1] + s[2] + s[3]
}

/// The coupling term `(K / 4) * Σ sin`, in phase units, rounded down.
pub open spec fn coupling_term(s: Seq<i32>) -> int {
    (COUPLING_STRENGTH * sine_sum(s)) / (4 * SINE_ONE as int)
}

/// The phase after one tick: own phase, plus natural frequency, plus the
/// coupling term, wrapped back onto the circle.
pub open spec fn next_phase_spec(phase: int, frequency: int, s: Seq<i32>) -> int {
    (phase + frequency + coupling_term(s)) % (PHASE_TURN as int)
}

/// The natural frequency that a draw gives: the base rate moved by at most
/// FREQUENCY_SPREAD either way.
pub open spec fn frequency_of_draw(draw: int) -> int {
    BASE_FREQUENCY - FREQUENCY_SPREAD + draw % (2 * FREQUENCY_SPREAD + 1)
}

/// 1 when the phase is lit, else 0.
pub fn light_of(phase: u32) -> (r: u8)
    ensures
        r == light_bit(phase as int),
{
    if phase > HALF_TURN {
        1
    } else {
        0
    }
}

/// The coupling term over four neighbour sines.
pub fn coupling(sines: [i32; 4]) -> (r: i64)
    requires
        valid_sines(sines@),
    ensures
        r == coupling_term(sines@),
        -(COUPLING_STRENGTH as int) <= r <= COUPLING_STRENGTH,
{
    let sum: i64 = sines[0] as i64 + sines[1] as i64 + sines[2] as i64 + sines[3] as i64;
    let d: u64 = 4 * SINE_ONE as u64;
    let shifted: u64 = (sum + d as i64) as u64;
    assert(0 <= shifted <= 2 * d);
    assert(COUPLING_STRENGTH as u64 * shifted <= 1_592 * 8_000_000) by (nonlinear_arith)
        requires
            shifted <= 8_000_000,
    ;
    let scaled: u64 = COUPLING_STRENGTH as u64 * shifted;
    let q: u64 = scaled / d;
    proof {
        let c = COUPLING_STRENGTH as int;
        assert(sum == sine_sum(sines@));
        assert(scaled == c * sum + c * d) by (nonlinear_arith)
            requires
                scaled == c * shifted,
                shifted == sum + d,
        ;
        vstd::arithmetic::div_mod::lemma_hoist_over_denominator(c * sum, c, d as nat);
        assert(-c * d <= c * sum <= c * d) by (nonlinear_arith)
            requires
                -d <= sum <= d,
                c >= 0,
        ;
        vstd::arithmetic::div_mod::lemma_div_is_ordered(c * sum, c * d, d as int);
        vstd::arithmetic::div_mod::lemma_div_is_ordered(-c * d, c * sum, d as int);
        assert(-c * d == (-c) * d) by (nonlinear_arith);
        vstd::arithmetic::div_mod::lemma_fundamental_div_mod_converse(c * d, d as int, c, 0);
        vstd::arithmetic::div_mod::lemma_fundamental_div_mod_converse(-c * d, d as int, -c, 0);
    }
    q as i64 - COUPLING_STRENGTH as i64
}

/// Wraps a value that overshoots the circle by less than one turn either
/// way back onto it.
fn wrap_phase(t: i64) -> (r: u32)
    requires
        -(PHASE_TURN as int) < t < 2 * PHASE_TURN,
    ensures
        r == (t as int) % (PHASE_TURN as int),
        valid_phase(r as int),
{
    let turn = PHASE_TURN as i64;
    if t >= turn {
        proof {
            vstd::arithmetic::div_mod::lemma_fundamental_div_mod_converse(t as int, turn as int, 1, t - turn);
        }
        (t - turn) as u32
    } else if t < 0 {
        proof {
            vstd::arithmetic::div_mod::lemma_fundamental_div_mod_converse(t as int, turn as int, -1, t + turn);
        }
        (t + turn) as u32
    } else {
        proof {
            vstd::arithmetic::div_mod::lemma_fundamental_div_mod_converse(t as int, turn as int, 0, t as int);
        }
        t as u32
    }
}

/// One update step of an agent: its phase advances by its natural
/// frequency plus the coupling term over the sines of its four neighbours'
/// phase differences, and wraps back onto the circle.
pub fn next_phase(phase: u32, frequency: u32, sines: [i32; 4]) -> (r: u32)
    requires
        valid_phase(phase as int),
        frequency < HALF_TURN,
        valid_sines(sines@),
    ensures
        r == next_phase_spec(phase as int, frequency as int, sines@),
        valid_phase(r as int),
{
    let c = coupling(sines);
    wrap_phase(phase as i64 + frequency as i64 + c)
}

/// The natural frequency for a draw.
pub fn frequency_from_draw(draw: u32) -> (r: u32)
    ensures
        r == frequency_of_draw(draw as int),
        BASE_FREQUENCY - FREQUENCY_SPREAD <= r <= BASE_FREQUENCY + FREQUENCY_SPREAD,
{
    BASE_FREQUENCY - FREQUENCY_SPREAD + draw % (2 * FREQUENCY_SPREAD + 1)
}

/// The phase difference `to - from`, taken around the circle.
pub fn phase_offset(from: u32, to: u32) -> (r: u32)
    requires
        valid_phase(from as int),
        valid_phase(to as int),
    ensures
        r == (to - from) % (PHASE_TURN as int),
        valid_phase(r as int),
{
    wrap_phase(to as i64 - from as i64)
}

} // verus!
