//! A decentralized oscillator synchronization engine: agents on a toroidal
//! grid nudge their phase toward their four lattice neighbours.

pub mod cascade;
pub mod engine;
pub mod error;
pub mod grid;
pub mod laws;
pub mod phase;
pub mod topology;
