//! The errors that the engine's operations report to their callers.

use vstd::prelude::*;

verus! {

/// What an operation on the engine can fail with.
#[derive(Clone, Copy, Debug, PartialEq, Eq, Structural)]
pub enum EngineError {
    /// A grid needs at least one row and one column.
    InvalidDimensions,
    /// A row index at or past the number of rows.
    IndexOutOfRange,
    /// No grid has been set up, or it has been torn down.
    NotInitialized,
}

impl EngineError {
    /// A short description of the error.
    pub fn message(&self) -> (r: String)
        ensures
            *self == EngineError::InvalidDimensions ==> r@ == "grid dimensions must be positive"@,
            *self == EngineError::IndexOutOfRange ==> r@ == "row index out of range"@,
            *self == EngineError::NotInitialized ==> r@ == "no grid has been set up"@,
    {
        match self {
            EngineError::InvalidDimensions => String::from_str("grid dimensions must be positive"),
            EngineError::IndexOutOfRange => String::from_str("row index out of range"),
            EngineError::NotInitialized => String::from_str("no grid has been set up"),
        }
    }
}

} // verus!
