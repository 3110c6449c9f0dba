use vstd::prelude::*;

verus! {

/// Why a proving attempt was abandoned.
#[derive(Debug, Clone, PartialEq, Eq, Structural)]
pub enum ProveError {
    /// A checked read met a cell that was never written.
    UninitializedRead { row: usize, col: usize },
    /// The trace does not agree with the segment's declared size.
    TraceMismatch,
    /// The backend could not provide a buffer of the requested shape.
    Allocation,
}

} // verus!
