//! Per-segment proving protocol: shaped trace buffers, the segment record,
//! the Fiat-Shamir header and the ordered commit/challenge orchestration.
mod buffer;
mod error;
mod field;
mod hash;
mod header;
mod prover;
mod segment;
mod transcript;

pub use buffer::MetaBuffer;
pub use error::ProveError;
pub use field::{valid_or_zero, Val, FIELD_P, INVALID, ZERO};
pub use segment::{Digest, MemoryPage, Segment, StepMode};
pub use header::{build_header, hash_header};
pub use transcript::Transcript;
pub use prover::{
    begin_transcript, check_step_modes, commit_header, same_cells, same_witness,
    CircuitAccumulator, CircuitParams, CircuitWitnessGenerator, Proof, ProofEngine, RegisterGroup, Seal,
    SegmentProverImpl, Witness,
};
