use vstd::prelude::*;

verus! {

/// Declares the executor's exit code so a segment can carry it unchanged.
#[verifier::external_type_specification]
#[verifier::external_body]
pub struct ExExitCode(risc0_binfmt::ExitCode);

/// A 256-bit commitment as eight field words.
#[derive(Clone, Copy, Debug)]
pub struct Digest {
    pub words: [u32; 8],
}

/// One page of the sparse memory snapshot a segment starts from.
#[derive(Clone, Debug)]
pub struct MemoryPage {
    pub index: u32,
    pub data: Vec<u8>,
}

/// A bounded window of a recorded execution with its boundary state.
#[derive(Debug)]
pub struct Segment {
    /// Initial sparse memory state for the segment.
    pub partial_image: Vec<MemoryPage>,
    pub pre_digest: Digest,
    pub post_digest: Digest,
    /// Recorded host-to-guest input, one entry per read.
    pub read_record: Vec<Vec<u8>>,
    /// Recorded length of each guest-to-host write.
    pub write_record: Vec<u32>,
    pub user_cycles: u32,
    /// Cycle at which execution suspends.
    pub suspend_cycle: u32,
    /// Total paging cycles.
    pub paging_cycles: u32,
    /// Log2 of the number of trace rows.
    pub po2: u32,
    pub exit_code: risc0_binfmt::ExitCode,
    pub index: u64,
    pub input_digest: Digest,
    pub output_digest: Option<Digest>,
}

/// Processing order of trace rows during witness generation.
#[derive(Clone, Copy, Debug, PartialEq, Eq, Structural)]
pub enum StepMode {
    Parallel,
    SeqForward,
    SeqReverse,
}

} // verus!
