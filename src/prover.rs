use vstd::arithmetic::power2::pow2;
use vstd::prelude::*;

use crate::buffer::{cell_index, MetaBuffer};
use crate::error::ProveError;
use crate::field::{all_valid, coerce_all, Val, INVALID, ZERO};
use crate::hash::{
    commit_words, encode_protocol_info, encoded_info, hash_elems, lemma_reduced_digest_valid,
    poseidon2_draws, poseidon2_hash, proof_system_info, proof_system_tag, random_mask,
};
use crate::header::{build_header, hash_header, header_digest_of, header_of};
use crate::segment::{Digest, Segment, StepMode};
use crate::transcript::Transcript;

verus! {

/// The register groups committed one by one into the transcript.
#[derive(Clone, Copy, Debug, PartialEq, Eq, Structural)]
pub enum RegisterGroup {
    Accum,
    Code,
    Data,
}

/// The proof artifact.
pub type Seal = Vec<u32>;

/// A buffer holding no cell but the INVALID sentinel.
pub open spec fn all_invalid(s: Seq<Val>) -> bool {
    forall|i: int| 0 <= i < s.len() ==> #[trigger] s[i] == INVALID
}

/// Filled trace buffers and the trace they came from.
pub struct Witness<T> {
    pub trace: T,
    pub code: MetaBuffer,
    pub data: MetaBuffer,
    pub global: MetaBuffer,
    /// Rows the trace actually exercises; the rest up to `2^po2` are padding.
    pub cycles: usize,
}

/// What a witness holds, as values.
pub struct WitnessView<T> {
    pub trace: T,
    pub code: Seq<Val>,
    pub code_cols: nat,
    pub data: Seq<Val>,
    pub data_cols: nat,
    pub global: Seq<Val>,
    pub rows: nat,
    pub cycles: nat,
}

impl<T> Witness<T> {
    pub open spec fn view(&self) -> WitnessView<T> {
        WitnessView {
            trace: self.trace,
            code: self.code.buf@,
            code_cols: self.code.cols as nat,
            data: self.data.buf@,
            data_cols: self.data.cols as nat,
            global: self.global.buf@,
            rows: self.data.rows as nat,
            cycles: self.cycles as nat,
        }
    }

    /// Buffers of `2^po2` rows matching their storage, and an exercised
    /// cycle count within them.
    pub open spec fn wf(&self, po2: u32) -> bool {
        &&& self.code.wf()
        &&& self.data.wf()
        &&& self.global.wf()
        &&& po2 < 64
        &&& self.code.rows == self.data.rows
        &&& self.data.rows == pow2(po2 as nat)
        &&& self.cycles <= self.data.rows
    }
}

/// Circuit logic that fills the code, data and global columns from a
/// segment's execution.
pub trait CircuitWitnessGenerator {
    type Trace;

    /// The witness a segment yields, or none when its trace is inconsistent
    /// with its declared size. A circuit states its own; the default is a
    /// circuit that accepts no segment.
    open spec fn witness_spec(&self, segment: Segment) -> Option<WitnessView<Self::Trace>> {
        None
    }

    /// Generates the witness. The filled buffers are a function of the
    /// segment alone: the step mode only changes the order in which rows are
    /// processed, and the private mask never reaches a committed value.
    fn generate_witness(&self, mode: StepMode, segment: &Segment, mask: [Val; 4]) -> (r: Result<
        Witness<Self::Trace>,
        ProveError,
    >)
        ensures
            r is Ok <==> self.witness_spec(*segment) is Some,
            r is Ok ==> r->Ok_0.wf(segment.po2) && self.witness_spec(*segment) == Some(
                r->Ok_0.view(),
            ),
    ;
}

/// Circuit logic that fills the accumulation columns of the
/// permutation/lookup argument.
pub trait CircuitAccumulator: CircuitWitnessGenerator {
    /// The accumulation cells for a trace, its data columns and the mixing
    /// challenge, in a buffer of `rows` x `cols`; none when they disagree.
    /// A circuit states its own; the default accepts nothing.
    open spec fn accum_spec(
        &self,
        trace: Self::Trace,
        data: Seq<Val>,
        mix: Seq<Val>,
        rows: nat,
        cols: nat,
        cycles: nat,
    ) -> Option<Seq<Val>> {
        None
    }

    /// Fills the rows below `cycles` of a fresh accumulation buffer and
    /// leaves the padding rows as they were.
    fn step_accum(
        &self,
        trace: &Self::Trace,
        cycles: usize,
        data: &MetaBuffer,
        accum: &mut MetaBuffer,
        mix: &MetaBuffer,
    ) -> (r: Result<(), ProveError>)
        requires
            old(accum).wf(),
            all_invalid(old(accum).buf@),
            cycles <= old(accum).rows,
        ensures
            final(accum).wf(),
            final(accum).name == old(accum).name,
            final(accum).rows == old(accum).rows,
            final(accum).cols == old(accum).cols,
            final(accum).checked_reads == old(accum).checked_reads,
            r is Ok <==> self.accum_spec(
                *trace,
                data.buf@,
                mix.buf@,
                old(accum).rows as nat,
                old(accum).cols as nat,
                cycles as nat,
            ) is Some,
            r is Ok ==> Some(final(accum).buf@) == self.accum_spec(
                *trace,
                data.buf@,
                mix.buf@,
                old(accum).rows as nat,
                old(accum).cols as nat,
                cycles as nat,
            ),
            forall|row: int, col: int|
                cycles <= row < old(accum).rows && 0 <= col < old(accum).cols
                    ==> #[trigger] final(accum).cell(row, col) == old(accum).cell(row, col),
    ;
}

/// The polynomial commitment engine: commits a register group and folds the
/// finished transcript into a seal.
pub trait ProofEngine {
    /// The root committed for a group's cells in a `rows` x `cols` buffer.
    /// An engine states its own; the default is the empty root.
    open spec fn group_root_spec(&self, group: RegisterGroup, cells: Seq<Val>, rows: nat, cols: nat) -> Seq<Val> {
        Seq::empty()
    }

    /// The seal for a transcript, the mixing challenge and the globals.
    /// An engine states its own; the default is the empty seal.
    open spec fn seal_spec(
        &self,
        commits: Seq<Seq<Val>>,
        written: Seq<Val>,
        po2: u32,
        mix: Seq<Val>,
        global: Seq<Val>,
    ) -> Seq<u32> {
        Seq::empty()
    }

    fn commit_group(&self, group: RegisterGroup, buf: &MetaBuffer) -> (d: Digest)
        requires
            buf.wf(),
        ensures
            d.words@ == self.group_root_spec(group, buf.buf@, buf.rows as nat, buf.cols as nat),
            all_valid(d.words@),
    ;

    fn finalize(&self, transcript: &Transcript, mix: &MetaBuffer, global: &MetaBuffer) -> (s: Seal)
        requires
            transcript.po2 is Some,
        ensures
            s@ == self.seal_spec(
                commit_words(transcript.commits@),
                transcript.written@,
                transcript.po2->Some_0,
                mix.buf@,
                global.buf@,
            ),
    ;
}

/// Fixed parameters of the circuit being proved.
pub struct CircuitParams {
    /// The circuit's identifying tag, bound into the transcript first.
    pub info: [u8; 16],
    /// Number of mixing elements drawn.
    pub mix_count: usize,
    /// Number of accumulation columns.
    pub accum_count: usize,
}

/// What a completed proof consists of, as values.
pub struct ProofView {
    pub commits: Seq<Seq<Val>>,
    pub written: Seq<Val>,
    pub po2: u32,
    pub mix: Seq<Val>,
    pub seal: Seq<u32>,
}

/// A completed proof with the transcript that produced it.
pub struct Proof {
    pub seal: Seal,
    pub transcript: Transcript,
    pub mix: Vec<Val>,
}

impl Proof {
    pub open spec fn view(&self) -> ProofView {
        ProofView {
            commits: commit_words(self.transcript.commits@),
            written: self.transcript.written@,
            po2: self.transcript.po2->Some_0,
            mix: self.mix@,
            seal: self.seal@,
        }
    }
}

/// The two commitments that open every transcript: the proof system's tag,
/// then the circuit's.
pub open spec fn opening_commits(info: Seq<u8>) -> Seq<Seq<Val>> {
    seq![poseidon2_hash(encoded_info(proof_system_tag())), poseidon2_hash(encoded_info(info))]
}

/// The accumulation buffer as committed: the capability's cells with every
/// unwritten one made zero.
pub open spec fn committed_accum<C: CircuitAccumulator>(
    c: &C,
    w: WitnessView<C::Trace>,
    mix: Seq<Val>,
    cols: nat,
) -> Option<Seq<Val>> {
    match c.accum_spec(w.trace, w.data, mix, w.rows, cols, w.cycles) {
        Some(a) => Some(coerce_all(a)),
        None => None,
    }
}

/// Recording a commitment appends its words.
pub proof fn lemma_commit_words_push(commits: Seq<Digest>, d: Digest)
    ensures
        commit_words(commits.push(d)) == commit_words(commits).push(d.words@),
{
    assert(commit_words(commits.push(d)) =~= commit_words(commits).push(d.words@));
}

/// Opens a transcript: commits the hash of the proof system's tag, then the
/// hash of the circuit's tag.
pub fn begin_transcript(info: [u8; 16]) -> (t: Transcript)
    ensures
        t.wf(),
        commit_words(t.commits@) == opening_commits(info@),
        t.written@ == Seq::<Val>::empty(),
        t.po2 == None::<u32>,
        !t.mix_drawn,
{
    let mut t = Transcript::new();
    let system = encode_protocol_info(proof_system_info());
    let circuit = encode_protocol_info(info);
    proof {
        assert(system@ =~= encoded_info(proof_system_tag()));
        assert(circuit@ =~= encoded_info(info@));
        assert forall|i: int| 0 <= i < 16 implies #[trigger] system@[i] != INVALID && circuit@[i]
            != INVALID by {
            assert(system@[i] < 2013265921u32);
            assert(circuit@[i] < 2013265921u32);
        }
    }
    let d0 = hash_elems(&system);
    proof {
        lemma_reduced_digest_valid(d0);
    }
    t.commit(d0);
    let d1 = hash_elems(&circuit);
    proof {
        lemma_reduced_digest_valid(d1);
    }
    t.commit(d1);
    proof {
        lemma_commit_words_push(seq![d0], d1);
        assert(commit_words(seq![d0]) =~= seq![d0.words@]);
        assert(t.commits@ =~= seq![d0].push(d1));
        assert(commit_words(t.commits@) =~= opening_commits(info@));
    }
    t
}

/// Coerces the globals in place, then commits the header digest, writes the
/// header for the verifier to read back, and declares the trace size.
pub fn commit_header(t: &mut Transcript, global: &mut MetaBuffer, po2: u32)
    requires
        old(t).wf(),
        old(global).wf(),
        po2 != INVALID,
    ensures
        final(t).wf(),
        commit_words(final(t).commits@) == commit_words(old(t).commits@).push(
            header_digest_of(old(global).buf@, po2),
        ),
        final(t).written@ == old(t).written@ + header_of(old(global).buf@, po2),
        final(t).po2 == Some(po2),
        final(t).mix_drawn == old(t).mix_drawn,
        final(global).wf(),
        final(global).name == old(global).name,
        final(global).rows == old(global).rows,
        final(global).cols == old(global).cols,
        final(global).checked_reads == old(global).checked_reads,
        final(global).buf@ == coerce_all(old(global).buf@),
{
    let header = build_header(global, po2);
    proof {
        assert(header@.drop_last() =~= coerce_all(old(global).buf@));
    }
    let d = hash_header(&header);
    let ghost before = t.commits@;
    t.commit(d);
    proof {
        lemma_commit_words_push(before, d);
    }
    t.write_elems(&header);
    t.set_po2(po2);
}

/// Whether two cell sequences are identical.
pub fn same_cells(a: &Vec<Val>, b: &Vec<Val>) -> (r: bool)
    ensures
        r == (a@ == b@),
{
    if a.len() != b.len() {
        return false;
    }
    let mut i: usize = 0;
    while i < a.len()
        invariant
            i <= a@.len(),
            a@.len() == b@.len(),
            forall|k: int| 0 <= k < i ==> a@[k] == b@[k],
        decreases a@.len() - i,
    {
        if a[i] != b[i] {
            return false;
        }
        i = i + 1;
    }
    proof {
        assert(a@ =~= b@);
    }
    true
}

/// Whether two witnesses hold identical code, data and global cells.
pub fn same_witness<T>(a: &Witness<T>, b: &Witness<T>) -> (r: bool)
    ensures
        r == (a.code.buf@ == b.code.buf@ && a.data.buf@ == b.data.buf@ && a.global.buf@
            == b.global.buf@),
{
    same_cells(&a.code.buf, &b.code.buf) && same_cells(&a.data.buf, &b.data.buf) && same_cells(
        &a.global.buf,
        &b.global.buf,
    )
}

/// Runs witness generation on a segment under the parallel, forward and
/// reverse step modes and reports whether all three filled identical
/// buffers. A circuit that honours its contract always yields `true` here;
/// `false` at run time exposes a hidden dependency between rows.
pub fn check_step_modes<C: CircuitWitnessGenerator>(circuit: &C, segment: &Segment) -> (r: Result<
    bool,
    ProveError,
>)
    ensures
        r is Ok <==> circuit.witness_spec(*segment) is Some,
        r is Ok ==> r->Ok_0,
{
    let mask = random_mask();
    let a = match circuit.generate_witness(StepMode::Parallel, segment, mask) {
        Ok(w) => w,
        Err(e) => return Err(e),
    };
    let b = match circuit.generate_witness(StepMode::SeqForward, segment, mask) {
        Ok(w) => w,
        Err(e) => return Err(e),
    };
    let c = match circuit.generate_witness(StepMode::SeqReverse, segment, mask) {
        Ok(w) => w,
        Err(e) => return Err(e),
    };
    Ok(same_witness(&a, &b) && same_witness(&a, &c))
}

/// Witness generation does not depend on the step mode: any two successful
/// runs on one segment, whatever their modes, fill identical buffers.
pub proof fn lemma_order_independence<C: CircuitWitnessGenerator>(
    circuit: &C,
    segment: Segment,
    w1: Witness<C::Trace>,
    w2: Witness<C::Trace>,
)
    requires
        circuit.witness_spec(segment) == Some(w1.view()),
        circuit.witness_spec(segment) == Some(w2.view()),
    ensures
        w1.code.buf@ == w2.code.buf@,
        w1.data.buf@ == w2.data.buf@,
        w1.global.buf@ == w2.global.buf@,
{
}

/// Orchestrates the proving protocol for one segment.
pub struct SegmentProverImpl<C> {
    pub circuit_hal: C,
    pub params: CircuitParams,
}

impl<C: CircuitAccumulator + ProofEngine> SegmentProverImpl<C> {
    /// Commitments up to and including the code and data groups.
    pub open spec fn pre_mix_commits(&self, w: WitnessView<C::Trace>, po2: u32) -> Seq<Seq<Val>> {
        opening_commits(self.params.info@) + seq![
            header_digest_of(w.global, po2),
            self.circuit_hal.group_root_spec(RegisterGroup::Code, w.code, w.rows, w.code_cols),
            self.circuit_hal.group_root_spec(RegisterGroup::Data, w.data, w.rows, w.data_cols),
        ]
    }

    /// The mixing challenge: drawn from the commitments made before it.
    pub open spec fn mix_spec(&self, w: WitnessView<C::Trace>, po2: u32) -> Seq<Val> {
        poseidon2_draws(self.pre_mix_commits(w, po2), self.params.mix_count as nat)
    }

    /// The proof of a segment, or none when it cannot be proved.
    pub open spec fn prove_spec(&self, segment: Segment) -> Option<ProofView> {
        match self.circuit_hal.witness_spec(segment) {
            None => None,
            Some(w) => {
                let po2 = segment.po2;
                let mix = self.mix_spec(w, po2);
                let cols = self.params.accum_count as nat;
                if w.rows * cols > usize::MAX {
                    None
                } else {
                    match committed_accum(&self.circuit_hal, w, mix, cols) {
                        None => None,
                        Some(a) => {
                            let commits = self.pre_mix_commits(w, po2).push(
                                self.circuit_hal.group_root_spec(RegisterGroup::Accum, a, w.rows, cols),
                            );
                            let written = header_of(w.global, po2);
                            Some(
                                ProofView {
                                    commits,
                                    written,
                                    po2,
                                    mix,
                                    seal: self.circuit_hal.seal_spec(
                                        commits,
                                        written,
                                        po2,
                                        mix,
                                        coerce_all(w.global),
                                    ),
                                },
                            )
                        },
                    }
                }
            },
        }
    }

    /// Allocates the accumulation buffer over the witness's rows, has the
    /// circuit fill it, and zeroizes every cell the circuit left unwritten,
    /// so the padding rows read as zero.
    pub fn accumulate(&self, w: &Witness<C::Trace>, mix: &MetaBuffer) -> (r: Result<
        MetaBuffer,
        ProveError,
    >)
        requires
            w.data.wf(),
            w.cycles <= w.data.rows,
        ensures
            w.data.rows * self.params.accum_count > usize::MAX ==> r == Err::<MetaBuffer, ProveError>(
                ProveError::Allocation,
            ),
            w.data.rows * self.params.accum_count <= usize::MAX ==> (r is Ok <==> self.circuit_hal.accum_spec(
                w.trace,
                w.data.buf@,
                mix.buf@,
                w.data.rows as nat,
                self.params.accum_count as nat,
                w.cycles as nat,
            ) is Some),
            r is Ok ==> {
                let a = r->Ok_0;
                &&& a.wf()
                &&& a.rows == w.data.rows
                &&& a.cols == self.params.accum_count
                &&& a.checked_reads
                &&& Some(a.buf@) == committed_accum(&self.circuit_hal, w.view(), mix.buf@, a.cols as nat)
                &&& all_valid(a.buf@)
                &&& forall|row: int, col: int|
                    w.cycles <= row < a.rows && 0 <= col < a.cols ==> #[trigger] a.cell(row, col) == ZERO
            },
    {
        let rows = w.data.rows;
        let cols = self.params.accum_count;
        if rows.checked_mul(cols).is_none() {
            return Err(ProveError::Allocation);
        }
        let mut accum = MetaBuffer::new("accum", rows, cols, true);
        let ghost fresh = accum;
        match self.circuit_hal.step_accum(&w.trace, w.cycles, &w.data, &mut accum, mix) {
            Err(e) => Err(e),
            Ok(()) => {
                let ghost after = accum;
                let ghost filled = accum.buf@;
                accum.zeroize();
                proof {
                    assert forall|row: int, col: int|
                        w.cycles <= row < accum.rows && 0 <= col < accum.cols implies #[trigger] accum.cell(
                        row,
                        col,
                    ) == ZERO by {
                        crate::buffer::lemma_index_in_bounds(
                            rows as int,
                            cols as int,
                            row,
                            col,
                        );
                        let k = cell_index(rows as int, row, col);
                        assert(fresh.buf@[k] == INVALID);
                        assert(after.cell(row, col) == fresh.cell(row, col));
                        assert(filled[k] == INVALID);
                    }
                    crate::header::lemma_coerced_valid(filled);
                }
                Ok(accum)
            },
        }
    }

    /// Runs the whole protocol on a segment: witness generation in parallel
    /// mode, the opening commitments, the header, the code and data groups,
    /// the mixing challenge, accumulation, the accumulation group, and the
    /// seal. The result depends on the segment alone.
    pub fn prove_segment(&self, segment: &Segment) -> (r: Result<Proof, ProveError>)
        ensures
            r is Ok <==> self.prove_spec(*segment) is Some,
            r is Ok ==> self.prove_spec(*segment) == Some(r->Ok_0.view()),
    {
        let mask = random_mask();
        let mut w = match self.circuit_hal.generate_witness(StepMode::Parallel, segment, mask) {
            Ok(w) => w,
            Err(e) => return Err(e),
        };
        let ghost wv = w.view();
        let po2 = segment.po2;
        let mut t = begin_transcript(self.params.info);
        commit_header(&mut t, &mut w.global, po2);
        let code_root = self.circuit_hal.commit_group(RegisterGroup::Code, &w.code);
        let ghost c1 = t.commits@;
        t.commit(code_root);
        let data_root = self.circuit_hal.commit_group(RegisterGroup::Data, &w.data);
        let ghost c2 = t.commits@;
        t.commit(data_root);
        proof {
            lemma_commit_words_push(c1, code_root);
            lemma_commit_words_push(c2, data_root);
            assert(commit_words(t.commits@) =~= self.pre_mix_commits(wv, po2));
        }
        let mix_vals = t.draw_mix(self.params.mix_count);
        let mix = MetaBuffer::from_values("mix", &mix_vals, true);
        let accum = match self.accumulate(&w, &mix) {
            Ok(a) => a,
            Err(e) => return Err(e),
        };
        let accum_root = self.circuit_hal.commit_group(RegisterGroup::Accum, &accum);
        let ghost c3 = t.commits@;
        t.commit(accum_root);
        proof {
            lemma_commit_words_push(c3, accum_root);
        }
        let seal = self.circuit_hal.finalize(&t, &mix, &w.global);
        let proof = Proof { seal, transcript: t, mix: mix_vals };
        proof {
            assert(proof.view().written =~= header_of(wv.global, po2));
        }
        Ok(proof)
    }

    /// Proves a segment and returns its seal.
    pub fn prove(&self, segment: &Segment) -> (r: Result<Seal, ProveError>)
        ensures
            r is Ok <==> self.prove_spec(*segment) is Some,
            r is Ok ==> r->Ok_0@ == self.prove_spec(*segment)->Some_0.seal,
    {
        match self.prove_segment(segment) {
            Ok(p) => Ok(p.seal),
            Err(e) => Err(e),
        }
    }

    /// Proving is deterministic, and the mixing challenge is the draw from
    /// the five commitments that precede it: two proofs of one segment have
    /// the same commitments and the same mixing vector.
    pub proof fn lemma_transcript_determinism(&self, s1: Segment, s2: Segment)
        requires
            s1 == s2,
            self.prove_spec(s1) is Some,
        ensures
            self.prove_spec(s2) is Some,
            self.prove_spec(s1)->Some_0.commits == self.prove_spec(s2)->Some_0.commits,
            self.prove_spec(s1)->Some_0.mix == self.prove_spec(s2)->Some_0.mix,
            self.prove_spec(s1)->Some_0.commits.len() == 6,
            self.prove_spec(s1)->Some_0.mix == poseidon2_draws(
                self.prove_spec(s1)->Some_0.commits.take(5),
                self.params.mix_count as nat,
            ),
    {
        let w = self.circuit_hal.witness_spec(s1)->Some_0;
        let pre = self.pre_mix_commits(w, s1.po2);
        let v = self.prove_spec(s1)->Some_0;
        assert(pre.len() == 5);
        assert(v.commits.take(5) =~= pre);
    }

    pub fn new(circuit_hal: C, params: CircuitParams) -> (r: Self)
        ensures
            r.circuit_hal == circuit_hal,
            r.params == params,
    {
        SegmentProverImpl { circuit_hal, params }
    }
}

} // verus!
