use segment_prover::{
    begin_transcript, build_header, check_step_modes, commit_header, hash_header, same_cells,
    valid_or_zero, CircuitAccumulator, CircuitParams, CircuitWitnessGenerator, Digest, MetaBuffer,
    ProofEngine, ProveError, RegisterGroup, Seal, Segment, SegmentProverImpl, StepMode, Transcript,
    Val, Witness, FIELD_P, INVALID, ZERO,
};

const TAG: [u8; 16] = *b"toy_circuit:v1__";

fn digest(w: u32) -> Digest {
    Digest { words: [w; 8] }
}

fn segment(po2: u32, user_cycles: u32, index: u64) -> Segment {
    Segment {
        partial_image: Vec::new(),
        pre_digest: digest(1),
        post_digest: digest(2),
        read_record: vec![vec![1, 2, 3], vec![40, 50]],
        write_record: vec![4],
        user_cycles,
        suspend_cycle: user_cycles,
        paging_cycles: 0,
        po2,
        exit_code: risc0_binfmt::ExitCode::Halted(0),
        index,
        input_digest: digest(3),
        output_digest: None,
    }
}

/// A software circuit: one code column, two data columns, three globals
/// (the last never written), and accumulation over the exercised rows.
struct ToyCircuit;

fn record_sum(s: &Segment) -> u32 {
    let mut sum: u32 = 0;
    for r in &s.read_record {
        for b in r {
            sum = sum * 31 + *b as u32;
            sum %= FIELD_P;
        }
    }
    sum
}

impl CircuitWitnessGenerator for ToyCircuit {
    type Trace = Vec<u32>;

    fn generate_witness(
        &self,
        mode: StepMode,
        segment: &Segment,
        _mask: [Val; 4],
    ) -> Result<Witness<Vec<u32>>, ProveError> {
        let rows = 1usize << segment.po2;
        let cycles = segment.user_cycles as usize;
        if cycles > rows {
            return Err(ProveError::TraceMismatch);
        }
        let seed = record_sum(segment);
        let mut code = MetaBuffer::new("code", rows, 1, true);
        let mut data = MetaBuffer::new("data", rows, 2, true);
        let mut global = MetaBuffer::new("global", 1, 3, true);
        let order: Vec<usize> = match mode {
            StepMode::Parallel | StepMode::SeqForward => (0..rows).collect(),
            StepMode::SeqReverse => (0..rows).rev().collect(),
        };
        for row in order {
            code.set(row, 0, row as u32);
            let active = row < cycles;
            data.set(row, 0, if active { row as u32 + 1 } else { 0 });
            data.set(row, 1, if active { (seed + row as u32) % FIELD_P } else { 0 });
        }
        global.set(0, 0, segment.user_cycles);
        global.set(0, 1, seed);
        let trace: Vec<u32> = (0..cycles as u32).collect();
        Ok(Witness { trace, code, data, global, cycles })
    }
}

impl CircuitAccumulator for ToyCircuit {
    fn step_accum(
        &self,
        trace: &Vec<u32>,
        cycles: usize,
        data: &MetaBuffer,
        accum: &mut MetaBuffer,
        mix: &MetaBuffer,
    ) -> Result<(), ProveError> {
        for row in 0..cycles {
            for col in 0..accum.cols {
                let d = data.get(row, col % data.cols)?;
                let m = mix.get(0, col % mix.cols)?;
                let v = ((d as u64 + m as u64 + trace[row] as u64) % FIELD_P as u64) as u32;
                accum.set(row, col, v);
            }
        }
        Ok(())
    }
}

impl ProofEngine for ToyCircuit {
    fn commit_group(&self, group: RegisterGroup, buf: &MetaBuffer) -> Digest {
        let mut acc: u64 = match group {
            RegisterGroup::Accum => 7,
            RegisterGroup::Code => 11,
            RegisterGroup::Data => 13,
        };
        let mut words = [0u32; 8];
        for (i, v) in buf.buf.iter().enumerate() {
            acc = (acc * 31 + *v as u64) % FIELD_P as u64;
            words[i % 8] = acc as u32;
        }
        Digest { words }
    }

    fn finalize(&self, transcript: &Transcript, mix: &MetaBuffer, global: &MetaBuffer) -> Seal {
        let mut seal = Vec::new();
        for d in &transcript.commits {
            seal.extend_from_slice(&d.words);
        }
        seal.extend_from_slice(&transcript.written);
        seal.extend_from_slice(&mix.buf);
        seal.extend_from_slice(&global.buf);
        seal
    }
}

fn params(accum_count: usize) -> CircuitParams {
    CircuitParams { info: TAG, mix_count: 4, accum_count }
}

fn filled(v: &[u32]) -> bool {
    v.iter().all(|x| *x != INVALID)
}

#[test]
fn meta_buffer_new_is_all_invalid() {
    let b = MetaBuffer::new("buf", 4, 3, true);
    assert_eq!(b.rows, 4);
    assert_eq!(b.cols, 3);
    assert!(b.checked_reads);
    assert_eq!(b.to_vec(), vec![INVALID; 12]);
}

#[test]
fn checked_read_of_unwritten_cell_fails() {
    let b = MetaBuffer::new("buf", 2, 2, true);
    assert_eq!(b.get(1, 1), Err(ProveError::UninitializedRead { row: 1, col: 1 }));
    let u = MetaBuffer::new("buf", 2, 2, false);
    assert_eq!(u.get(1, 1), Ok(INVALID));
}

#[test]
fn set_writes_one_column_major_cell() {
    let mut b = MetaBuffer::new("buf", 2, 3, true);
    b.set(1, 2, 9);
    assert_eq!(b.get(1, 2), Ok(9));
    let v = b.to_vec();
    assert_eq!(v[5], 9);
    assert_eq!(v.iter().filter(|x| **x == INVALID).count(), 5);
}

#[test]
fn zeroize_keeps_written_cells() {
    let mut b = MetaBuffer::new("buf", 3, 1, true);
    b.set(0, 0, 5);
    b.zeroize();
    assert_eq!(b.to_vec(), vec![5, ZERO, ZERO]);
}

#[test]
fn valid_or_zero_maps_only_the_sentinel() {
    assert_eq!(valid_or_zero(INVALID), 0);
    assert_eq!(valid_or_zero(17), 17);
    assert_eq!(valid_or_zero(FIELD_P - 1), FIELD_P - 1);
}

#[test]
fn header_coerces_globals_and_appends_po2() {
    let mut g = MetaBuffer::new("global", 1, 3, true);
    g.set(0, 0, 8);
    g.set(0, 2, 6);
    let h = build_header(&mut g, 10);
    assert_eq!(h, vec![8, 0, 6, 10]);
    assert_eq!(g.to_vec(), vec![8, 0, 6]);
}

#[test]
fn header_digest_changes_with_any_global_or_po2() {
    let base = hash_header(&vec![1, 2, 3, 10]);
    assert_eq!(base.words, hash_header(&vec![1, 2, 3, 10]).words);
    assert_ne!(base.words, hash_header(&vec![1, 2, 4, 10]).words);
    assert_ne!(base.words, hash_header(&vec![9, 2, 3, 10]).words);
    assert_ne!(base.words, hash_header(&vec![1, 2, 3, 11]).words);
    assert!(base.words.iter().all(|w| *w < FIELD_P));
    assert_ne!(base.words[..4], [1, 2, 3, 10]);
}

#[test]
fn header_digest_ignores_segment_index() {
    let c = ToyCircuit;
    let s1 = segment(4, 10, 0);
    let s2 = segment(4, 10, 7);
    let mut w1 = c.generate_witness(StepMode::Parallel, &s1, [0; 4]).unwrap();
    let mut w2 = c.generate_witness(StepMode::Parallel, &s2, [0; 4]).unwrap();
    let h1 = build_header(&mut w1.global, s1.po2);
    let h2 = build_header(&mut w2.global, s2.po2);
    assert_eq!(hash_header(&h1).words, hash_header(&h2).words);
}

#[test]
fn transcript_opens_with_system_and_circuit_tags() {
    let t = begin_transcript(TAG);
    assert_eq!(t.commits.len(), 2);
    assert!(t.written.is_empty());
    assert_eq!(t.po2, None);
    let encode = |bytes: &[u8]| -> Vec<u32> {
        bytes.iter().map(|b| ((*b as u64) * (1u64 << 32) % FIELD_P as u64) as u32).collect()
    };
    assert_eq!(t.commits[0].words, hash_header(&encode(b"RISC0_STARK:v1__")).words);
    assert_eq!(t.commits[1].words, hash_header(&encode(&TAG)).words);
    let other = begin_transcript(*b"other_circuit:v1");
    assert_eq!(other.commits[0].words, t.commits[0].words);
    assert_ne!(other.commits[1].words, t.commits[1].words);
}

#[test]
fn header_commit_writes_header_and_po2() {
    let mut t = begin_transcript(TAG);
    let mut g = MetaBuffer::new("global", 1, 2, true);
    g.set(0, 0, 3);
    commit_header(&mut t, &mut g, 5);
    assert_eq!(t.commits.len(), 3);
    assert_eq!(t.commits[2].words, hash_header(&vec![3, 0, 5]).words);
    assert_eq!(t.written, vec![3, 0, 5]);
    assert_eq!(t.po2, Some(5));
}

#[test]
fn mix_depends_only_on_commitments() {
    let mut a = begin_transcript(TAG);
    let mut b = begin_transcript(TAG);
    let mut c = begin_transcript(*b"other_circuit:v1");
    let ma = a.draw_mix(6);
    let mb = b.draw_mix(6);
    let mc = c.draw_mix(6);
    assert_eq!(ma.len(), 6);
    assert_eq!(ma, mb);
    assert_ne!(ma, mc);
    assert!(a.mix_drawn);
    assert!(ma.iter().all(|v| *v < FIELD_P));
}

#[test]
fn padding_rows_of_accumulation_read_zero() {
    let p = SegmentProverImpl::new(ToyCircuit, params(3));
    let s = segment(10, 500, 0);
    let w = p.circuit_hal.generate_witness(StepMode::Parallel, &s, [0; 4]).unwrap();
    assert_eq!(w.data.rows, 1024);
    assert_eq!(w.cycles, 500);
    let mix = MetaBuffer::new("mix", 1, 4, true);
    let mut mix = mix;
    for c in 0..4 {
        mix.set(0, c, c as u32 + 1);
    }
    let accum = p.accumulate(&w, &mix).unwrap();
    assert_eq!(accum.rows, 1024);
    assert_eq!(accum.cols, 3);
    for col in 0..3 {
        for row in 500..1024 {
            assert_eq!(accum.get(row, col), Ok(0));
        }
        for row in 0..500 {
            assert_ne!(accum.get(row, col), Ok(INVALID));
        }
    }
    assert!(filled(&accum.to_vec()));
}

#[test]
fn accumulation_too_large_is_an_allocation_error() {
    let p = SegmentProverImpl::new(ToyCircuit, params(usize::MAX));
    let s = segment(2, 3, 0);
    let w = p.circuit_hal.generate_witness(StepMode::Parallel, &s, [0; 4]).unwrap();
    let mix = MetaBuffer::new("mix", 1, 4, false);
    assert!(matches!(p.accumulate(&w, &mix), Err(ProveError::Allocation)));
    assert!(matches!(p.prove(&s), Err(ProveError::Allocation)));
}

#[test]
fn step_modes_fill_identical_buffers() {
    let c = ToyCircuit;
    let s = segment(5, 20, 0);
    assert_eq!(check_step_modes(&c, &s), Ok(true));
    let f = c.generate_witness(StepMode::SeqForward, &s, [1; 4]).unwrap();
    let r = c.generate_witness(StepMode::SeqReverse, &s, [2; 4]).unwrap();
    assert!(same_cells(&f.data.buf, &r.data.buf));
    assert!(!same_cells(&f.data.buf, &f.code.buf));
}

#[test]
fn too_many_cycles_is_a_trace_mismatch() {
    let c = ToyCircuit;
    let s = segment(3, 9, 0);
    assert_eq!(check_step_modes(&c, &s), Err(ProveError::TraceMismatch));
    let p = SegmentProverImpl::new(ToyCircuit, params(2));
    assert!(matches!(p.prove(&s), Err(ProveError::TraceMismatch)));
}

#[test]
fn proving_twice_gives_the_same_transcript() {
    let p = SegmentProverImpl::new(ToyCircuit, params(2));
    let s = segment(4, 12, 0);
    let a = p.prove_segment(&s).unwrap();
    let b = p.prove_segment(&s).unwrap();
    assert_eq!(a.transcript.commits.len(), 6);
    for i in 0..6 {
        assert_eq!(a.transcript.commits[i].words, b.transcript.commits[i].words);
    }
    assert_eq!(a.mix, b.mix);
    assert_eq!(a.mix.len(), 4);
    assert_eq!(a.seal, b.seal);
    assert_eq!(a.transcript.po2, Some(4));
    assert_eq!(p.prove(&s).unwrap(), a.seal);
    let mut t = begin_transcript(TAG);
    t.commits.push(a.transcript.commits[2]);
    t.commits.push(a.transcript.commits[3]);
    t.commits.push(a.transcript.commits[4]);
    assert_eq!(t.draw_mix(4), a.mix);
    assert_eq!(a.transcript.written, vec![12, record_sum(&s), 0, 4]);
}

#[test]
fn corrupted_read_record_diverges_without_partial_fill() {
    let c = ToyCircuit;
    let s = segment(4, 12, 0);
    let mut bad = segment(4, 12, 0);
    bad.read_record[1][0] ^= 0x01;
    let good = c.generate_witness(StepMode::Parallel, &s, [0; 4]).unwrap();
    match c.generate_witness(StepMode::Parallel, &bad, [0; 4]) {
        Err(e) => assert_eq!(e, ProveError::TraceMismatch),
        Ok(w) => {
            assert!(!same_cells(&good.data.buf, &w.data.buf));
            assert!(filled(&w.data.to_vec()));
            assert!(filled(&w.code.to_vec()));
        }
    }
    let p = SegmentProverImpl::new(ToyCircuit, params(2));
    assert_ne!(p.prove(&s).unwrap(), p.prove(&bad).unwrap());
}
