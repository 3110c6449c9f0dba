use vstd::prelude::*;

use crate::field::{all_valid, Val};
use crate::hash::{commit_words, commits_valid, draw_elems, poseidon2_draws};
use crate::segment::Digest;

verus! {

/// The prover's side of the Fiat-Shamir transcript: the commitments made so
/// far, the raw words written for the verifier to read back, the declared
/// trace size, and whether the mixing challenge has been drawn.
pub struct Transcript {
    pub commits: Vec<Digest>,
    pub written: Vec<Val>,
    pub po2: Option<u32>,
    pub mix_drawn: bool,
}

impl Transcript {
    /// Every committed word is a real field element, as the sponge needs.
    pub open spec fn wf(&self) -> bool {
        commits_valid(self.commits@)
    }

    /// An empty transcript.
    pub fn new() -> (r: Self)
        ensures
            r.wf(),
            r.commits@ == Seq::<Digest>::empty(),
            r.written@ == Seq::<Val>::empty(),
            r.po2 == None::<u32>,
            !r.mix_drawn,
    {
        Transcript { commits: Vec::new(), written: Vec::new(), po2: None, mix_drawn: false }
    }

    /// Appends a commitment.
    pub fn commit(&mut self, d: Digest)
        requires
            old(self).wf(),
            all_valid(d.words@),
        ensures
            final(self).wf(),
            final(self).commits@ == old(self).commits@.push(d),
            final(self).written@ == old(self).written@,
            final(self).po2 == old(self).po2,
            final(self).mix_drawn == old(self).mix_drawn,
    {
        self.commits.push(d);
        proof {
            assert forall|i: int| 0 <= i < self.commits@.len() implies all_valid(
                #[trigger] self.commits@[i].words@,
            ) by {
                if i < old(self).commits@.len() {
                    assert(self.commits@[i] == old(self).commits@[i]);
                }
            }
        }
    }

    /// Appends raw field words for the verifier to read back.
    pub fn write_elems(&mut self, v: &Vec<Val>)
        ensures
            final(self).commits@ == old(self).commits@,
            final(self).written@ == old(self).written@ + v@,
            final(self).po2 == old(self).po2,
            final(self).mix_drawn == old(self).mix_drawn,
    {
        let mut i: usize = 0;
        while i < v.len()
            invariant
                i <= v@.len(),
                self.commits@ == old(self).commits@,
                self.written@ == old(self).written@ + v@.subrange(0, i as int),
                self.po2 == old(self).po2,
                self.mix_drawn == old(self).mix_drawn,
            decreases v@.len() - i,
        {
            self.written.push(v[i]);
            i = i + 1;
            proof {
                assert(v@.subrange(0, i as int) =~= v@.subrange(0, i - 1 as int).push(v@[i - 1]));
                assert(self.written@ =~= old(self).written@ + v@.subrange(0, i as int));
            }
        }
        proof {
            assert(v@.subrange(0, v@.len() as int) =~= v@);
        }
    }

    /// Declares the trace size, `2^po2` rows.
    pub fn set_po2(&mut self, po2: u32)
        ensures
            final(self).commits@ == old(self).commits@,
            final(self).written@ == old(self).written@,
            final(self).po2 == Some(po2),
            final(self).mix_drawn == old(self).mix_drawn,
    {
        self.po2 = Some(po2);
    }

    /// Draws the mixing challenge: `count` elements determined by the
    /// commitments made so far. It can be drawn once per transcript.
    pub fn draw_mix(&mut self, count: usize) -> (r: Vec<Val>)
        requires
            old(self).wf(),
            !old(self).mix_drawn,
        ensures
            r@ == poseidon2_draws(commit_words(old(self).commits@), count as nat),
            r@.len() == count,
            final(self).wf(),
            final(self).commits@ == old(self).commits@,
            final(self).written@ == old(self).written@,
            final(self).po2 == old(self).po2,
            final(self).mix_drawn,
    {
        let r = draw_elems(&self.commits, count);
        self.mix_drawn = true;
        r
    }
}

} // verus!
