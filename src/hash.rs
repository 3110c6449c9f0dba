use vstd::prelude::*;

use risc0_core::field::baby_bear::{Elem as BabyBearElem, ExtElem as BabyBearExtElem};
use risc0_core::field::Elem as FieldElemOps;
use risc0_core::field::ExtElem as ExtElemOps;

use crate::field::{all_valid, Val, FIELD_P, INVALID};
use crate::segment::Digest;

verus! {

/// The Poseidon2 digest words of a slice of field elements.
pub uninterp spec fn poseidon2_hash(elems: Seq<Val>) -> Seq<Val>;

/// The first `count` elements a fresh Poseidon2 sponge yields after
/// absorbing `commits` in order.
pub uninterp spec fn poseidon2_draws(commits: Seq<Seq<Val>>, count: nat) -> Seq<Val>;

/// The Montgomery form of the small integer `b`, that is `b * 2^32 mod P`.
pub open spec fn montgomery_of(b: u8) -> Val {
    ((b as int) * 0x1_0000_0000 % (FIELD_P as int)) as Val
}

/// The words of every digest in order.
pub open spec fn commit_words(commits: Seq<Digest>) -> Seq<Seq<Val>> {
    commits.map_values(|d: Digest| d.words@)
}

/// Every word of every digest is a real field element.
pub open spec fn commits_valid(commits: Seq<Digest>) -> bool {
    forall|i: int| 0 <= i < commits.len() ==> all_valid(#[trigger] commits[i].words@)
}

/// The bytes of the proof-system tag "RISC0_STARK:v1__".
pub open spec fn proof_system_tag() -> Seq<u8> {
    seq![82u8, 73, 83, 67, 48, 95, 83, 84, 65, 82, 75, 58, 118, 49, 95, 95]
}

/// Each of the sixteen tag bytes in Montgomery form.
pub open spec fn encoded_info(info: Seq<u8>) -> Seq<Val> {
    Seq::new(16, |i: int| montgomery_of(info[i]))
}

/// Eight reduced words are all real field elements.
pub proof fn lemma_reduced_digest_valid(d: Digest)
    requires
        forall|i: int| 0 <= i < 8 ==> #[trigger] d.words@[i] < FIELD_P,
    ensures
        all_valid(d.words@),
{
    assert forall|i: int| 0 <= i < d.words@.len() implies #[trigger] d.words@[i] != INVALID by {
        assert(d.words@[i] < FIELD_P);
    }
}

/// Relies on risc0_zkp's Poseidon2 `hash_elem_slice`: a deterministic digest
/// of the elements, whose eight words are reduced field elements.
#[verifier::external_body]
pub(crate) fn hash_elems(elems: &Vec<Val>) -> (d: Digest)
    requires
        all_valid(elems@),
    ensures
        d.words@ == poseidon2_hash(elems@),
        forall|i: int| 0 <= i < 8 ==> #[trigger] d.words@[i] < FIELD_P,
{
    let v: Vec<BabyBearElem> = elems.iter().map(|w| BabyBearElem::new_raw(*w)).collect();
    let d = risc0_zkp::core::hash::poseidon2::Poseidon2HashSuite::new_suite().hashfn.hash_elem_slice(&v);
    Digest { words: (*d).into() }
}

/// Relies on risc0_zkp's `Poseidon2Rng`: starting from `new`, `mix` of each
/// commitment in order, then `random_elem` `count` times; the sponge is
/// deterministic, so the draws depend on the commitments alone.
#[verifier::external_body]
pub(crate) fn draw_elems(commits: &Vec<Digest>, count: usize) -> (r: Vec<Val>)
    requires
        commits_valid(commits@),
    ensures
        r@ == poseidon2_draws(commit_words(commits@), count as nat),
        r@.len() == count,
{
    let mut rng = risc0_zkp::core::hash::poseidon2::Poseidon2Rng::new();
    commits.iter().for_each(|d| risc0_zkp::core::hash::Rng::mix(&mut rng, &risc0_zkp::core::digest::Digest::from(d.words)));
    (0..count).map(|_| risc0_zkp::core::hash::Rng::random_elem(&mut rng).as_u32_montgomery()).collect()
}

/// Relies on risc0_zkp's `ProtocolInfo::encode`: one element per byte, each
/// `Elem::from_u64(byte)`, which Montgomery-encodes it.
#[verifier::external_body]
pub(crate) fn encode_protocol_info(info: [u8; 16]) -> (r: Vec<Val>)
    ensures
        r@.len() == 16,
        forall|i: int| 0 <= i < 16 ==> #[trigger] r@[i] == montgomery_of(info@[i]),
{
    let elems: [BabyBearElem; 16] = risc0_zkp::adapter::ProtocolInfo(info).encode();
    elems.iter().map(|e| e.as_u32_montgomery()).collect()
}

/// Relies on risc0_zkp's `PROOF_SYSTEM_INFO`, the tag "RISC0_STARK:v1__"
/// that names the proof system.
#[verifier::external_body]
pub(crate) fn proof_system_info() -> (r: [u8; 16])
    ensures
        r@ == proof_system_tag(),
{
    risc0_zkp::adapter::PROOF_SYSTEM_INFO.0
}

/// Relies on rand's `thread_rng` and Baby Bear's `ExtElem::random`: four
/// reduced base-field words, of which nothing else is known.
#[verifier::external_body]
pub(crate) fn random_mask() -> (r: [Val; 4])
    ensures
        forall|i: int| 0 <= i < 4 ==> #[trigger] r@[i] < FIELD_P,
{
    let e = BabyBearExtElem::random(&mut rand::thread_rng());
    let s = e.subelems();
    [s[0].as_u32_montgomery(), s[1].as_u32_montgomery(), s[2].as_u32_montgomery(), s[3].as_u32_montgomery()]
}

} // verus!
