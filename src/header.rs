use vstd::prelude::*;

use crate::buffer::MetaBuffer;
use crate::field::{all_valid, coerce_all, Val, INVALID};
use crate::hash::{hash_elems, poseidon2_hash};
use crate::segment::Digest;

verus! {

/// The header: each global coerced to a concrete element, then `po2`.
pub open spec fn header_of(globals: Seq<Val>, po2: u32) -> Seq<Val> {
    coerce_all(globals).push(po2)
}

/// The committed header digest.
pub open spec fn header_digest_of(globals: Seq<Val>, po2: u32) -> Seq<Val> {
    poseidon2_hash(header_of(globals, po2))
}

/// Coerces every global in place (unwritten ones become zero) and returns
/// the header built from them.
pub fn build_header(global: &mut MetaBuffer, po2: u32) -> (r: Vec<Val>)
    requires
        old(global).wf(),
    ensures
        final(global).wf(),
        final(global).name == old(global).name,
        final(global).rows == old(global).rows,
        final(global).cols == old(global).cols,
        final(global).checked_reads == old(global).checked_reads,
        final(global).buf@ == coerce_all(old(global).buf@),
        r@ == header_of(old(global).buf@, po2),
{
    global.zeroize();
    let mut header = global.to_vec();
    header.push(po2);
    header
}

/// Hashes a header built from `globals` and `po2`.
pub fn hash_header(header: &Vec<Val>) -> (d: Digest)
    requires
        header@.len() > 0,
        all_valid(header@.drop_last()),
        header@.last() != INVALID,
    ensures
        d.words@ == poseidon2_hash(header@),
        all_valid(d.words@),
{
    proof {
        assert(all_valid(header@)) by {
            assert forall|i: int| 0 <= i < header@.len() implies #[trigger] header@[i] != INVALID by {
                if i < header@.len() - 1 {
                    assert(header@[i] == header@.drop_last()[i]);
                }
            }
        }
    }
    hash_elems(header)
}

/// Coerced globals are all real elements.
pub proof fn lemma_coerced_valid(globals: Seq<Val>)
    ensures
        all_valid(coerce_all(globals)),
{
}

/// The header determines the coerced globals and `po2`, and over globals
/// that are all written it determines the globals themselves: two headers
/// of equally many globals agree exactly when every global and `po2` agree,
/// and equal inputs always give equal header digests.
pub proof fn lemma_header_binding(g1: Seq<Val>, po2_1: u32, g2: Seq<Val>, po2_2: u32)
    requires
        all_valid(g1),
        all_valid(g2),
        g1.len() == g2.len(),
    ensures
        header_of(g1, po2_1) == header_of(g2, po2_2) <==> (g1 == g2 && po2_1 == po2_2),
        (g1 == g2 && po2_1 == po2_2) ==> header_digest_of(g1, po2_1) == header_digest_of(g2, po2_2),
{
    let h1 = header_of(g1, po2_1);
    let h2 = header_of(g2, po2_2);
    if h1 == h2 {
        assert(h1[g1.len() as int] == po2_1);
        assert(h2[g2.len() as int] == po2_2);
        assert forall|i: int| 0 <= i < g1.len() implies g1[i] == g2[i] by {
            assert(h1[i] == coerce_all(g1)[i]);
            assert(h2[i] == coerce_all(g2)[i]);
        }
        assert(g1 =~= g2);
    }
}

} // verus!
