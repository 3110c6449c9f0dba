use vstd::prelude::*;

verus! {

/// A base-field element in its raw (Montgomery-form) machine word.
pub type Val = u32;

/// The Baby Bear modulus, 15 * 2^27 + 1.
pub const FIELD_P: u32 = 2013265921;

/// The sentinel word that marks a cell which has not been written yet.
pub const INVALID: u32 = 0xffff_ffff;

/// The zero element (its Montgomery form is the word 0).
pub const ZERO: u32 = 0;

/// A cell value that is a real field element rather than the sentinel.
pub open spec fn is_valid(v: u32) -> bool {
    v != INVALID
}

/// Invalid cells read as zero; valid ones are kept.
pub open spec fn valid_or_zero_spec(v: u32) -> u32 {
    if v == INVALID {
        ZERO
    } else {
        v
    }
}

/// Every word of `s` is a real field element.
pub open spec fn all_valid(s: Seq<u32>) -> bool {
    forall|i: int| 0 <= i < s.len() ==> #[trigger] s[i] != INVALID
}

/// The cell-wise coercion of `s` through `valid_or_zero_spec`.
pub open spec fn coerce_all(s: Seq<u32>) -> Seq<u32> {
    s.map_values(|v: u32| valid_or_zero_spec(v))
}

/// Coerces a possibly-unwritten cell value to a concrete element.
pub fn valid_or_zero(v: Val) -> (r: Val)
    ensures
        r == valid_or_zero_spec(v),
        r != INVALID,
{
    if v == INVALID {
        ZERO
    } else {
        v
    }
}

} // verus!
