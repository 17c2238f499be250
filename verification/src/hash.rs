//! Keccak-256, as the chain computes it.

use crate::bytes::{be_value, lemma_be_value_bound, lemma_pow256_values};
use crate::uint::U256;
use vstd::prelude::*;

verus! {

/// The Keccak-256 digest of `data` (the hash the EVM uses), as
/// `alloy_primitives::keccak256` computes it.
pub uninterp spec fn keccak256_digest(data: Seq<u8>) -> Seq<u8>;

/// Calls `alloy_primitives::keccak256` on `data`.
///
/// Trusted: the result is the 32-byte digest that `keccak256_digest` names;
/// that it has 32 bytes is what the function's `B256` return type states.
#[verifier::external_body]
pub(crate) fn keccak256(data: &[u8]) -> (r: Vec<u8>)
    ensures
        r@ == keccak256_digest(data@),
        r@.len() == 32,
{
    alloy::primitives::keccak256(data).to_vec()
}

/// The digest of `data`, read as a big-endian word.
pub open spec fn keccak256_word(data: Seq<u8>) -> nat {
    be_value(keccak256_digest(data))
}

/// Keccak-256 of `data` as a word.
pub fn keccak256_to_word(data: &[u8]) -> (r: U256)
    ensures
        r@ == keccak256_word(data@),
{
    let d = keccak256(data);
    U256::from_be_bytes(d.as_slice())
}

/// Appends `s` to `v`.
pub fn extend_bytes(v: &mut Vec<u8>, s: &[u8])
    ensures
        final(v)@ == old(v)@ + s@,
{
    let mut i: usize = 0;
    while i < s.len()
        invariant
            i <= s@.len(),
            v@ == old(v)@ + s@.subrange(0, i as int),
        decreases s@.len() - i,
    {
        v.push(s[i]);
        i = i + 1;
        assert(s@.subrange(0, i as int) =~= s@.subrange(0, i - 1).push(s@[i - 1]));
    }
    assert(s@.subrange(0, s@.len() as int) =~= s@);
}

} // verus!
