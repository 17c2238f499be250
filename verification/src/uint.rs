//! 256-bit unsigned integers (EVM words).
//!
//! A word is held as two 128-bit halves; its view is the number it denotes.
//! Storage keys, storage values, balances, amounts and 32-byte hashes are all
//! words.

use crate::bytes::{
    be_bytes, be_slice_to_u128, be_value, lemma_be_roundtrip, lemma_be_value_concat,
    lemma_be_value_injective, lemma_pow256_values, u128_to_be_bytes,
};
use vstd::prelude::*;

verus! {

/// `2^128`.
pub open spec fn two_128() -> nat {
    0x1_0000_0000_0000_0000_0000_0000_0000_0000nat
}

/// `2^256 - 1`, the largest word.
pub open spec fn word_max() -> nat {
    0xffff_ffff_ffff_ffff_ffff_ffff_ffff_ffff_ffff_ffff_ffff_ffff_ffff_ffff_ffff_ffffnat
}

/// An unsigned 256-bit integer.
#[derive(Clone, Copy, Debug, PartialEq, Eq, Structural)]
pub struct U256 {
    /// The high 128 bits.
    pub hi: u128,
    /// The low 128 bits.
    pub lo: u128,
}

/// A 32-byte value (hashes, nonces, signature scalars) held as a word.
pub type B256 = U256;

impl View for U256 {
    type V = nat;

    open spec fn view(&self) -> nat {
        self.hi as nat * two_128() + self.lo as nat
    }
}

/// Words with the same value are the same word.
pub proof fn lemma_word_view_injective(a: U256, b: U256)
    requires
        a@ == b@,
    ensures
        a == b,
{
    if a.hi < b.hi {
        assert(a@ < b@);
    } else if a.hi > b.hi {
        assert(a@ > b@);
    }
}

impl U256 {
    /// The word 0.
    pub fn zero() -> (r: U256)
        ensures
            r@ == 0,
    {
        U256 { hi: 0, lo: 0 }
    }

    /// The word 1.
    pub fn one() -> (r: U256)
        ensures
            r@ == 1,
    {
        U256 { hi: 0, lo: 1 }
    }

    /// The largest word, `2^256 - 1`.
    pub fn max_value() -> (r: U256)
        ensures
            r@ == word_max(),
    {
        U256 { hi: u128::MAX, lo: u128::MAX }
    }

    /// The word holding `x`.
    pub fn from_u64(x: u64) -> (r: U256)
        ensures
            r@ == x,
    {
        U256 { hi: 0, lo: x as u128 }
    }

    /// The word holding `x`.
    pub fn from_u128(x: u128) -> (r: U256)
        ensures
            r@ == x,
    {
        U256 { hi: 0, lo: x }
    }

    /// True if the word is 0.
    pub fn is_zero(&self) -> (r: bool)
        ensures
            r == (self@ == 0),
    {
        self.hi == 0 && self.lo == 0
    }

    /// True if the two words are equal.
    pub fn eq_word(&self, other: &U256) -> (r: bool)
        ensures
            r == (self@ == other@),
    {
        proof {
            if self@ == other@ {
                lemma_word_view_injective(*self, *other);
            }
        }
        self.hi == other.hi && self.lo == other.lo
    }

    /// `self < other`.
    pub fn lt(&self, other: &U256) -> (r: bool)
        ensures
            r == (self@ < other@),
    {
        self.hi < other.hi || (self.hi == other.hi && self.lo < other.lo)
    }

    /// `self <= other`.
    pub fn le(&self, other: &U256) -> (r: bool)
        ensures
            r == (self@ <= other@),
    {
        !other.lt(self)
    }

    /// `self + other`, or `None` when the sum does not fit in 256 bits.
    pub fn checked_add(&self, other: &U256) -> (r: Option<U256>)
        ensures
            match r {
                Some(v) => v@ == self@ + other@,
                None => self@ + other@ > word_max(),
            },
    {
        let (lo, carry) = if self.lo <= u128::MAX - other.lo {
            (self.lo + other.lo, 0u128)
        } else {
            (self.lo - (u128::MAX - other.lo) - 1, 1u128)
        };
        match self.hi.checked_add(other.hi) {
            None => None,
            Some(h) => match h.checked_add(carry) {
                None => None,
                Some(hi) => Some(U256 { hi, lo }),
            },
        }
    }

    /// `self - other`, or `None` when `other > self`.
    pub fn checked_sub(&self, other: &U256) -> (r: Option<U256>)
        ensures
            match r {
                Some(v) => v@ == self@ - other@,
                None => self@ < other@,
            },
    {
        let (lo, borrow) = if self.lo >= other.lo {
            (self.lo - other.lo, 0u128)
        } else {
            (u128::MAX - (other.lo - self.lo) + 1, 1u128)
        };
        match self.hi.checked_sub(other.hi) {
            None => None,
            Some(h) => match h.checked_sub(borrow) {
                None => None,
                Some(hi) => Some(U256 { hi, lo }),
            },
        }
    }

    /// `self - other`, or 0 when `other > self`.
    pub fn saturating_sub(&self, other: &U256) -> (r: U256)
        ensures
            r@ == if self@ >= other@ {
                self@ - other@
            } else {
                0
            },
    {
        match self.checked_sub(other) {
            Some(v) => v,
            None => U256::zero(),
        }
    }

    /// The 32-byte big-endian encoding of the word.
    pub fn to_be_bytes(&self) -> (r: Vec<u8>)
        ensures
            r@ == be_bytes(self@, 32),
            r@.len() == 32,
            be_value(r@) == self@,
    {
        let mut v = u128_to_be_bytes(self.hi, 16);
        let mut w = u128_to_be_bytes(self.lo, 16);
        let ghost hv = v@;
        let ghost lv = w@;
        v.append(&mut w);
        proof {
            lemma_pow256_values();
            lemma_be_roundtrip(self.hi as nat, 16);
            lemma_be_roundtrip(self.lo as nat, 16);
            lemma_be_value_concat(hv, lv);
            lemma_be_roundtrip(self@, 32);
            lemma_be_value_injective(v@, be_bytes(self@, 32));
        }
        v
    }

    /// The word that 32 big-endian bytes denote.
    pub fn from_be_bytes(bytes: &[u8]) -> (r: U256)
        requires
            bytes@.len() == 32,
        ensures
            r@ == be_value(bytes@),
    {
        assert(bytes@.subrange(0, 32) =~= bytes@);
        U256::read_be(bytes, 0)
    }

    /// The word that `bytes[start..start + 32]` denotes.
    pub fn read_be(bytes: &[u8], start: usize) -> (r: U256)
        requires
            start + 32 <= bytes.len(),
        ensures
            r@ == be_value(bytes@.subrange(start as int, start + 32)),
    {
        let hi = be_slice_to_u128(bytes, start, 16);
        let lo = be_slice_to_u128(bytes, start + 16, 16);
        proof {
            let s = bytes@.subrange(start as int, start + 32);
            let a = bytes@.subrange(start as int, start + 16);
            let b = bytes@.subrange(start + 16, start + 32);
            assert(s =~= a + b);
            lemma_be_value_concat(a, b);
            lemma_pow256_values();
        }
        U256 { hi, lo }
    }
}

} // verus!
