//! 160-bit account addresses.

use crate::bytes::{
    be_bytes, be_slice_to_u128, be_value, lemma_be_roundtrip, lemma_be_value_bound,
    lemma_be_value_concat, lemma_be_value_injective, lemma_pow256_values, u128_to_be_bytes,
};
use crate::uint::{two_128, U256};
use vstd::prelude::*;

verus! {

/// `2^160`.
pub open spec fn two_160() -> nat {
    0x1_0000_0000_0000_0000_0000_0000_0000_0000_0000_0000nat
}

/// An account address: the high 32 bits and the low 128 bits.
#[derive(Clone, Copy, Debug, PartialEq, Eq, Structural)]
pub struct Address {
    /// The high 32 bits (the first 4 bytes).
    pub hi: u32,
    /// The low 128 bits (the last 16 bytes).
    pub lo: u128,
}

impl View for Address {
    type V = nat;

    open spec fn view(&self) -> nat {
        self.hi as nat * two_128() + self.lo as nat
    }
}

/// Addresses with the same value are the same address.
pub proof fn lemma_address_view_injective(a: Address, b: Address)
    requires
        a@ == b@,
    ensures
        a == b,
{
    if a.hi < b.hi {
        assert(a@ < b@);
    } else if a.hi > b.hi {
        assert(a@ > b@);
    }
}

/// An address is below `2^160`.
pub proof fn lemma_address_bound(a: Address)
    ensures
        a@ < two_160(),
{
}

/// The address whose value is `v` (for `v` below `2^160`).
pub open spec fn address_of_value(v: nat) -> Address {
    choose|x: Address| x@ == v
}

/// An address is the address of its value.
pub proof fn lemma_address_of_value(v: nat, x: Address)
    requires
        x@ == v,
    ensures
        address_of_value(v) == x,
{
    let y = address_of_value(v);
    lemma_address_view_injective(x, y);
}

impl Address {
    /// The zero address.
    pub fn zero() -> (r: Address)
        ensures
            r@ == 0,
    {
        Address { hi: 0, lo: 0 }
    }

    /// True for the zero address.
    pub fn is_zero(&self) -> (r: bool)
        ensures
            r == (self@ == 0),
    {
        self.hi == 0 && self.lo == 0
    }

    /// The 20-byte big-endian encoding of the address.
    pub fn to_be_bytes(&self) -> (r: Vec<u8>)
        ensures
            r@ == be_bytes(self@, 20),
            r@.len() == 20,
            be_value(r@) == self@,
    {
        let mut v = u128_to_be_bytes(self.hi as u128, 4);
        let mut w = u128_to_be_bytes(self.lo, 16);
        let ghost hv = v@;
        let ghost lv = w@;
        v.append(&mut w);
        proof {
            lemma_pow256_values();
            lemma_be_roundtrip(self.hi as nat, 4);
            lemma_be_roundtrip(self.lo as nat, 16);
            lemma_be_value_concat(hv, lv);
            lemma_be_roundtrip(self@, 20);
            lemma_be_value_injective(v@, be_bytes(self@, 20));
        }
        v
    }

    /// The address that `bytes[start..start + 20]` denotes.
    pub fn read_be(bytes: &[u8], start: usize) -> (r: Address)
        requires
            start + 20 <= bytes.len(),
        ensures
            r@ == be_value(bytes@.subrange(start as int, start + 20)),
    {
        let hi = be_slice_to_u128(bytes, start, 4);
        let lo = be_slice_to_u128(bytes, start + 4, 16);
        proof {
            let s = bytes@.subrange(start as int, start + 20);
            let a = bytes@.subrange(start as int, start + 4);
            let b = bytes@.subrange(start + 4, start + 20);
            assert(s =~= a + b);
            lemma_be_value_concat(a, b);
            lemma_be_value_bound(a);
            lemma_pow256_values();
        }
        Address { hi: hi as u32, lo }
    }

    /// The address that 20 big-endian bytes denote.
    pub fn from_be_bytes(bytes: &[u8]) -> (r: Address)
        requires
            bytes@.len() == 20,
        ensures
            r@ == be_value(bytes@),
    {
        assert(bytes@.subrange(0, 20) =~= bytes@);
        Address::read_be(bytes, 0)
    }

    /// The address as a word (left-padded with zeros).
    pub fn to_word(&self) -> (r: U256)
        ensures
            r@ == self@,
    {
        U256 { hi: self.hi as u128, lo: self.lo }
    }

    /// The low 160 bits of a word, as an address.
    pub fn from_word(w: &U256) -> (r: Address)
        ensures
            r@ == w@ % two_160(),
    {
        let hi = (w.hi % 0x1_0000_0000u128) as u32;
        proof {
            let q = w.hi as int / 0x1_0000_0000;
            assert(w.hi as int == q * 0x1_0000_0000 + hi as int);
            assert(w@ == (q * two_160()) + (hi as nat * two_128() + w.lo as nat));
            vstd::arithmetic::div_mod::lemma_fundamental_div_mod_converse(
                w@ as int,
                two_160() as int,
                q,
                (hi as nat * two_128() + w.lo as nat) as int,
            );
        }
        Address { hi, lo: w.lo }
    }
}

} // verus!
