//! Big-endian byte strings and the numbers they denote.
//!
//! Every fixed-width value of the library (256-bit words, 160-bit addresses,
//! 4-byte selectors) is read and written big-endian; this module holds the
//! mathematical model of that encoding and its round-trip lemmas.

use vstd::arithmetic::div_mod::{lemma_fundamental_div_mod_converse, lemma_mod_breakdown};
use vstd::arithmetic::mul::lemma_mul_is_associative;
use vstd::prelude::*;

verus! {

/// `256^n`.
pub open spec fn pow256(n: nat) -> nat
    decreases n,
{
    if n == 0 {
        1
    } else {
        256 * pow256((n - 1) as nat)
    }
}

/// The number that the byte string `s` denotes, most significant byte first.
pub open spec fn be_value(s: Seq<u8>) -> nat
    decreases s.len(),
{
    if s.len() == 0 {
        0
    } else {
        be_value(s.drop_last()) * 256 + s.last() as nat
    }
}

/// The `n` low-order bytes of `x`, most significant first.
pub open spec fn be_bytes(x: nat, n: nat) -> Seq<u8>
    decreases n,
{
    if n == 0 {
        Seq::empty()
    } else {
        be_bytes(x / 256, (n - 1) as nat).push((x % 256) as u8)
    }
}

/// `n` zero bytes.
pub open spec fn zeros(n: nat) -> Seq<u8> {
    Seq::new(n, |i: int| 0u8)
}

pub proof fn lemma_pow256_positive(n: nat)
    ensures
        pow256(n) > 0,
    decreases n,
{
    if n > 0 {
        lemma_pow256_positive((n - 1) as nat);
    }
}

pub proof fn lemma_pow256_add(a: nat, b: nat)
    ensures
        pow256(a + b) == pow256(a) * pow256(b),
    decreases b,
{
    if b == 0 {
        assert(a + b == a);
        assert(pow256(b) == 1);
        assert(pow256(a) * 1 == pow256(a));
    } else {
        let c = (b - 1) as nat;
        lemma_pow256_add(a, c);
        assert((a + b - 1) as nat == a + c);
        assert(pow256(a + b) == 256 * pow256(a + c));
        assert(pow256(b) == 256 * pow256(c));
        let pa = pow256(a) as int;
        let pc = pow256(c) as int;
        assert(256 * (pa * pc) == pa * (256 * pc)) by (nonlinear_arith);
        assert(pow256(a + b) == pow256(a) * pow256(b));
    }
}

/// Concrete powers used throughout the library.
pub proof fn lemma_pow256_values()
    ensures
        pow256(1) == 0x100,
        pow256(4) == 0x1_0000_0000,
        pow256(8) == 0x1_0000_0000_0000_0000,
        pow256(16) == 0x1_0000_0000_0000_0000_0000_0000_0000_0000,
        pow256(20) == 0x1_0000_0000_0000_0000_0000_0000_0000_0000_0000_0000,
        pow256(32) == 0x1_0000_0000_0000_0000_0000_0000_0000_0000_0000_0000_0000_0000_0000_0000_0000_0000,
{
    reveal_with_fuel(pow256, 33);
}

/// A byte string of length `n` denotes a number below `256^n`.
pub proof fn lemma_be_value_bound(s: Seq<u8>)
    ensures
        be_value(s) < pow256(s.len()),
    decreases s.len(),
{
    if s.len() > 0 {
        lemma_be_value_bound(s.drop_last());
    }
}

pub proof fn lemma_be_bytes_len(x: nat, n: nat)
    ensures
        be_bytes(x, n).len() == n,
    decreases n,
{
    if n > 0 {
        lemma_be_bytes_len(x / 256, (n - 1) as nat);
    }
}

/// Reading back the `n` bytes written for `x` gives `x` modulo `256^n`.
pub proof fn lemma_be_value_of_bytes(x: nat, n: nat)
    ensures
        be_value(be_bytes(x, n)) == x % pow256(n),
    decreases n,
{
    lemma_be_bytes_len(x, n);
    if n == 0 {
        assert(x % 1 == 0);
    } else {
        let m = (n - 1) as nat;
        lemma_be_value_of_bytes(x / 256, m);
        lemma_pow256_positive(m);
        let s = be_bytes(x, n);
        assert(s.drop_last() =~= be_bytes(x / 256, m));
        assert(s.last() == (x % 256) as u8);
        lemma_mod_breakdown(x as int, 256, pow256(m) as int);
    }
}

/// Writing out the number a byte string denotes gives the byte string back.
pub proof fn lemma_bytes_of_be_value(s: Seq<u8>)
    ensures
        be_bytes(be_value(s), s.len()) =~= s,
    decreases s.len(),
{
    if s.len() > 0 {
        let t = s.drop_last();
        lemma_bytes_of_be_value(t);
        let v = be_value(s);
        lemma_fundamental_div_mod_converse(v as int, 256, be_value(t) as int, s.last() as int);
        lemma_be_bytes_len(v / 256, t.len());
        assert(be_bytes(v, s.len()) =~= be_bytes(be_value(t), t.len()).push(s.last()));
    }
}

/// Two byte strings of one length that denote the same number are equal.
pub proof fn lemma_be_value_injective(a: Seq<u8>, b: Seq<u8>)
    requires
        a.len() == b.len(),
        be_value(a) == be_value(b),
    ensures
        a =~= b,
{
    lemma_bytes_of_be_value(a);
    lemma_bytes_of_be_value(b);
}

/// A value below `256^n` survives a write and a read on `n` bytes.
pub proof fn lemma_be_roundtrip(x: nat, n: nat)
    requires
        x < pow256(n),
    ensures
        be_value(be_bytes(x, n)) == x,
        be_bytes(x, n).len() == n,
{
    lemma_be_value_of_bytes(x, n);
    lemma_be_bytes_len(x, n);
    vstd::arithmetic::div_mod::lemma_small_mod(x, pow256(n));
}

/// The value of a concatenation.
pub proof fn lemma_be_value_concat(a: Seq<u8>, b: Seq<u8>)
    ensures
        be_value(a + b) == be_value(a) * pow256(b.len()) + be_value(b),
    decreases b.len(),
{
    if b.len() == 0 {
        assert(a + b =~= a);
        assert(pow256(0) == 1);
        assert(be_value(a) * 1 == be_value(a));
    } else {
        let b1 = b.drop_last();
        lemma_be_value_concat(a, b1);
        assert((a + b).drop_last() =~= a + b1);
        assert((a + b).last() == b.last());
        assert(pow256(b.len()) == 256 * pow256(b1.len()));
        let va = be_value(a) as int;
        let p1 = pow256(b1.len()) as int;
        assert((va * p1) * 256 == va * (256 * p1)) by (nonlinear_arith);
    }
}

/// Leading zero bytes do not change the value.
pub proof fn lemma_be_value_zeros_prefix(n: nat, b: Seq<u8>)
    ensures
        be_value(zeros(n) + b) == be_value(b),
{
    lemma_be_value_concat(zeros(n), b);
    lemma_be_value_zeros(n);
}

pub proof fn lemma_be_value_zeros(n: nat)
    ensures
        be_value(zeros(n)) == 0,
    decreases n,
{
    if n > 0 {
        lemma_be_value_zeros((n - 1) as nat);
        assert(zeros(n).drop_last() =~= zeros((n - 1) as nat));
    }
}

/// The `n` low bytes of a `u128`, most significant first.
pub fn u128_to_be_bytes(x: u128, n: usize) -> (r: Vec<u8>)
    requires
        n <= 16,
    ensures
        r@ == be_bytes(x as nat, n as nat),
    decreases n,
{
    if n == 0 {
        Vec::new()
    } else {
        let mut v = u128_to_be_bytes(x / 256, n - 1);
        v.push((x % 256) as u8);
        v
    }
}

/// The number that `s[start..start + n]` denotes, for at most 16 bytes.
pub fn be_slice_to_u128(s: &[u8], start: usize, n: usize) -> (r: u128)
    requires
        n <= 16,
        start + n <= s.len(),
    ensures
        r as nat == be_value(s@.subrange(start as int, start + n)),
{
    let mut acc: u128 = 0;
    let mut i: usize = 0;
    while i < n
        invariant
            n <= 16,
            start + n <= s.len(),
            i <= n,
            acc as nat == be_value(s@.subrange(start as int, start + i)),
        decreases n - i,
    {
        proof {
            lemma_be_value_bound(s@.subrange(start as int, start + i));
            lemma_pow256_monotone(i as nat, 15);
            lemma_pow256_values();
            let t = s@.subrange(start as int, start + i + 1);
            assert(t.drop_last() =~= s@.subrange(start as int, start + i));
        }
        acc = acc * 256 + s[start + i] as u128;
        i = i + 1;
    }
    acc
}

pub proof fn lemma_pow256_monotone(a: nat, b: nat)
    requires
        a <= b,
    ensures
        pow256(a) <= pow256(b),
    decreases b,
{
    if a < b {
        lemma_pow256_monotone(a, (b - 1) as nat);
        lemma_pow256_positive((b - 1) as nat);
    }
}

} // verus!
