//! How addresses, words and hashes read in messages.
//!
//! The texts come from alloy's `Display` implementations: an address in its
//! EIP-55 checksummed form, a word in decimal, a 32-byte hash in lowercase
//! hexadecimal with a `0x` prefix.

use crate::address::Address;
use crate::bytes::{be_bytes, be_value};
use crate::hash::keccak256_digest;
use crate::uint::U256;
use vstd::prelude::*;

verus! {

/// The `i`-th hexadecimal digit (nibble) of `hash`, most significant first.
pub open spec fn nibble(hash: Seq<u8>, i: int) -> u8 {
    if i % 2 == 0 {
        hash[i / 2] / 16
    } else {
        hash[i / 2] % 16
    }
}

/// The lowercase hexadecimal digit `c`, made uppercase when it is a letter
/// and `n` is 8 or more.
pub open spec fn checksum_char(c: char, n: u8) -> char {
    if c >= 'a' && n >= 8 {
        ((c as u8) - 32) as char
    } else {
        c
    }
}

/// The EIP-55 text of the address whose 20 bytes are `bytes`: `0x`, then
/// its lowercase hexadecimal digits, each letter made uppercase where the
/// matching nibble of the Keccak-256 digest of those digits (as ASCII) is
/// 8 or more.
pub open spec fn checksum_text(bytes: Seq<u8>) -> Seq<char> {
    let lower = hex_text(bytes);
    let digest = keccak256_digest(lower.map_values(|c: char| c as u8));
    seq!['0', 'x'] + Seq::new(lower.len(), |i: int| checksum_char(lower[i], nibble(digest, i)))
}

/// The decimal digit of `d` (below 10).
pub open spec fn decimal_digit(d: nat) -> char {
    (('0' as nat) + d) as char
}

/// The decimal text of `n`, without leading zeros (`0` for zero).
pub open spec fn decimal_text(n: nat) -> Seq<char>
    decreases n,
{
    if n < 10 {
        seq![decimal_digit(n)]
    } else {
        decimal_text(n / 10).push(decimal_digit(n % 10))
    }
}

/// The lowercase hexadecimal digit of `d` (below 16).
pub open spec fn hex_digit(d: u8) -> char {
    if d < 10 {
        (('0' as u8) + d) as char
    } else {
        (('a' as u8) + d - 10) as char
    }
}

/// The lowercase hexadecimal text of `data`, two digits per byte.
pub open spec fn hex_text(data: Seq<u8>) -> Seq<char>
    decreases data.len(),
{
    if data.len() == 0 {
        Seq::empty()
    } else {
        hex_text(data.drop_last()) + seq![hex_digit(data.last() / 16), hex_digit(data.last() % 16)]
    }
}


/// Formats `alloy_primitives::Address::from_slice(bytes)` with `Display`.
///
/// Trusted: the text is the EIP-55 checksummed form of the address, as
/// `to_checksum_buffer(None)` computes it (with the same Keccak-256 as
/// `alloy_primitives::keccak256`); `Display` without the alternate flag
/// writes it whole. `from_slice` panics unless there are 20 bytes, which
/// `requires` rules out.
#[verifier::external_body]
fn address_text(bytes: &[u8]) -> (r: String)
    requires
        bytes@.len() == 20,
    ensures
        r@ == checksum_text(bytes@),
{
    format!("{}", alloy::primitives::Address::from_slice(bytes))
}

/// Formats `alloy_primitives::U256::from_be_slice(bytes)` with `Display`.
///
/// Trusted: the text is the number in decimal, without leading zeros, as
/// `ruint` writes it. `from_be_slice` panics beyond 32 bytes, which
/// `requires` rules out.
#[verifier::external_body]
fn u256_text(bytes: &[u8]) -> (r: String)
    requires
        bytes@.len() == 32,
    ensures
        r@ == decimal_text(be_value(bytes@)),
{
    format!("{}", alloy::primitives::U256::from_be_slice(bytes))
}

/// Formats `alloy_primitives::B256::from_slice(bytes)` with `Display`.
///
/// Trusted: the text is `0x` followed by the bytes in lowercase
/// hexadecimal, as `FixedBytes`'s `Display` writes it without the alternate
/// flag. `from_slice` panics unless there are 32 bytes, which `requires`
/// rules out.
#[verifier::external_body]
fn b256_text(bytes: &[u8]) -> (r: String)
    requires
        bytes@.len() == 32,
    ensures
        r@ == seq!['0', 'x'] + hex_text(bytes@),
{
    format!("{}", alloy::primitives::B256::from_slice(bytes))
}

/// How an address reads in a message.
pub open spec fn address_string_spec(a: Address) -> Seq<char> {
    checksum_text(be_bytes(a@, 20))
}

/// How a word reads in a message (as an unsigned integer).
pub open spec fn u256_string_spec(v: nat) -> Seq<char> {
    decimal_text(v)
}

/// How a 32-byte value reads in a message (as hexadecimal).
pub open spec fn b256_string_spec(v: nat) -> Seq<char> {
    seq!['0', 'x'] + hex_text(be_bytes(v, 32))
}

/// The address as text.
pub fn address_string(a: Address) -> (r: String)
    ensures
        r@ == address_string_spec(a),
{
    let b = a.to_be_bytes();
    address_text(b.as_slice())
}

/// The word as a decimal number.
pub fn u256_string(v: U256) -> (r: String)
    ensures
        r@ == u256_string_spec(v@),
{
    let b = v.to_be_bytes();
    u256_text(b.as_slice())
}

/// The word as 32 bytes in hexadecimal.
pub fn b256_string(v: U256) -> (r: String)
    ensures
        r@ == b256_string_spec(v@),
{
    let b = v.to_be_bytes();
    b256_text(b.as_slice())
}

} // verus!
