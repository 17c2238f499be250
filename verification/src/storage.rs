//! Storage layout of the native ERC-20 precompile.
//!
//! The precompile keeps its state in the storage of its own account, laid out
//! as a Solidity contract would lay it out:
//! - the total supply at a slot derived from a fixed 32-byte tag;
//! - `mapping(address owner => mapping(address spender => uint256))` allowances
//!   at base slot 1;
//! - `mapping(address authorizer => mapping(bytes32 nonce => bool))` EIP-3009
//!   nonces at base slot 5.

use crate::address::{lemma_address_bound, two_160, Address};
use crate::bytes::{
    be_bytes, be_value, lemma_be_roundtrip, lemma_be_value_injective, lemma_be_value_zeros_prefix,
    lemma_pow256_values, zeros,
};
use crate::hash::{extend_bytes, keccak256_to_word, keccak256_word};
use crate::uint::U256;
use vstd::prelude::*;

verus! {

/// Solidity's slot of `mapping[key]` for a mapping at slot `base`:
/// `keccak256(abi.encode(key, base))`.
pub open spec fn solidity_mapping_slot(key: nat, base: nat) -> nat {
    keccak256_word(be_bytes(key, 32) + be_bytes(base, 32))
}

/// Slot of `mapping(owner => mapping(spender => _))[owner][spender]` at `base`.
pub open spec fn nested_address_slot(owner: nat, spender: nat, base: nat) -> nat {
    solidity_mapping_slot(spender, solidity_mapping_slot(owner, base))
}

/// Base slot of the allowances mapping.
pub open spec fn allowances_base_slot() -> nat {
    1
}

/// Base slot of the EIP-3009 authorization nonces mapping.
pub open spec fn authorization_nonces_base_slot() -> nat {
    5
}

/// The 32-byte tag whose hash is the total supply slot:
/// the ASCII text `TOTAL_SUPPLY_V1__________STORAGE`.
pub open spec fn total_supply_tag() -> Seq<u8> {
    seq![
        0x54u8, 0x4f, 0x54, 0x41, 0x4c, 0x5f, 0x53, 0x55, 0x50, 0x50, 0x4c, 0x59, 0x5f, 0x56,
        0x31, 0x5f, 0x5f, 0x5f, 0x5f, 0x5f, 0x5f, 0x5f, 0x5f, 0x5f, 0x5f, 0x53, 0x54, 0x4f,
        0x52, 0x41, 0x47, 0x45,
    ]
}

/// The total supply slot: `keccak256("TOTAL_SUPPLY_V1__________STORAGE")`.
pub open spec fn total_supply_slot_spec() -> nat {
    keccak256_word(total_supply_tag())
}

/// The allowance slot of `(owner, spender)`.
pub open spec fn allowance_slot_spec(owner: nat, spender: nat) -> nat {
    nested_address_slot(owner, spender, allowances_base_slot())
}

/// The slot that records whether `authorizer` has used or canceled `nonce`.
pub open spec fn authorization_nonce_slot_spec(authorizer: nat, nonce: nat) -> nat {
    solidity_mapping_slot(nonce, solidity_mapping_slot(authorizer, authorization_nonces_base_slot()))
}

/// An address left-padded to 32 bytes is its 32-byte encoding.
proof fn lemma_padded_address(a: Address)
    ensures
        zeros(12) + be_bytes(a@, 20) =~= be_bytes(a@, 32),
{
    lemma_address_bound(a);
    lemma_pow256_values();
    lemma_be_roundtrip(a@, 20);
    lemma_be_roundtrip(a@, 32);
    lemma_be_value_zeros_prefix(12, be_bytes(a@, 20));
    lemma_be_value_injective(zeros(12) + be_bytes(a@, 20), be_bytes(a@, 32));
}

/// Storage slot for a Solidity `mapping(address => T)` at `base_slot`:
/// `keccak256(abi.encodePacked(bytes32(key), base_slot))`.
pub fn mapping_slot_address(key: Address, base_slot: U256) -> (r: U256)
    ensures
        r@ == solidity_mapping_slot(key@, base_slot@),
{
    let mut buffer: Vec<u8> = Vec::new();
    let mut i: usize = 0;
    while i < 12
        invariant
            i <= 12,
            buffer@ =~= zeros(i as nat),
        decreases 12 - i,
    {
        buffer.push(0u8);
        i = i + 1;
    }
    let k = key.to_be_bytes();
    extend_bytes(&mut buffer, k.as_slice());
    let b = base_slot.to_be_bytes();
    extend_bytes(&mut buffer, b.as_slice());
    proof {
        lemma_padded_address(key);
    }
    keccak256_to_word(buffer.as_slice())
}

/// Storage slot for a Solidity `mapping(bytes32 => T)` at `base_slot`:
/// `keccak256(abi.encodePacked(key, base_slot))`.
pub fn mapping_slot_bytes32(key: U256, base_slot: U256) -> (r: U256)
    ensures
        r@ == solidity_mapping_slot(key@, base_slot@),
{
    let mut buffer = key.to_be_bytes();
    let b = base_slot.to_be_bytes();
    extend_bytes(&mut buffer, b.as_slice());
    keccak256_to_word(buffer.as_slice())
}

/// Storage slot for `mapping(address => mapping(bytes32 => T))[outer_key][inner_key]`
/// at `base_slot`.
pub fn nested_mapping_slot(outer_key: Address, inner_key: U256, base_slot: U256) -> (r: U256)
    ensures
        r@ == solidity_mapping_slot(inner_key@, solidity_mapping_slot(outer_key@, base_slot@)),
{
    let inner_slot = mapping_slot_address(outer_key, base_slot);
    mapping_slot_bytes32(inner_key, inner_slot)
}

/// Storage slot for `mapping(address => mapping(address => T))[owner][spender]`
/// at `base_slot` (the standard ERC-20 allowances layout).
pub fn allowance_mapping_slot(owner: Address, spender: Address, base_slot: U256) -> (r: U256)
    ensures
        r@ == nested_address_slot(owner@, spender@, base_slot@),
{
    let inner_slot = mapping_slot_address(owner, base_slot);
    mapping_slot_address(spender, inner_slot)
}

/// The storage slot holding the total supply.
pub fn total_supply_slot() -> (r: U256)
    ensures
        r@ == total_supply_slot_spec(),
{
    let tag: Vec<u8> = vec![
        0x54u8, 0x4f, 0x54, 0x41, 0x4c, 0x5f, 0x53, 0x55, 0x50, 0x50, 0x4c, 0x59, 0x5f, 0x56,
        0x31, 0x5f, 0x5f, 0x5f, 0x5f, 0x5f, 0x5f, 0x5f, 0x5f, 0x5f, 0x5f, 0x53, 0x54, 0x4f,
        0x52, 0x41, 0x47, 0x45,
    ];
    assert(tag@ =~= total_supply_tag());
    keccak256_to_word(tag.as_slice())
}

/// Base slot of the allowances mapping (slot 1).
pub fn allowances_base_slot_word() -> (r: U256)
    ensures
        r@ == allowances_base_slot(),
{
    U256::from_u64(1)
}

/// Storage slot of the allowance that `owner` grants `spender`.
pub fn allowance_slot(owner: Address, spender: Address) -> (r: U256)
    ensures
        r@ == allowance_slot_spec(owner@, spender@),
{
    allowance_mapping_slot(owner, spender, allowances_base_slot_word())
}

/// Storage slot recording whether `authorizer` used or canceled `nonce`.
pub fn authorization_nonce_slot(authorizer: Address, nonce: U256) -> (r: U256)
    ensures
        r@ == authorization_nonce_slot_spec(authorizer@, nonce@),
{
    nested_mapping_slot(authorizer, nonce, U256::from_u64(5))
}

} // verus!
