//! ABI encoding and decoding for the ERC-20 precompile.
//!
//! Method selectors, return-value encodings and the Solidity `Error(string)`
//! revert encoding, following the Ethereum contract ABI.

use crate::address::{two_160, Address};
use crate::bytes::{
    be_bytes, be_slice_to_u128, be_value, lemma_be_roundtrip, lemma_be_value_of_bytes,
    lemma_bytes_of_be_value, lemma_pow256_values, zeros,
};
use crate::hash::extend_bytes;
use crate::uint::U256;
use vstd::prelude::*;
use vstd::string::{StringExecFns, StringSliceAdditionalSpecFns};

verus! {

/// ERC-20 method selectors (first 4 bytes of keccak256(signature)).
#[derive(Debug, Clone, Copy, PartialEq, Eq, Structural)]
pub enum Erc20Selector {
    /// name() - 0x06fdde03
    Name,
    /// symbol() - 0x95d89b41
    Symbol,
    /// decimals() - 0x313ce567
    Decimals,
    /// totalSupply() - 0x18160ddd
    TotalSupply,
    /// balanceOf(address) - 0x70a08231
    BalanceOf,
    /// allowance(address,address) - 0xdd62ed3e
    Allowance,
    /// transfer(address,uint256) - 0xa9059cbb
    Transfer,
    /// approve(address,uint256) - 0x095ea7b3
    Approve,
    /// transferFrom(address,address,uint256) - 0x23b872dd
    TransferFrom,
    /// mint(address,uint256) - 0x40c10f19
    Mint,
    /// burn(uint256) - 0x42966c68
    Burn,
    /// burnFrom(address,uint256) - 0x79cc6790
    BurnFrom,
    /// transferWithAuthorization(address,address,uint256,uint256,uint256,bytes32,uint8,bytes32,bytes32)
    /// - 0xe3ee160e
    TransferWithAuthorization,
    /// receiveWithAuthorization(address,address,uint256,uint256,uint256,bytes32,uint8,bytes32,bytes32)
    /// - 0xef55bec6
    ReceiveWithAuthorization,
    /// cancelAuthorization(address,bytes32,uint8,bytes32,bytes32) - 0x5a049a70
    CancelAuthorization,
}

/// The 4-byte selector of each method, as a big-endian number.
pub open spec fn selector_value(s: Erc20Selector) -> u32 {
    match s {
        Erc20Selector::Name => 0x06fdde03,
        Erc20Selector::Symbol => 0x95d89b41,
        Erc20Selector::Decimals => 0x313ce567,
        Erc20Selector::TotalSupply => 0x18160ddd,
        Erc20Selector::BalanceOf => 0x70a08231,
        Erc20Selector::Allowance => 0xdd62ed3e,
        Erc20Selector::Transfer => 0xa9059cbb,
        Erc20Selector::Approve => 0x095ea7b3,
        Erc20Selector::TransferFrom => 0x23b872dd,
        Erc20Selector::Mint => 0x40c10f19,
        Erc20Selector::Burn => 0x42966c68,
        Erc20Selector::BurnFrom => 0x79cc6790,
        Erc20Selector::TransferWithAuthorization => 0xe3ee160e,
        Erc20Selector::ReceiveWithAuthorization => 0xef55bec6,
        Erc20Selector::CancelAuthorization => 0x5a049a70,
    }
}

/// The 4 bytes that open a call of the method.
pub open spec fn selector_bytes(s: Erc20Selector) -> Seq<u8> {
    be_bytes(selector_value(s) as nat, 4)
}

/// Methods that change balances, allowances, the supply or nonces.
pub open spec fn mutates_state(s: Erc20Selector) -> bool {
    !(s is Name || s is Symbol || s is Decimals || s is TotalSupply || s is BalanceOf
        || s is Allowance)
}

/// The selector that opens `data`, if any.
pub open spec fn selector_of(data: Seq<u8>) -> Option<Erc20Selector> {
    if data.len() >= 4 && exists|s: Erc20Selector| selector_bytes(s) == data.subrange(0, 4) {
        Some(choose|s: Erc20Selector| selector_bytes(s) == data.subrange(0, 4))
    } else {
        None
    }
}

/// No two methods share a selector.
pub proof fn lemma_selectors_distinct(a: Erc20Selector, b: Erc20Selector)
    requires
        selector_bytes(a) == selector_bytes(b),
    ensures
        a == b,
{
    lemma_pow256_values();
    lemma_be_roundtrip(selector_value(a) as nat, 4);
    lemma_be_roundtrip(selector_value(b) as nat, 4);
    assert(selector_value(a) == selector_value(b));
}

impl Erc20Selector {
    /// The selector's number.
    fn value(self) -> (r: u32)
        ensures
            r == selector_value(self),
    {
        match self {
            Erc20Selector::Name => 0x06fdde03,
            Erc20Selector::Symbol => 0x95d89b41,
            Erc20Selector::Decimals => 0x313ce567,
            Erc20Selector::TotalSupply => 0x18160ddd,
            Erc20Selector::BalanceOf => 0x70a08231,
            Erc20Selector::Allowance => 0xdd62ed3e,
            Erc20Selector::Transfer => 0xa9059cbb,
            Erc20Selector::Approve => 0x095ea7b3,
            Erc20Selector::TransferFrom => 0x23b872dd,
            Erc20Selector::Mint => 0x40c10f19,
            Erc20Selector::Burn => 0x42966c68,
            Erc20Selector::BurnFrom => 0x79cc6790,
            Erc20Selector::TransferWithAuthorization => 0xe3ee160e,
            Erc20Selector::ReceiveWithAuthorization => 0xef55bec6,
            Erc20Selector::CancelAuthorization => 0x5a049a70,
        }
    }

    /// The 4-byte selector of the method.
    pub fn selector(self) -> (r: Vec<u8>)
        ensures
            r@ == selector_bytes(self),
    {
        crate::bytes::u128_to_be_bytes(self.value() as u128, 4)
    }

    /// Parse selector from calldata.
    pub fn from_calldata(data: &[u8]) -> (r: Option<Self>)
        ensures
            r == selector_of(data@),
            r matches Some(s) ==> data@.subrange(0, 4) == selector_bytes(s),
            r is None ==> data@.len() < 4 || forall|s: Erc20Selector|
                selector_bytes(s) != data@.subrange(0, 4),
    {
        if data.len() < 4 {
            return None;
        }
        let v = be_slice_to_u128(data, 0, 4) as u32;
        let ghost head = data@.subrange(0, 4);
        proof {
            crate::bytes::lemma_be_value_bound(head);
            lemma_pow256_values();
        }
        let r = if v == 0x06fdde03 {
            Some(Erc20Selector::Name)
        } else if v == 0x95d89b41 {
            Some(Erc20Selector::Symbol)
        } else if v == 0x313ce567 {
            Some(Erc20Selector::Decimals)
        } else if v == 0x18160ddd {
            Some(Erc20Selector::TotalSupply)
        } else if v == 0x70a08231 {
            Some(Erc20Selector::BalanceOf)
        } else if v == 0xdd62ed3e {
            Some(Erc20Selector::Allowance)
        } else if v == 0xa9059cbb {
            Some(Erc20Selector::Transfer)
        } else if v == 0x095ea7b3 {
            Some(Erc20Selector::Approve)
        } else if v == 0x23b872dd {
            Some(Erc20Selector::TransferFrom)
        } else if v == 0x40c10f19 {
            Some(Erc20Selector::Mint)
        } else if v == 0x42966c68 {
            Some(Erc20Selector::Burn)
        } else if v == 0x79cc6790 {
            Some(Erc20Selector::BurnFrom)
        } else if v == 0xe3ee160e {
            Some(Erc20Selector::TransferWithAuthorization)
        } else if v == 0xef55bec6 {
            Some(Erc20Selector::ReceiveWithAuthorization)
        } else if v == 0x5a049a70 {
            Some(Erc20Selector::CancelAuthorization)
        } else {
            None
        };
        proof {
            lemma_bytes_of_be_value(head);
            assert forall|s: Erc20Selector| #[trigger] selector_bytes(s) == head implies r == Some(
                s,
            ) by {
                lemma_be_roundtrip(selector_value(s) as nat, 4);
            }
            match r {
                Some(s) => {
                    assert(selector_bytes(s) == head);
                    let c = choose|c: Erc20Selector| selector_bytes(c) == head;
                    lemma_selectors_distinct(s, c);
                },
                None => {},
            }
        }
        r
    }

    /// Get parameters from calldata (after selector).
    pub fn get_params(data: &[u8]) -> (r: &[u8])
        ensures
            r@ == if data@.len() <= 4 {
                Seq::<u8>::empty()
            } else {
                data@.subrange(4, data@.len() as int)
            },
    {
        if data.len() <= 4 {
            &data[0..0]
        } else {
            &data[4..data.len()]
        }
    }

    /// Return true if this selector mutates token state (balance, allowance, supply, or nonce).
    pub fn is_state_mutating(self) -> (r: bool)
        ensures
            r == mutates_state(self),
    {
        match self {
            Self::Transfer
            | Self::Approve
            | Self::TransferFrom
            | Self::Mint
            | Self::Burn
            | Self::BurnFrom
            | Self::TransferWithAuthorization
            | Self::ReceiveWithAuthorization
            | Self::CancelAuthorization => true,
            Self::Name
            | Self::Symbol
            | Self::Decimals
            | Self::TotalSupply
            | Self::BalanceOf
            | Self::Allowance => false,
        }
    }
}

/// Zero bytes that pad `len` bytes to a multiple of 32.
pub open spec fn abi_padding(len: nat) -> nat {
    ((32 - (len % 32) as int) % 32) as nat
}

/// ABI encoding of a `string` (or `bytes`) return value: the offset 0x20, the
/// length, the bytes, and zero padding to a 32-byte boundary.
pub open spec fn abi_string(bytes: Seq<u8>) -> Seq<u8> {
    be_bytes(0x20, 32) + be_bytes(bytes.len(), 32) + bytes + zeros(abi_padding(bytes.len()))
}

/// The `Error(string)` selector.
pub open spec fn error_string_selector() -> Seq<u8> {
    seq![0x08u8, 0xc3, 0x79, 0xa0]
}

/// A word holding a boolean (0 or 1).
pub open spec fn abi_bool(value: bool) -> Seq<u8> {
    zeros(31).push(if value {
        1u8
    } else {
        0u8
    })
}

/// Encode uint256 as ABI return value.
pub fn encode_uint256(value: U256) -> (r: Vec<u8>)
    ensures
        r@ == be_bytes(value@, 32),
{
    value.to_be_bytes()
}

/// `n` zero bytes.
fn zero_bytes(n: usize) -> (r: Vec<u8>)
    ensures
        r@ == zeros(n as nat),
{
    let mut v: Vec<u8> = Vec::new();
    let mut i: usize = 0;
    while i < n
        invariant
            i <= n,
            v@ =~= zeros(i as nat),
        decreases n - i,
    {
        v.push(0u8);
        i = i + 1;
    }
    v
}

/// Encode boolean as ABI return value.
pub fn encode_bool(value: bool) -> (r: Vec<u8>)
    ensures
        r@ == abi_bool(value),
        r@.len() == 32,
{
    let mut result = zero_bytes(31);
    result.push(if value {
        1u8
    } else {
        0u8
    });
    result
}

/// Encode string as ABI return value.
pub fn encode_string(value: &str) -> (r: Vec<u8>)
    ensures
        r@ == abi_string(value.spec_bytes()),
{
    let bytes = value.as_bytes();
    let len = bytes.len();
    let padding = (32 - (len % 32)) % 32;
    let mut result = U256::from_u64(0x20).to_be_bytes();
    let length_word = U256::from_u128(len as u128).to_be_bytes();
    extend_bytes(&mut result, length_word.as_slice());
    extend_bytes(&mut result, bytes);
    let pad = zero_bytes(padding);
    extend_bytes(&mut result, pad.as_slice());
    result
}

/// Encode uint8 as ABI return value.
pub fn encode_uint8(value: u8) -> (r: Vec<u8>)
    ensures
        r@ == zeros(31).push(value),
        r@.len() == 32,
{
    let mut result = zero_bytes(31);
    result.push(value);
    result
}

/// Encode revert reason like Solidity's Error(string).
pub fn encode_revert_reason(reason: &str) -> (r: Vec<u8>)
    ensures
        r@ == error_string_selector() + abi_string(reason.spec_bytes()),
{
    let mut result: Vec<u8> = vec![0x08u8, 0xc3, 0x79, 0xa0];
    let string_data = encode_string(reason);
    extend_bytes(&mut result, string_data.as_slice());
    result
}

/// The low byte of the word at `offset` (a `uint8` argument, read as the ABI
/// decoder reads it without validation).
pub fn read_uint8_arg(data: &[u8], offset: usize) -> (r: u8)
    requires
        offset + 32 <= data.len(),
    ensures
        r == data@[offset + 31],
{
    data[offset + 31]
}

/// The word at `offset` (a `uint256` or `bytes32` argument).
pub fn read_word_arg(data: &[u8], offset: usize) -> (r: U256)
    requires
        offset + 32 <= data.len(),
    ensures
        r@ == be_value(data@.subrange(offset as int, offset + 32)),
{
    U256::read_be(data, offset)
}

/// The low 20 bytes of the word at `offset` (an `address` argument, read as
/// the ABI decoder reads it without validation).
pub fn read_address_arg(data: &[u8], offset: usize) -> (r: Address)
    requires
        offset + 32 <= data.len(),
    ensures
        r@ == be_value(data@.subrange(offset as int, offset + 32)) % two_160(),
{
    let w = U256::read_be(data, offset);
    Address::from_word(&w)
}

/// ABI encoding/decoding errors.
#[derive(Debug, Clone, PartialEq, Eq)]
pub enum AbiError {
    /// Invalid input data.
    InvalidInput(String),
    /// Unknown method selector.
    UnknownSelector,
}

impl AbiError {
    /// The error's message.
    pub fn message(&self) -> (r: String)
        ensures
            r@ == match self {
                AbiError::InvalidInput(msg) => "Invalid ABI input: "@ + msg@,
                AbiError::UnknownSelector => "Unknown method selector"@,
            },
    {
        match self {
            AbiError::InvalidInput(msg) => {
                let mut s = String::from_str("Invalid ABI input: ");
                s.append(msg.as_str());
                s
            },
            AbiError::UnknownSelector => String::from_str("Unknown method selector"),
        }
    }
}

} // verus!
