//! Event logs emitted by the ERC-20 precompile.

use crate::address::Address;
use crate::bytes::be_bytes;
use crate::state::{Log, LogView};
use crate::uint::U256;
use vstd::prelude::*;

verus! {

/// `keccak256("Transfer(address,address,uint256)")`.
pub open spec fn transfer_topic() -> nat {
    0xddf252ad1be2c89b69c2b068fc378daa952ba7f163c4a11628f55a4df523b3efnat
}

/// `keccak256("Approval(address,address,uint256)")`.
pub open spec fn approval_topic() -> nat {
    0x8c5be1e5ebec7d5bd14f71427d1e84f3dd0314c0f7b2291e5b200ac8c7c3b925nat
}

/// `keccak256("Mint(address,uint256)")`.
pub open spec fn mint_topic() -> nat {
    0x0f6798a560793a54c3bcfe86a93cde1e73087d944c0ea20544137d4121396885nat
}

/// `keccak256("Burn(address,uint256)")`.
pub open spec fn burn_topic() -> nat {
    0xcc16f5dbb4873280815c1ee09dbd06736cffcc184412cf7a71a0fdb75d397ca5nat
}

/// `keccak256("AuthorizationUsed(address,bytes32)")`.
pub open spec fn authorization_used_topic() -> nat {
    0x98de503528ee59b575ef0c0a2576a82497bfc029a5685b209e9ec333479b10a5nat
}

/// `keccak256("AuthorizationCanceled(address,bytes32)")`.
pub open spec fn authorization_canceled_topic() -> nat {
    0x1cdd46ff242716cdaa72d159d339a485b3438398348d68f09d7c8c0a59353d81nat
}

/// `Transfer(from, to, value)` emitted by `contract`.
pub open spec fn transfer_log(contract: Address, from: Address, to: Address, value: nat) -> LogView {
    LogView {
        address: contract,
        topics: seq![transfer_topic(), from@, to@],
        data: be_bytes(value, 32),
    }
}

/// `Approval(owner, spender, value)` emitted by `contract`.
pub open spec fn approval_log(contract: Address, owner: Address, spender: Address, value: nat) -> LogView {
    LogView {
        address: contract,
        topics: seq![approval_topic(), owner@, spender@],
        data: be_bytes(value, 32),
    }
}

/// `Mint(to, value)` emitted by `contract`.
pub open spec fn mint_log(contract: Address, to: Address, value: nat) -> LogView {
    LogView { address: contract, topics: seq![mint_topic(), to@], data: be_bytes(value, 32) }
}

/// `Burn(from, value)` emitted by `contract`.
pub open spec fn burn_log(contract: Address, from: Address, value: nat) -> LogView {
    LogView { address: contract, topics: seq![burn_topic(), from@], data: be_bytes(value, 32) }
}

/// `AuthorizationUsed(authorizer, nonce)` emitted by `contract`.
pub open spec fn authorization_used_log(contract: Address, authorizer: Address, nonce: nat) -> LogView {
    LogView {
        address: contract,
        topics: seq![authorization_used_topic(), authorizer@, nonce],
        data: Seq::empty(),
    }
}

/// `AuthorizationCanceled(authorizer, nonce)` emitted by `contract`.
pub open spec fn authorization_canceled_log(
    contract: Address,
    authorizer: Address,
    nonce: nat,
) -> LogView {
    LogView {
        address: contract,
        topics: seq![authorization_canceled_topic(), authorizer@, nonce],
        data: Seq::empty(),
    }
}

/// A log with three topics.
fn log3(address: Address, t0: U256, t1: U256, t2: U256, data: Vec<u8>) -> (r: Log)
    ensures
        r@ == (LogView { address, topics: seq![t0@, t1@, t2@], data: data@ }),
{
    let topics = vec![t0, t1, t2];
    let r = Log { address, topics, data };
    assert(r@.topics =~= seq![t0@, t1@, t2@]);
    r
}

/// A log with two topics.
fn log2(address: Address, t0: U256, t1: U256, data: Vec<u8>) -> (r: Log)
    ensures
        r@ == (LogView { address, topics: seq![t0@, t1@], data: data@ }),
{
    let topics = vec![t0, t1];
    let r = Log { address, topics, data };
    assert(r@.topics =~= seq![t0@, t1@]);
    r
}

/// Encode a Transfer event log.
pub fn encode_transfer_event(contract_address: Address, from: Address, to: Address, value: U256) -> (r:
    Log)
    ensures
        r@ == transfer_log(contract_address, from, to, value@),
{
    let topic = U256 { hi: 0xddf252ad1be2c89b69c2b068fc378daa, lo: 0x952ba7f163c4a11628f55a4df523b3ef };
    log3(contract_address, topic, from.to_word(), to.to_word(), value.to_be_bytes())
}

/// Encode an Approval event log.
pub fn encode_approval_event(
    contract_address: Address,
    owner: Address,
    spender: Address,
    value: U256,
) -> (r: Log)
    ensures
        r@ == approval_log(contract_address, owner, spender, value@),
{
    let topic = U256 { hi: 0x8c5be1e5ebec7d5bd14f71427d1e84f3, lo: 0xdd0314c0f7b2291e5b200ac8c7c3b925 };
    log3(contract_address, topic, owner.to_word(), spender.to_word(), value.to_be_bytes())
}

/// Encode a Mint event log.
pub fn encode_mint_event(contract_address: Address, to: Address, value: U256) -> (r: Log)
    ensures
        r@ == mint_log(contract_address, to, value@),
{
    let topic = U256 { hi: 0x0f6798a560793a54c3bcfe86a93cde1e, lo: 0x73087d944c0ea20544137d4121396885 };
    log2(contract_address, topic, to.to_word(), value.to_be_bytes())
}

/// Encode a Burn event log.
pub fn encode_burn_event(contract_address: Address, from: Address, value: U256) -> (r: Log)
    ensures
        r@ == burn_log(contract_address, from, value@),
{
    let topic = U256 { hi: 0xcc16f5dbb4873280815c1ee09dbd0673, lo: 0x6cffcc184412cf7a71a0fdb75d397ca5 };
    log2(contract_address, topic, from.to_word(), value.to_be_bytes())
}

/// Encode an AuthorizationUsed event log.
pub fn encode_authorization_used_event(
    contract_address: Address,
    authorizer: Address,
    nonce: U256,
) -> (r: Log)
    ensures
        r@ == authorization_used_log(contract_address, authorizer, nonce@),
{
    let topic = U256 { hi: 0x98de503528ee59b575ef0c0a2576a824, lo: 0x97bfc029a5685b209e9ec333479b10a5 };
    log3(contract_address, topic, authorizer.to_word(), nonce, Vec::new())
}

/// Encode an AuthorizationCanceled event log.
pub fn encode_authorization_canceled_event(
    contract_address: Address,
    authorizer: Address,
    nonce: U256,
) -> (r: Log)
    ensures
        r@ == authorization_canceled_log(contract_address, authorizer, nonce@),
{
    let topic = U256 { hi: 0x1cdd46ff242716cdaa72d159d339a485, lo: 0xb3438398348d68f09d7c8c0a59353d81 };
    log3(contract_address, topic, authorizer.to_word(), nonce, Vec::new())
}

} // verus!
