//! What the inspector does, stated over the balances, the storage and the
//! logs: which accounts a served call's arguments name, and which `Transfer`
//! a native value move is logged as.

use crate::abi::Erc20Selector;
use crate::address::Address;
use crate::bytes::be_bytes;
use crate::errors::ERC20ErrorView;
use crate::events::transfer_topic;
use crate::inspector::{arg_address, arg_word, call_end_state, create_end_state, dispatch_outcome, has_args};
use crate::precompile::{
    erc20_precompile_address_spec, OutcomeView, PrecompileOutputView, GAS_ALLOWANCE_QUERY, GAS_BALANCE_QUERY,
};
use crate::state::{balance_of, storage_at, EvmStateView, LogView};
use crate::storage::allowance_slot_spec;
use crate::token_laws::{law_approve_then_allowance, law_transfer_from_spends_allowance, law_transfer_moves_amount};
use crate::uint::word_max;
use vstd::prelude::*;

verus! {

/// A served `allowance(owner, spender)` call answers the allowance that the
/// first argument grants the second, and a served `balanceOf(account)` call
/// the balance of its argument; neither changes the state.
pub proof fn law_queries_read_named_accounts(c: Address, domain: nat, s: EvmStateView, caller: Address, data: Seq<u8>)
    ensures
        has_args(data, 2) ==> dispatch_outcome(c, domain, s, caller, Erc20Selector::Allowance, data) == Some(
            OutcomeView {
                result: Ok(PrecompileOutputView {
                    gas_used: GAS_ALLOWANCE_QUERY,
                    bytes: be_bytes(storage_at(s, c, allowance_slot_spec(arg_address(data, 0)@, arg_address(data, 1)@)), 32),
                }),
                state: s,
            },
        ),
        has_args(data, 1) ==> dispatch_outcome(c, domain, s, caller, Erc20Selector::BalanceOf, data) == Some(
            OutcomeView {
                result: Ok(PrecompileOutputView {
                    gas_used: GAS_BALANCE_QUERY,
                    bytes: be_bytes(balance_of(s, arg_address(data, 0)), 32),
                }),
                state: s,
            },
        ),
{
}

/// An approval made through a served `approve(spender, amount)` call is what
/// a later served `allowance(owner, spender)` call answers, the caller of the
/// first being the owner named in the second.
pub proof fn law_served_approve_then_allowance(
    c: Address,
    domain: nat,
    s: EvmStateView,
    owner: Address,
    approve_data: Seq<u8>,
    query_data: Seq<u8>,
    anyone: Address,
)
    requires
        has_args(approve_data, 2),
        has_args(query_data, 2),
        arg_address(query_data, 0) == owner,
        arg_address(query_data, 1) == arg_address(approve_data, 0),
        dispatch_outcome(c, domain, s, owner, Erc20Selector::Approve, approve_data).unwrap().result is Ok,
    ensures
        ({
            let t = dispatch_outcome(c, domain, s, owner, Erc20Selector::Approve, approve_data).unwrap().state;
            dispatch_outcome(c, domain, t, anyone, Erc20Selector::Allowance, query_data).unwrap().result
                == Ok::<PrecompileOutputView, ERC20ErrorView>(PrecompileOutputView {
                    gas_used: GAS_ALLOWANCE_QUERY,
                    bytes: be_bytes(arg_word(approve_data, 1), 32),
                })
        }),
{
    law_approve_then_allowance(c, s, owner, arg_address(approve_data, 0), arg_word(approve_data, 1));
}

/// A served `transfer(to, amount)` moves the amount from the caller to the
/// first argument; a served `transferFrom(from, to, amount)` moves it from
/// the first argument to the second and spends the allowance that the first
/// grants the caller.
pub proof fn law_served_transfers_move_named_balances(c: Address, domain: nat, s: EvmStateView, caller: Address, data: Seq<u8>)
    ensures
        ({
            let to = arg_address(data, 0);
            let amount = arg_word(data, 1);
            has_args(data, 2) && caller != to
                && dispatch_outcome(c, domain, s, caller, Erc20Selector::Transfer, data).unwrap().result is Ok ==> ({
                    let t = dispatch_outcome(c, domain, s, caller, Erc20Selector::Transfer, data).unwrap().state;
                    &&& balance_of(t, caller) == balance_of(s, caller) - amount
                    &&& balance_of(t, to) == balance_of(s, to) + amount
                })
        }),
        ({
            let from = arg_address(data, 0);
            let to = arg_address(data, 1);
            let amount = arg_word(data, 2);
            let slot = allowance_slot_spec(from@, caller@);
            has_args(data, 3) && from != to && amount > 0
                && dispatch_outcome(c, domain, s, caller, Erc20Selector::TransferFrom, data).unwrap().result is Ok ==> ({
                    let t = dispatch_outcome(c, domain, s, caller, Erc20Selector::TransferFrom, data).unwrap().state;
                    &&& balance_of(t, from) == balance_of(s, from) - amount
                    &&& balance_of(t, to) == balance_of(s, to) + amount
                    &&& storage_at(t, c, slot) == if storage_at(s, c, slot) == word_max() {
                        storage_at(s, c, slot)
                    } else {
                        (storage_at(s, c, slot) - amount) as nat
                    }
                })
        }),
{
    if has_args(data, 2) {
        let to = arg_address(data, 0);
        let amount = arg_word(data, 1);
        if crate::precompile::transfer_outcome(c, s, caller, to, amount).result is Ok {
            law_transfer_moves_amount(c, s, caller, to, amount, caller);
        }
    }
    if has_args(data, 3) {
        let from = arg_address(data, 0);
        let to = arg_address(data, 1);
        let amount = arg_word(data, 2);
        if amount > 0 && crate::precompile::transfer_from_outcome(c, s, caller, from, to, amount).result is Ok {
            law_transfer_from_spends_allowance(c, s, caller, from, to, amount);
        }
    }
}

/// A native value move is logged as an ERC-20 `Transfer` by the precompile
/// from the payer to the payee: after a successful call that carried value
/// to another address, exactly one log is added, with the topics
/// `[Transfer, caller, target]` and the value as its data; nothing else
/// changes, and a failed call, a call without value or a call to the
/// precompile adds none.
pub proof fn law_native_transfer_logged_from_payer_to_payee(
    s: EvmStateView,
    success: bool,
    caller: Address,
    target: Address,
    value: nat,
)
    ensures
        success && value > 0 && target != erc20_precompile_address_spec() ==> call_end_state(s, success, caller, target, value)
            == (EvmStateView {
                logs: s.logs.push(LogView {
                    address: erc20_precompile_address_spec(),
                    topics: seq![transfer_topic(), caller@, target@],
                    data: be_bytes(value, 32),
                }),
                ..s
            }),
        !(success && value > 0 && target != erc20_precompile_address_spec()) ==> call_end_state(s, success, caller, target, value) == s,
{
}

/// A contract creation that carried value is logged as a `Transfer` from the
/// creator to the new contract; a failed creation or one without value adds
/// no log.
pub proof fn law_creation_value_logged_from_creator(
    s: EvmStateView,
    success: bool,
    caller: Address,
    value: nat,
    created: Option<Address>,
)
    ensures
        success && value > 0 && created is Some ==> create_end_state(s, success, caller, value, created)
            == (EvmStateView {
                logs: s.logs.push(LogView {
                    address: erc20_precompile_address_spec(),
                    topics: seq![transfer_topic(), caller@, created.unwrap()@],
                    data: be_bytes(value, 32),
                }),
                ..s
            }),
        !(success && value > 0 && created is Some) ==> create_end_state(s, success, caller, value, created) == s,
{
}

} // verus!
