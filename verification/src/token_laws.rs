//! What holds of the token across calls: approvals are read back, transfers
//! move exactly the amount, mint and burn move the supply with the balance,
//! and an EIP-3009 authorization is used at most once.

use crate::abi::abi_bool;
use crate::address::Address;
use crate::bytes::be_bytes;
use crate::errors::{access_error, ERC20Error, ERC20ErrorView};
use crate::precompile::{
    allowance_query, approve_outcome, burn_from_outcome, burn_outcome, cancel_authorization_outcome,
    mint_outcome, minting_module_address_spec, time_window_error, total_supply_query,
    transfer_from_outcome, transfer_outcome, transfer_with_authorization_outcome, zero_address,
    PrecompileOutputView, GAS_ALLOWANCE_QUERY, GAS_TOTAL_SUPPLY, nonce_used, output_result, realizes,
    PrecompileOutput,
};
use crate::state::{balance_of, storage_at, EvmStateView};
use crate::storage::{allowance_slot_spec, authorization_nonce_slot_spec, total_supply_slot_spec};
use crate::uint::word_max;
use vstd::prelude::*;

verus! {

/// An approval is read back: after `approve(spender, amount)` by `owner`
/// succeeds, `allowance(owner, spender)` answers `amount`.
pub proof fn law_approve_then_allowance(
    c: Address,
    s: EvmStateView,
    owner: Address,
    spender: Address,
    amount: nat,
)
    requires
        approve_outcome(c, s, owner, spender, amount).result is Ok,
    ensures
        allowance_query(c, approve_outcome(c, s, owner, spender, amount).state, owner, spender).result
            == Ok::<PrecompileOutputView, ERC20ErrorView>(
            PrecompileOutputView { gas_used: GAS_ALLOWANCE_QUERY, bytes: be_bytes(amount, 32) },
        ),
{
}

/// `approve` succeeds exactly when neither the owner nor the spender is the
/// zero address, and then answers `true`.
pub proof fn law_approve_succeeds(
    c: Address,
    s: EvmStateView,
    owner: Address,
    spender: Address,
    amount: nat,
)
    ensures
        approve_outcome(c, s, owner, spender, amount).result is Ok <==> (owner != zero_address()
            && spender != zero_address()),
        approve_outcome(c, s, owner, spender, amount).result matches Ok(o) ==> o.bytes == abi_bool(
            true,
        ),
{
}

/// A transfer between two distinct non-zero accounts of a non-zero amount
/// succeeds exactly when the sender holds the amount and the receiver's
/// balance can take it.
pub proof fn law_transfer_succeeds_iff(
    c: Address,
    s: EvmStateView,
    sender: Address,
    receiver: Address,
    amount: nat,
)
    requires
        sender != zero_address(),
        receiver != zero_address(),
        sender != receiver,
        amount > 0,
    ensures
        transfer_outcome(c, s, sender, receiver, amount).result is Ok <==> (balance_of(s, sender)
            >= amount && balance_of(s, receiver) + amount <= word_max()),
{
}

/// A successful transfer moves exactly `amount` from the sender to the
/// receiver: every other balance, the storage (and with it the total supply
/// and the allowances) and the block timestamp stay as they were.
pub proof fn law_transfer_moves_amount(
    c: Address,
    s: EvmStateView,
    sender: Address,
    receiver: Address,
    amount: nat,
    other: Address,
)
    requires
        transfer_outcome(c, s, sender, receiver, amount).result is Ok,
    ensures
        ({
            let t = transfer_outcome(c, s, sender, receiver, amount).state;
            &&& sender != receiver ==> balance_of(t, sender) == balance_of(s, sender) - amount
            &&& sender != receiver ==> balance_of(t, receiver) == balance_of(s, receiver) + amount
            &&& balance_of(t, sender) + balance_of(t, receiver) == balance_of(s, sender)
                + balance_of(s, receiver) || sender == receiver
            &&& other != sender && other != receiver ==> balance_of(t, other) == balance_of(
                s,
                other,
            )
            &&& t.storage == s.storage
            &&& t.timestamp == s.timestamp
        }),
{
}

/// A successful `transferFrom` moves `amount` between distinct accounts and
/// lowers the spender's allowance by `amount`, unless it is unlimited.
pub proof fn law_transfer_from_spends_allowance(
    c: Address,
    s: EvmStateView,
    spender: Address,
    sender: Address,
    receiver: Address,
    amount: nat,
)
    requires
        transfer_from_outcome(c, s, spender, sender, receiver, amount).result is Ok,
        amount > 0,
    ensures
        ({
            let t = transfer_from_outcome(c, s, spender, sender, receiver, amount).state;
            let slot = allowance_slot_spec(sender@, spender@);
            let allowance = storage_at(s, c, slot);
            &&& allowance == word_max() || allowance >= amount
            &&& storage_at(t, c, slot) == if allowance == word_max() {
                allowance
            } else {
                (allowance - amount) as nat
            }
            &&& sender != receiver ==> balance_of(t, sender) == balance_of(s, sender) - amount
            &&& sender != receiver ==> balance_of(t, receiver) == balance_of(s, receiver) + amount
        }),
{
}

/// A `transferFrom` of a non-zero amount between two distinct non-zero
/// accounts succeeds exactly when the spender's allowance covers the amount
/// (an allowance equal to the amount does; an unlimited one always does),
/// the sender holds the amount and the receiver's balance can take it.
pub proof fn law_transfer_from_succeeds_iff(
    c: Address,
    s: EvmStateView,
    spender: Address,
    sender: Address,
    receiver: Address,
    amount: nat,
)
    requires
        sender != zero_address(),
        receiver != zero_address(),
        sender != receiver,
        amount > 0,
    ensures
        ({
            let allowance = storage_at(s, c, allowance_slot_spec(sender@, spender@));
            transfer_from_outcome(c, s, spender, sender, receiver, amount).result is Ok <==> (
            (allowance == word_max() || allowance >= amount) && balance_of(s, sender) >= amount
                && balance_of(s, receiver) + amount <= word_max())
        }),
{
}

/// A `transferFrom` of a non-zero amount from an account to itself moves
/// nothing and succeeds exactly when the spender's allowance covers the
/// amount.
pub proof fn law_self_transfer_from_succeeds_iff(
    c: Address,
    s: EvmStateView,
    spender: Address,
    account: Address,
    amount: nat,
)
    requires
        account != zero_address(),
        amount > 0,
    ensures
        ({
            let allowance = storage_at(s, c, allowance_slot_spec(account@, spender@));
            transfer_from_outcome(c, s, spender, account, account, amount).result is Ok <==> (
            allowance == word_max() || allowance >= amount)
        }),
        transfer_from_outcome(c, s, spender, account, account, amount).state.balances == s.balances,
{
}

/// A mint by the minting module of a non-zero amount to a non-zero account
/// succeeds exactly when neither the total supply nor the account's balance
/// would pass the largest word.
pub proof fn law_mint_succeeds_iff(c: Address, s: EvmStateView, receiver: Address, amount: nat)
    requires
        receiver != zero_address(),
        amount > 0,
    ensures
        mint_outcome(c, s, minting_module_address_spec(), receiver, amount).result is Ok <==> (
        storage_at(s, c, total_supply_slot_spec()) + amount <= word_max() && balance_of(s, receiver)
            + amount <= word_max()),
{
}

/// A burn by the minting module of a non-zero amount succeeds exactly when
/// its balance and the total supply both cover the amount (a balance equal
/// to the amount does).
pub proof fn law_burn_succeeds_iff(c: Address, s: EvmStateView, amount: nat)
    requires
        amount > 0,
    ensures
        burn_outcome(c, s, minting_module_address_spec(), amount).result is Ok <==> (amount
            <= balance_of(s, minting_module_address_spec()) && amount <= storage_at(
            s,
            c,
            total_supply_slot_spec(),
        )),
{
    assert(minting_module_address_spec() != zero_address());
}

/// A `burnFrom` by the minting module of a non-zero amount from a non-zero
/// account succeeds exactly when the account's allowance to the minting
/// module covers the amount (or is unlimited), and the account's balance
/// and the total supply cover it.
pub proof fn law_burn_from_succeeds_iff(c: Address, s: EvmStateView, account: Address, amount: nat)
    requires
        account != zero_address(),
        amount > 0,
    ensures
        ({
            let mm = minting_module_address_spec();
            let allowance = storage_at(s, c, allowance_slot_spec(account@, mm@));
            burn_from_outcome(c, s, mm, account, amount).result is Ok <==> (
            (allowance == word_max() || allowance >= amount) && amount <= balance_of(s, account)
                && amount <= storage_at(s, c, total_supply_slot_spec()))
        }),
{
}

/// Only the minting module mints and burns: any other caller is refused
/// with `NotWhitelisted` and changes nothing.
pub proof fn law_only_minting_module_mints_and_burns(
    c: Address,
    s: EvmStateView,
    caller: Address,
    account: Address,
    amount: nat,
)
    requires
        caller != minting_module_address_spec(),
    ensures
        mint_outcome(c, s, caller, account, amount).result == Err::<PrecompileOutputView, ERC20ErrorView>(
            ERC20ErrorView::NotWhitelisted(caller),
        ),
        mint_outcome(c, s, caller, account, amount).state == s,
        burn_outcome(c, s, caller, amount).result == Err::<PrecompileOutputView, ERC20ErrorView>(
            ERC20ErrorView::NotWhitelisted(caller),
        ),
        burn_outcome(c, s, caller, amount).state == s,
        burn_from_outcome(c, s, caller, account, amount).result == Err::<PrecompileOutputView, ERC20ErrorView>(
            ERC20ErrorView::NotWhitelisted(caller),
        ),
        burn_from_outcome(c, s, caller, account, amount).state == s,
{
}

/// An authorization can be used exactly while the block's timestamp lies
/// strictly between `valid_after` and `valid_before`; before that window it
/// is not yet valid, after it expired.
pub proof fn law_authorization_window(timestamp: nat, valid_after: nat, valid_before: nat)
    ensures
        time_window_error(timestamp, valid_after, valid_before) is None <==> (valid_after < timestamp
            && timestamp < valid_before),
        timestamp <= valid_after ==> time_window_error(timestamp, valid_after, valid_before)
            == Some(ERC20ErrorView::AuthorizationNotYetValid(valid_after, timestamp)),
        valid_after < timestamp && timestamp >= valid_before ==> time_window_error(
            timestamp,
            valid_after,
            valid_before,
        ) == Some(ERC20ErrorView::AuthorizationExpired(valid_before, timestamp)),
{
}

/// A successful mint raises the total supply and the receiver's balance by
/// the same amount; only the minting module can mint.
pub proof fn law_mint_raises_supply_and_balance(
    c: Address,
    s: EvmStateView,
    caller: Address,
    receiver: Address,
    amount: nat,
)
    requires
        mint_outcome(c, s, caller, receiver, amount).result is Ok,
    ensures
        ({
            let t = mint_outcome(c, s, caller, receiver, amount).state;
            &&& caller == minting_module_address_spec()
            &&& amount > 0
            &&& storage_at(t, c, total_supply_slot_spec()) == storage_at(
                s,
                c,
                total_supply_slot_spec(),
            ) + amount
            &&& balance_of(t, receiver) == balance_of(s, receiver) + amount
            &&& total_supply_query(c, t).result == Ok::<PrecompileOutputView, ERC20ErrorView>(
                PrecompileOutputView {
                    gas_used: GAS_TOTAL_SUPPLY,
                    bytes: be_bytes(storage_at(s, c, total_supply_slot_spec()) + amount, 32),
                },
            )
        }),
{
}

/// A successful burn lowers the total supply and the caller's balance by the
/// same amount; only the minting module can burn.
pub proof fn law_burn_lowers_supply_and_balance(
    c: Address,
    s: EvmStateView,
    caller: Address,
    amount: nat,
)
    requires
        burn_outcome(c, s, caller, amount).result is Ok,
    ensures
        ({
            let t = burn_outcome(c, s, caller, amount).state;
            &&& caller == minting_module_address_spec()
            &&& storage_at(t, c, total_supply_slot_spec()) == storage_at(
                s,
                c,
                total_supply_slot_spec(),
            ) - amount
            &&& balance_of(t, caller) == balance_of(s, caller) - amount
        }),
{
}

/// A successful `burnFrom` lowers the total supply and the account's balance
/// by the same amount, and the caller's allowance by that amount unless it
/// is unlimited (the allowance slot being distinct from the supply slot).
pub proof fn law_burn_from_lowers_supply_balance_and_allowance(
    c: Address,
    s: EvmStateView,
    caller: Address,
    account: Address,
    amount: nat,
)
    requires
        burn_from_outcome(c, s, caller, account, amount).result is Ok,
        allowance_slot_spec(account@, caller@) != total_supply_slot_spec(),
    ensures
        ({
            let t = burn_from_outcome(c, s, caller, account, amount).state;
            let slot = allowance_slot_spec(account@, caller@);
            let allowance = storage_at(s, c, slot);
            &&& storage_at(t, c, total_supply_slot_spec()) == storage_at(
                s,
                c,
                total_supply_slot_spec(),
            ) - amount
            &&& balance_of(t, account) == balance_of(s, account) - amount
            &&& storage_at(t, c, slot) == if allowance == word_max() {
                allowance
            } else {
                (allowance - amount) as nat
            }
        }),
{
}

/// `burnFrom(account, amount)` by the minting module spends the allowance
/// that `account` granted the minting module: once `account` has approved
/// the minting module for `a` (short of unlimited), a burn of `x <= a` that
/// the balance and the supply cover succeeds and leaves an allowance of
/// `a - x`. An approval the other way round (the minting module approving
/// `account`) grants the burn nothing: it fails for want of allowance.
pub proof fn law_burn_from_spends_owners_approval(
    c: Address,
    s: EvmStateView,
    account: Address,
    a: nat,
    x: nat,
)
    requires
        account != zero_address(),
        account != minting_module_address_spec(),
        0 < x <= a < word_max(),
        x <= balance_of(s, account),
        x <= storage_at(s, c, total_supply_slot_spec()),
        storage_at(s, c, allowance_slot_spec(account@, minting_module_address_spec()@)) == 0,
        allowance_slot_spec(account@, minting_module_address_spec()@) != total_supply_slot_spec(),
        allowance_slot_spec(account@, minting_module_address_spec()@) != allowance_slot_spec(
            minting_module_address_spec()@,
            account@,
        ),
    ensures
        ({
            let mm = minting_module_address_spec();
            let slot = allowance_slot_spec(account@, mm@);
            let granted = approve_outcome(c, s, account, mm, a);
            let burned = burn_from_outcome(c, granted.state, mm, account, x);
            &&& granted.result is Ok
            &&& burned.result is Ok
            &&& storage_at(burned.state, c, slot) == a - x
        }),
        ({
            let mm = minting_module_address_spec();
            let reversed = approve_outcome(c, s, mm, account, a);
            &&& reversed.result is Ok
            &&& burn_from_outcome(c, reversed.state, mm, account, x).result
                == Err::<PrecompileOutputView, ERC20ErrorView>(ERC20ErrorView::ERC20InsufficientAllowance(mm, 0, x))
        }),
{
    let mm = minting_module_address_spec();
    assert(mm != zero_address());
}

/// An authorization is used at most once: once `transferWithAuthorization`
/// has succeeded, submitting the same authorization again (in the same
/// block) fails with `AuthorizationAlreadyUsed`.
pub proof fn law_authorization_not_replayable(
    c: Address,
    domain: nat,
    s: EvmStateView,
    sender: Address,
    receiver: Address,
    amount: nat,
    valid_after: nat,
    valid_before: nat,
    nonce: nat,
    v: u8,
    r: nat,
    sig_s: nat,
    gas_used: u64,
)
    requires
        transfer_with_authorization_outcome(
            c,
            domain,
            s,
            sender,
            receiver,
            amount,
            valid_after,
            valid_before,
            nonce,
            v,
            r,
            sig_s,
            gas_used,
        ).result is Ok,
    ensures
        transfer_with_authorization_outcome(
            c,
            domain,
            transfer_with_authorization_outcome(
                c,
                domain,
                s,
                sender,
                receiver,
                amount,
                valid_after,
                valid_before,
                nonce,
                v,
                r,
                sig_s,
                gas_used,
            ).state,
            sender,
            receiver,
            amount,
            valid_after,
            valid_before,
            nonce,
            v,
            r,
            sig_s,
            gas_used,
        ).result == Err::<PrecompileOutputView, ERC20ErrorView>(
            ERC20ErrorView::AuthorizationAlreadyUsed(nonce),
        ),
{
    let slot = authorization_nonce_slot_spec(sender@, nonce);
    let t = transfer_with_authorization_outcome(
        c,
        domain,
        s,
        sender,
        receiver,
        amount,
        valid_after,
        valid_before,
        nonce,
        v,
        r,
        sig_s,
        gas_used,
    ).state;
    assert(storage_at(t, c, slot) == 1);
}

/// On any state, also one that may refuse accesses, a call that realizes
/// the transfer outcome and succeeds leaves the authorization's nonce used,
/// so that the law above applies to every later submission of it.
pub proof fn law_spent_authorization_marks_nonce(
    c: Address,
    domain: nat,
    s: EvmStateView,
    sender: Address,
    receiver: Address,
    amount: nat,
    valid_after: nat,
    valid_before: nat,
    nonce: nat,
    v: u8,
    r: nat,
    sig_s: nat,
    gas_used: u64,
    res: Result<PrecompileOutput, ERC20Error>,
    reliable: bool,
    after: EvmStateView,
)
    requires
        res is Ok,
        realizes(
            res,
            reliable,
            after,
            transfer_with_authorization_outcome(
                c,
                domain,
                s,
                sender,
                receiver,
                amount,
                valid_after,
                valid_before,
                nonce,
                v,
                r,
                sig_s,
                gas_used,
            ),
        ),
    ensures
        nonce_used(c, after, sender, nonce),
{
    law_authorization_not_replayable(c, domain, s, sender, receiver, amount, valid_after, valid_before, nonce, v, r, sig_s, gas_used);
}

/// On any state, also one that may refuse accesses, an authorization whose
/// nonce is already used is never spent again: a call that realizes the
/// transfer outcome (as both authorization handlers do) does not succeed,
/// and reports either `AuthorizationAlreadyUsed`, leaving the state as it
/// was, or an access that the state refused.
pub proof fn law_used_authorization_never_succeeds(
    c: Address,
    domain: nat,
    s: EvmStateView,
    sender: Address,
    receiver: Address,
    amount: nat,
    valid_after: nat,
    valid_before: nat,
    nonce: nat,
    v: u8,
    r: nat,
    sig_s: nat,
    gas_used: u64,
    res: Result<PrecompileOutput, ERC20Error>,
    reliable: bool,
    after: EvmStateView,
)
    requires
        nonce_used(c, s, sender, nonce),
        time_window_error(s.timestamp, valid_after, valid_before) is None,
        realizes(
            res,
            reliable,
            after,
            transfer_with_authorization_outcome(
                c,
                domain,
                s,
                sender,
                receiver,
                amount,
                valid_after,
                valid_before,
                nonce,
                v,
                r,
                sig_s,
                gas_used,
            ),
        ),
    ensures
        res is Err,
        (output_result(res) == Err::<PrecompileOutputView, ERC20ErrorView>(
            ERC20ErrorView::AuthorizationAlreadyUsed(nonce),
        ) && after == s) || (res matches Err(e) && access_error(e@)),
{
}

/// A canceled authorization can no longer be used: once
/// `cancelAuthorization` has succeeded, a transfer with the same authorizer
/// and nonce fails with `AuthorizationAlreadyUsed` whenever its time window
/// is open, and a second cancellation fails the same way.
pub proof fn law_canceled_authorization_unusable(
    c: Address,
    domain: nat,
    s: EvmStateView,
    authorizer: Address,
    nonce: nat,
    v: u8,
    r: nat,
    sig_s: nat,
    receiver: Address,
    amount: nat,
    valid_after: nat,
    valid_before: nat,
    v2: u8,
    r2: nat,
    s2: nat,
    gas_used: u64,
)
    requires
        cancel_authorization_outcome(c, domain, s, authorizer, nonce, v, r, sig_s).result is Ok,
    ensures
        ({
            let t = cancel_authorization_outcome(c, domain, s, authorizer, nonce, v, r, sig_s).state;
            &&& time_window_error(t.timestamp, valid_after, valid_before) is None
                ==> transfer_with_authorization_outcome(
                c,
                domain,
                t,
                authorizer,
                receiver,
                amount,
                valid_after,
                valid_before,
                nonce,
                v2,
                r2,
                s2,
                gas_used,
            ).result == Err::<PrecompileOutputView, ERC20ErrorView>(
                ERC20ErrorView::AuthorizationAlreadyUsed(nonce),
            )
            &&& cancel_authorization_outcome(c, domain, t, authorizer, nonce, v2, r2, s2).result
                == Err::<PrecompileOutputView, ERC20ErrorView>(
                ERC20ErrorView::AuthorizationAlreadyUsed(nonce),
            )
        }),
{
    let slot = authorization_nonce_slot_spec(authorizer@, nonce);
    let t = cancel_authorization_outcome(c, domain, s, authorizer, nonce, v, r, sig_s).state;
    assert(storage_at(t, c, slot) == 1);
}

} // verus!

verus! {

/// A call that opens with a method's selector is recognized as that method,
/// whatever follows.
pub proof fn law_selector_recognized(s: crate::abi::Erc20Selector, rest: Seq<u8>)
    ensures
        crate::abi::selector_of(crate::abi::selector_bytes(s) + rest) == Some(s),
{
    let data = crate::abi::selector_bytes(s) + rest;
    crate::bytes::lemma_be_bytes_len(crate::abi::selector_value(s) as nat, 4);
    assert(data.subrange(0, 4) =~= crate::abi::selector_bytes(s));
    let c = choose|c: crate::abi::Erc20Selector| crate::abi::selector_bytes(c) == data.subrange(0, 4);
    crate::abi::lemma_selectors_distinct(s, c);
}

/// Static calls never change balances, storage or logs: the inspector
/// either rejects a state-changing method or serves a read.
pub proof fn law_static_calls_do_not_mutate(
    c: Address,
    domain: nat,
    s: EvmStateView,
    caller: Address,
    target: Address,
    data: Seq<u8>,
    value: nat,
    gas_limit: u64,
    gas_fix_active: bool,
)
    ensures
        ({
            let d = crate::inspector::call_decision(
                c,
                domain,
                s,
                caller,
                target,
                data,
                value,
                true,
                gas_limit,
                gas_fix_active,
            );
            &&& d.state.balances == s.balances
            &&& d.state.storage == s.storage
            &&& d.state.logs == s.logs
        }),
{
}

} // verus!
