//! Routing of calls to the precompile address, and the `Transfer` events of
//! native value transfers.
//!
//! Before the precompile gas fix, every call to the precompile address is
//! served here (with the legacy gas accounting); after it, the call is left
//! to the precompile itself and only the precompile account is touched.

use crate::abi::{mutates_state, read_address_arg, read_uint8_arg, read_word_arg, selector_of, Erc20Selector};
use crate::address::{address_of_value, lemma_address_of_value, two_160, Address};
use crate::bytes::be_value;
use crate::errors::{revert_bytes_spec, ERC20Error, ERC20ErrorView};
use crate::events::{encode_transfer_event, transfer_log};
use crate::precompile::{
    allowance_query, approve_outcome, balance_query, burn_from_outcome, burn_outcome,
    cancel_authorization_outcome, erc20_precompile_address, erc20_precompile_address_spec, fail,
    mint_outcome, output_result, realizes, transfer_from_outcome, transfer_outcome,
    transfer_with_authorization_outcome, Erc20Precompile, OutcomeView, PrecompileOutput,
    BASE_ERROR_GAS, GAS_RECEIVE_WITH_AUTHORIZATION, GAS_TRANSFER_WITH_AUTHORIZATION,
};
use crate::migrations::stop_bytecode;
use crate::state::{code_of, with_code, with_log, with_touch, EvmStateView, StateAccessAdapter};
use crate::uint::U256;
use vstd::prelude::*;
use vstd::string::StringExecFns;

verus! {

/// A call as the EVM hands it to the inspector.
#[derive(Debug, Clone)]
pub struct CallInputs {
    /// The account making the call.
    pub caller: Address,
    /// The account called.
    pub target_address: Address,
    /// The calldata.
    pub input: Vec<u8>,
    /// The native value transferred with the call (0 when none).
    pub value: U256,
    /// True for a static call.
    pub is_static: bool,
    /// The call's gas limit.
    pub gas_limit: u64,
}

/// How a call ended.
#[derive(Debug, Clone, Copy, PartialEq, Eq, Structural)]
pub enum InstructionResult {
    /// Returned normally.
    Return,
    /// Reverted.
    Revert,
}

/// The outcome the inspector gives a call in place of executing it.
#[derive(Debug, Clone)]
pub struct CallOutcome {
    /// How the call ended.
    pub result: InstructionResult,
    /// The return or revert data.
    pub output: Vec<u8>,
    /// The gas the outcome is built with (the `Gas::new` argument).
    pub gas: u64,
}

/// The content of a [`CallOutcome`].
pub struct CallOutcomeView {
    pub result: InstructionResult,
    pub output: Seq<u8>,
    pub gas: u64,
}

impl View for CallOutcome {
    type V = CallOutcomeView;

    open spec fn view(&self) -> CallOutcomeView {
        CallOutcomeView { result: self.result, output: self.output@, gas: self.gas }
    }
}

/// What the inspector does with a call: the outcome it substitutes, if any,
/// and the state it leaves.
pub struct CallDecisionView {
    pub outcome: Option<CallOutcomeView>,
    pub state: EvmStateView,
}

/// Revert data when a call sends native value to the precompile.
pub open spec fn value_transfer_rejection() -> Seq<u8> {
    vstd::utf8::encode_utf8("ERC-20 precompile rejects native value transfer"@)
}

/// Revert data when a static call asks for a state change.
pub open spec fn static_mutation_rejection() -> Seq<u8> {
    vstd::utf8::encode_utf8("ERC-20 state mutation forbidden under static call"@)
}

/// The gas charged on an error: `BASE_ERROR_GAS`, capped by the gas limit.
pub open spec fn error_gas(gas_limit: u64) -> u64 {
    if BASE_ERROR_GAS <= gas_limit {
        BASE_ERROR_GAS
    } else {
        gas_limit
    }
}

/// True if `data` holds a selector and `k` argument words.
pub open spec fn has_args(data: Seq<u8>, k: int) -> bool {
    data.len() >= 4 + 32 * k
}

/// The `i`-th argument word of `data`.
pub open spec fn arg_word(data: Seq<u8>, i: int) -> nat {
    be_value(data.subrange(4 + 32 * i, 4 + 32 * i + 32))
}

/// The `i`-th argument of `data` as an address (its low 20 bytes).
pub open spec fn arg_address(data: Seq<u8>, i: int) -> Address {
    address_of_value(arg_word(data, i) % two_160())
}

/// The `i`-th argument of `data` as a `uint8` (its last byte).
pub open spec fn arg_u8(data: Seq<u8>, i: int) -> u8 {
    data[4 + 32 * i + 31]
}

/// The outcome of a call of `selector` with calldata `data` by `caller` on
/// the precompile at `c` with domain separator `domain`; `None` for the
/// methods this path does not serve.
pub open spec fn dispatch_outcome(
    c: Address,
    domain: nat,
    s: EvmStateView,
    caller: Address,
    selector: Erc20Selector,
    data: Seq<u8>,
) -> Option<OutcomeView> {
    let decode_failure = "Failed to decode params: Overrun"@;
    match selector {
        Erc20Selector::Transfer => Some(
            if !has_args(data, 2) {
                fail(ERC20ErrorView::ERC20Other("transfer"@), s)
            } else {
                transfer_outcome(c, s, caller, arg_address(data, 0), arg_word(data, 1))
            },
        ),
        Erc20Selector::BalanceOf => Some(
            if !has_args(data, 1) {
                fail(ERC20ErrorView::ERC20Other("Invalid parameters: balanceOf"@), s)
            } else {
                balance_query(s, arg_address(data, 0))
            },
        ),
        Erc20Selector::Allowance => Some(
            if !has_args(data, 2) {
                fail(ERC20ErrorView::ERC20Other("Invalid parameters: allowance"@), s)
            } else {
                allowance_query(c, s, arg_address(data, 0), arg_address(data, 1))
            },
        ),
        Erc20Selector::Approve => Some(
            if !has_args(data, 2) {
                fail(ERC20ErrorView::ERC20Other("Invalid parameters: approve"@), s)
            } else {
                approve_outcome(c, s, caller, arg_address(data, 0), arg_word(data, 1))
            },
        ),
        Erc20Selector::TransferFrom => Some(
            if !has_args(data, 3) {
                fail(ERC20ErrorView::ERC20Other("Invalid parameters: transferFrom"@), s)
            } else {
                transfer_from_outcome(
                    c,
                    s,
                    caller,
                    arg_address(data, 0),
                    arg_address(data, 1),
                    arg_word(data, 2),
                )
            },
        ),
        Erc20Selector::Mint => Some(
            if !has_args(data, 2) {
                fail(ERC20ErrorView::ERC20Other("Invalid parameters: mint"@), s)
            } else {
                mint_outcome(c, s, caller, arg_address(data, 0), arg_word(data, 1))
            },
        ),
        Erc20Selector::Burn => Some(
            if !has_args(data, 1) {
                fail(ERC20ErrorView::ERC20Other("Invalid parameters: burn"@), s)
            } else {
                burn_outcome(c, s, caller, arg_word(data, 0))
            },
        ),
        Erc20Selector::BurnFrom => Some(
            if !has_args(data, 2) {
                fail(ERC20ErrorView::ERC20Other("Invalid parameters: burnFrom"@), s)
            } else {
                burn_from_outcome(c, s, caller, arg_address(data, 0), arg_word(data, 1))
            },
        ),
        Erc20Selector::TransferWithAuthorization => Some(
            if !has_args(data, 9) {
                fail(ERC20ErrorView::ERC20Other(decode_failure), s)
            } else {
                transfer_with_authorization_outcome(
                    c,
                    domain,
                    s,
                    arg_address(data, 0),
                    arg_address(data, 1),
                    arg_word(data, 2),
                    arg_word(data, 3),
                    arg_word(data, 4),
                    arg_word(data, 5),
                    arg_u8(data, 6),
                    arg_word(data, 7),
                    arg_word(data, 8),
                    GAS_TRANSFER_WITH_AUTHORIZATION,
                )
            },
        ),
        Erc20Selector::ReceiveWithAuthorization => Some(
            if !has_args(data, 9) {
                fail(ERC20ErrorView::ERC20Other(decode_failure), s)
            } else if caller != arg_address(data, 1) {
                fail(ERC20ErrorView::CallerNotReceiver(caller, arg_address(data, 1)), s)
            } else {
                transfer_with_authorization_outcome(
                    c,
                    domain,
                    s,
                    arg_address(data, 0),
                    arg_address(data, 1),
                    arg_word(data, 2),
                    arg_word(data, 3),
                    arg_word(data, 4),
                    arg_word(data, 5),
                    arg_u8(data, 6),
                    arg_word(data, 7),
                    arg_word(data, 8),
                    GAS_RECEIVE_WITH_AUTHORIZATION,
                )
            },
        ),
        Erc20Selector::CancelAuthorization => Some(
            if !has_args(data, 5) {
                fail(ERC20ErrorView::ERC20Other(decode_failure), s)
            } else {
                cancel_authorization_outcome(
                    c,
                    domain,
                    s,
                    arg_address(data, 0),
                    arg_word(data, 1),
                    arg_u8(data, 2),
                    arg_word(data, 3),
                    arg_word(data, 4),
                )
            },
        ),
        _ => None,
    }
}

/// The call outcome of a handler's result: its data and gas on success
/// (the legacy accounting), its revert data and the error gas on failure.
pub open spec fn call_outcome_of(
    r: Result<crate::precompile::PrecompileOutputView, ERC20ErrorView>,
    gas_limit: u64,
) -> CallOutcomeView {
    match r {
        Ok(o) => CallOutcomeView {
            result: InstructionResult::Return,
            output: o.bytes,
            gas: o.gas_used,
        },
        Err(e) => CallOutcomeView {
            result: InstructionResult::Revert,
            output: revert_bytes_spec(e),
            gas: error_gas(gas_limit),
        },
    }
}

/// `s` with `STOP` code on the precompile account if it has none, and the
/// account touched: what keeps the storage the legacy call path writes
/// from being reaped.
pub open spec fn with_precompile_code(s: EvmStateView) -> EvmStateView {
    let p = erc20_precompile_address_spec();
    let s1 = if code_of(s, p).len() == 0 {
        with_code(s, p, stop_bytecode())
    } else {
        s
    };
    with_touch(s1, p)
}

/// What the inspector does with a call to `target` by `caller` with calldata
/// `data`, native value `value`, staticness `is_static` and gas limit
/// `gas_limit`, before or after the precompile gas fix.
pub open spec fn call_decision(
    c: Address,
    domain: nat,
    s: EvmStateView,
    caller: Address,
    target: Address,
    data: Seq<u8>,
    value: nat,
    is_static: bool,
    gas_limit: u64,
    gas_fix_active: bool,
) -> CallDecisionView {
    let precompile = erc20_precompile_address_spec();
    if target != precompile {
        CallDecisionView { outcome: None, state: s }
    } else if gas_fix_active {
        CallDecisionView { outcome: None, state: with_touch(s, precompile) }
    } else {
        let s1 = with_precompile_code(s);
        match selector_of(data) {
            None => CallDecisionView { outcome: None, state: s1 },
            Some(selector) => if value != 0 {
                CallDecisionView {
                    outcome: Some(
                        CallOutcomeView {
                            result: InstructionResult::Revert,
                            output: value_transfer_rejection(),
                            gas: error_gas(gas_limit),
                        },
                    ),
                    state: s1,
                }
            } else if is_static && mutates_state(selector) {
                CallDecisionView {
                    outcome: Some(
                        CallOutcomeView {
                            result: InstructionResult::Revert,
                            output: static_mutation_rejection(),
                            gas: error_gas(gas_limit),
                        },
                    ),
                    state: s1,
                }
            } else {
                match dispatch_outcome(c, domain, s1, caller, selector, data) {
                    None => CallDecisionView { outcome: None, state: s1 },
                    Some(o) => CallDecisionView {
                        outcome: Some(call_outcome_of(o.result, gas_limit)),
                        state: o.state,
                    },
                }
            },
        }
    }
}

/// The logs of a successful call that moved native value: a `Transfer` from
/// the caller to the target, unless the target is the precompile.
pub open spec fn call_end_state(
    s: EvmStateView,
    success: bool,
    caller: Address,
    target: Address,
    value: nat,
) -> EvmStateView {
    if success && value > 0 && target != erc20_precompile_address_spec() {
        with_log(s, transfer_log(erc20_precompile_address_spec(), caller, target, value))
    } else {
        s
    }
}

/// The logs of a successful contract creation that carried native value:
/// a `Transfer` from the creator to the new contract.
pub open spec fn create_end_state(
    s: EvmStateView,
    success: bool,
    caller: Address,
    value: nat,
    created: Option<Address>,
) -> EvmStateView {
    match created {
        Some(a) => if success && value > 0 {
            with_log(s, transfer_log(erc20_precompile_address_spec(), caller, a, value))
        } else {
            s
        },
        None => s,
    }
}

/// A revert outcome with the given data and the error gas.
pub fn reject_outcome(reason: &[u8], gas_limit: u64) -> (r: CallOutcome)
    ensures
        r@ == (CallOutcomeView {
            result: InstructionResult::Revert,
            output: reason@,
            gas: error_gas(gas_limit),
        }),
{
    let gas = if BASE_ERROR_GAS <= gas_limit {
        BASE_ERROR_GAS
    } else {
        gas_limit
    };
    let mut output: Vec<u8> = Vec::new();
    crate::hash::extend_bytes(&mut output, reason);
    CallOutcome { result: InstructionResult::Revert, output, gas }
}

/// The legacy success outcome: the return data, with the gas used passed as
/// the outcome's gas.
pub fn success_outcome(output: PrecompileOutput) -> (r: CallOutcome)
    ensures
        r@ == (CallOutcomeView {
            result: InstructionResult::Return,
            output: output.bytes@,
            gas: output.gas_used,
        }),
{
    CallOutcome { result: InstructionResult::Return, output: output.bytes, gas: output.gas_used }
}

/// The `i`-th argument word of `data`.
fn arg_word_at(data: &[u8], i: usize) -> (r: U256)
    requires
        4 + 32 * i + 32 <= data@.len(),
    ensures
        r@ == arg_word(data@, i as int),
{
    // The offset is below the slice's length, so it fits in a `usize`.
    let len: usize = data.len();
    assert(4 + 32 * i + 32 <= len);
    read_word_arg(data, 4 + 32 * i)
}

/// The `i`-th argument of `data` as an address.
fn arg_address_at(data: &[u8], i: usize) -> (r: Address)
    requires
        4 + 32 * i + 32 <= data@.len(),
    ensures
        r == arg_address(data@, i as int),
{
    // The offset is below the slice's length, so it fits in a `usize`.
    let len: usize = data.len();
    assert(4 + 32 * i + 32 <= len);
    let a = read_address_arg(data, 4 + 32 * i);
    proof {
        lemma_address_of_value(arg_word(data@, i as int) % two_160(), a);
    }
    a
}

/// The `i`-th argument of `data` as a `uint8`.
fn arg_u8_at(data: &[u8], i: usize) -> (r: u8)
    requires
        4 + 32 * i + 32 <= data@.len(),
    ensures
        r == arg_u8(data@, i as int),
{
    // The offset is below the slice's length, so it fits in a `usize`.
    let len: usize = data.len();
    assert(4 + 32 * i + 32 <= len);
    read_uint8_arg(data, 4 + 32 * i)
}

/// Sets `STOP` code on the precompile account if it has none, so that the
/// storage written through the legacy call path persists, and touches the
/// account. When the account cannot be loaded, nothing changes.
fn ensure_precompile_code<T: StateAccessAdapter>(state_access: &mut T)
    ensures
        final(state_access).reliable() == old(state_access).reliable(),
        old(state_access).reliable() ==> final(state_access).state() == with_precompile_code(old(state_access).state()),
{
    let p = erc20_precompile_address();
    let code = match state_access.perform_get_code(p) {
        Ok(c) => c,
        Err(_) => return,
    };
    if code.len() == 0 {
        let stop: Vec<u8> = vec![0x00];
        assert(stop@ =~= stop_bytecode());
        let _ = state_access.perform_set_code(p, stop);
    }
    state_access.perform_touch_account(p);
}

/// Emit unified ERC-20 `Transfer` events for native value transfers and
/// serve calls to the precompile address.
#[derive(Debug, Clone)]
pub struct NativeErc20Inspector {
    /// The precompile the calls are served by.
    pub precompile: Erc20Precompile,
}

impl NativeErc20Inspector {
    /// Create a new inspector.
    pub fn new(precompile: Erc20Precompile) -> (r: Self)
        ensures
            r.precompile == precompile,
    {
        NativeErc20Inspector { precompile }
    }

    /// Serves a call of `selector` (already read from `data`) by `caller`.
    fn dispatch<T: StateAccessAdapter>(&self, state_access: &mut T, caller: Address, selector: Erc20Selector, data: &[u8]) -> (r: Option<Result<PrecompileOutput, ERC20Error>>)
        ensures
            final(state_access).reliable() == old(state_access).reliable(),
            r is Some <==> dispatch_outcome(self.precompile.contract_address, self.precompile.domain_separator@, old(state_access).state(), caller, selector, data@) is Some,
            r is None ==> final(state_access).state() == old(state_access).state(),
            r matches Some(res) ==> realizes(
                res,
                old(state_access).reliable(),
                final(state_access).state(),
                dispatch_outcome(self.precompile.contract_address, self.precompile.domain_separator@, old(state_access).state(), caller, selector, data@).unwrap(),
            ),
    {
        let p = &self.precompile;
        let len = data.len();
        match selector {
            Erc20Selector::Transfer => {
                if len < 68 {
                    return Some(Err(ERC20Error::other(String::from_str("transfer"))));
                }
                Some(p.handle_transfer(state_access, caller, arg_address_at(data, 0), arg_word_at(data, 1)))
            },
            Erc20Selector::BalanceOf => {
                if len < 36 {
                    return Some(Err(ERC20Error::other(String::from_str("Invalid parameters: balanceOf"))));
                }
                Some(p.handle_balance_of(state_access, arg_address_at(data, 0)))
            },
            Erc20Selector::Allowance => {
                if len < 68 {
                    return Some(Err(ERC20Error::other(String::from_str("Invalid parameters: allowance"))));
                }
                Some(p.handle_allowance(state_access, arg_address_at(data, 0), arg_address_at(data, 1)))
            },
            Erc20Selector::Approve => {
                if len < 68 {
                    return Some(Err(ERC20Error::other(String::from_str("Invalid parameters: approve"))));
                }
                Some(p.handle_approve(state_access, caller, arg_address_at(data, 0), arg_word_at(data, 1)))
            },
            Erc20Selector::TransferFrom => {
                if len < 100 {
                    return Some(Err(ERC20Error::other(String::from_str("Invalid parameters: transferFrom"))));
                }
                Some(p.handle_transfer_from(state_access, caller, arg_address_at(data, 0), arg_address_at(data, 1), arg_word_at(data, 2)))
            },
            Erc20Selector::Mint => {
                if len < 68 {
                    return Some(Err(ERC20Error::other(String::from_str("Invalid parameters: mint"))));
                }
                Some(p.handle_mint(state_access, caller, arg_address_at(data, 0), arg_word_at(data, 1)))
            },
            Erc20Selector::Burn => {
                if len < 36 {
                    return Some(Err(ERC20Error::other(String::from_str("Invalid parameters: burn"))));
                }
                Some(p.handle_burn(state_access, caller, arg_word_at(data, 0)))
            },
            Erc20Selector::BurnFrom => {
                if len < 68 {
                    return Some(Err(ERC20Error::other(String::from_str("Invalid parameters: burnFrom"))));
                }
                Some(p.handle_burn_from(state_access, caller, arg_address_at(data, 0), arg_word_at(data, 1)))
            },
            Erc20Selector::TransferWithAuthorization => {
                if len < 292 {
                    return Some(Err(ERC20Error::other(String::from_str("Failed to decode params: Overrun"))));
                }
                Some(p.handle_transfer_with_authorization(
                    state_access,
                    arg_address_at(data, 0),
                    arg_address_at(data, 1),
                    arg_word_at(data, 2),
                    arg_word_at(data, 3),
                    arg_word_at(data, 4),
                    arg_word_at(data, 5),
                    arg_u8_at(data, 6),
                    arg_word_at(data, 7),
                    arg_word_at(data, 8),
                ))
            },
            Erc20Selector::ReceiveWithAuthorization => {
                if len < 292 {
                    return Some(Err(ERC20Error::other(String::from_str("Failed to decode params: Overrun"))));
                }
                Some(p.handle_receive_with_authorization(
                    state_access,
                    caller,
                    arg_address_at(data, 0),
                    arg_address_at(data, 1),
                    arg_word_at(data, 2),
                    arg_word_at(data, 3),
                    arg_word_at(data, 4),
                    arg_word_at(data, 5),
                    arg_u8_at(data, 6),
                    arg_word_at(data, 7),
                    arg_word_at(data, 8),
                ))
            },
            Erc20Selector::CancelAuthorization => {
                if len < 164 {
                    return Some(Err(ERC20Error::other(String::from_str("Failed to decode params: Overrun"))));
                }
                Some(p.handle_cancel_authorization(
                    state_access,
                    arg_address_at(data, 0),
                    arg_word_at(data, 1),
                    arg_u8_at(data, 2),
                    arg_word_at(data, 3),
                    arg_word_at(data, 4),
                ))
            },
            _ => None,
        }
    }

    /// Intercepts a call: `None` lets the EVM execute it, `Some` replaces it
    /// with the given outcome. Calls to other addresses pass through; after
    /// the precompile gas fix the precompile account is touched and the call
    /// passes through to the precompile; before it, the call is served here.
    pub fn call<T: StateAccessAdapter>(&self, state_access: &mut T, inputs: &CallInputs, precompile_gas_fix_active: bool) -> (r: Option<CallOutcome>)
        ensures
            final(state_access).reliable() == old(state_access).reliable(),
            old(state_access).reliable() ==> ({
                let d = call_decision(
                    self.precompile.contract_address,
                    self.precompile.domain_separator@,
                    old(state_access).state(),
                    inputs.caller,
                    inputs.target_address,
                    inputs.input@,
                    inputs.value@,
                    inputs.is_static,
                    inputs.gas_limit,
                    precompile_gas_fix_active,
                );
                &&& final(state_access).state() == d.state
                &&& match r {
                    None => d.outcome is None,
                    Some(o) => d.outcome == Some(o@),
                }
            }),
            inputs.target_address != erc20_precompile_address_spec() ==> r is None
                && final(state_access).state() == old(state_access).state(),
            inputs.target_address == erc20_precompile_address_spec() && precompile_gas_fix_active ==> r is None
                && final(state_access).state() == with_touch(old(state_access).state(), erc20_precompile_address_spec()),
            inputs.target_address == erc20_precompile_address_spec() && !precompile_gas_fix_active
                && selector_of(inputs.input@) is None ==> r is None,
            inputs.target_address == erc20_precompile_address_spec() && !precompile_gas_fix_active
                && selector_of(inputs.input@) is Some && inputs.value@ != 0 ==> (r matches Some(o) && o@ == (CallOutcomeView {
                    result: InstructionResult::Revert,
                    output: value_transfer_rejection(),
                    gas: error_gas(inputs.gas_limit),
                })),
            inputs.target_address == erc20_precompile_address_spec() && !precompile_gas_fix_active
                && (selector_of(inputs.input@) matches Some(selector) && inputs.value@ == 0 && inputs.is_static
                && mutates_state(selector)) ==> (r matches Some(o) && o@ == (CallOutcomeView {
                    result: InstructionResult::Revert,
                    output: static_mutation_rejection(),
                    gas: error_gas(inputs.gas_limit),
                })),
    {
        let precompile = erc20_precompile_address();
        if inputs.target_address != precompile {
            return None;
        }
        if precompile_gas_fix_active {
            state_access.perform_touch_account(precompile);
            return None;
        }
        ensure_precompile_code(state_access);
        let data = inputs.input.as_slice();
        let selector = match Erc20Selector::from_calldata(data) {
            Some(s) => s,
            None => return None,
        };
        if !inputs.value.is_zero() {
            return Some(reject_outcome("ERC-20 precompile rejects native value transfer".as_bytes(), inputs.gas_limit));
        }
        if inputs.is_static && selector.is_state_mutating() {
            return Some(reject_outcome("ERC-20 state mutation forbidden under static call".as_bytes(), inputs.gas_limit));
        }
        match self.dispatch(state_access, inputs.caller, selector, data) {
            None => None,
            Some(Ok(output)) => Some(success_outcome(output)),
            Some(Err(e)) => {
                let reason = e.to_revert_bytes();
                let gas = if BASE_ERROR_GAS <= inputs.gas_limit {
                    BASE_ERROR_GAS
                } else {
                    inputs.gas_limit
                };
                Some(CallOutcome { result: InstructionResult::Revert, output: reason, gas })
            },
        }
    }

    /// After a call: if it succeeded and moved native value to an account
    /// other than the precompile, logs the ERC-20 `Transfer` of that value.
    pub fn call_end<T: StateAccessAdapter>(&self, state_access: &mut T, inputs: &CallInputs, success: bool)
        ensures
            final(state_access).reliable() == old(state_access).reliable(),
            final(state_access).state() == call_end_state(
                old(state_access).state(),
                success,
                inputs.caller,
                inputs.target_address,
                inputs.value@,
            ),
    {
        if !success {
            return;
        }
        let precompile = erc20_precompile_address();
        if !inputs.value.is_zero() && inputs.target_address != precompile {
            let event = encode_transfer_event(precompile, inputs.caller, inputs.target_address, inputs.value);
            state_access.perform_log(event);
        }
    }

    /// After a contract creation: if it succeeded, created `created` and
    /// carried native value, logs the ERC-20 `Transfer` of that value from
    /// the creator to the new contract.
    pub fn create_end<T: StateAccessAdapter>(&self, state_access: &mut T, caller: Address, value: U256, created: Option<Address>, success: bool)
        ensures
            final(state_access).reliable() == old(state_access).reliable(),
            final(state_access).state() == create_end_state(old(state_access).state(), success, caller, value@, created),
    {
        if !success {
            return;
        }
        match created {
            Some(addr) => {
                if !value.is_zero() {
                    let event = encode_transfer_event(erc20_precompile_address(), caller, addr, value);
                    state_access.perform_log(event);
                }
            },
            None => {},
        }
    }
}

/// The native ERC-20 inspector in front of another inspector: a call the
/// native inspector serves is not seen by the other one; every other hook
/// runs both, the native inspector first.
#[derive(Debug, Clone)]
pub struct CompositeInspector<I> {
    native_erc20: NativeErc20Inspector,
    inner: I,
}

impl<I> CompositeInspector<I> {
    /// The native inspector in front of `inner`.
    pub fn new(native_erc20: NativeErc20Inspector, inner: I) -> (r: Self)
        ensures
            r.native_erc20_spec() == native_erc20,
            r.inner_spec() == inner,
    {
        CompositeInspector { native_erc20, inner }
    }

    /// The native inspector.
    pub closed spec fn native_erc20_spec(&self) -> NativeErc20Inspector {
        self.native_erc20
    }

    /// The inner inspector.
    pub closed spec fn inner_spec(&self) -> I {
        self.inner
    }

    /// The native inspector.
    pub fn native_erc20(&self) -> (r: &NativeErc20Inspector)
        ensures
            *r == self.native_erc20_spec(),
    {
        &self.native_erc20
    }

    /// The inner inspector.
    pub fn inner(&self) -> (r: &I)
        ensures
            *r == self.inner_spec(),
    {
        &self.inner
    }

    /// The inner inspector, mutably.
    pub fn inner_mut(&mut self) -> (r: &mut I)
        ensures
            *r == old(self).inner_spec(),
            final(self).inner_spec() == *final(r),
            final(self).native_erc20_spec() == old(self).native_erc20_spec(),
    {
        &mut self.inner
    }
}

} // verus!
