//! The native ERC-20 precompile.
//!
//! [`Erc20Precompile`] gives the chain's native coin an ERC-20 face: balances
//! are native balances, while allowances, the total supply and EIP-3009 nonces
//! live in the storage of the precompile's own account.
//!
//! Each handler's contract is an [`OutcomeView`]: the result it returns and
//! the state it leaves, as a function of the state it found. On a state that
//! answers every access, the handler realizes exactly that outcome; on any
//! state, a successful call realizes it too.

use crate::abi::{abi_bool, abi_string, encode_bool, encode_string, encode_uint256, encode_uint8};
use crate::address::Address;
use crate::bytes::{be_bytes, be_value, zeros};
use crate::eip3009::{
    cancel_authorization_hash, eip712_domain_separator, eip712_domain_separator_digest,
    eip712_signing_hash, recover_signer_spec, transfer_authorization_hash,
    verify_cancel_authorization, verify_transfer_authorization,
};
use crate::errors::{access_error, 
    overflow_message, zero_amount_message, ERC20Error, ERC20ErrorView, ERC20Method, ERC20Resource,
};
use crate::events::{
    approval_log, authorization_canceled_log, authorization_used_log, burn_log, mint_log,
    transfer_log, encode_approval_event, encode_authorization_canceled_event,
    encode_authorization_used_event, encode_burn_event, encode_mint_event, encode_transfer_event,
};
use crate::state::{
    balance_of, storage_at, with_balance, with_log, with_storage, with_touch, EvmStateView,
    StateAccessAdapter,
};
use crate::storage::{
    allowance_slot, allowance_slot_spec, authorization_nonce_slot, authorization_nonce_slot_spec,
    total_supply_slot, total_supply_slot_spec,
};
use crate::uint::{word_max, U256};
use vstd::prelude::*;
use vstd::string::StringExecFns;

verus! {

/// Gas of `name()`.
pub const GAS_NAME: u64 = 100;

/// Gas of `symbol()`.
pub const GAS_SYMBOL: u64 = 100;

/// Gas of `decimals()`.
pub const GAS_DECIMALS: u64 = 100;

/// Gas of `totalSupply()` (a cold SLOAD).
pub const GAS_TOTAL_SUPPLY: u64 = 2100;

/// Gas of `balanceOf(address)`.
pub const GAS_BALANCE_QUERY: u64 = 400;

/// Gas of `allowance(address,address)` (a cold SLOAD).
pub const GAS_ALLOWANCE_QUERY: u64 = 2100;

/// Gas of `transfer(address,uint256)`.
pub const GAS_TRANSFER: u64 = 9000;

/// Gas of `approve(address,uint256)`.
pub const GAS_APPROVE: u64 = 5000;

/// Gas of `transferFrom(address,address,uint256)`.
pub const GAS_TRANSFER_FROM: u64 = 12000;

/// Gas of `mint(address,uint256)`.
pub const GAS_MINT: u64 = 10000;

/// Gas of `burn(uint256)` and `burnFrom(address,uint256)`.
pub const GAS_BURN: u64 = 10000;

/// Gas of `transferWithAuthorization`.
pub const GAS_TRANSFER_WITH_AUTHORIZATION: u64 = 35000;

/// Gas of `receiveWithAuthorization`.
pub const GAS_RECEIVE_WITH_AUTHORIZATION: u64 = 35000;

/// Gas of `cancelAuthorization`.
pub const GAS_CANCEL_AUTHORIZATION: u64 = 25000;

/// Gas charged on every error path of the precompile (EIP-2929's cold SLOAD
/// cost), capped by the call's gas limit.
pub const BASE_ERROR_GAS: u64 = 2100;

/// The zero address.
pub open spec fn zero_address() -> Address {
    Address { hi: 0, lo: 0 }
}

/// The precompile's address, `0x0000000000000000000000000000000000000400`.
pub open spec fn erc20_precompile_address_spec() -> Address {
    Address { hi: 0, lo: 0x400 }
}

/// The only caller allowed to mint and burn,
/// `0x07e17e17e17e17e17e17e17e17e17e17e17e17e6`.
pub open spec fn minting_module_address_spec() -> Address {
    Address { hi: 0x07e17e17, lo: 0xe17e17e17e17e17e17e17e17e17e17e6 }
}

/// Address of the native ERC-20 wrapper precompile.
pub fn erc20_precompile_address() -> (r: Address)
    ensures
        r == erc20_precompile_address_spec(),
{
    Address { hi: 0, lo: 0x400 }
}

/// Address authorized to mint and burn native tokens through the precompile.
pub fn minting_module_address() -> (r: Address)
    ensures
        r == minting_module_address_spec(),
{
    Address { hi: 0x07e17e17, lo: 0xe17e17e17e17e17e17e17e17e17e17e6 }
}

/// Configuration for the ERC-20 token metadata.
#[derive(Debug, Clone)]
pub struct Erc20TokenConfig {
    /// Token name (e.g., "USD Rayls").
    pub name: String,
    /// Token symbol (e.g., "USDr").
    pub symbol: String,
    /// Token decimals (typically 18).
    pub decimals: u8,
    /// EIP-712 domain version string.
    pub version: String,
}

impl Default for Erc20TokenConfig {
    fn default() -> (r: Self)
        ensures
            r.name@ == "USD Rayls"@,
            r.symbol@ == "USDr"@,
            r.decimals == 18,
            r.version@ == "1.0.0"@,
    {
        Erc20TokenConfig {
            name: String::from_str("USD Rayls"),
            symbol: String::from_str("USDr"),
            decimals: 18,
            version: String::from_str("1.0.0"),
        }
    }
}

/// The result of a successful precompile call.
#[derive(Debug, Clone, PartialEq, Eq)]
pub struct PrecompileOutput {
    /// Gas used.
    pub gas_used: u64,
    /// Return data.
    pub bytes: Vec<u8>,
}

/// The content of a [`PrecompileOutput`].
pub struct PrecompileOutputView {
    pub gas_used: u64,
    pub bytes: Seq<u8>,
}

impl View for PrecompileOutput {
    type V = PrecompileOutputView;

    open spec fn view(&self) -> PrecompileOutputView {
        PrecompileOutputView { gas_used: self.gas_used, bytes: self.bytes@ }
    }
}

impl PrecompileOutput {
    /// Create new precompile output.
    pub fn new(gas_used: u64, bytes: Vec<u8>) -> (r: Self)
        ensures
            r@ == (PrecompileOutputView { gas_used, bytes: bytes@ }),
    {
        PrecompileOutput { gas_used, bytes }
    }
}

/// What a handler does: the result it gives and the state it leaves.
pub struct OutcomeView {
    pub result: Result<PrecompileOutputView, ERC20ErrorView>,
    pub state: EvmStateView,
}

/// What an intermediate step does: the error it stops with, if any, and the
/// state it leaves.
pub struct StepView {
    pub error: Option<ERC20ErrorView>,
    pub state: EvmStateView,
}

/// A failed outcome.
pub open spec fn fail(e: ERC20ErrorView, s: EvmStateView) -> OutcomeView {
    OutcomeView { result: Err(e), state: s }
}

/// A successful outcome.
pub open spec fn succeed(gas_used: u64, bytes: Seq<u8>, s: EvmStateView) -> OutcomeView {
    OutcomeView { result: Ok(PrecompileOutputView { gas_used, bytes }), state: s }
}

/// The mathematical content of a handler's result.
pub open spec fn output_result(r: Result<PrecompileOutput, ERC20Error>) -> Result<
    PrecompileOutputView,
    ERC20ErrorView,
> {
    match r {
        Ok(o) => Ok(o@),
        Err(e) => Err(e@),
    }
}

/// The error of a step's result.
pub open spec fn step_error(r: Result<(), ERC20Error>) -> Option<ERC20ErrorView> {
    match r {
        Ok(_) => None,
        Err(e) => Some(e@),
    }
}

/// A handler that returned `r`, on a state that was `reliable` before and
/// is `after` now, realized `o`: always when the state answered every
/// access, and whenever the call succeeded. On a state that may refuse an
/// access, a failed call either realized `o` or stopped at a refused access
/// and reports it.
pub open spec fn realizes(
    r: Result<PrecompileOutput, ERC20Error>,
    reliable: bool,
    after: EvmStateView,
    o: OutcomeView,
) -> bool {
    &&& (reliable || r is Ok) ==> output_result(r) == o.result && after == o.state
    &&& r matches Err(e) ==> (output_result(r) == o.result && after == o.state) || access_error(e@)
}

/// A step that returned `r` realized `o` (see [`realizes`]).
pub open spec fn step_realizes(
    r: Result<(), ERC20Error>,
    reliable: bool,
    after: EvmStateView,
    o: StepView,
) -> bool {
    &&& (reliable || r is Ok) ==> step_error(r) == o.error && after == o.state
    &&& r matches Err(e) ==> (step_error(r) == o.error && after == o.state) || access_error(e@)
}

/// A handler that stops at a check made before any access to the state
/// (its error `g`) returned that error and left the state as it was,
/// whether or not the state can refuse accesses.
pub open spec fn refused_before_access(
    r: Result<PrecompileOutput, ERC20Error>,
    before: EvmStateView,
    after: EvmStateView,
    g: Option<ERC20ErrorView>,
) -> bool {
    g matches Some(e) ==> output_result(r) == Err::<PrecompileOutputView, ERC20ErrorView>(e) && after == before
}

/// The checks of `transfer` made before any state access.
pub open spec fn transfer_guard(sender: Address, receiver: Address) -> Option<ERC20ErrorView> {
    if sender == zero_address() {
        Some(ERC20ErrorView::ERC20InvalidSender(zero_address()))
    } else if receiver == zero_address() {
        Some(ERC20ErrorView::ERC20InvalidReceiver(zero_address()))
    } else {
        None
    }
}

/// The checks of `approve` made before any state access.
pub open spec fn approve_guard(owner: Address, spender: Address) -> Option<ERC20ErrorView> {
    if owner == zero_address() {
        Some(ERC20ErrorView::ERC20InvalidApprover(zero_address()))
    } else if spender == zero_address() {
        Some(ERC20ErrorView::ERC20InvalidSpender(zero_address()))
    } else {
        None
    }
}

/// The checks of `mint` made before any state access.
pub open spec fn mint_guard(caller: Address, receiver: Address, amount: nat) -> Option<ERC20ErrorView> {
    if caller != minting_module_address_spec() {
        Some(ERC20ErrorView::NotWhitelisted(caller))
    } else if receiver == zero_address() {
        Some(ERC20ErrorView::ERC20InvalidReceiver(zero_address()))
    } else if amount == 0 {
        Some(ERC20ErrorView::ERC20Other(zero_amount_message(ERC20Method::Mint)))
    } else {
        None
    }
}

/// The checks of `burn` and `burnFrom` made before any state access.
pub open spec fn burn_guard(caller: Address, sender: Address, amount: nat) -> Option<ERC20ErrorView> {
    if caller != minting_module_address_spec() {
        Some(ERC20ErrorView::NotWhitelisted(caller))
    } else if sender == zero_address() {
        Some(ERC20ErrorView::ERC20InvalidSender(zero_address()))
    } else if amount == 0 {
        Some(ERC20ErrorView::ERC20Other(zero_amount_message(ERC20Method::Burn)))
    } else {
        None
    }
}

/// The checks of `receiveWithAuthorization` made before any state access:
/// the caller must be the receiver, and the time window must be open.
pub open spec fn receive_guard(caller: Address, receiver: Address, timestamp: nat, valid_after: nat, valid_before: nat) -> Option<ERC20ErrorView> {
    if caller != receiver {
        Some(ERC20ErrorView::CallerNotReceiver(caller, receiver))
    } else {
        time_window_error(timestamp, valid_after, valid_before)
    }
}

/// The ERC-20 precompile over the native coin.
#[derive(Debug, Clone)]
pub struct Erc20Precompile {
    /// Token name.
    pub name: String,
    /// Token symbol.
    pub symbol: String,
    /// Token decimals.
    pub decimals: u8,
    /// Precompile contract address.
    pub contract_address: Address,
    /// EIP-712 domain version.
    pub version: String,
    /// Chain ID for the EIP-712 domain.
    pub chain_id: u64,
    /// The EIP-712 domain separator of the token (computed once at initialization).
    pub domain_separator: U256,
}

impl Erc20Precompile {
    /// The precompile's EIP-712 domain separator is the one of its name,
    /// version, chain id and address.
    pub open spec fn has_domain(&self) -> bool {
        self.domain_separator@ == be_value(
            eip712_domain_separator_digest(
                self.name@,
                self.version@,
                self.chain_id as nat,
                be_bytes(self.contract_address@, 20),
            ),
        )
    }

    /// Create a new ERC-20 precompile instance.
    pub fn new(config: Erc20TokenConfig, contract_address: Address, chain_id: u64) -> (r: Self)
        ensures
            r.name@ == config.name@,
            r.symbol@ == config.symbol@,
            r.decimals == config.decimals,
            r.version@ == config.version@,
            r.contract_address == contract_address,
            r.chain_id == chain_id,
            r.has_domain(),
    {
        let domain_separator = eip712_domain_separator(
            config.name.as_str(),
            config.version.as_str(),
            chain_id,
            contract_address,
        );
        Erc20Precompile {
            name: config.name,
            symbol: config.symbol,
            decimals: config.decimals,
            contract_address,
            version: config.version,
            chain_id,
            domain_separator,
        }
    }

    /// Create a precompile with the default native token configuration.
    pub fn default_native(contract_address: Address, chain_id: u64) -> (r: Self)
        ensures
            r.name@ == "USD Rayls"@,
            r.symbol@ == "USDr"@,
            r.decimals == 18,
            r.version@ == "1.0.0"@,
            r.contract_address == contract_address,
            r.chain_id == chain_id,
            r.has_domain(),
    {
        Self::new(Erc20TokenConfig::default(), contract_address, chain_id)
    }

    /// Create an ERC-20 precompile instance from genesis configuration (the
    /// total supply lives in storage, not in the instance).
    pub fn from_genesis(contract_address: Address, chain_id: u64, config: Erc20TokenConfig) -> (r:
        Self)
        ensures
            r.name@ == config.name@,
            r.symbol@ == config.symbol@,
            r.decimals == config.decimals,
            r.version@ == config.version@,
            r.contract_address == contract_address,
            r.chain_id == chain_id,
            r.has_domain(),
    {
        Self::new(config, contract_address, chain_id)
    }

    /// Handle name() - returns the token name.
    pub fn handle_name(&self) -> (r: Result<PrecompileOutput, ERC20Error>)
        ensures
            output_result(r) == Ok::<PrecompileOutputView, ERC20ErrorView>(
                PrecompileOutputView {
                    gas_used: GAS_NAME,
                    bytes: abi_string(vstd::utf8::encode_utf8(self.name@)),
                },
            ),
    {
        Ok(PrecompileOutput::new(GAS_NAME, encode_string(self.name.as_str())))
    }

    /// Handle symbol() - returns the token symbol.
    pub fn handle_symbol(&self) -> (r: Result<PrecompileOutput, ERC20Error>)
        ensures
            output_result(r) == Ok::<PrecompileOutputView, ERC20ErrorView>(
                PrecompileOutputView {
                    gas_used: GAS_SYMBOL,
                    bytes: abi_string(vstd::utf8::encode_utf8(self.symbol@)),
                },
            ),
    {
        Ok(PrecompileOutput::new(GAS_SYMBOL, encode_string(self.symbol.as_str())))
    }

    /// Handle decimals() - returns the token decimals.
    pub fn handle_decimals(&self) -> (r: Result<PrecompileOutput, ERC20Error>)
        ensures
            output_result(r) == Ok::<PrecompileOutputView, ERC20ErrorView>(
                PrecompileOutputView { gas_used: GAS_DECIMALS, bytes: zeros(31).push(self.decimals) },
            ),
    {
        Ok(PrecompileOutput::new(GAS_DECIMALS, encode_uint8(self.decimals)))
    }
}

/// The debit of `sender` and the credit of `receiver` by `amount`, with the
/// touches that make them persist.
pub open spec fn transfer_balance_step(
    s: EvmStateView,
    sender: Address,
    receiver: Address,
    amount: nat,
) -> StepView {
    let balance = balance_of(s, sender);
    if balance < amount {
        StepView {
            error: Some(ERC20ErrorView::ERC20InsufficientBalance(sender, balance, amount)),
            state: s,
        }
    } else {
        let s1 = with_touch(with_balance(s, sender, (balance - amount) as nat), sender);
        let credited = balance_of(s1, receiver) + amount;
        if credited > word_max() {
            StepView {
                error: Some(
                    ERC20ErrorView::ERC20Other(
                        overflow_message(ERC20Resource::Balance, ERC20Method::Transfer),
                    ),
                ),
                state: s1,
            }
        } else {
            StepView {
                error: None,
                state: with_touch(with_balance(s1, receiver, credited), receiver),
            }
        }
    }
}

/// `transfer(receiver, amount)` called by `sender` on the precompile at `c`.
pub open spec fn transfer_outcome(
    c: Address,
    s: EvmStateView,
    sender: Address,
    receiver: Address,
    amount: nat,
) -> OutcomeView {
    if sender == zero_address() {
        fail(ERC20ErrorView::ERC20InvalidSender(zero_address()), s)
    } else if receiver == zero_address() {
        fail(ERC20ErrorView::ERC20InvalidReceiver(zero_address()), s)
    } else if amount == 0 || sender == receiver {
        succeed(GAS_TRANSFER, abi_bool(true), s)
    } else {
        let step = transfer_balance_step(s, sender, receiver, amount);
        match step.error {
            Some(e) => fail(e, step.state),
            None => succeed(
                GAS_TRANSFER,
                abi_bool(true),
                with_log(step.state, transfer_log(c, sender, receiver, amount)),
            ),
        }
    }
}

/// `approve(spender, amount)` called by `owner` on the precompile at `c`.
pub open spec fn approve_outcome(
    c: Address,
    s: EvmStateView,
    owner: Address,
    spender: Address,
    amount: nat,
) -> OutcomeView {
    if owner == zero_address() {
        fail(ERC20ErrorView::ERC20InvalidApprover(zero_address()), s)
    } else if spender == zero_address() {
        fail(ERC20ErrorView::ERC20InvalidSpender(zero_address()), s)
    } else {
        let s1 = with_touch(with_storage(s, c, allowance_slot_spec(owner@, spender@), amount), c);
        succeed(GAS_APPROVE, abi_bool(true), with_log(s1, approval_log(c, owner, spender, amount)))
    }
}

/// `totalSupply()` on the precompile at `c`.
pub open spec fn total_supply_query(c: Address, s: EvmStateView) -> OutcomeView {
    succeed(GAS_TOTAL_SUPPLY, be_bytes(storage_at(s, c, total_supply_slot_spec()), 32), s)
}

/// `balanceOf(address)`.
pub open spec fn balance_query(s: EvmStateView, address: Address) -> OutcomeView {
    succeed(GAS_BALANCE_QUERY, be_bytes(balance_of(s, address), 32), s)
}

/// `allowance(owner, spender)` on the precompile at `c`.
pub open spec fn allowance_query(c: Address, s: EvmStateView, owner: Address, spender: Address) -> OutcomeView {
    succeed(GAS_ALLOWANCE_QUERY, be_bytes(storage_at(s, c, allowance_slot_spec(owner@, spender@)), 32), s)
}

impl Erc20Precompile {
    /// The allowance that `owner` grants `spender`.
    fn get_allowance<T: StateAccessAdapter>(&self, state_access: &mut T, owner: Address, spender: Address) -> (r: Result<U256, ERC20Error>)
        ensures
            final(state_access).state() == old(state_access).state(),
            final(state_access).reliable() == old(state_access).reliable(),
            r matches Ok(v) ==> v@ == storage_at(
                old(state_access).state(),
                self.contract_address,
                allowance_slot_spec(owner@, spender@),
            ),
            old(state_access).reliable() ==> r is Ok,
            r matches Err(e) ==> access_error(e@),
    {
        let slot = allowance_slot(owner, spender);
        match state_access.perform_sload(self.contract_address, slot) {
            Ok(v) => Ok(v),
            Err(e) => Err(ERC20Error::read_error(ERC20Resource::Allowance, e)),
        }
    }

    /// The native balance of `address`.
    fn get_balance<T: StateAccessAdapter>(&self, state_access: &mut T, address: Address) -> (r: Result<U256, ERC20Error>)
        ensures
            final(state_access).state() == old(state_access).state(),
            final(state_access).reliable() == old(state_access).reliable(),
            r matches Ok(v) ==> v@ == balance_of(old(state_access).state(), address),
            old(state_access).reliable() ==> r is Ok,
            r matches Err(e) ==> access_error(e@),
    {
        match state_access.perform_get_balance(address) {
            Ok(v) => Ok(v),
            Err(e) => Err(ERC20Error::read_error(ERC20Resource::Account(address), e)),
        }
    }

    /// Sets the native balance of `address`.
    fn set_balance<T: StateAccessAdapter>(&self, state_access: &mut T, address: Address, balance: U256) -> (r: Result<(), ERC20Error>)
        ensures
            final(state_access).reliable() == old(state_access).reliable(),
            r is Ok ==> final(state_access).state() == with_balance(
                old(state_access).state(),
                address,
                balance@,
            ),
            old(state_access).reliable() ==> r is Ok,
            r matches Err(e) ==> access_error(e@),
    {
        match state_access.perform_set_balance(address, balance) {
            Ok(_) => Ok(()),
            Err(e) => Err(ERC20Error::write_error(ERC20Resource::Account(address), e)),
        }
    }

    /// The total supply.
    fn get_total_supply<T: StateAccessAdapter>(&self, state_access: &mut T) -> (r: Result<U256, ERC20Error>)
        ensures
            final(state_access).state() == old(state_access).state(),
            final(state_access).reliable() == old(state_access).reliable(),
            r matches Ok(v) ==> v@ == storage_at(
                old(state_access).state(),
                self.contract_address,
                total_supply_slot_spec(),
            ),
            old(state_access).reliable() ==> r is Ok,
            r matches Err(e) ==> access_error(e@),
    {
        let slot = total_supply_slot();
        match state_access.perform_sload(self.contract_address, slot) {
            Ok(v) => Ok(v),
            Err(e) => Err(ERC20Error::read_error(ERC20Resource::TotalSupply, e)),
        }
    }

    /// Sets the allowance that `owner` grants `spender`.
    fn set_allowance<T: StateAccessAdapter>(&self, state_access: &mut T, owner: Address, spender: Address, amount: U256) -> (r: Result<(), ERC20Error>)
        ensures
            final(state_access).reliable() == old(state_access).reliable(),
            r is Ok ==> final(state_access).state() == with_storage(
                old(state_access).state(),
                self.contract_address,
                allowance_slot_spec(owner@, spender@),
                amount@,
            ),
            old(state_access).reliable() ==> r is Ok,
            r matches Err(e) ==> access_error(e@),
    {
        let slot = allowance_slot(owner, spender);
        match state_access.perform_sstore(self.contract_address, slot, amount) {
            Ok(_) => Ok(()),
            Err(e) => Err(ERC20Error::write_error(ERC20Resource::Allowance, e)),
        }
    }

    /// Sets the total supply.
    fn set_total_supply<T: StateAccessAdapter>(&self, state_access: &mut T, amount: U256) -> (r: Result<(), ERC20Error>)
        ensures
            final(state_access).reliable() == old(state_access).reliable(),
            r is Ok ==> final(state_access).state() == with_storage(
                old(state_access).state(),
                self.contract_address,
                total_supply_slot_spec(),
                amount@,
            ),
            old(state_access).reliable() ==> r is Ok,
            r matches Err(e) ==> access_error(e@),
    {
        let slot = total_supply_slot();
        match state_access.perform_sstore(self.contract_address, slot, amount) {
            Ok(_) => Ok(()),
            Err(e) => Err(ERC20Error::write_error(ERC20Resource::TotalSupply, e)),
        }
    }

    /// Debits `sender` and credits `receiver` by `amount` (shared by transfer
    /// and transferFrom).
    fn transfer_balance<T: StateAccessAdapter>(&self, state_access: &mut T, sender: Address, receiver: Address, amount: U256) -> (r: Result<(), ERC20Error>)
        ensures
            final(state_access).reliable() == old(state_access).reliable(),
            step_realizes(
                r,
                old(state_access).reliable(),
                final(state_access).state(),
                transfer_balance_step(old(state_access).state(), sender, receiver, amount@),
            ),
    {
        let balance = match self.get_balance(state_access, sender) {
            Ok(b) => b,
            Err(e) => return Err(e),
        };
        if balance.lt(&amount) {
            return Err(ERC20Error::ERC20InsufficientBalance(sender, balance, amount));
        }
        let new_balance = match balance.checked_sub(&amount) {
            Some(b) => b,
            None => return Err(ERC20Error::overflow_error(ERC20Resource::Balance, ERC20Method::Transfer)),
        };
        match self.set_balance(state_access, sender, new_balance) {
            Ok(_) => {},
            Err(e) => return Err(e),
        }
        state_access.perform_touch_account(sender);
        let balance = match self.get_balance(state_access, receiver) {
            Ok(b) => b,
            Err(e) => return Err(e),
        };
        let new_balance = match balance.checked_add(&amount) {
            Some(b) => b,
            None => return Err(ERC20Error::overflow_error(ERC20Resource::Balance, ERC20Method::Transfer)),
        };
        match self.set_balance(state_access, receiver, new_balance) {
            Ok(_) => {},
            Err(e) => return Err(e),
        }
        state_access.perform_touch_account(receiver);
        Ok(())
    }

    /// Handle totalSupply() - returns the total supply from storage.
    pub fn handle_total_supply<T: StateAccessAdapter>(&self, state_access: &mut T) -> (r: Result<PrecompileOutput, ERC20Error>)
        ensures
            final(state_access).state() == old(state_access).state(),
            final(state_access).reliable() == old(state_access).reliable(),
            realizes(
                r,
                old(state_access).reliable(),
                final(state_access).state(),
                total_supply_query(self.contract_address, old(state_access).state()),
            ),
    {
        let total_supply = match self.get_total_supply(state_access) {
            Ok(v) => v,
            Err(e) => return Err(e),
        };
        Ok(PrecompileOutput::new(GAS_TOTAL_SUPPLY, encode_uint256(total_supply)))
    }

    /// Handle balanceOf(address) - returns the native balance of the address.
    pub fn handle_balance_of<T: StateAccessAdapter>(&self, state_access: &mut T, address: Address) -> (r: Result<PrecompileOutput, ERC20Error>)
        ensures
            final(state_access).state() == old(state_access).state(),
            final(state_access).reliable() == old(state_access).reliable(),
            realizes(
                r,
                old(state_access).reliable(),
                final(state_access).state(),
                balance_query(old(state_access).state(), address),
            ),
    {
        let balance = match self.get_balance(state_access, address) {
            Ok(v) => v,
            Err(e) => return Err(e),
        };
        Ok(PrecompileOutput::new(GAS_BALANCE_QUERY, encode_uint256(balance)))
    }

    /// Handle allowance(address,address) - returns the allowance from storage.
    pub fn handle_allowance<T: StateAccessAdapter>(&self, state_access: &mut T, owner: Address, spender: Address) -> (r: Result<PrecompileOutput, ERC20Error>)
        ensures
            final(state_access).state() == old(state_access).state(),
            final(state_access).reliable() == old(state_access).reliable(),
            realizes(
                r,
                old(state_access).reliable(),
                final(state_access).state(),
                allowance_query(self.contract_address, old(state_access).state(), owner, spender),
            ),
    {
        let allowance = match self.get_allowance(state_access, owner, spender) {
            Ok(v) => v,
            Err(e) => return Err(e),
        };
        Ok(PrecompileOutput::new(GAS_ALLOWANCE_QUERY, encode_uint256(allowance)))
    }

    /// Handle transfer(address,uint256) - transfers native balance between accounts.
    pub fn handle_transfer<T: StateAccessAdapter>(&self, state_access: &mut T, sender: Address, receiver: Address, amount: U256) -> (r: Result<PrecompileOutput, ERC20Error>)
        ensures
            final(state_access).reliable() == old(state_access).reliable(),
            realizes(
                r,
                old(state_access).reliable(),
                final(state_access).state(),
                transfer_outcome(self.contract_address, old(state_access).state(), sender, receiver, amount@),
            ),
            refused_before_access(r, old(state_access).state(), final(state_access).state(), transfer_guard(sender, receiver)),
    {
        if sender.is_zero() {
            return Err(ERC20Error::ERC20InvalidSender(Address::zero()));
        }
        if receiver.is_zero() {
            return Err(ERC20Error::ERC20InvalidReceiver(Address::zero()));
        }
        if amount.is_zero() || sender == receiver {
            return Ok(PrecompileOutput::new(GAS_TRANSFER, encode_bool(true)));
        }
        match self.transfer_balance(state_access, sender, receiver, amount) {
            Ok(_) => {},
            Err(e) => return Err(e),
        }
        let event = encode_transfer_event(self.contract_address, sender, receiver, amount);
        state_access.perform_log(event);
        Ok(PrecompileOutput::new(GAS_TRANSFER, encode_bool(true)))
    }

    /// Handle approve(address,uint256) - sets the allowance in storage.
    pub fn handle_approve<T: StateAccessAdapter>(&self, state_access: &mut T, owner: Address, spender: Address, amount: U256) -> (r: Result<PrecompileOutput, ERC20Error>)
        ensures
            final(state_access).reliable() == old(state_access).reliable(),
            realizes(
                r,
                old(state_access).reliable(),
                final(state_access).state(),
                approve_outcome(self.contract_address, old(state_access).state(), owner, spender, amount@),
            ),
            refused_before_access(r, old(state_access).state(), final(state_access).state(), approve_guard(owner, spender)),
    {
        if owner.is_zero() {
            return Err(ERC20Error::ERC20InvalidApprover(Address::zero()));
        }
        if spender.is_zero() {
            return Err(ERC20Error::ERC20InvalidSpender(Address::zero()));
        }
        match self.set_allowance(state_access, owner, spender, amount) {
            Ok(_) => {},
            Err(e) => return Err(e),
        }
        state_access.perform_touch_account(self.contract_address);
        let event = encode_approval_event(self.contract_address, owner, spender, amount);
        state_access.perform_log(event);
        Ok(PrecompileOutput::new(GAS_APPROVE, encode_bool(true)))
    }
}

/// Sets the allowance of `(owner, spender)` to `allowance - amount` unless
/// `allowance` is unlimited (the largest word).
pub open spec fn spend_allowance(
    c: Address,
    s: EvmStateView,
    owner: Address,
    spender: Address,
    allowance: nat,
    amount: nat,
) -> EvmStateView {
    if allowance == word_max() {
        s
    } else {
        with_touch(
            with_storage(s, c, allowance_slot_spec(owner@, spender@), (allowance - amount) as nat),
            c,
        )
    }
}

/// `transferFrom(sender, receiver, amount)` called by `spender` on the precompile at `c`.
pub open spec fn transfer_from_outcome(
    c: Address,
    s: EvmStateView,
    spender: Address,
    sender: Address,
    receiver: Address,
    amount: nat,
) -> OutcomeView {
    let allowance = storage_at(s, c, allowance_slot_spec(sender@, spender@));
    if sender == zero_address() {
        fail(ERC20ErrorView::ERC20InvalidSender(zero_address()), s)
    } else if receiver == zero_address() {
        fail(ERC20ErrorView::ERC20InvalidReceiver(zero_address()), s)
    } else if amount == 0 {
        succeed(GAS_TRANSFER_FROM, abi_bool(true), s)
    } else if allowance != word_max() && allowance < amount {
        fail(ERC20ErrorView::ERC20InsufficientAllowance(spender, allowance, amount), s)
    } else if sender == receiver {
        let s1 = spend_allowance(c, s, sender, spender, allowance, amount);
        succeed(
            GAS_TRANSFER_FROM,
            abi_bool(true),
            with_log(s1, transfer_log(c, sender, receiver, amount)),
        )
    } else {
        let step = transfer_balance_step(s, sender, receiver, amount);
        match step.error {
            Some(e) => fail(e, step.state),
            None => {
                let s1 = spend_allowance(c, step.state, sender, spender, allowance, amount);
                succeed(
                    GAS_TRANSFER_FROM,
                    abi_bool(true),
                    with_log(s1, transfer_log(c, sender, receiver, amount)),
                )
            },
        }
    }
}

/// `mint(receiver, amount)` called by `caller` on the precompile at `c`.
pub open spec fn mint_outcome(
    c: Address,
    s: EvmStateView,
    caller: Address,
    receiver: Address,
    amount: nat,
) -> OutcomeView {
    let supply = storage_at(s, c, total_supply_slot_spec());
    if caller != minting_module_address_spec() {
        fail(ERC20ErrorView::NotWhitelisted(caller), s)
    } else if receiver == zero_address() {
        fail(ERC20ErrorView::ERC20InvalidReceiver(zero_address()), s)
    } else if amount == 0 {
        fail(ERC20ErrorView::ERC20Other(zero_amount_message(ERC20Method::Mint)), s)
    } else if supply + amount > word_max() {
        fail(
            ERC20ErrorView::ERC20Other(overflow_message(ERC20Resource::TotalSupply, ERC20Method::Mint)),
            s,
        )
    } else {
        let s1 = with_touch(with_storage(s, c, total_supply_slot_spec(), supply + amount), c);
        let credited = balance_of(s1, receiver) + amount;
        if credited > word_max() {
            fail(
                ERC20ErrorView::ERC20Other(overflow_message(ERC20Resource::Balance, ERC20Method::Mint)),
                s1,
            )
        } else {
            let s2 = with_touch(with_balance(s1, receiver, credited), receiver);
            let s3 = with_log(
                with_log(s2, mint_log(c, receiver, amount)),
                transfer_log(c, zero_address(), receiver, amount),
            );
            succeed(GAS_MINT, abi_bool(true), s3)
        }
    }
}

/// Burns `amount` from `account`, whose balance was `balance`: lowers the
/// supply, then the balance, each with its touch. `None` when the supply is
/// below `amount`.
pub open spec fn burn_supply_and_balance(
    c: Address,
    s: EvmStateView,
    account: Address,
    balance: nat,
    amount: nat,
) -> Option<EvmStateView> {
    let supply = storage_at(s, c, total_supply_slot_spec());
    if supply < amount {
        None
    } else {
        let s1 = with_touch(with_storage(s, c, total_supply_slot_spec(), (supply - amount) as nat), c);
        Some(with_touch(with_balance(s1, account, (balance - amount) as nat), account))
    }
}

/// The two logs of a burn of `amount` from `account`.
pub open spec fn burn_logs(c: Address, s: EvmStateView, account: Address, amount: nat) -> EvmStateView {
    with_log(with_log(s, burn_log(c, account, amount)), transfer_log(c, account, zero_address(), amount))
}

/// `burn(amount)` called by `caller` on the precompile at `c`.
pub open spec fn burn_outcome(c: Address, s: EvmStateView, caller: Address, amount: nat) -> OutcomeView {
    let balance = balance_of(s, caller);
    if caller != minting_module_address_spec() {
        fail(ERC20ErrorView::NotWhitelisted(caller), s)
    } else if caller == zero_address() {
        fail(ERC20ErrorView::ERC20InvalidSender(zero_address()), s)
    } else if amount == 0 {
        fail(ERC20ErrorView::ERC20Other(zero_amount_message(ERC20Method::Burn)), s)
    } else if balance < amount {
        fail(ERC20ErrorView::ERC20InsufficientBalance(caller, balance, amount), s)
    } else {
        match burn_supply_and_balance(c, s, caller, balance, amount) {
            None => fail(
                ERC20ErrorView::ERC20Other(overflow_message(ERC20Resource::TotalSupply, ERC20Method::Burn)),
                s,
            ),
            Some(s1) => succeed(GAS_BURN, abi_bool(true), burn_logs(c, s1, caller, amount)),
        }
    }
}

/// `burnFrom(account, amount)` called by `caller` on the precompile at `c`.
pub open spec fn burn_from_outcome(
    c: Address,
    s: EvmStateView,
    caller: Address,
    account: Address,
    amount: nat,
) -> OutcomeView {
    let allowance = storage_at(s, c, allowance_slot_spec(account@, caller@));
    let balance = balance_of(s, account);
    if caller != minting_module_address_spec() {
        fail(ERC20ErrorView::NotWhitelisted(caller), s)
    } else if account == zero_address() {
        fail(ERC20ErrorView::ERC20InvalidSender(zero_address()), s)
    } else if amount == 0 {
        fail(ERC20ErrorView::ERC20Other(zero_amount_message(ERC20Method::Burn)), s)
    } else if allowance != word_max() && allowance < amount {
        fail(ERC20ErrorView::ERC20InsufficientAllowance(caller, allowance, amount), s)
    } else if balance < amount {
        fail(ERC20ErrorView::ERC20InsufficientBalance(account, balance, amount), s)
    } else {
        match burn_supply_and_balance(c, s, account, balance, amount) {
            None => fail(
                ERC20ErrorView::ERC20Other(overflow_message(ERC20Resource::TotalSupply, ERC20Method::Burn)),
                s,
            ),
            Some(s1) => {
                let s2 = spend_allowance(c, s1, account, caller, allowance, amount);
                succeed(GAS_BURN, abi_bool(true), burn_logs(c, s2, account, amount))
            },
        }
    }
}

impl Erc20Precompile {
    /// Lowers the allowance of `(owner, spender)` from `allowance` by `amount`,
    /// unless it is unlimited.
    fn spend<T: StateAccessAdapter>(&self, state_access: &mut T, owner: Address, spender: Address, allowance: U256, amount: U256, method: ERC20Method) -> (r: Result<(), ERC20Error>)
        requires
            amount@ <= allowance@,
        ensures
            final(state_access).reliable() == old(state_access).reliable(),
            step_realizes(
                r,
                old(state_access).reliable(),
                final(state_access).state(),
                StepView {
                    error: None,
                    state: spend_allowance(self.contract_address, old(state_access).state(), owner, spender, allowance@, amount@),
                },
            ),
    {
        if allowance.eq_word(&U256::max_value()) {
            return Ok(());
        }
        let new_allowance = match allowance.checked_sub(&amount) {
            Some(v) => v,
            None => return Err(ERC20Error::overflow_error(ERC20Resource::Allowance, method)),
        };
        match self.set_allowance(state_access, owner, spender, new_allowance) {
            Ok(_) => {},
            Err(e) => return Err(e),
        }
        state_access.perform_touch_account(self.contract_address);
        Ok(())
    }

    /// Handle transferFrom(address,address,uint256) - transfers with allowance check.
    pub fn handle_transfer_from<T: StateAccessAdapter>(&self, state_access: &mut T, spender: Address, sender: Address, receiver: Address, amount: U256) -> (r: Result<PrecompileOutput, ERC20Error>)
        ensures
            final(state_access).reliable() == old(state_access).reliable(),
            realizes(
                r,
                old(state_access).reliable(),
                final(state_access).state(),
                transfer_from_outcome(self.contract_address, old(state_access).state(), spender, sender, receiver, amount@),
            ),
            refused_before_access(r, old(state_access).state(), final(state_access).state(), transfer_guard(sender, receiver)),
    {
        if sender.is_zero() {
            return Err(ERC20Error::ERC20InvalidSender(Address::zero()));
        }
        if receiver.is_zero() {
            return Err(ERC20Error::ERC20InvalidReceiver(Address::zero()));
        }
        if amount.is_zero() {
            return Ok(PrecompileOutput::new(GAS_TRANSFER_FROM, encode_bool(true)));
        }
        let allowance = match self.get_allowance(state_access, sender, spender) {
            Ok(v) => v,
            Err(e) => return Err(e),
        };
        let is_unlimited = allowance.eq_word(&U256::max_value());
        if !is_unlimited && allowance.lt(&amount) {
            return Err(ERC20Error::ERC20InsufficientAllowance(spender, allowance, amount));
        }
        if sender == receiver {
            match self.spend(state_access, sender, spender, allowance, amount, ERC20Method::Transfer) {
                Ok(_) => {},
                Err(e) => return Err(e),
            }
            let event = encode_transfer_event(self.contract_address, sender, receiver, amount);
            state_access.perform_log(event);
            return Ok(PrecompileOutput::new(GAS_TRANSFER_FROM, encode_bool(true)));
        }
        match self.transfer_balance(state_access, sender, receiver, amount) {
            Ok(_) => {},
            Err(e) => return Err(e),
        }
        match self.spend(state_access, sender, spender, allowance, amount, ERC20Method::Transfer) {
            Ok(_) => {},
            Err(e) => return Err(e),
        }
        let event = encode_transfer_event(self.contract_address, sender, receiver, amount);
        state_access.perform_log(event);
        Ok(PrecompileOutput::new(GAS_TRANSFER_FROM, encode_bool(true)))
    }

    /// Handle mint(address,uint256) - mints new tokens (access controlled).
    pub fn handle_mint<T: StateAccessAdapter>(&self, state_access: &mut T, caller: Address, receiver: Address, amount: U256) -> (r: Result<PrecompileOutput, ERC20Error>)
        ensures
            final(state_access).reliable() == old(state_access).reliable(),
            realizes(
                r,
                old(state_access).reliable(),
                final(state_access).state(),
                mint_outcome(self.contract_address, old(state_access).state(), caller, receiver, amount@),
            ),
            refused_before_access(r, old(state_access).state(), final(state_access).state(), mint_guard(caller, receiver, amount@)),
    {
        if caller != minting_module_address() {
            return Err(ERC20Error::NotWhitelisted(caller));
        }
        if receiver.is_zero() {
            return Err(ERC20Error::ERC20InvalidReceiver(Address::zero()));
        }
        if amount.is_zero() {
            return Err(ERC20Error::zero_amount_error(ERC20Method::Mint));
        }
        let supply = match self.get_total_supply(state_access) {
            Ok(v) => v,
            Err(e) => return Err(e),
        };
        let new_supply = match supply.checked_add(&amount) {
            Some(v) => v,
            None => return Err(ERC20Error::overflow_error(ERC20Resource::TotalSupply, ERC20Method::Mint)),
        };
        match self.set_total_supply(state_access, new_supply) {
            Ok(_) => {},
            Err(e) => return Err(e),
        }
        state_access.perform_touch_account(self.contract_address);
        let balance = match self.get_balance(state_access, receiver) {
            Ok(v) => v,
            Err(e) => return Err(e),
        };
        let new_balance = match balance.checked_add(&amount) {
            Some(v) => v,
            None => return Err(ERC20Error::overflow_error(ERC20Resource::Balance, ERC20Method::Mint)),
        };
        match self.set_balance(state_access, receiver, new_balance) {
            Ok(_) => {},
            Err(e) => return Err(e),
        }
        state_access.perform_touch_account(receiver);
        let event = encode_mint_event(self.contract_address, receiver, amount);
        state_access.perform_log(event);
        let event = encode_transfer_event(self.contract_address, Address::zero(), receiver, amount);
        state_access.perform_log(event);
        Ok(PrecompileOutput::new(GAS_MINT, encode_bool(true)))
    }

    /// Lowers the supply, then the balance of `account` (read before as
    /// `balance`), by `amount`.
    fn burn_tokens<T: StateAccessAdapter>(&self, state_access: &mut T, account: Address, balance: U256, amount: U256) -> (r: Result<(), ERC20Error>)
        requires
            amount@ <= balance@,
        ensures
            final(state_access).reliable() == old(state_access).reliable(),
            step_realizes(
                r,
                old(state_access).reliable(),
                final(state_access).state(),
                match burn_supply_and_balance(self.contract_address, old(state_access).state(), account, balance@, amount@) {
                    None => StepView {
                        error: Some(ERC20ErrorView::ERC20Other(overflow_message(ERC20Resource::TotalSupply, ERC20Method::Burn))),
                        state: old(state_access).state(),
                    },
                    Some(s1) => StepView { error: None, state: s1 },
                },
            ),
    {
        let supply = match self.get_total_supply(state_access) {
            Ok(v) => v,
            Err(e) => return Err(e),
        };
        let new_supply = match supply.checked_sub(&amount) {
            Some(v) => v,
            None => return Err(ERC20Error::overflow_error(ERC20Resource::TotalSupply, ERC20Method::Burn)),
        };
        match self.set_total_supply(state_access, new_supply) {
            Ok(_) => {},
            Err(e) => return Err(e),
        }
        state_access.perform_touch_account(self.contract_address);
        let new_balance = match balance.checked_sub(&amount) {
            Some(v) => v,
            None => return Err(ERC20Error::overflow_error(ERC20Resource::Balance, ERC20Method::Burn)),
        };
        match self.set_balance(state_access, account, new_balance) {
            Ok(_) => {},
            Err(e) => return Err(e),
        }
        state_access.perform_touch_account(account);
        Ok(())
    }

    /// Handle burn(uint256) - burns tokens from the caller's balance (access controlled).
    pub fn handle_burn<T: StateAccessAdapter>(&self, state_access: &mut T, caller: Address, amount: U256) -> (r: Result<PrecompileOutput, ERC20Error>)
        ensures
            final(state_access).reliable() == old(state_access).reliable(),
            realizes(
                r,
                old(state_access).reliable(),
                final(state_access).state(),
                burn_outcome(self.contract_address, old(state_access).state(), caller, amount@),
            ),
            refused_before_access(r, old(state_access).state(), final(state_access).state(), burn_guard(caller, caller, amount@)),
    {
        if caller != minting_module_address() {
            return Err(ERC20Error::NotWhitelisted(caller));
        }
        let sender = caller;
        if sender.is_zero() {
            return Err(ERC20Error::ERC20InvalidSender(Address::zero()));
        }
        if amount.is_zero() {
            return Err(ERC20Error::zero_amount_error(ERC20Method::Burn));
        }
        let balance = match self.get_balance(state_access, sender) {
            Ok(v) => v,
            Err(e) => return Err(e),
        };
        if balance.lt(&amount) {
            return Err(ERC20Error::ERC20InsufficientBalance(sender, balance, amount));
        }
        match self.burn_tokens(state_access, sender, balance, amount) {
            Ok(_) => {},
            Err(e) => return Err(e),
        }
        let event = encode_burn_event(self.contract_address, sender, amount);
        state_access.perform_log(event);
        let event = encode_transfer_event(self.contract_address, sender, Address::zero(), amount);
        state_access.perform_log(event);
        Ok(PrecompileOutput::new(GAS_BURN, encode_bool(true)))
    }

    /// Handle burnFrom(address,uint256) - burns from another account with
    /// allowance (access controlled).
    pub fn handle_burn_from<T: StateAccessAdapter>(&self, state_access: &mut T, caller: Address, sender: Address, amount: U256) -> (r: Result<PrecompileOutput, ERC20Error>)
        ensures
            final(state_access).reliable() == old(state_access).reliable(),
            realizes(
                r,
                old(state_access).reliable(),
                final(state_access).state(),
                burn_from_outcome(self.contract_address, old(state_access).state(), caller, sender, amount@),
            ),
            refused_before_access(r, old(state_access).state(), final(state_access).state(), burn_guard(caller, sender, amount@)),
    {
        if caller != minting_module_address() {
            return Err(ERC20Error::NotWhitelisted(caller));
        }
        if sender.is_zero() {
            return Err(ERC20Error::ERC20InvalidSender(Address::zero()));
        }
        if amount.is_zero() {
            return Err(ERC20Error::zero_amount_error(ERC20Method::Burn));
        }
        let allowance = match self.get_allowance(state_access, sender, caller) {
            Ok(v) => v,
            Err(e) => return Err(e),
        };
        let is_unlimited = allowance.eq_word(&U256::max_value());
        if !is_unlimited && allowance.lt(&amount) {
            return Err(ERC20Error::ERC20InsufficientAllowance(caller, allowance, amount));
        }
        let balance = match self.get_balance(state_access, sender) {
            Ok(v) => v,
            Err(e) => return Err(e),
        };
        if balance.lt(&amount) {
            return Err(ERC20Error::ERC20InsufficientBalance(sender, balance, amount));
        }
        match self.burn_tokens(state_access, sender, balance, amount) {
            Ok(_) => {},
            Err(e) => return Err(e),
        }
        match self.spend(state_access, sender, caller, allowance, amount, ERC20Method::Burn) {
            Ok(_) => {},
            Err(e) => return Err(e),
        }
        let event = encode_burn_event(self.contract_address, sender, amount);
        state_access.perform_log(event);
        let event = encode_transfer_event(self.contract_address, sender, Address::zero(), amount);
        state_access.perform_log(event);
        Ok(PrecompileOutput::new(GAS_BURN, encode_bool(true)))
    }
}

/// True if `authorizer` has used or canceled `nonce` on the precompile at `c`.
pub open spec fn nonce_used(c: Address, s: EvmStateView, authorizer: Address, nonce: nat) -> bool {
    storage_at(s, c, authorization_nonce_slot_spec(authorizer@, nonce)) != 0
}

/// `s` with `nonce` of `authorizer` marked used on the precompile at `c`.
pub open spec fn with_nonce_used(c: Address, s: EvmStateView, authorizer: Address, nonce: nat) -> EvmStateView {
    with_touch(with_storage(s, c, authorization_nonce_slot_spec(authorizer@, nonce), 1), c)
}

/// The checks of an authorization's time window against the block
/// timestamp: the error, if any. As EIP-3009 requires, the authorization is
/// valid strictly after `valid_after` and strictly before `valid_before`.
pub open spec fn time_window_error(timestamp: nat, valid_after: nat, valid_before: nat) -> Option<
    ERC20ErrorView,
> {
    if timestamp <= valid_after {
        Some(ERC20ErrorView::AuthorizationNotYetValid(valid_after, timestamp))
    } else if timestamp >= valid_before {
        Some(ERC20ErrorView::AuthorizationExpired(valid_before, timestamp))
    } else {
        None
    }
}

/// The error of the time-window and nonce checks of an authorization, if
/// any.
pub open spec fn authorization_check_error(c: Address, s: EvmStateView, sender: Address, valid_after: nat, valid_before: nat, nonce: nat) -> Option<ERC20ErrorView> {
    match time_window_error(s.timestamp, valid_after, valid_before) {
        Some(e) => Some(e),
        None => if nonce_used(c, s, sender, nonce) {
            Some(ERC20ErrorView::AuthorizationAlreadyUsed(nonce))
        } else {
            None
        },
    }
}

/// A transfer authorized by `sender`, once the signature has been recovered
/// as `signer`: the check of the signer, the nonce marked used, the transfer
/// and its `AuthorizationUsed` log, with the given gas.
pub open spec fn authorized_transfer_outcome(
    c: Address,
    s: EvmStateView,
    sender: Address,
    receiver: Address,
    amount: nat,
    nonce: nat,
    signer: Result<Address, ERC20ErrorView>,
    gas_used: u64,
) -> OutcomeView {
    match signer {
        Err(e) => fail(e, s),
        Ok(a) => if a != sender {
            fail(ERC20ErrorView::InvalidAuthorizer(sender, a), s)
        } else {
            let s1 = with_nonce_used(c, s, sender, nonce);
            let t = transfer_outcome(c, s1, sender, receiver, amount);
            match t.result {
                Err(e) => fail(e, t.state),
                Ok(o) => succeed(gas_used, o.bytes, with_log(t.state, authorization_used_log(c, sender, nonce))),
            }
        },
    }
}

/// The signer of a transfer authorization under the domain `domain`.
pub open spec fn transfer_signer(
    domain: nat,
    sender: Address,
    receiver: Address,
    amount: nat,
    valid_after: nat,
    valid_before: nat,
    nonce: nat,
    v: u8,
    r: nat,
    s: nat,
) -> Result<Address, ERC20ErrorView> {
    recover_signer_spec(
        eip712_signing_hash(
            domain,
            transfer_authorization_hash(sender, receiver, amount, valid_after, valid_before, nonce),
        ),
        v,
        r,
        s,
    )
}

/// `transferWithAuthorization(...)` on the precompile at `c` whose domain
/// separator is `domain`, with the given gas.
pub open spec fn transfer_with_authorization_outcome(
    c: Address,
    domain: nat,
    s: EvmStateView,
    sender: Address,
    receiver: Address,
    amount: nat,
    valid_after: nat,
    valid_before: nat,
    nonce: nat,
    v: u8,
    r: nat,
    sig_s: nat,
    gas_used: u64,
) -> OutcomeView {
    match time_window_error(s.timestamp, valid_after, valid_before) {
        Some(e) => fail(e, s),
        None => if nonce_used(c, s, sender, nonce) {
            fail(ERC20ErrorView::AuthorizationAlreadyUsed(nonce), s)
        } else {
            authorized_transfer_outcome(
                c,
                s,
                sender,
                receiver,
                amount,
                nonce,
                transfer_signer(domain, sender, receiver, amount, valid_after, valid_before, nonce, v, r, sig_s),
                gas_used,
            )
        },
    }
}

/// A cancellation by `authorizer`, once the signature has been recovered as
/// `signer`.
pub open spec fn authorized_cancel_outcome(
    c: Address,
    s: EvmStateView,
    authorizer: Address,
    nonce: nat,
    signer: Result<Address, ERC20ErrorView>,
) -> OutcomeView {
    match signer {
        Err(e) => fail(e, s),
        Ok(a) => if a != authorizer {
            fail(ERC20ErrorView::InvalidAuthorizer(authorizer, a), s)
        } else {
            let s1 = with_nonce_used(c, s, authorizer, nonce);
            succeed(
                GAS_CANCEL_AUTHORIZATION,
                abi_bool(true),
                with_log(s1, authorization_canceled_log(c, authorizer, nonce)),
            )
        },
    }
}

/// `cancelAuthorization(authorizer, nonce, v, r, s)` on the precompile at
/// `c` whose domain separator is `domain`.
pub open spec fn cancel_authorization_outcome(
    c: Address,
    domain: nat,
    s: EvmStateView,
    authorizer: Address,
    nonce: nat,
    v: u8,
    r: nat,
    sig_s: nat,
) -> OutcomeView {
    if nonce_used(c, s, authorizer, nonce) {
        fail(ERC20ErrorView::AuthorizationAlreadyUsed(nonce), s)
    } else {
        authorized_cancel_outcome(
            c,
            s,
            authorizer,
            nonce,
            recover_signer_spec(
                eip712_signing_hash(domain, cancel_authorization_hash(authorizer, nonce)),
                v,
                r,
                sig_s,
            ),
        )
    }
}

/// The mathematical content of a recovered signer.
pub open spec fn signer_view(r: Result<Address, ERC20Error>) -> Result<Address, ERC20ErrorView> {
    match r {
        Ok(a) => Ok(a),
        Err(e) => Err(e@),
    }
}

impl Erc20Precompile {
    /// Check if an authorization nonce has been used.
    pub fn is_authorization_nonce_used<T: StateAccessAdapter>(&self, state_access: &mut T, authorizer: Address, nonce: U256) -> (r: Result<bool, ERC20Error>)
        ensures
            final(state_access).state() == old(state_access).state(),
            final(state_access).reliable() == old(state_access).reliable(),
            r matches Ok(b) ==> b == nonce_used(self.contract_address, old(state_access).state(), authorizer, nonce@),
            old(state_access).reliable() ==> r is Ok,
            r matches Err(e) ==> access_error(e@),
    {
        let slot = authorization_nonce_slot(authorizer, nonce);
        match state_access.perform_sload(self.contract_address, slot) {
            Ok(v) => Ok(!v.is_zero()),
            Err(e) => Err(ERC20Error::read_error(ERC20Resource::Nonce, e)),
        }
    }

    /// Mark an authorization nonce as used.
    pub fn mark_nonce_used<T: StateAccessAdapter>(&self, state_access: &mut T, authorizer: Address, nonce: U256) -> (r: Result<(), ERC20Error>)
        ensures
            final(state_access).reliable() == old(state_access).reliable(),
            step_realizes(
                r,
                old(state_access).reliable(),
                final(state_access).state(),
                StepView {
                    error: None,
                    state: with_nonce_used(self.contract_address, old(state_access).state(), authorizer, nonce@),
                },
            ),
    {
        let slot = authorization_nonce_slot(authorizer, nonce);
        match state_access.perform_sstore(self.contract_address, slot, U256::one()) {
            Ok(_) => {},
            Err(e) => return Err(ERC20Error::write_error(ERC20Resource::Nonce, e)),
        }
        state_access.perform_touch_account(self.contract_address);
        Ok(())
    }

    /// Completes an authorized transfer once the authorization's signer has
    /// been recovered (or its recovery failed): checks that `sender` signed
    /// it, marks the nonce used, transfers and logs `AuthorizationUsed`.
    pub fn complete_authorized_transfer<T: StateAccessAdapter>(&self, state_access: &mut T, sender: Address, receiver: Address, amount: U256, nonce: U256, signer: Result<Address, ERC20Error>, gas_used: u64) -> (r: Result<PrecompileOutput, ERC20Error>)
        ensures
            final(state_access).reliable() == old(state_access).reliable(),
            realizes(
                r,
                old(state_access).reliable(),
                final(state_access).state(),
                authorized_transfer_outcome(self.contract_address, old(state_access).state(), sender, receiver, amount@, nonce@, signer_view(signer), gas_used),
            ),
    {
        let signer = match signer {
            Ok(a) => a,
            Err(e) => return Err(e),
        };
        if signer != sender {
            return Err(ERC20Error::InvalidAuthorizer(sender, signer));
        }
        match self.mark_nonce_used(state_access, sender, nonce) {
            Ok(_) => {},
            Err(e) => return Err(e),
        }
        let transfer_result = match self.handle_transfer(state_access, sender, receiver, amount) {
            Ok(o) => o,
            Err(e) => return Err(e),
        };
        let event = encode_authorization_used_event(self.contract_address, sender, nonce);
        state_access.perform_log(event);
        Ok(PrecompileOutput { gas_used, bytes: transfer_result.bytes })
    }

    /// The time-window and nonce checks that precede the recovery of a
    /// transfer authorization's signer.
    fn check_transfer_authorization<T: StateAccessAdapter>(&self, state_access: &mut T, sender: Address, valid_after: U256, valid_before: U256, nonce: U256) -> (r: Result<(), ERC20Error>)
        ensures
            final(state_access).state() == old(state_access).state(),
            final(state_access).reliable() == old(state_access).reliable(),
            (old(state_access).reliable() || r is Ok) ==> step_error(r) == authorization_check_error(self.contract_address, old(state_access).state(), sender, valid_after@, valid_before@, nonce@),
            r matches Err(e) ==> step_error(r) == authorization_check_error(self.contract_address, old(state_access).state(), sender, valid_after@, valid_before@, nonce@)
                || access_error(e@),
            time_window_error(old(state_access).state().timestamp, valid_after@, valid_before@) matches Some(e)
                ==> step_error(r) == Some(e),
    {
        let now = state_access.get_block_timestamp();
        if now.le(&valid_after) {
            return Err(ERC20Error::AuthorizationNotYetValid(valid_after, now));
        }
        if valid_before.le(&now) {
            return Err(ERC20Error::AuthorizationExpired(valid_before, now));
        }
        match self.is_authorization_nonce_used(state_access, sender, nonce) {
            Ok(true) => Err(ERC20Error::AuthorizationAlreadyUsed(nonce)),
            Ok(false) => Ok(()),
            Err(e) => Err(e),
        }
    }

    /// Handle transferWithAuthorization - EIP-3009 meta-transaction. Anyone
    /// may submit an authorization signed by `sender`.
    pub fn handle_transfer_with_authorization<T: StateAccessAdapter>(&self, state_access: &mut T, sender: Address, receiver: Address, amount: U256, valid_after: U256, valid_before: U256, nonce: U256, v: u8, r: U256, s: U256) -> (res: Result<PrecompileOutput, ERC20Error>)
        ensures
            final(state_access).reliable() == old(state_access).reliable(),
            realizes(
                res,
                old(state_access).reliable(),
                final(state_access).state(),
                transfer_with_authorization_outcome(self.contract_address, self.domain_separator@, old(state_access).state(), sender, receiver, amount@, valid_after@, valid_before@, nonce@, v, r@, s@, GAS_TRANSFER_WITH_AUTHORIZATION),
            ),
            refused_before_access(res, old(state_access).state(), final(state_access).state(), time_window_error(old(state_access).state().timestamp, valid_after@, valid_before@)),
    {
        match self.check_transfer_authorization(state_access, sender, valid_after, valid_before, nonce) {
            Ok(_) => {},
            Err(e) => return Err(e),
        }
        let signer = verify_transfer_authorization(self.domain_separator, sender, receiver, amount, valid_after, valid_before, nonce, v, r, s);
        self.complete_authorized_transfer(state_access, sender, receiver, amount, nonce, signer, GAS_TRANSFER_WITH_AUTHORIZATION)
    }

    /// Handle receiveWithAuthorization - EIP-3009 receiver-initiated transfer:
    /// only `receiver` may submit it.
    pub fn handle_receive_with_authorization<T: StateAccessAdapter>(&self, state_access: &mut T, caller: Address, sender: Address, receiver: Address, amount: U256, valid_after: U256, valid_before: U256, nonce: U256, v: u8, r: U256, s: U256) -> (res: Result<PrecompileOutput, ERC20Error>)
        ensures
            final(state_access).reliable() == old(state_access).reliable(),
            realizes(
                res,
                old(state_access).reliable(),
                final(state_access).state(),
                if caller != receiver {
                    fail(ERC20ErrorView::CallerNotReceiver(caller, receiver), old(state_access).state())
                } else {
                    transfer_with_authorization_outcome(self.contract_address, self.domain_separator@, old(state_access).state(), sender, receiver, amount@, valid_after@, valid_before@, nonce@, v, r@, s@, GAS_RECEIVE_WITH_AUTHORIZATION)
                },
            ),
            refused_before_access(res, old(state_access).state(), final(state_access).state(), receive_guard(caller, receiver, old(state_access).state().timestamp, valid_after@, valid_before@)),
    {
        if caller != receiver {
            return Err(ERC20Error::CallerNotReceiver(caller, receiver));
        }
        match self.check_transfer_authorization(state_access, sender, valid_after, valid_before, nonce) {
            Ok(_) => {},
            Err(e) => return Err(e),
        }
        let signer = verify_transfer_authorization(self.domain_separator, sender, receiver, amount, valid_after, valid_before, nonce, v, r, s);
        self.complete_authorized_transfer(state_access, sender, receiver, amount, nonce, signer, GAS_RECEIVE_WITH_AUTHORIZATION)
    }

    /// Completes a cancellation once its signer has been recovered (or its
    /// recovery failed): checks that `authorizer` signed it, marks the nonce
    /// used and logs `AuthorizationCanceled`.
    pub fn complete_cancel_authorization<T: StateAccessAdapter>(&self, state_access: &mut T, authorizer: Address, nonce: U256, signer: Result<Address, ERC20Error>) -> (r: Result<PrecompileOutput, ERC20Error>)
        ensures
            final(state_access).reliable() == old(state_access).reliable(),
            realizes(
                r,
                old(state_access).reliable(),
                final(state_access).state(),
                authorized_cancel_outcome(self.contract_address, old(state_access).state(), authorizer, nonce@, signer_view(signer)),
            ),
    {
        let signer = match signer {
            Ok(a) => a,
            Err(e) => return Err(e),
        };
        if signer != authorizer {
            return Err(ERC20Error::InvalidAuthorizer(authorizer, signer));
        }
        match self.mark_nonce_used(state_access, authorizer, nonce) {
            Ok(_) => {},
            Err(e) => return Err(e),
        }
        let event = encode_authorization_canceled_event(self.contract_address, authorizer, nonce);
        state_access.perform_log(event);
        Ok(PrecompileOutput::new(GAS_CANCEL_AUTHORIZATION, encode_bool(true)))
    }

    /// Handle cancelAuthorization - EIP-3009 authorization cancellation. Only
    /// the authorizer's signature is checked, not the caller.
    pub fn handle_cancel_authorization<T: StateAccessAdapter>(&self, state_access: &mut T, authorizer: Address, nonce: U256, v: u8, r: U256, s: U256) -> (res: Result<PrecompileOutput, ERC20Error>)
        ensures
            final(state_access).reliable() == old(state_access).reliable(),
            realizes(
                res,
                old(state_access).reliable(),
                final(state_access).state(),
                cancel_authorization_outcome(self.contract_address, self.domain_separator@, old(state_access).state(), authorizer, nonce@, v, r@, s@),
            ),
    {
        match self.is_authorization_nonce_used(state_access, authorizer, nonce) {
            Ok(true) => return Err(ERC20Error::AuthorizationAlreadyUsed(nonce)),
            Ok(false) => {},
            Err(e) => return Err(e),
        }
        let signer = verify_cancel_authorization(self.domain_separator, authorizer, nonce, v, r, s);
        self.complete_cancel_authorization(state_access, authorizer, nonce, signer)
    }
}

} // verus!
