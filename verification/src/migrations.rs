//! Hardfork migrations: the account changes each hardfork applies at its
//! activation block.
//!
//! A migration is a map from addresses to [`MigrationAccount`]s: the code
//! installed (with its hash), the storage slots written (each with its value
//! before and after), and the touch that makes the change persist.

use crate::address::Address;
use crate::hash::{keccak256_to_word, keccak256_word};
use crate::keyed::{AddressMap, SlotMap};
use crate::precompile::{erc20_precompile_address, erc20_precompile_address_spec};
use crate::storage::{total_supply_slot, total_supply_slot_spec};
use crate::system_contracts::{
    erc1967_impl_slot, erc1967_impl_slot_word, initializable_slot, initializable_slot_word, erc20_name_slot, erc20_name_slot_word, erc20_name_value, erc20_name_value_word, erc20_symbol_slot, erc20_symbol_slot_word, erc20_symbol_value, erc20_symbol_value_word, erc20_total_supply_slot, erc20_total_supply_slot_word, rls_total_supply, rls_total_supply_word, rls_balance_slot_registry, rls_balance_slot_registry_word, registry_balance, registry_balance_word, rls_balance_slot_admin, rls_balance_slot_admin_word, admin_balance, admin_balance_word, role_default_admin_slot, role_default_admin_slot_word, role_upgrader_slot, role_upgrader_slot_word, role_pauser_slot, role_pauser_slot_word, role_minter_slot, role_minter_slot_word, role_burner_slot, role_burner_slot_word, accumulator_storage_base, accumulator_storage_base_word, role_depositor_slot, role_depositor_slot_word, delegation_pool_reward_distributor_slot, delegation_pool_reward_distributor_slot_word, reward_distributor_accumulator_slot, reward_distributor_accumulator_slot_word, rls_allowance_slot, rls_allowance_slot_word, correction_wei, correction_wei_word, rls_token_address_spec, rls_token_address, rls_impl_address_spec, rls_impl_address, rls_accumulator_address_spec, rls_accumulator_address, rls_accumulator_impl_address_spec, rls_accumulator_impl_address, reward_distributor_address_spec, reward_distributor_address, reward_distributor_impl_address_spec, reward_distributor_impl_address, delegation_pool_address_spec, delegation_pool_address, delegation_pool_impl_address_spec, delegation_pool_impl_address, native_token_controller_impl_address_spec, native_token_controller_impl_address, fee_aggregator_impl_address_spec, fee_aggregator_impl_address,
};
use crate::text::{u256_string, u256_string_spec};
use crate::uint::{word_max, U256};
use vstd::prelude::*;
use vstd::string::StringExecFns;

verus! {

/// A storage slot written by a migration.
#[derive(Debug, Clone, Copy, PartialEq, Eq, Structural)]
pub struct StorageSlot {
    /// The value before the migration.
    pub original: U256,
    /// The value after it.
    pub present: U256,
}

/// An account changed by a migration.
#[derive(Debug, Clone)]
pub struct MigrationAccount {
    /// The code installed, if any.
    pub code: Option<Vec<u8>>,
    /// The hash of the code.
    pub code_hash: U256,
    /// Native balance.
    pub balance: U256,
    /// Nonce.
    pub nonce: u64,
    /// The slots written.
    pub storage: SlotMap<StorageSlot>,
    /// Marked touched, so that the change is recorded.
    pub touched: bool,
}

/// The account changes of a migration.
pub type StateDelta = AddressMap<MigrationAccount>;

/// The account holds `code` (with its hash), no balance, nonce 0, and is
/// touched.
pub open spec fn holds_code(a: MigrationAccount, code: Seq<u8>) -> bool {
    &&& a.code matches Some(c) && c@ == code
    &&& a.code_hash@ == keccak256_word(code)
    &&& a.balance@ == 0
    &&& a.nonce == 0
    &&& a.touched
}

/// The migration wrote `value` to `slot` of the account, over a zero.
pub open spec fn slot_written(a: MigrationAccount, slot: nat, value: nat) -> bool {
    &&& a.storage.view().contains_key(slot)
    &&& a.storage.view()[slot].original@ == 0
    &&& a.storage.view()[slot].present@ == value
}

/// The slots a migration writes on the account.
pub open spec fn slots_written(a: MigrationAccount) -> Set<nat> {
    a.storage.view().dom()
}

/// An account holding `bytecode`, touched, with no storage written.
pub fn account_with_code(bytecode: &[u8]) -> (r: MigrationAccount)
    ensures
        holds_code(r, bytecode@),
        r.storage.view() == Map::<nat, StorageSlot>::empty(),
{
    let mut code: Vec<u8> = Vec::new();
    crate::hash::extend_bytes(&mut code, bytecode);
    MigrationAccount {
        code: Some(code),
        code_hash: keccak256_to_word(bytecode),
        balance: U256::zero(),
        nonce: 0,
        storage: SlotMap::new(),
        touched: true,
    }
}

/// Writes `value` to `slot` (over a zero).
pub fn set_slot(account: &mut MigrationAccount, slot: U256, value: U256)
    ensures
        final(account).storage.view() == old(account).storage.view().insert(
            slot@,
            StorageSlot { original: U256 { hi: 0, lo: 0 }, present: value },
        ),
        final(account).code == old(account).code,
        final(account).code_hash == old(account).code_hash,
        final(account).balance == old(account).balance,
        final(account).nonce == old(account).nonce,
        final(account).touched == old(account).touched,
{
    account.storage.insert(slot, StorageSlot { original: U256::zero(), present: value });
}

/// A word holding an address (left-padded with zeros).
pub fn addr_to_u256(addr: Address) -> (r: U256)
    ensures
        r@ == addr@,
{
    addr.to_word()
}

/// Installs `proxy_bytecode` on an account that has no code; leaves other
/// accounts alone.
pub fn ensure_proxy_code(account: &mut MigrationAccount, proxy_bytecode: &[u8])
    ensures
        old(account).code is None ==> (final(account).code matches Some(c) && c@ == proxy_bytecode@
            && final(account).code_hash@ == keccak256_word(proxy_bytecode@)),
        old(account).code is Some ==> final(account).code == old(account).code
            && final(account).code_hash == old(account).code_hash,
        final(account).storage == old(account).storage,
        final(account).balance == old(account).balance,
        final(account).nonce == old(account).nonce,
        final(account).touched == old(account).touched,
{
    if account.code.is_none() {
        let mut code: Vec<u8> = Vec::new();
        crate::hash::extend_bytes(&mut code, proxy_bytecode);
        account.code_hash = keccak256_to_word(proxy_bytecode);
        account.code = Some(code);
    }
}

/// The single `STOP` byte that keeps the precompile account from being
/// reaped as empty (EIP-161).
pub open spec fn stop_bytecode() -> Seq<u8> {
    seq![0x00u8]
}

/// The Erc20PrecompileBytecode hardfork: `STOP` code on the precompile.
pub fn erc20_precompile_bytecode_state() -> (r: StateDelta)
    ensures
        r.wf(),
        r.size() == 1,
        r.view().contains_key(erc20_precompile_address_spec()),
        holds_code(r.view()[erc20_precompile_address_spec()], stop_bytecode()),
        r.view()[erc20_precompile_address_spec()].storage.view() == Map::<nat, StorageSlot>::empty(),
{
    let mut state = AddressMap::new();
    let stop: Vec<u8> = vec![0x00u8];
    assert(stop@ =~= stop_bytecode());
    state.insert(erc20_precompile_address(), account_with_code(stop.as_slice()));
    state
}

/// The UsdrSupplyCorrection hardfork, given the precompile's current total
/// supply: the supply raised by the correction, with `STOP` code reasserted.
pub fn usdr_supply_correction_state(current: U256) -> (r: Result<StateDelta, String>)
    ensures
        current@ + correction_wei() <= word_max() <==> r is Ok,
        r matches Ok(state) ==> ({
            let a = state.view()[erc20_precompile_address_spec()];
            &&& state.wf()
            &&& state.size() == 1
            &&& state.view().contains_key(erc20_precompile_address_spec())
            &&& holds_code(a, stop_bytecode())
            &&& a.storage.view() == Map::<nat, StorageSlot>::empty().insert(
                total_supply_slot_spec(),
                StorageSlot { original: current, present: a.storage.view()[total_supply_slot_spec()].present },
            )
            &&& a.storage.view()[total_supply_slot_spec()].present@ == current@ + correction_wei()
        }),
        r matches Err(e) ==> e@ == "UsdrSupplyCorrection: U256 overflow adding correction ("@
            + u256_string_spec(correction_wei()) + ") to current slot value ("@ + u256_string_spec(
            current@,
        ) + ")"@,
{
    let correction = correction_wei_word();
    let new_value = match current.checked_add(&correction) {
        Some(v) => v,
        None => {
            let mut m = String::from_str("UsdrSupplyCorrection: U256 overflow adding correction (");
            let c = u256_string(correction);
            m.append(c.as_str());
            m.append(") to current slot value (");
            let v = u256_string(current);
            m.append(v.as_str());
            m.append(")");
            return Err(m);
        },
    };
    let stop: Vec<u8> = vec![0x00u8];
    assert(stop@ =~= stop_bytecode());
    let mut account = account_with_code(stop.as_slice());
    account.storage.insert(total_supply_slot(), StorageSlot { original: current, present: new_value });
    let mut state = AddressMap::new();
    state.insert(erc20_precompile_address(), account);
    Ok(state)
}

/// The RlsStorage hardfork: the ERC-1967 proxy code on the RLS token, its
/// implementation slot, the initializer, name, symbol, supply, the
/// registry's and the admin's balances, and the admin's roles.
pub fn rls_storage_state(erc1967_proxy_bytecode: &[u8]) -> (r: StateDelta)
    ensures
        r.wf(),
        r.size() == 1,
        r.view().contains_key(rls_token_address_spec()),
        ({
            let a = r.view()[rls_token_address_spec()];
            &&& holds_code(a, erc1967_proxy_bytecode@)
            &&& slot_written(a, erc1967_impl_slot(), rls_impl_address_spec()@)
            &&& slot_written(a, initializable_slot(), 1)
            &&& slot_written(a, erc20_name_slot(), erc20_name_value())
            &&& slot_written(a, erc20_symbol_slot(), erc20_symbol_value())
            &&& slot_written(a, erc20_total_supply_slot(), rls_total_supply())
            &&& slot_written(a, rls_balance_slot_registry(), registry_balance())
            &&& slot_written(a, rls_balance_slot_admin(), admin_balance())
            &&& slot_written(a, role_default_admin_slot(), 1)
            &&& slot_written(a, role_upgrader_slot(), 1)
            &&& slot_written(a, role_pauser_slot(), 1)
            &&& slot_written(a, role_minter_slot(), 1)
            &&& slot_written(a, role_burner_slot(), 1)
            &&& slots_written(a) == set![
                erc1967_impl_slot(),
                initializable_slot(),
                erc20_name_slot(),
                erc20_symbol_slot(),
                erc20_total_supply_slot(),
                rls_balance_slot_registry(),
                rls_balance_slot_admin(),
                role_default_admin_slot(),
                role_upgrader_slot(),
                role_pauser_slot(),
                role_minter_slot(),
                role_burner_slot(),
            ]
        }),
{
    let one = U256::one();
    let mut rls = account_with_code(erc1967_proxy_bytecode);
    set_slot(&mut rls, erc1967_impl_slot_word(), addr_to_u256(rls_impl_address()));
    set_slot(&mut rls, initializable_slot_word(), one);
    set_slot(&mut rls, erc20_name_slot_word(), erc20_name_value_word());
    set_slot(&mut rls, erc20_symbol_slot_word(), erc20_symbol_value_word());
    set_slot(&mut rls, erc20_total_supply_slot_word(), rls_total_supply_word());
    set_slot(&mut rls, rls_balance_slot_registry_word(), registry_balance_word());
    set_slot(&mut rls, rls_balance_slot_admin_word(), admin_balance_word());
    set_slot(&mut rls, role_default_admin_slot_word(), one);
    set_slot(&mut rls, role_upgrader_slot_word(), one);
    set_slot(&mut rls, role_pauser_slot_word(), one);
    set_slot(&mut rls, role_minter_slot_word(), one);
    set_slot(&mut rls, role_burner_slot_word(), one);
    let mut state = AddressMap::new();
    state.insert(rls_token_address(), rls);
    state
}

/// The RLS written by the RlsStorage migration adds up: the registry's and
/// the admin's balances make the total supply.
pub proof fn law_rls_storage_accounting()
    ensures
        registry_balance() + admin_balance() == rls_total_supply(),
{
}

/// `type(uint64).max`, the value `_disableInitializers()` writes.
pub open spec fn initialized_max() -> nat {
    0xffff_ffff_ffff_ffff
}

/// An implementation account with `bytecode` and its initializer disabled.
pub fn impl_with_code_and_initializer_disabled(bytecode: &[u8]) -> (r: MigrationAccount)
    ensures
        holds_code(r, bytecode@),
        r.storage.view() == Map::<nat, StorageSlot>::empty().insert(
            initializable_slot(),
            StorageSlot { original: U256 { hi: 0, lo: 0 }, present: U256 { hi: 0, lo: 0xffff_ffff_ffff_ffff } },
        ),
{
    let mut account = account_with_code(bytecode);
    set_slot(&mut account, initializable_slot_word(), U256::from_u64(u64::MAX));
    account
}

/// The implementation bytecodes of the six upgradable system contracts.
#[derive(Debug, Clone)]
pub struct ImplBytecodes {
    /// FeeAggregator implementation.
    pub fee_aggregator: Vec<u8>,
    /// DelegationPool implementation.
    pub delegation_pool: Vec<u8>,
    /// RewardDistributor implementation.
    pub reward_distributor: Vec<u8>,
    /// NativeTokenController implementation.
    pub native_token_controller: Vec<u8>,
    /// RLS implementation.
    pub rls: Vec<u8>,
    /// RLSAccumulator implementation.
    pub rls_accumulator: Vec<u8>,
}

/// The implementation accounts all hold their bytecode with the initializer
/// disabled, and no other slot written.
pub open spec fn impls_locked(r: StateDelta, b: ImplBytecodes) -> bool {
    let locked = |a: Address, code: Seq<u8>|
        r.view().contains_key(a) && holds_code(r.view()[a], code) && slot_written(
            r.view()[a],
            initializable_slot(),
            initialized_max(),
        ) && slots_written(r.view()[a]) == set![initializable_slot()];
    &&& locked(fee_aggregator_impl_address_spec(), b.fee_aggregator@)
    &&& locked(delegation_pool_impl_address_spec(), b.delegation_pool@)
    &&& locked(reward_distributor_impl_address_spec(), b.reward_distributor@)
    &&& locked(native_token_controller_impl_address_spec(), b.native_token_controller@)
    &&& locked(rls_impl_address_spec(), b.rls@)
    &&& locked(rls_accumulator_impl_address_spec(), b.rls_accumulator@)
}

/// The UupsFix hardfork: the six implementations with their `__self`-patched
/// bytecode and their initializers disabled.
pub fn uups_state(bytecodes: &ImplBytecodes) -> (r: StateDelta)
    ensures
        r.wf(),
        r.size() == 6,
        impls_locked(r, *bytecodes),
{
    let mut state = AddressMap::new();
    state.insert(fee_aggregator_impl_address(), impl_with_code_and_initializer_disabled(bytecodes.fee_aggregator.as_slice()));
    state.insert(delegation_pool_impl_address(), impl_with_code_and_initializer_disabled(bytecodes.delegation_pool.as_slice()));
    state.insert(reward_distributor_impl_address(), impl_with_code_and_initializer_disabled(bytecodes.reward_distributor.as_slice()));
    state.insert(native_token_controller_impl_address(), impl_with_code_and_initializer_disabled(bytecodes.native_token_controller.as_slice()));
    state.insert(rls_impl_address(), impl_with_code_and_initializer_disabled(bytecodes.rls.as_slice()));
    state.insert(rls_accumulator_impl_address(), impl_with_code_and_initializer_disabled(bytecodes.rls_accumulator.as_slice()));
    state
}

/// The bytecodes the Tokenomics hardfork installs.
#[derive(Debug, Clone)]
pub struct TokenomicsBytecodes {
    /// The ERC-1967 proxy.
    pub erc1967_proxy: Vec<u8>,
    /// RLSAccumulator implementation.
    pub rls_accumulator_impl: Vec<u8>,
    /// DelegationPool implementation.
    pub delegation_pool_impl: Vec<u8>,
    /// RewardDistributor implementation.
    pub reward_distributor_impl: Vec<u8>,
    /// NativeTokenController implementation.
    pub native_token_controller_impl: Vec<u8>,
    /// FeeAggregator implementation.
    pub fee_aggregator_impl: Vec<u8>,
    /// RLS implementation.
    pub rls_impl: Vec<u8>,
}

/// A proxy account holding `proxy_bytecode` with one slot written.
fn wired_proxy(slot: U256, value: U256, proxy_bytecode: &[u8]) -> (r: MigrationAccount)
    ensures
        holds_code(r, proxy_bytecode@),
        slot_written(r, slot@, value@),
        slots_written(r) == set![slot@],
{
    let mut account = account_with_code(proxy_bytecode);
    ensure_proxy_code(&mut account, proxy_bytecode);
    set_slot(&mut account, slot, value);
    account
}

/// The RLSAccumulator proxy: initialized, with the admin's roles, the RLS
/// token and the RewardDistributor as its two addresses.
fn accumulator_proxy(proxy_bytecode: &[u8]) -> (r: MigrationAccount)
    ensures
        holds_code(r, proxy_bytecode@),
        slot_written(r, erc1967_impl_slot(), rls_accumulator_impl_address_spec()@),
        slot_written(r, initializable_slot(), 1),
        slot_written(r, role_default_admin_slot(), 1),
        slot_written(r, role_depositor_slot(), 1),
        slot_written(r, role_upgrader_slot(), 1),
        slot_written(r, accumulator_storage_base(), rls_token_address_spec()@),
        slot_written(r, accumulator_storage_base() + 1, reward_distributor_address_spec()@),
        slots_written(r) == set![
            erc1967_impl_slot(),
            initializable_slot(),
            role_default_admin_slot(),
            role_depositor_slot(),
            role_upgrader_slot(),
            accumulator_storage_base(),
            accumulator_storage_base() + 1,
        ],
{
    let one = U256::one();
    let mut proxy = account_with_code(proxy_bytecode);
    set_slot(&mut proxy, erc1967_impl_slot_word(), addr_to_u256(rls_accumulator_impl_address()));
    set_slot(&mut proxy, initializable_slot_word(), one);
    set_slot(&mut proxy, role_default_admin_slot_word(), one);
    set_slot(&mut proxy, role_depositor_slot_word(), one);
    set_slot(&mut proxy, role_upgrader_slot_word(), one);
    let base = accumulator_storage_base_word();
    set_slot(&mut proxy, base, addr_to_u256(rls_token_address()));
    let base_plus_one = U256 { hi: base.hi, lo: base.lo + 1 };
    set_slot(&mut proxy, base_plus_one, addr_to_u256(reward_distributor_address()));
    proxy
}

/// The Tokenomics hardfork: deploys the RLSAccumulator (proxy and
/// implementation, initialized, with the admin's roles and its two
/// addresses), grants the RewardDistributor the accumulator's RLS
/// allowance, wires DelegationPool → RewardDistributor → RLSAccumulator, and
/// replaces five implementation bytecodes.
pub fn tokenomics_state(b: &TokenomicsBytecodes) -> (r: StateDelta)
    ensures
        r.wf(),
        r.size() == 10,
        ({
            let v = r.view();
            let proxy = v[rls_accumulator_address_spec()];
            &&& v.contains_key(rls_accumulator_impl_address_spec())
            &&& holds_code(v[rls_accumulator_impl_address_spec()], b.rls_accumulator_impl@)
            &&& v.contains_key(rls_accumulator_address_spec())
            &&& holds_code(proxy, b.erc1967_proxy@)
            &&& slot_written(proxy, erc1967_impl_slot(), rls_accumulator_impl_address_spec()@)
            &&& slot_written(proxy, initializable_slot(), 1)
            &&& slot_written(proxy, role_default_admin_slot(), 1)
            &&& slot_written(proxy, role_depositor_slot(), 1)
            &&& slot_written(proxy, role_upgrader_slot(), 1)
            &&& slot_written(proxy, accumulator_storage_base(), rls_token_address_spec()@)
            &&& slot_written(proxy, accumulator_storage_base() + 1, reward_distributor_address_spec()@)
            &&& v.contains_key(rls_token_address_spec())
            &&& holds_code(v[rls_token_address_spec()], b.erc1967_proxy@)
            &&& slot_written(v[rls_token_address_spec()], rls_allowance_slot(), word_max())
            &&& v.contains_key(delegation_pool_address_spec())
            &&& holds_code(v[delegation_pool_address_spec()], b.erc1967_proxy@)
            &&& slot_written(v[delegation_pool_address_spec()], delegation_pool_reward_distributor_slot(), reward_distributor_address_spec()@)
            &&& v.contains_key(reward_distributor_address_spec())
            &&& holds_code(v[reward_distributor_address_spec()], b.erc1967_proxy@)
            &&& slot_written(v[reward_distributor_address_spec()], reward_distributor_accumulator_slot(), rls_accumulator_address_spec()@)
            &&& v.contains_key(delegation_pool_impl_address_spec())
            &&& holds_code(v[delegation_pool_impl_address_spec()], b.delegation_pool_impl@)
            &&& v.contains_key(reward_distributor_impl_address_spec())
            &&& holds_code(v[reward_distributor_impl_address_spec()], b.reward_distributor_impl@)
            &&& v.contains_key(native_token_controller_impl_address_spec())
            &&& holds_code(v[native_token_controller_impl_address_spec()], b.native_token_controller_impl@)
            &&& v.contains_key(fee_aggregator_impl_address_spec())
            &&& holds_code(v[fee_aggregator_impl_address_spec()], b.fee_aggregator_impl@)
            &&& v.contains_key(rls_impl_address_spec())
            &&& holds_code(v[rls_impl_address_spec()], b.rls_impl@)
            &&& slots_written(proxy) == set![
                erc1967_impl_slot(),
                initializable_slot(),
                role_default_admin_slot(),
                role_depositor_slot(),
                role_upgrader_slot(),
                accumulator_storage_base(),
                accumulator_storage_base() + 1,
            ]
            &&& slots_written(v[rls_token_address_spec()]) == set![rls_allowance_slot()]
            &&& slots_written(v[delegation_pool_address_spec()]) == set![delegation_pool_reward_distributor_slot()]
            &&& slots_written(v[reward_distributor_address_spec()]) == set![reward_distributor_accumulator_slot()]
            &&& slots_written(v[rls_accumulator_impl_address_spec()]).is_empty()
            &&& slots_written(v[delegation_pool_impl_address_spec()]).is_empty()
            &&& slots_written(v[reward_distributor_impl_address_spec()]).is_empty()
            &&& slots_written(v[native_token_controller_impl_address_spec()]).is_empty()
            &&& slots_written(v[fee_aggregator_impl_address_spec()]).is_empty()
            &&& slots_written(v[rls_impl_address_spec()]).is_empty()
        }),
{
    let proxy_code = b.erc1967_proxy.as_slice();
    let acc_impl = account_with_code(b.rls_accumulator_impl.as_slice());
    let acc_proxy = accumulator_proxy(proxy_code);
    let rls = wired_proxy(rls_allowance_slot_word(), U256::max_value(), proxy_code);
    let dp = wired_proxy(
        delegation_pool_reward_distributor_slot_word(),
        addr_to_u256(reward_distributor_address()),
        proxy_code,
    );
    let rd = wired_proxy(
        reward_distributor_accumulator_slot_word(),
        addr_to_u256(rls_accumulator_address()),
        proxy_code,
    );
    let dp_impl = account_with_code(b.delegation_pool_impl.as_slice());
    let rd_impl = account_with_code(b.reward_distributor_impl.as_slice());
    let ntc_impl = account_with_code(b.native_token_controller_impl.as_slice());
    let fa_impl = account_with_code(b.fee_aggregator_impl.as_slice());
    let rls_impl = account_with_code(b.rls_impl.as_slice());
    let ghost accounts = (acc_impl, acc_proxy, rls, dp, rd, dp_impl, rd_impl, ntc_impl, fa_impl, rls_impl);
    let mut state = AddressMap::new();
    state.insert(rls_accumulator_impl_address(), acc_impl);
    state.insert(rls_accumulator_address(), acc_proxy);
    state.insert(rls_token_address(), rls);
    state.insert(delegation_pool_address(), dp);
    state.insert(reward_distributor_address(), rd);
    state.insert(delegation_pool_impl_address(), dp_impl);
    state.insert(reward_distributor_impl_address(), rd_impl);
    state.insert(native_token_controller_impl_address(), ntc_impl);
    state.insert(fee_aggregator_impl_address(), fa_impl);
    state.insert(rls_impl_address(), rls_impl);
    proof {
        let v = state.view();
        assert(v[rls_accumulator_impl_address_spec()] == accounts.0);
        assert(v[rls_accumulator_address_spec()] == accounts.1);
        assert(v[rls_token_address_spec()] == accounts.2);
        assert(v[delegation_pool_address_spec()] == accounts.3);
        assert(v[reward_distributor_address_spec()] == accounts.4);
        assert(v[delegation_pool_impl_address_spec()] == accounts.5);
        assert(v[reward_distributor_impl_address_spec()] == accounts.6);
        assert(v[native_token_controller_impl_address_spec()] == accounts.7);
        assert(v[fee_aggregator_impl_address_spec()] == accounts.8);
        assert(v[rls_impl_address_spec()] == accounts.9);
    }
    state
}

} // verus!
