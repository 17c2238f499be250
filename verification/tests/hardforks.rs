use alloy::primitives::keccak256;
use rayls_execution::address::Address;
use rayls_execution::migrations::{
    addr_to_u256, erc20_precompile_bytecode_state, rls_storage_state, tokenomics_state,
    usdr_supply_correction_state, uups_state, ImplBytecodes, MigrationAccount, TokenomicsBytecodes,
};
use rayls_execution::precompile::erc20_precompile_address;
use rayls_execution::storage::total_supply_slot;
use rayls_execution::system_contracts::{
    accumulator_storage_base_word, admin_balance_word, correction_wei_word,
    delegation_pool_address, delegation_pool_impl_address, delegation_pool_reward_distributor_slot_word,
    erc1967_impl_slot_word, erc20_name_slot_word, erc20_name_value_word, erc20_symbol_slot_word,
    erc20_symbol_value_word, erc20_total_supply_slot_word, fee_aggregator_impl_address,
    initializable_slot_word, native_token_controller_impl_address, registry_balance_word,
    reward_distributor_accumulator_slot_word, reward_distributor_address,
    reward_distributor_impl_address, rls_accumulator_address, rls_accumulator_impl_address,
    rls_allowance_slot_word, rls_balance_slot_admin_word, rls_balance_slot_registry_word,
    rls_impl_address, rls_token_address, rls_total_supply_word, role_burner_slot_word,
    role_default_admin_slot_word, role_depositor_slot_word, role_minter_slot_word,
    role_pauser_slot_word, role_upgrader_slot_word,
};
use rayls_execution::uint::U256;

const STOP_BYTECODE: &[u8] = &[0x00];

fn present(account: &MigrationAccount, slot: U256) -> U256 {
    account.storage.get(slot).expect("slot written").present
}

fn tokenomics_bytecodes() -> TokenomicsBytecodes {
    TokenomicsBytecodes {
        erc1967_proxy: vec![0x60, 0x80, 0x01],
        rls_accumulator_impl: vec![0x60, 0x80, 0x02],
        delegation_pool_impl: vec![0x60, 0x80, 0x03],
        reward_distributor_impl: vec![0x60, 0x80, 0x04],
        native_token_controller_impl: vec![0x60, 0x80, 0x05],
        fee_aggregator_impl: vec![0x60, 0x80, 0x06],
        rls_impl: vec![0x60, 0x80, 0x07],
    }
}

fn impl_bytecodes() -> ImplBytecodes {
    ImplBytecodes {
        fee_aggregator: vec![0x11],
        delegation_pool: vec![0x12],
        reward_distributor: vec![0x13],
        native_token_controller: vec![0x14],
        rls: vec![0x15],
        rls_accumulator: vec![0x16],
    }
}

#[test]
fn migration_touches_only_the_precompile() {
    let state = erc20_precompile_bytecode_state();
    assert_eq!(state.len(), 1, "migration must touch only the precompile");
    assert!(
        state.contains_key(erc20_precompile_address()),
        "the single touched account must be the precompile address",
    );
}

#[test]
fn migration_installs_stop_bytecode_and_matching_hash() {
    let state = erc20_precompile_bytecode_state();
    let precompile = state.get(erc20_precompile_address()).unwrap();
    let code = precompile.code.as_ref().expect("code must be set");
    assert_eq!(code.as_slice(), STOP_BYTECODE);
    assert_eq!(precompile.code_hash.to_be_bytes(), keccak256(STOP_BYTECODE).to_vec());
}

#[test]
fn migration_defeats_eip161_empty_check() {
    let state = erc20_precompile_bytecode_state();
    let precompile = state.get(erc20_precompile_address()).unwrap();
    assert_ne!(
        precompile.code_hash.to_be_bytes(),
        keccak256([]).to_vec(),
        "code_hash must differ from KECCAK_EMPTY or EIP-161 will destroy the account",
    );
    assert!(precompile.code.as_ref().is_some_and(|c| !c.is_empty()));
}

#[test]
fn migration_does_not_touch_balance_nonce_or_storage() {
    let state = erc20_precompile_bytecode_state();
    let precompile = state.get(erc20_precompile_address()).unwrap();
    assert_eq!(precompile.nonce, 0);
    assert_eq!(precompile.balance, U256::zero());
    assert!(precompile.storage.is_empty(), "migration must not write storage");
}

#[test]
fn migration_marks_account_touched_for_dispatcher() {
    let state = erc20_precompile_bytecode_state();
    let precompile = state.get(erc20_precompile_address()).unwrap();
    assert!(
        precompile.touched,
        "account must be Touched so apply_activated_migrations records the transition",
    );
}

#[test]
fn migration_is_idempotent() {
    let a = erc20_precompile_bytecode_state();
    let b = erc20_precompile_bytecode_state();
    let pa = a.get(erc20_precompile_address()).unwrap();
    let pb = b.get(erc20_precompile_address()).unwrap();
    assert_eq!(pa.code_hash, pb.code_hash);
    assert_eq!(pa.code, pb.code);
}

#[test]
fn migration_produces_expected_state() {
    let proxy = vec![0x60u8, 0x80, 0x60, 0x40];
    let state = rls_storage_state(&proxy);
    let rls = state.get(rls_token_address()).unwrap();
    assert!(rls.code.is_some(), "RLS should have proxy bytecode");
    assert_eq!(present(rls, erc1967_impl_slot_word()), addr_to_u256(rls_impl_address()));
    assert_eq!(present(rls, initializable_slot_word()), U256::one());
    assert_eq!(present(rls, erc20_name_slot_word()), erc20_name_value_word());
    assert_eq!(present(rls, erc20_symbol_slot_word()), erc20_symbol_value_word());
    assert_eq!(present(rls, erc20_total_supply_slot_word()), rls_total_supply_word());
    assert_eq!(present(rls, rls_balance_slot_registry_word()), registry_balance_word());
    assert_eq!(present(rls, rls_balance_slot_admin_word()), admin_balance_word());
    assert_eq!(present(rls, role_default_admin_slot_word()), U256::one());
    assert_eq!(present(rls, role_upgrader_slot_word()), U256::one());
    assert_eq!(present(rls, role_pauser_slot_word()), U256::one());
    assert_eq!(present(rls, role_minter_slot_word()), U256::one());
    assert_eq!(present(rls, role_burner_slot_word()), U256::one());
    assert_eq!(
        registry_balance_word().checked_add(&admin_balance_word()),
        Some(rls_total_supply_word())
    );
}

#[test]
fn rls_storage_strings_and_amounts() {
    let name = erc20_name_value_word().to_be_bytes();
    assert_eq!(&name[..5], b"Rayls");
    assert_eq!(name[31], 10);
    let symbol = erc20_symbol_value_word().to_be_bytes();
    assert_eq!(&symbol[..3], b"RLS");
    assert_eq!(symbol[31], 6);
    let e18 = alloy::primitives::U256::from(10u64).pow(alloy::primitives::U256::from(18u64));
    let supply = alloy::primitives::U256::from(1_000_000_000u64) * e18;
    assert_eq!(rls_total_supply_word().to_be_bytes(), supply.to_be_bytes::<32>().to_vec());
}

#[test]
fn tokenomics_state_deploys_accumulator_proxy() {
    let state = tokenomics_state(&tokenomics_bytecodes());
    let impl_account = state.get(rls_accumulator_impl_address()).unwrap();
    assert!(impl_account.code.is_some(), "impl should have bytecode");
    let proxy = state.get(rls_accumulator_address()).unwrap();
    assert!(proxy.code.is_some(), "proxy should have bytecode");
    assert_eq!(present(proxy, erc1967_impl_slot_word()), addr_to_u256(rls_accumulator_impl_address()));
    assert_eq!(present(proxy, initializable_slot_word()), U256::one());
    assert_eq!(present(proxy, role_default_admin_slot_word()), U256::one());
    assert_eq!(present(proxy, role_depositor_slot_word()), U256::one());
    assert_eq!(present(proxy, role_upgrader_slot_word()), U256::one());
    let base = accumulator_storage_base_word();
    assert_eq!(present(proxy, base), addr_to_u256(rls_token_address()));
    let next = base.checked_add(&U256::one()).unwrap();
    assert_eq!(present(proxy, next), addr_to_u256(reward_distributor_address()));
}

#[test]
fn tokenomics_state_sets_rls_allowance() {
    let state = tokenomics_state(&tokenomics_bytecodes());
    let rls = state.get(rls_token_address()).unwrap();
    assert_eq!(
        present(rls, rls_allowance_slot_word()),
        U256::max_value(),
        "allowance should be type(uint256).max"
    );
}

#[test]
fn tokenomics_state_wires_delegation_pool() {
    let state = tokenomics_state(&tokenomics_bytecodes());
    let dp = state.get(delegation_pool_address()).unwrap();
    assert_eq!(
        present(dp, delegation_pool_reward_distributor_slot_word()),
        addr_to_u256(reward_distributor_address()),
        "DelegationPool.rewardDistributor should be set"
    );
}

#[test]
fn tokenomics_state_wires_reward_distributor() {
    let state = tokenomics_state(&tokenomics_bytecodes());
    let rd = state.get(reward_distributor_address()).unwrap();
    assert_eq!(
        present(rd, reward_distributor_accumulator_slot_word()),
        addr_to_u256(rls_accumulator_address()),
        "RewardDistributor.accumulator should be set"
    );
}

#[test]
fn tokenomics_state_touches_expected_accounts() {
    let state = tokenomics_state(&tokenomics_bytecodes());
    assert!(state.contains_key(rls_accumulator_address()), "accumulator proxy");
    assert!(state.contains_key(rls_accumulator_impl_address()), "accumulator impl");
    assert!(state.contains_key(rls_token_address()), "RLS token (allowance)");
    assert!(state.contains_key(delegation_pool_address()), "DelegationPool (wiring)");
    assert!(state.contains_key(reward_distributor_address()), "RewardDistributor (wiring)");
    assert!(state.contains_key(delegation_pool_impl_address()), "DelegationPool impl swap");
    assert!(state.contains_key(reward_distributor_impl_address()), "RewardDistributor impl swap");
    assert!(
        state.contains_key(native_token_controller_impl_address()),
        "NativeTokenController impl swap"
    );
    assert!(state.contains_key(fee_aggregator_impl_address()), "FeeAggregator impl swap");
    assert!(state.contains_key(rls_impl_address()), "RLS impl swap");
    assert_eq!(state.len(), 10, "exactly 10 accounts modified");
}

fn assert_bytecode_matches(code: &[u8], expected: &[u8], label: &str) {
    assert_eq!(code, expected, "{label}: bytecode mismatch");
}

#[test]
fn tokenomics_state_replaces_delegation_pool_impl_bytecode() {
    let b = tokenomics_bytecodes();
    let state = tokenomics_state(&b);
    let code = state.get(delegation_pool_impl_address()).unwrap().code.clone().expect("DelegationPoolImpl must have bytecode");
    assert_bytecode_matches(&code, &b.delegation_pool_impl, "DelegationPoolImpl");
}

#[test]
fn tokenomics_state_replaces_reward_distributor_impl_bytecode() {
    let b = tokenomics_bytecodes();
    let state = tokenomics_state(&b);
    let code = state.get(reward_distributor_impl_address()).unwrap().code.clone().expect("RewardDistributorImpl must have bytecode");
    assert_bytecode_matches(&code, &b.reward_distributor_impl, "RewardDistributorImpl");
}

#[test]
fn tokenomics_state_replaces_native_token_controller_impl_bytecode() {
    let b = tokenomics_bytecodes();
    let state = tokenomics_state(&b);
    let code = state
        .get(native_token_controller_impl_address())
        .unwrap()
        .code
        .clone()
        .expect("NativeTokenControllerImpl must have bytecode");
    assert_bytecode_matches(&code, &b.native_token_controller_impl, "NativeTokenControllerImpl");
}

#[test]
fn tokenomics_state_replaces_fee_aggregator_impl_bytecode() {
    let b = tokenomics_bytecodes();
    let state = tokenomics_state(&b);
    let code = state.get(fee_aggregator_impl_address()).unwrap().code.clone().expect("FeeAggregatorImpl must have bytecode");
    assert_bytecode_matches(&code, &b.fee_aggregator_impl, "FeeAggregatorImpl");
}

#[test]
fn tokenomics_state_replaces_rls_impl_bytecode() {
    let b = tokenomics_bytecodes();
    let state = tokenomics_state(&b);
    let code = state.get(rls_impl_address()).unwrap().code.clone().expect("RLSImpl must have bytecode");
    assert_bytecode_matches(&code, &b.rls_impl, "RLSImpl");
}

#[test]
fn tokenomics_state_proxy_storage_preserved_after_impl_swap() {
    let state = tokenomics_state(&tokenomics_bytecodes());
    let dp = state.get(delegation_pool_address()).unwrap();
    assert!(dp.storage.get(delegation_pool_reward_distributor_slot_word()).is_some());
    let rd = state.get(reward_distributor_address()).unwrap();
    assert!(rd.storage.get(reward_distributor_accumulator_slot_word()).is_some());
    assert_ne!(delegation_pool_address(), delegation_pool_impl_address());
    assert_ne!(reward_distributor_address(), reward_distributor_impl_address());
}

#[test]
fn correction_constant_matches_audit() {
    let expected = alloy::primitives::U256::from_str_radix("515241259606000000000000", 10).unwrap();
    assert_eq!(correction_wei_word().to_be_bytes(), expected.to_be_bytes::<32>().to_vec());
}

#[test]
fn migration_from_zero_slot_writes_correction_exactly() {
    let state = usdr_supply_correction_state(U256::zero()).expect("migration must succeed");
    let account = state.get(erc20_precompile_address()).expect("precompile account");
    let slot = account
        .storage
        .get(total_supply_slot())
        .expect("TOTAL_SUPPLY slot must be present in the delta");
    assert_eq!(slot.original, U256::zero(), "previous slot value (empty db)");
    assert_eq!(slot.present, correction_wei_word(), "new slot value");
    assert!(account.touched);
    let code = account.code.as_ref().expect("STOP code must be set");
    assert_eq!(code.as_slice(), STOP_BYTECODE, "must install STOP (0x00) bytecode");
}

#[test]
fn supply_correction_adds_to_current_and_reports_overflow() {
    let state = usdr_supply_correction_state(U256::from_u64(5)).unwrap();
    let account = state.get(erc20_precompile_address()).unwrap();
    let slot = account.storage.get(total_supply_slot()).unwrap();
    assert_eq!(slot.original, U256::from_u64(5));
    assert_eq!(slot.present, correction_wei_word().checked_add(&U256::from_u64(5)).unwrap());
    let e = usdr_supply_correction_state(U256::max_value()).unwrap_err();
    assert_eq!(
        e,
        format!(
            "UsdrSupplyCorrection: U256 overflow adding correction (515241259606000000000000) to current slot value ({})",
            alloy::primitives::U256::MAX
        )
    );
}

#[test]
fn uups_fix_touches_all_implementations() {
    let b = impl_bytecodes();
    let state = uups_state(&b);
    assert_eq!(state.len(), 6, "should modify exactly 6 impl accounts");
    let max64 = U256::from_u64(u64::MAX);
    for (name, addr) in [
        ("FeeAggregator", fee_aggregator_impl_address()),
        ("DelegationPool", delegation_pool_impl_address()),
        ("RewardDistributor", reward_distributor_impl_address()),
        ("NativeTokenController", native_token_controller_impl_address()),
        ("RLS", rls_impl_address()),
        ("RLSAccumulator", rls_accumulator_impl_address()),
    ] {
        let account = state.get(addr).unwrap_or_else(|| panic!("{name} impl missing"));
        assert!(account.code.is_some(), "{name} should have bytecode");
        assert_eq!(
            present(account, initializable_slot_word()),
            max64,
            "{name} should have _initialized = type(uint64).max"
        );
    }
}

fn hex_addr(a: Address) -> String {
    a.to_be_bytes().iter().map(|b| format!("{b:02x}")).collect()
}

#[test]
fn system_addresses_are_the_known_ones() {
    let expect = |a: Address, hex: &str| {
        assert_eq!(hex_addr(a), hex.to_lowercase());
    };
    expect(rls_token_address(), "07e17e17e17e17e17e17e17e17e17e17e17e17ea");
    expect(reward_distributor_address(), "07e17e17e17e17e17e17e17e17e17e17e17e17e5");
    expect(fee_aggregator_impl_address(), "07e17e17e17e17e17e17e17e17e17e17e17e17e4");
}

