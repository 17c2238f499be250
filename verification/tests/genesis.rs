use rayls_execution::address::Address;
use rayls_execution::genesis::{
    apply_greenfield_fixes, create_address, genesis_deployment_addresses, genesis_rls_supply,
    link_solidity_library, precompile_deployer, GenesisAccount, GenesisAlloc,
};
use rayls_execution::keyed::{AddressMap, SlotMap};
use rayls_execution::system_contracts::{
    delegation_pool_impl_address, fee_aggregator_impl_address, initializable_slot_word,
    native_token_controller_impl_address, reward_distributor_impl_address,
    rls_accumulator_impl_address, rls_allowance_slot_word, rls_impl_address, rls_token_address,
};
use rayls_execution::uint::U256;

fn addr(hex: &str) -> Address {
    let h = hex.trim_start_matches("0x");
    Address {
        hi: u32::from_str_radix(&h[0..8], 16).unwrap(),
        lo: u128::from_str_radix(&h[8..40], 16).unwrap(),
    }
}

fn uups_impls() -> Vec<(Address, Vec<u8>)> {
    vec![
        (fee_aggregator_impl_address(), vec![0xfe, 0x01]),
        (delegation_pool_impl_address(), vec![0xfe, 0x02]),
        (reward_distributor_impl_address(), vec![0xfe, 0x03]),
        (native_token_controller_impl_address(), vec![0xfe, 0x04]),
        (rls_impl_address(), vec![0xfe, 0x05]),
        (rls_accumulator_impl_address(), vec![0xfe, 0x06]),
    ]
}

fn initialized_max() -> U256 {
    U256::from_u64(u64::MAX)
}

#[test]
fn applies_six_impls_plus_rls_allowance() {
    let mut alloc: GenesisAlloc = AddressMap::new();
    apply_greenfield_fixes(&mut alloc, &uups_impls(), rls_token_address());
    for (addr, expected_bytecode) in uups_impls() {
        let account = alloc.get(addr).expect("impl missing");
        let code = account.code.as_ref().expect("impl has no code");
        assert_eq!(code, &expected_bytecode, "impl bytecode");
        let storage = account.storage.as_ref().expect("impl has no storage");
        assert_eq!(storage.get(initializable_slot_word()), Some(&initialized_max()), "impl _initialized");
    }
    let rls_storage = alloc
        .get(rls_token_address())
        .and_then(|a| a.storage.as_ref())
        .expect("RLS account missing or no storage");
    assert_eq!(rls_storage.get(rls_allowance_slot_word()), Some(&U256::max_value()));
    assert_eq!(alloc.len(), 7);
}

#[test]
fn rls_allowance_merges_with_existing_storage() {
    let unrelated_slot = U256::from_be_bytes(&[0x11; 32]);
    let unrelated_value = U256::from_be_bytes(&[0x22; 32]);
    let mut existing = SlotMap::new();
    existing.insert(unrelated_slot, unrelated_value);
    let mut alloc: GenesisAlloc = AddressMap::new();
    let mut account = GenesisAccount::empty();
    account.storage = Some(existing);
    alloc.insert(rls_token_address(), account);
    apply_greenfield_fixes(&mut alloc, &uups_impls(), rls_token_address());
    let rls_storage = alloc
        .get(rls_token_address())
        .and_then(|a| a.storage.as_ref())
        .expect("RLS storage missing");
    assert_eq!(rls_storage.get(unrelated_slot), Some(&unrelated_value));
    assert_eq!(rls_storage.get(rls_allowance_slot_word()), Some(&U256::max_value()));
}

#[test]
fn greenfield_keeps_other_accounts() {
    let other = addr("1111111111111111111111111111111111111111");
    let mut alloc: GenesisAlloc = AddressMap::new();
    let mut account = GenesisAccount::empty();
    account.balance = U256::from_u64(77);
    alloc.insert(other, account);
    apply_greenfield_fixes(&mut alloc, &uups_impls(), rls_token_address());
    assert_eq!(alloc.get(other).unwrap().balance, U256::from_u64(77));
}

#[test]
fn create_address_matches_known_vectors() {
    let sender = addr("b20a608c624Ca5003905aA834De7156C68b2E1d0");
    assert_eq!(create_address(sender, 0), addr("00000000219ab540356cBB839Cbe05303d7705Fa"));
    assert_eq!(create_address(sender, 1), addr("e33c6e89e69d085897f98e92b06ebd541d1daa99"));
}

#[test]
fn create_address_with_multibyte_nonce() {
    let sender = addr("b20a608c624Ca5003905aA834De7156C68b2E1d0");
    for nonce in [0x7fu64, 0x80, 0x1234, u64::MAX] {
        let mut nonce_rlp = Vec::new();
        if nonce == 0 {
            nonce_rlp.push(0x80);
        } else if nonce < 0x80 {
            nonce_rlp.push(nonce as u8);
        } else {
            let bytes = nonce.to_be_bytes();
            let first = bytes.iter().position(|b| *b != 0).unwrap();
            nonce_rlp.push(0x80 + (8 - first) as u8);
            nonce_rlp.extend(&bytes[first..]);
        }
        let mut pre = vec![(0xc0 + 21 + nonce_rlp.len()) as u8, 0x94];
        pre.extend(sender.to_be_bytes());
        pre.extend(nonce_rlp);
        let h = alloy::primitives::keccak256(&pre);
        assert_eq!(create_address(sender, nonce), Address::from_be_bytes(&h[12..]));
    }
}

#[test]
fn deployment_addresses_follow_nonces() {
    let owner = addr("91ec7A2be07A79D2eAB99135553b26F706099e9D");
    let d = genesis_deployment_addresses(owner, 3);
    assert_eq!(d.blsg1, create_address(owner, 0));
    assert_eq!(d.rls_proxy, create_address(owner, 2));
    assert_eq!(d.registry, create_address(owner, 7));
    assert_eq!(d.rls_accumulator, create_address(precompile_deployer(), 4));
    assert_eq!(precompile_deployer(), addr("d35150d35150d35150d35150d35150d35150d351"));
}

#[test]
fn genesis_supply_sums_and_overflows() {
    let a = addr("1111111111111111111111111111111111111111");
    let g = genesis_rls_supply(U256::from_u64(1_000), 4, &[(a, U256::from_u64(5)), (a, U256::from_u64(6))]).unwrap();
    assert_eq!(g.total_stake, U256::from_u64(4_000));
    assert_eq!(g.total_prefund, U256::from_u64(11));
    assert_eq!(g.total_supply, U256::from_u64(4_011));
    let e = genesis_rls_supply(U256::max_value(), 2, &[]).unwrap_err();
    assert_eq!(e, "overflow computing total validator stake");
    let e = genesis_rls_supply(U256::one(), 1, &[(a, U256::max_value()), (a, U256::one())]).unwrap_err();
    assert_eq!(e, "overflow summing --rls-accounts balances");
    let e = genesis_rls_supply(U256::one(), 1, &[(a, U256::max_value())]).unwrap_err();
    assert_eq!(e, "overflow computing total RLS supply");
}

#[test]
fn link_library_replaces_placeholders() {
    let placeholder = format!("__${}$__", "a".repeat(34));
    let code = format!("6080{placeholder}60{placeholder}00");
    let linked = link_solidity_library(&code, "0x1111111111111111111111111111111111111111").unwrap();
    let expected = alloy::hex::decode(format!("6080{}60{}00", "11".repeat(20), "11".repeat(20))).unwrap();
    assert_eq!(linked, expected);
    let linked = link_solidity_library("60__", "22").unwrap_err();
    assert!(!linked.is_empty());
    assert_eq!(link_solidity_library("0x6080", "00").unwrap(), vec![0x60, 0x80]);
    assert_eq!(link_solidity_library("0XaBcD", "00").unwrap(), vec![0xab, 0xcd]);
    assert_eq!(link_solidity_library("0x", "00").unwrap(), Vec::<u8>::new());
    assert!(link_solidity_library("608", "00").is_err());
    assert!(link_solidity_library("60g0", "00").is_err());
}
