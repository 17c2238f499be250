use rayls_execution::address::Address;
use rayls_execution::errors::ERC20Error;
use rayls_execution::precompile::{
    erc20_precompile_address, minting_module_address, Erc20Precompile, Erc20TokenConfig,
    GAS_ALLOWANCE_QUERY, GAS_APPROVE, GAS_BALANCE_QUERY, GAS_BURN, GAS_MINT, GAS_TOTAL_SUPPLY,
    GAS_TRANSFER, GAS_TRANSFER_FROM,
};
use rayls_execution::state::{InMemoryState, StateAccessAdapter};
use rayls_execution::storage::{allowance_slot, total_supply_slot};
use rayls_execution::uint::U256;

fn addr(hex: &str) -> Address {
    let h = hex.trim_start_matches("0x");
    Address {
        hi: u32::from_str_radix(&h[0..8], 16).unwrap(),
        lo: u128::from_str_radix(&h[8..40], 16).unwrap(),
    }
}

fn word(v: u128) -> U256 {
    U256::from_u128(v)
}

fn test_precompile() -> Erc20Precompile {
    Erc20Precompile::new(Erc20TokenConfig::default(), erc20_precompile_address(), 1)
}

fn abi_string_of(bytes: &[u8]) -> String {
    let len = alloy::primitives::U256::from_be_slice(&bytes[32..64]).to::<usize>();
    std::str::from_utf8(&bytes[64..64 + len]).unwrap().to_string()
}

fn word_bytes(v: u128) -> Vec<u8> {
    alloy::primitives::U256::from(v).to_be_bytes::<32>().to_vec()
}

fn true_bytes() -> Vec<u8> {
    word_bytes(1)
}

const ALICE: &str = "7E5F4552091A69125d5DfCb7b8C2659029395Bdf";
const BOB: &str = "2B5AD5c4795c026514f8317c7a215E218DcCD6cF";
const CAROL: &str = "6813Eb9362372EEF6200f3b1dbC3f819671cBA69";

fn funded_state(owner: Address, balance: u128) -> InMemoryState {
    let mut state = InMemoryState::new(U256::from_u64(1_000));
    state.perform_set_balance(owner, word(balance)).unwrap();
    state
}

#[test]
fn decimals_returns_18_for_default_config() {
    let precompile = test_precompile();
    let output = precompile.handle_decimals().expect("decimals must not fail");
    assert_eq!(output.bytes.len(), 32, "ABI-encoded uint8 must be 32 bytes");
    assert_eq!(output.bytes[31], 18, "default decimals must be 18");
}

#[test]
fn name_returns_usd_rayls_for_default_config() {
    let precompile = test_precompile();
    let output = precompile.handle_name().expect("name must not fail");
    assert!(output.bytes.len() >= 64);
    assert_eq!(abi_string_of(&output.bytes), "USD Rayls");
}

#[test]
fn symbol_returns_usdr_for_default_config() {
    let precompile = test_precompile();
    let output = precompile.handle_symbol().expect("symbol must not fail");
    assert!(output.bytes.len() >= 64);
    assert_eq!(abi_string_of(&output.bytes), "USDr");
}

#[test]
fn metadata_handlers_are_infallible() {
    let precompile = test_precompile();
    assert!(precompile.handle_name().is_ok());
    assert!(precompile.handle_symbol().is_ok());
    assert!(precompile.handle_decimals().is_ok());
}

#[test]
fn metadata_handlers_with_custom_config() {
    let config = Erc20TokenConfig {
        name: "Custom Token".to_string(),
        symbol: "CTK".to_string(),
        decimals: 6,
        version: "2.0.0".to_string(),
    };
    let precompile = Erc20Precompile::new(config, erc20_precompile_address(), 42);

    let decimals_out = precompile.handle_decimals().unwrap();
    assert_eq!(decimals_out.bytes[31], 6);

    let name_out = precompile.handle_name().unwrap();
    assert_eq!(abi_string_of(&name_out.bytes), "Custom Token");

    let symbol_out = precompile.handle_symbol().unwrap();
    assert_eq!(abi_string_of(&symbol_out.bytes), "CTK");
}

#[test]
fn name_output_is_padded_abi_string() {
    let out = test_precompile().handle_name().unwrap();
    assert_eq!(out.gas_used, 100);
    assert_eq!(out.bytes.len(), 96);
    assert_eq!(out.bytes[..32].to_vec(), word_bytes(32));
    assert_eq!(out.bytes[32..64].to_vec(), word_bytes(9));
    assert!(out.bytes[73..].iter().all(|b| *b == 0));
}

#[test]
fn default_config_values() {
    let c = Erc20TokenConfig::default();
    assert_eq!(c.name, "USD Rayls");
    assert_eq!(c.symbol, "USDr");
    assert_eq!(c.decimals, 18);
    assert_eq!(c.version, "1.0.0");
}

#[test]
fn domain_separator_matches_eip712() {
    let p = test_precompile();
    let domain = alloy::sol_types::Eip712Domain {
        name: Some("USD Rayls".into()),
        version: Some("1.0.0".into()),
        chain_id: Some(alloy::primitives::U256::from(1u64)),
        verifying_contract: Some(alloy::primitives::Address::from_slice(
            &p.contract_address.to_be_bytes(),
        )),
        salt: None,
    };
    assert_eq!(p.domain_separator.to_be_bytes(), domain.separator().to_vec());
}

#[test]
fn transfer_moves_balance_and_logs() {
    let p = test_precompile();
    let (alice, bob) = (addr(ALICE), addr(BOB));
    let mut state = funded_state(alice, 1_000);
    let out = p.handle_transfer(&mut state, alice, bob, word(300)).unwrap();
    assert_eq!(out.gas_used, GAS_TRANSFER);
    assert_eq!(out.bytes, true_bytes());
    assert_eq!(state.balance(alice), word(700));
    assert_eq!(state.balance(bob), word(300));
    assert!(state.is_touched(alice) && state.is_touched(bob));
    let logs = state.logs();
    assert_eq!(logs.len(), 1);
    assert_eq!(logs[0].topics.len(), 3);
    assert_eq!(logs[0].topics[1], alice.to_word());
    assert_eq!(logs[0].topics[2], bob.to_word());
    assert_eq!(logs[0].data, word_bytes(300));
}

#[test]
fn transfer_to_self_and_zero_amount_are_noops() {
    let p = test_precompile();
    let alice = addr(ALICE);
    let mut state = funded_state(alice, 10);
    assert!(p.handle_transfer(&mut state, alice, alice, word(5)).is_ok());
    assert!(p.handle_transfer(&mut state, alice, addr(BOB), U256::zero()).is_ok());
    assert_eq!(state.balance(alice), word(10));
    assert!(state.logs().is_empty());
}

#[test]
fn transfer_errors() {
    let p = test_precompile();
    let (alice, bob) = (addr(ALICE), addr(BOB));
    let mut state = funded_state(alice, 10);
    let e = p.handle_transfer(&mut state, Address::zero(), bob, word(1)).unwrap_err();
    assert_eq!(e.message(), "Invalid sender: 0x0000000000000000000000000000000000000000");
    let e = p.handle_transfer(&mut state, alice, Address::zero(), word(1)).unwrap_err();
    assert!(matches!(e, ERC20Error::ERC20InvalidReceiver(_)));
    let e = p.handle_transfer(&mut state, alice, bob, word(11)).unwrap_err();
    match e {
        ERC20Error::ERC20InsufficientBalance(a, have, need) => {
            assert_eq!(a, alice);
            assert_eq!(have, word(10));
            assert_eq!(need, word(11));
        }
        other => panic!("unexpected {other:?}"),
    }
    assert_eq!(
        e_message(p.handle_transfer(&mut state, alice, bob, word(11))),
        "Insufficient balance for 0x7E5F4552091A69125d5DfCb7b8C2659029395Bdf: have 10, need 11"
    );
}

fn e_message(r: Result<rayls_execution::precompile::PrecompileOutput, ERC20Error>) -> String {
    r.unwrap_err().message()
}

#[test]
fn transfer_credit_overflow_is_reported() {
    let p = test_precompile();
    let (alice, bob) = (addr(ALICE), addr(BOB));
    let mut state = funded_state(alice, 5);
    state.perform_set_balance(bob, U256::max_value()).unwrap();
    let e = p.handle_transfer(&mut state, alice, bob, word(1)).unwrap_err();
    assert_eq!(e.message(), "ERC20 Error: Balance overflow during Transfer");
}

#[test]
fn approve_then_allowance_reads_back() {
    let p = test_precompile();
    let (alice, bob) = (addr(ALICE), addr(BOB));
    let mut state = InMemoryState::new(U256::zero());
    let out = p.handle_approve(&mut state, alice, bob, word(1234)).unwrap();
    assert_eq!(out.gas_used, GAS_APPROVE);
    let q = p.handle_allowance(&mut state, alice, bob).unwrap();
    assert_eq!(q.gas_used, GAS_ALLOWANCE_QUERY);
    assert_eq!(q.bytes, word_bytes(1234));
    assert_eq!(state.storage_value(p.contract_address, allowance_slot(alice, bob)), word(1234));
    assert!(state.is_touched(p.contract_address));
    let q = p.handle_allowance(&mut state, bob, alice).unwrap();
    assert_eq!(q.bytes, word_bytes(0));
}

#[test]
fn approve_rejects_zero_addresses() {
    let p = test_precompile();
    let mut state = InMemoryState::new(U256::zero());
    let e = p.handle_approve(&mut state, Address::zero(), addr(BOB), word(1)).unwrap_err();
    assert!(matches!(e, ERC20Error::ERC20InvalidApprover(_)));
    let e = p.handle_approve(&mut state, addr(ALICE), Address::zero(), word(1)).unwrap_err();
    assert!(matches!(e, ERC20Error::ERC20InvalidSpender(_)));
}

#[test]
fn transfer_from_spends_allowance() {
    let p = test_precompile();
    let (alice, bob, carol) = (addr(ALICE), addr(BOB), addr(CAROL));
    let mut state = funded_state(alice, 100);
    p.handle_approve(&mut state, alice, bob, word(60)).unwrap();
    let out = p.handle_transfer_from(&mut state, bob, alice, carol, word(40)).unwrap();
    assert_eq!(out.gas_used, GAS_TRANSFER_FROM);
    assert_eq!(state.balance(alice), word(60));
    assert_eq!(state.balance(carol), word(40));
    assert_eq!(p.handle_allowance(&mut state, alice, bob).unwrap().bytes, word_bytes(20));
    let e = p.handle_transfer_from(&mut state, bob, alice, carol, word(21)).unwrap_err();
    match e {
        ERC20Error::ERC20InsufficientAllowance(s, have, need) => {
            assert_eq!(s, bob);
            assert_eq!(have, word(20));
            assert_eq!(need, word(21));
        }
        other => panic!("unexpected {other:?}"),
    }
}

#[test]
fn transfer_from_unlimited_allowance_stays() {
    let p = test_precompile();
    let (alice, bob, carol) = (addr(ALICE), addr(BOB), addr(CAROL));
    let mut state = funded_state(alice, 100);
    p.handle_approve(&mut state, alice, bob, U256::max_value()).unwrap();
    p.handle_transfer_from(&mut state, bob, alice, carol, word(40)).unwrap();
    assert_eq!(
        state.storage_value(p.contract_address, allowance_slot(alice, bob)),
        U256::max_value()
    );
}

#[test]
fn transfer_from_self_transfer_still_spends_allowance() {
    let p = test_precompile();
    let (alice, bob) = (addr(ALICE), addr(BOB));
    let mut state = funded_state(alice, 100);
    p.handle_approve(&mut state, alice, bob, word(50)).unwrap();
    p.handle_transfer_from(&mut state, bob, alice, alice, word(30)).unwrap();
    assert_eq!(state.balance(alice), word(100));
    assert_eq!(p.handle_allowance(&mut state, alice, bob).unwrap().bytes, word_bytes(20));
}

#[test]
fn mint_and_burn_move_supply() {
    let p = test_precompile();
    let minter = minting_module_address();
    let alice = addr(ALICE);
    let mut state = InMemoryState::new(U256::zero());
    let out = p.handle_mint(&mut state, minter, alice, word(500)).unwrap();
    assert_eq!(out.gas_used, GAS_MINT);
    assert_eq!(state.balance(alice), word(500));
    let ts = p.handle_total_supply(&mut state).unwrap();
    assert_eq!(ts.gas_used, GAS_TOTAL_SUPPLY);
    assert_eq!(ts.bytes, word_bytes(500));
    assert_eq!(state.logs().len(), 2);

    p.handle_mint(&mut state, minter, minter, word(100)).unwrap();
    let out = p.handle_burn(&mut state, minter, word(30)).unwrap();
    assert_eq!(out.gas_used, GAS_BURN);
    assert_eq!(state.balance(minter), word(70));
    assert_eq!(state.storage_value(p.contract_address, total_supply_slot()), word(570));
    let b = p.handle_balance_of(&mut state, minter).unwrap();
    assert_eq!(b.gas_used, GAS_BALANCE_QUERY);
    assert_eq!(b.bytes, word_bytes(70));
}

#[test]
fn mint_and_burn_errors() {
    let p = test_precompile();
    let minter = minting_module_address();
    let alice = addr(ALICE);
    let mut state = InMemoryState::new(U256::zero());
    let e = p.handle_mint(&mut state, alice, alice, word(1)).unwrap_err();
    assert!(matches!(e, ERC20Error::NotWhitelisted(a) if a == alice));
    let e = p.handle_mint(&mut state, minter, Address::zero(), word(1)).unwrap_err();
    assert!(matches!(e, ERC20Error::ERC20InvalidReceiver(_)));
    let e = p.handle_mint(&mut state, minter, alice, U256::zero()).unwrap_err();
    assert_eq!(e.message(), "ERC20 Error: Cannot Mint zero amount");
    let e = p.handle_burn(&mut state, minter, U256::zero()).unwrap_err();
    assert_eq!(e.message(), "ERC20 Error: Cannot Burn zero amount");
    let e = p.handle_burn(&mut state, minter, word(1)).unwrap_err();
    assert!(matches!(e, ERC20Error::ERC20InsufficientBalance(..)));
    let e = p.handle_burn(&mut state, alice, word(1)).unwrap_err();
    assert!(matches!(e, ERC20Error::NotWhitelisted(_)));
    state.perform_set_balance(minter, word(10)).unwrap();
    let e = p.handle_burn(&mut state, minter, word(5)).unwrap_err();
    assert_eq!(e.message(), "ERC20 Error: TotalSupply overflow during Burn");
    let mut full = InMemoryState::new(U256::zero());
    full.perform_sstore(p.contract_address, total_supply_slot(), U256::max_value()).unwrap();
    let e = p.handle_mint(&mut full, minter, alice, word(1)).unwrap_err();
    assert_eq!(e.message(), "ERC20 Error: TotalSupply overflow during Mint");
}

#[test]
fn burn_from_needs_allowance() {
    let p = test_precompile();
    let minter = minting_module_address();
    let alice = addr(ALICE);
    let mut state = InMemoryState::new(U256::zero());
    p.handle_mint(&mut state, minter, alice, word(100)).unwrap();
    let e = p.handle_burn_from(&mut state, minter, alice, word(10)).unwrap_err();
    assert!(matches!(e, ERC20Error::ERC20InsufficientAllowance(..)));
    p.handle_approve(&mut state, alice, minter, word(25)).unwrap();
    p.handle_burn_from(&mut state, minter, alice, word(10)).unwrap();
    assert_eq!(state.balance(alice), word(90));
    assert_eq!(state.storage_value(p.contract_address, total_supply_slot()), word(90));
    assert_eq!(p.handle_allowance(&mut state, alice, minter).unwrap().bytes, word_bytes(15));
    let e = p.handle_burn_from(&mut state, minter, Address::zero(), word(1)).unwrap_err();
    assert!(matches!(e, ERC20Error::ERC20InvalidSender(_)));
    let e = p.handle_burn_from(&mut state, addr(BOB), alice, word(1)).unwrap_err();
    assert!(matches!(e, ERC20Error::NotWhitelisted(_)));
}

#[test]
fn burn_from_spends_the_owners_approval_only() {
    let p = test_precompile();
    let minter = minting_module_address();
    let alice = addr(ALICE);
    let mut state = InMemoryState::new(U256::zero());
    p.handle_mint(&mut state, minter, alice, word(100)).unwrap();
    // The minting module approving the account grants the burn nothing.
    p.handle_approve(&mut state, minter, alice, word(40)).unwrap();
    let e = p.handle_burn_from(&mut state, minter, alice, word(30)).unwrap_err();
    assert!(matches!(e, ERC20Error::ERC20InsufficientAllowance(s, have, need)
        if s == minter && have == U256::zero() && need == word(30)));
    // The account approving the minting module does.
    p.handle_approve(&mut state, alice, minter, word(40)).unwrap();
    p.handle_burn_from(&mut state, minter, alice, word(30)).unwrap();
    assert_eq!(p.handle_allowance(&mut state, alice, minter).unwrap().bytes, word_bytes(10));
}

#[test]
fn revert_bytes_are_error_string() {
    let e = ERC20Error::other("boom".to_string());
    let bytes = e.to_revert_bytes();
    assert_eq!(&bytes[..4], &[0x08, 0xc3, 0x79, 0xa0]);
    assert_eq!(abi_string_of(&bytes[4..]), "ERC20 Error: boom");
}
