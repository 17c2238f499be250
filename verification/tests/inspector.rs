use alloy::primitives::keccak256;
use rayls_execution::address::Address;
use rayls_execution::inspector::{
    reject_outcome, CallInputs, CompositeInspector, InstructionResult, NativeErc20Inspector,
};
use rayls_execution::precompile::{erc20_precompile_address, Erc20Precompile, Erc20TokenConfig};
use rayls_execution::state::{InMemoryState, StateAccessAdapter};
use rayls_execution::uint::U256;

fn addr(hex: &str) -> Address {
    let h = hex.trim_start_matches("0x");
    Address {
        hi: u32::from_str_radix(&h[0..8], 16).unwrap(),
        lo: u128::from_str_radix(&h[8..40], 16).unwrap(),
    }
}

fn inspector() -> NativeErc20Inspector {
    NativeErc20Inspector::new(Erc20Precompile::new(
        Erc20TokenConfig::default(),
        erc20_precompile_address(),
        1,
    ))
}

fn calldata(sig: &str, words: &[Vec<u8>]) -> Vec<u8> {
    let mut d = keccak256(sig)[..4].to_vec();
    for w in words {
        d.extend(w);
    }
    d
}

fn aw(a: Address) -> Vec<u8> {
    a.to_word().to_be_bytes()
}

fn nw(v: u128) -> Vec<u8> {
    U256::from_u128(v).to_be_bytes()
}

fn call_to_precompile(caller: Address, input: Vec<u8>) -> CallInputs {
    CallInputs {
        caller,
        target_address: erc20_precompile_address(),
        input,
        value: U256::zero(),
        is_static: false,
        gas_limit: 100_000,
    }
}

const ALICE: &str = "7E5F4552091A69125d5DfCb7b8C2659029395Bdf";
const BOB: &str = "2B5AD5c4795c026514f8317c7a215E218DcCD6cF";

#[test]
fn transfer_call_is_served_with_legacy_gas() {
    let (alice, bob) = (addr(ALICE), addr(BOB));
    let mut state = InMemoryState::new(U256::zero());
    state.perform_set_balance(alice, U256::from_u64(100)).unwrap();
    let input = calldata("transfer(address,uint256)", &[aw(bob), nw(40)]);
    let out = inspector().call(&mut state, &call_to_precompile(alice, input), false).unwrap();
    assert_eq!(out.result, InstructionResult::Return);
    assert_eq!(out.gas, 9000);
    assert_eq!(out.output, nw(1));
    assert_eq!(state.balance(bob), U256::from_u64(40));
    assert!(state.is_touched(erc20_precompile_address()));
}

#[test]
fn calls_elsewhere_or_after_fix_pass_through() {
    let alice = addr(ALICE);
    let mut state = InMemoryState::new(U256::zero());
    let mut inputs = call_to_precompile(alice, calldata("totalSupply()", &[]));
    assert!(inspector().call(&mut state, &inputs, true).is_none());
    assert!(state.is_touched(erc20_precompile_address()));
    assert!(inspector().call(&mut state, &inputs, false).is_none());
    inputs.target_address = addr(BOB);
    let mut fresh = InMemoryState::new(U256::zero());
    assert!(inspector().call(&mut fresh, &inputs, false).is_none());
    assert!(!fresh.is_touched(erc20_precompile_address()));
    let unknown = call_to_precompile(alice, vec![0xde, 0xad, 0xbe, 0xef]);
    assert!(inspector().call(&mut fresh, &unknown, false).is_none());
}

#[test]
fn value_and_static_mutation_are_rejected() {
    let alice = addr(ALICE);
    let mut state = InMemoryState::new(U256::zero());
    let mut inputs = call_to_precompile(alice, calldata("approve(address,uint256)", &[aw(addr(BOB)), nw(1)]));
    inputs.value = U256::from_u64(1);
    inputs.gas_limit = 1000;
    let out = inspector().call(&mut state, &inputs, false).unwrap();
    assert_eq!(out.result, InstructionResult::Revert);
    assert_eq!(out.output, b"ERC-20 precompile rejects native value transfer".to_vec());
    assert_eq!(out.gas, 1000);
    inputs.value = U256::zero();
    inputs.is_static = true;
    inputs.gas_limit = 50_000;
    let out = inspector().call(&mut state, &inputs, false).unwrap();
    assert_eq!(out.output, b"ERC-20 state mutation forbidden under static call".to_vec());
    assert_eq!(out.gas, 2100);
    let read = CallInputs {
        is_static: true,
        ..call_to_precompile(alice, calldata("balanceOf(address)", &[aw(alice)]))
    };
    let out = inspector().call(&mut state, &read, false).unwrap();
    assert_eq!(out.result, InstructionResult::Return);
    assert_eq!(out.gas, 400);
}

#[test]
fn short_calldata_reverts_with_decode_error() {
    let alice = addr(ALICE);
    let mut state = InMemoryState::new(U256::zero());
    let inputs = call_to_precompile(alice, calldata("transfer(address,uint256)", &[aw(addr(BOB))]));
    let out = inspector().call(&mut state, &inputs, false).unwrap();
    assert_eq!(out.result, InstructionResult::Revert);
    assert_eq!(out.gas, 2100);
    let expected = rayls_execution::abi::encode_revert_reason("ERC20 Error: transfer");
    assert_eq!(out.output, expected);
    let inputs = call_to_precompile(
        alice,
        calldata(
            "cancelAuthorization(address,bytes32,uint8,bytes32,bytes32)",
            &[aw(alice), nw(1)],
        ),
    );
    let out = inspector().call(&mut state, &inputs, false).unwrap();
    assert_eq!(
        out.output,
        rayls_execution::abi::encode_revert_reason("ERC20 Error: Failed to decode params: Overrun")
    );
}

#[test]
fn handler_error_reverts_with_reason() {
    let (alice, bob) = (addr(ALICE), addr(BOB));
    let mut state = InMemoryState::new(U256::zero());
    let inputs = call_to_precompile(alice, calldata("transfer(address,uint256)", &[aw(bob), nw(5)]));
    let out = inspector().call(&mut state, &inputs, false).unwrap();
    assert_eq!(out.result, InstructionResult::Revert);
    let expected = rayls_execution::abi::encode_revert_reason(
        "Insufficient balance for 0x7E5F4552091A69125d5DfCb7b8C2659029395Bdf: have 0, need 5",
    );
    assert_eq!(out.output, expected);
}

#[test]
fn call_end_logs_native_value_transfers() {
    let (alice, bob) = (addr(ALICE), addr(BOB));
    let mut state = InMemoryState::new(U256::zero());
    let mut inputs = call_to_precompile(alice, vec![]);
    inputs.target_address = bob;
    inputs.value = U256::from_u64(9);
    inspector().call_end(&mut state, &inputs, true);
    assert_eq!(state.logs().len(), 1);
    assert_eq!(state.logs()[0].address, erc20_precompile_address());
    inspector().call_end(&mut state, &inputs, false);
    inputs.target_address = erc20_precompile_address();
    inspector().call_end(&mut state, &inputs, true);
    assert_eq!(state.logs().len(), 1);
}

#[test]
fn create_end_logs_value_to_new_contract() {
    let (alice, bob) = (addr(ALICE), addr(BOB));
    let mut state = InMemoryState::new(U256::zero());
    inspector().create_end(&mut state, alice, U256::from_u64(3), Some(bob), true);
    assert_eq!(state.logs().len(), 1);
    inspector().create_end(&mut state, alice, U256::zero(), Some(bob), true);
    inspector().create_end(&mut state, alice, U256::from_u64(3), None, true);
    inspector().create_end(&mut state, alice, U256::from_u64(3), Some(bob), false);
    assert_eq!(state.logs().len(), 1);
}

#[test]
fn reject_outcome_caps_gas() {
    let r = reject_outcome(b"x", 10);
    assert_eq!(r.gas, 10);
    assert_eq!(r.output, b"x".to_vec());
    assert_eq!(reject_outcome(b"x", 10_000).gas, 2100);
}

#[test]
fn composite_inspector_keeps_parts() {
    let mut c = CompositeInspector::new(inspector(), 5u32);
    assert_eq!(*c.inner(), 5);
    *c.inner_mut() = 6;
    assert_eq!(*c.inner(), 6);
    assert_eq!(c.native_erc20().precompile.decimals, 18);
}

#[test]
fn legacy_call_path_installs_stop_code_once() {
    let alice = addr(ALICE);
    let p = erc20_precompile_address();
    let mut state = InMemoryState::new(U256::zero());
    let input = calldata("balanceOf(address)", &[aw(alice)]);
    // After the gas fix, the call passes through and the account only gets touched.
    assert!(inspector().call(&mut state, &call_to_precompile(alice, input.clone()), true).is_none());
    assert!(state.is_touched(p));
    assert!(state.code(p).is_empty());
    // Before it, the precompile account is given `STOP` code.
    let served = inspector().call(&mut state, &call_to_precompile(alice, input.clone()), false);
    assert!(served.is_some());
    assert_eq!(state.code(p), vec![0x00]);
    // Existing code is left as it is.
    let mut other = InMemoryState::new(U256::zero());
    other.perform_set_code(p, vec![0x60, 0x00]).unwrap();
    inspector().call(&mut other, &call_to_precompile(alice, input), false);
    assert_eq!(other.code(p), vec![0x60, 0x00]);
}
