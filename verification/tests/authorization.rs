use alloy::primitives::keccak256;
use k256::ecdsa::SigningKey;
use rayls_execution::address::Address;
use rayls_execution::eip3009::{verify_cancel_authorization, verify_transfer_authorization};
use rayls_execution::errors::ERC20Error;
use rayls_execution::precompile::{
    erc20_precompile_address, Erc20Precompile, Erc20TokenConfig, GAS_CANCEL_AUTHORIZATION,
    GAS_RECEIVE_WITH_AUTHORIZATION, GAS_TRANSFER_WITH_AUTHORIZATION,
};
use rayls_execution::state::{InMemoryState, StateAccessAdapter};
use rayls_execution::uint::U256;

fn address_of(key: &SigningKey) -> Address {
    let a = alloy::primitives::Address::from_public_key(key.verifying_key());
    Address::from_be_bytes(a.as_slice())
}

fn key(n: u8) -> SigningKey {
    let mut b = [0u8; 32];
    b[31] = n;
    SigningKey::from_slice(&b).unwrap()
}

fn w(v: u128) -> U256 {
    U256::from_u128(v)
}

fn word_of(bytes: &[u8]) -> U256 {
    U256::from_be_bytes(bytes)
}

fn pad(a: Address) -> Vec<u8> {
    a.to_word().to_be_bytes()
}

fn transfer_struct_hash(from: Address, to: Address, value: U256, after: U256, before: U256, nonce: U256) -> Vec<u8> {
    let typehash = keccak256(
        "TransferWithAuthorizationStruct(address from,address to,uint256 value,uint256 validAfter,uint256 validBefore,bytes32 nonce)",
    );
    let mut buf = typehash.to_vec();
    buf.extend(pad(from));
    buf.extend(pad(to));
    buf.extend(value.to_be_bytes());
    buf.extend(after.to_be_bytes());
    buf.extend(before.to_be_bytes());
    buf.extend(nonce.to_be_bytes());
    keccak256(&buf).to_vec()
}

fn cancel_struct_hash(authorizer: Address, nonce: U256) -> Vec<u8> {
    let typehash = keccak256("CancelAuthorizationStruct(address authorizer,bytes32 nonce)");
    let mut buf = typehash.to_vec();
    buf.extend(pad(authorizer));
    buf.extend(nonce.to_be_bytes());
    keccak256(&buf).to_vec()
}

fn signing_hash(domain: U256, struct_hash: &[u8]) -> Vec<u8> {
    let mut buf = vec![0x19u8, 0x01];
    buf.extend(domain.to_be_bytes());
    buf.extend(struct_hash);
    keccak256(&buf).to_vec()
}

fn sign(key: &SigningKey, digest: &[u8]) -> (u8, U256, U256) {
    let (sig, recid) = key.sign_prehash_recoverable(digest).unwrap();
    let bytes = sig.to_bytes();
    (27 + recid.to_byte(), word_of(&bytes[..32]), word_of(&bytes[32..]))
}

fn setup() -> (Erc20Precompile, SigningKey, Address, Address, InMemoryState) {
    let p = Erc20Precompile::new(Erc20TokenConfig::default(), erc20_precompile_address(), 7);
    let k = key(1);
    let from = address_of(&k);
    let to = address_of(&key(2));
    let mut state = InMemoryState::new(w(1_000));
    state.perform_set_balance(from, w(500)).unwrap();
    (p, k, from, to, state)
}

#[test]
fn typehash_constants_match_signatures() {
    assert_eq!(
        hex_of(&keccak256("TransferWithAuthorizationStruct(address from,address to,uint256 value,uint256 validAfter,uint256 validBefore,bytes32 nonce)").to_vec()),
        "e1c93bb35db97f6d68c368171f79d81bc25074dd0149115a087715ccb1eb3c82"
    );
    assert_eq!(
        hex_of(&keccak256("CancelAuthorizationStruct(address authorizer,bytes32 nonce)").to_vec()),
        "899b6dc30da6dc1316358bcfaca91b86f75e3907511d454d70237f2385a68d3e"
    );
}

fn hex_of(b: &[u8]) -> String {
    b.iter().map(|x| format!("{x:02x}")).collect()
}

#[test]
fn verify_transfer_authorization_recovers_signer() {
    let (p, k, from, to, _) = setup();
    let nonce = w(42);
    let h = transfer_struct_hash(from, to, w(10), w(0), w(5_000), nonce);
    let (v, r, s) = sign(&k, &signing_hash(p.domain_separator, &h));
    let signer = verify_transfer_authorization(p.domain_separator, from, to, w(10), w(0), w(5_000), nonce, v, r, s).unwrap();
    assert_eq!(signer, from);
    let other = verify_transfer_authorization(p.domain_separator, from, to, w(11), w(0), w(5_000), nonce, v, r, s).unwrap();
    assert_ne!(other, from);
}

#[test]
fn verify_rejects_bad_v_and_high_s() {
    let (p, _, from, to, _) = setup();
    let e = verify_transfer_authorization(p.domain_separator, from, to, w(1), w(0), w(1), w(1), 29, w(1), w(1)).unwrap_err();
    assert_eq!(e.message(), "ERC20 Error: Invalid signature");
    // Just above half the group order.
    let high = U256 { hi: 0x7fffffffffffffffffffffffffffffff, lo: 0x5d576e7357a4501ddfe92f46681b20a1 };
    let e = verify_cancel_authorization(p.domain_separator, from, w(1), 27, w(1), high).unwrap_err();
    assert!(matches!(e, ERC20Error::SignatureMalleability));
    // Half the group order itself is a low `s`.
    let half = U256 { hi: 0x7fffffffffffffffffffffffffffffff, lo: 0x5d576e7357a4501ddfe92f46681b20a0 };
    let r = verify_cancel_authorization(p.domain_separator, from, w(1), 27, w(1), half);
    assert!(!matches!(r, Err(ERC20Error::SignatureMalleability)));
    let between = U256 { hi: 0x7fffffffffffffffffffffffffffffff, lo: 0 };
    let r = verify_cancel_authorization(p.domain_separator, from, w(1), 27, w(1), between);
    assert!(!matches!(r, Err(ERC20Error::SignatureMalleability)));
}

#[test]
fn transfer_with_authorization_then_replay_fails() {
    let (p, k, from, to, mut state) = setup();
    let nonce = w(0xabcdef);
    let h = transfer_struct_hash(from, to, w(100), w(0), w(5_000), nonce);
    let (v, r, s) = sign(&k, &signing_hash(p.domain_separator, &h));
    let out = p
        .handle_transfer_with_authorization(&mut state, from, to, w(100), w(0), w(5_000), nonce, v, r, s)
        .unwrap();
    assert_eq!(out.gas_used, GAS_TRANSFER_WITH_AUTHORIZATION);
    assert_eq!(state.balance(from), w(400));
    assert_eq!(state.balance(to), w(100));
    assert_eq!(state.logs().len(), 2);
    assert!(p.is_authorization_nonce_used(&mut state, from, nonce).unwrap());
    let e = p
        .handle_transfer_with_authorization(&mut state, from, to, w(100), w(0), w(5_000), nonce, v, r, s)
        .unwrap_err();
    assert!(matches!(e, ERC20Error::AuthorizationAlreadyUsed(n) if n == nonce));
    assert_eq!(state.balance(from), w(400));
}

#[test]
fn transfer_with_authorization_time_window() {
    let (p, k, from, to, mut state) = setup();
    let nonce = w(1);
    let h = transfer_struct_hash(from, to, w(1), w(2_000), w(3_000), nonce);
    let (v, r, s) = sign(&k, &signing_hash(p.domain_separator, &h));
    let e = p
        .handle_transfer_with_authorization(&mut state, from, to, w(1), w(2_000), w(3_000), nonce, v, r, s)
        .unwrap_err();
    assert_eq!(e.message(), "Authorization not yet valid: validAfter 2000, currentTime 1000");
    // The window opens strictly after `validAfter`.
    state.set_timestamp(w(2_000));
    let e = p
        .handle_transfer_with_authorization(&mut state, from, to, w(1), w(2_000), w(3_000), nonce, v, r, s)
        .unwrap_err();
    assert_eq!(e.message(), "Authorization not yet valid: validAfter 2000, currentTime 2000");
    state.set_timestamp(w(3_000));
    let e = p
        .handle_transfer_with_authorization(&mut state, from, to, w(1), w(2_000), w(3_000), nonce, v, r, s)
        .unwrap_err();
    assert_eq!(e.message(), "Authorization expired: validBefore: 3000, currentTime: 3000");
    state.set_timestamp(w(2_500));
    assert!(p
        .handle_transfer_with_authorization(&mut state, from, to, w(1), w(2_000), w(3_000), nonce, v, r, s)
        .is_ok());
}

#[test]
fn transfer_with_authorization_wrong_signer() {
    let (p, _, from, to, mut state) = setup();
    let nonce = w(9);
    let h = transfer_struct_hash(from, to, w(1), w(0), w(5_000), nonce);
    let (v, r, s) = sign(&key(3), &signing_hash(p.domain_separator, &h));
    let e = p
        .handle_transfer_with_authorization(&mut state, from, to, w(1), w(0), w(5_000), nonce, v, r, s)
        .unwrap_err();
    match e {
        ERC20Error::InvalidAuthorizer(sender, signer) => {
            assert_eq!(sender, from);
            assert_eq!(signer, address_of(&key(3)));
        }
        other => panic!("unexpected {other:?}"),
    }
    assert!(!p.is_authorization_nonce_used(&mut state, from, nonce).unwrap());
}

#[test]
fn receive_with_authorization_requires_receiver_caller() {
    let (p, k, from, to, mut state) = setup();
    let nonce = w(77);
    let h = transfer_struct_hash(from, to, w(5), w(0), w(5_000), nonce);
    let (v, r, s) = sign(&k, &signing_hash(p.domain_separator, &h));
    let e = p
        .handle_receive_with_authorization(&mut state, from, from, to, w(5), w(0), w(5_000), nonce, v, r, s)
        .unwrap_err();
    assert!(matches!(e, ERC20Error::CallerNotReceiver(..)));
    let out = p
        .handle_receive_with_authorization(&mut state, to, from, to, w(5), w(0), w(5_000), nonce, v, r, s)
        .unwrap();
    assert_eq!(out.gas_used, GAS_RECEIVE_WITH_AUTHORIZATION);
    assert_eq!(state.balance(to), w(5));
}

#[test]
fn cancel_authorization_blocks_later_use() {
    let (p, k, from, to, mut state) = setup();
    let nonce = w(5);
    let (v, r, s) = sign(&k, &signing_hash(p.domain_separator, &cancel_struct_hash(from, nonce)));
    let out = p.handle_cancel_authorization(&mut state, from, nonce, v, r, s).unwrap();
    assert_eq!(out.gas_used, GAS_CANCEL_AUTHORIZATION);
    let h = transfer_struct_hash(from, to, w(1), w(0), w(5_000), nonce);
    let (v2, r2, s2) = sign(&k, &signing_hash(p.domain_separator, &h));
    let e = p
        .handle_transfer_with_authorization(&mut state, from, to, w(1), w(0), w(5_000), nonce, v2, r2, s2)
        .unwrap_err();
    assert!(matches!(e, ERC20Error::AuthorizationAlreadyUsed(_)));
    let e = p.handle_cancel_authorization(&mut state, from, nonce, v, r, s).unwrap_err();
    assert!(matches!(e, ERC20Error::AuthorizationAlreadyUsed(_)));
}

#[test]
fn complete_authorized_transfer_with_given_signer() {
    let (p, _, from, to, mut state) = setup();
    let out = p
        .complete_authorized_transfer(&mut state, from, to, w(50), w(3), Ok(from), 1234)
        .unwrap();
    assert_eq!(out.gas_used, 1234);
    assert_eq!(state.balance(to), w(50));
    let e = p
        .complete_authorized_transfer(&mut state, from, to, w(50), w(4), Ok(to), 1234)
        .unwrap_err();
    assert!(matches!(e, ERC20Error::InvalidAuthorizer(..)));
    let e = p
        .complete_authorized_transfer(&mut state, from, to, w(50), w(4), Err(ERC20Error::InvalidSignature), 1)
        .unwrap_err();
    assert!(matches!(e, ERC20Error::InvalidSignature));
    let out = p.complete_cancel_authorization(&mut state, from, w(4), Ok(from)).unwrap();
    assert_eq!(out.gas_used, GAS_CANCEL_AUTHORIZATION);
    assert!(p.is_authorization_nonce_used(&mut state, from, w(4)).unwrap());
}
