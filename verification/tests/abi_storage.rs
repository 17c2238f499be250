use alloy::primitives::keccak256;
use rayls_execution::abi::{
    encode_bool, encode_revert_reason, encode_string, encode_uint256, encode_uint8, AbiError,
    Erc20Selector,
};
use rayls_execution::address::Address;
use rayls_execution::errors::{ERC20Error, ERC20Method, ERC20Resource};
use rayls_execution::events::{encode_approval_event, encode_transfer_event};
use rayls_execution::storage::{
    allowance_slot, allowances_base_slot_word, authorization_nonce_slot, mapping_slot_address,
    total_supply_slot,
};
use rayls_execution::text::{address_string, b256_string, u256_string};
use rayls_execution::uint::U256;

fn addr(hex: &str) -> Address {
    let h = hex.trim_start_matches("0x");
    Address {
        hi: u32::from_str_radix(&h[0..8], 16).unwrap(),
        lo: u128::from_str_radix(&h[8..40], 16).unwrap(),
    }
}

fn selector_of(sig: &str) -> Vec<u8> {
    keccak256(sig)[..4].to_vec()
}

#[test]
fn test_total_supply_slot_consistency() {
    let slot1 = total_supply_slot();
    let slot2 = total_supply_slot();
    assert_eq!(slot1, slot2);
    let owner = addr("7E5F4552091A69125d5DfCb7b8C2659029395Bdf");
    let spender = addr("2B5AD5c4795c026514f8317c7a215E218DcCD6cF");
    let allowance = allowance_slot(owner, spender);
    assert_ne!(slot1, allowance);
}

#[test]
fn test_allowance_slot_uniqueness() {
    let owner1 = addr("7E5F4552091A69125d5DfCb7b8C2659029395Bdf");
    let owner2 = addr("2B5AD5c4795c026514f8317c7a215E218DcCD6cF");
    let spender1 = addr("6813Eb9362372EEF6200f3b1dbC3f819671cBA69");
    let spender2 = addr("0000000000000000000000000000000000000004");
    let slot1 = allowance_slot(owner1, spender1);
    let slot2 = allowance_slot(owner1, spender2);
    let slot3 = allowance_slot(owner2, spender1);
    assert_ne!(slot1, slot2);
    assert_ne!(slot1, slot3);
    assert_ne!(slot2, slot3);
    let slot1_again = allowance_slot(owner1, spender1);
    assert_eq!(slot1, slot1_again);
}

#[test]
fn test_total_supply_slot_hash() {
    const TOTAL_SUPPLY_PREFIX: [u8; 32] = *b"TOTAL_SUPPLY_V1__________STORAGE";
    let expected_hash = keccak256(TOTAL_SUPPLY_PREFIX);
    let expected_slot = U256::from_be_bytes(expected_hash.as_slice());
    assert_eq!(
        total_supply_slot(),
        expected_slot,
        "total_supply_slot() const value doesn't match keccak256 hash"
    );
}

#[test]
fn test_storage_slot_layout() {
    assert_eq!(allowances_base_slot_word(), U256::from_u64(1));
    assert!(U256::from_u64(100).lt(&total_supply_slot()));
    assert_ne!(total_supply_slot(), allowances_base_slot_word());
    assert_ne!(total_supply_slot(), U256::from_u64(5));
}

#[test]
fn allowance_slot_is_solidity_nested_mapping() {
    let owner = addr("7E5F4552091A69125d5DfCb7b8C2659029395Bdf");
    let spender = addr("2B5AD5c4795c026514f8317c7a215E218DcCD6cF");
    let mut inner = owner.to_word().to_be_bytes();
    inner.extend(U256::from_u64(1).to_be_bytes());
    let inner_slot = keccak256(&inner);
    let mut outer = spender.to_word().to_be_bytes();
    outer.extend(inner_slot.to_vec());
    assert_eq!(allowance_slot(owner, spender).to_be_bytes(), keccak256(&outer).to_vec());
    assert_eq!(
        mapping_slot_address(owner, U256::from_u64(1)).to_be_bytes(),
        inner_slot.to_vec()
    );
}

#[test]
fn nonce_slot_is_nested_bytes32_mapping() {
    let authorizer = addr("7E5F4552091A69125d5DfCb7b8C2659029395Bdf");
    let nonce = U256::from_u128(0xdead_beef);
    let mut inner = authorizer.to_word().to_be_bytes();
    inner.extend(U256::from_u64(5).to_be_bytes());
    let inner_slot = keccak256(&inner);
    let mut outer = nonce.to_be_bytes();
    outer.extend(inner_slot.to_vec());
    assert_eq!(
        authorization_nonce_slot(authorizer, nonce).to_be_bytes(),
        keccak256(&outer).to_vec()
    );
}

#[test]
fn selectors_match_signatures() {
    let cases = [
        (Erc20Selector::Name, "name()"),
        (Erc20Selector::Symbol, "symbol()"),
        (Erc20Selector::Decimals, "decimals()"),
        (Erc20Selector::TotalSupply, "totalSupply()"),
        (Erc20Selector::BalanceOf, "balanceOf(address)"),
        (Erc20Selector::Allowance, "allowance(address,address)"),
        (Erc20Selector::Transfer, "transfer(address,uint256)"),
        (Erc20Selector::Approve, "approve(address,uint256)"),
        (Erc20Selector::TransferFrom, "transferFrom(address,address,uint256)"),
        (Erc20Selector::Mint, "mint(address,uint256)"),
        (Erc20Selector::Burn, "burn(uint256)"),
        (Erc20Selector::BurnFrom, "burnFrom(address,uint256)"),
        (
            Erc20Selector::TransferWithAuthorization,
            "transferWithAuthorization(address,address,uint256,uint256,uint256,bytes32,uint8,bytes32,bytes32)",
        ),
        (
            Erc20Selector::ReceiveWithAuthorization,
            "receiveWithAuthorization(address,address,uint256,uint256,uint256,bytes32,uint8,bytes32,bytes32)",
        ),
        (Erc20Selector::CancelAuthorization, "cancelAuthorization(address,bytes32,uint8,bytes32,bytes32)"),
    ];
    for (sel, sig) in cases {
        assert_eq!(sel.selector(), selector_of(sig), "{sig}");
        let mut data = selector_of(sig);
        data.extend([1u8, 2, 3]);
        assert_eq!(Erc20Selector::from_calldata(&data), Some(sel));
    }
}

#[test]
fn from_calldata_rejects_short_and_unknown() {
    assert_eq!(Erc20Selector::from_calldata(&[0xa9, 0x05, 0x9c]), None);
    assert_eq!(Erc20Selector::from_calldata(&[0, 0, 0, 0]), None);
}

#[test]
fn get_params_strips_selector() {
    assert_eq!(Erc20Selector::get_params(&[1, 2, 3, 4, 5, 6]), &[5, 6]);
    assert!(Erc20Selector::get_params(&[1, 2, 3, 4]).is_empty());
    assert!(Erc20Selector::get_params(&[1]).is_empty());
}

#[test]
fn state_mutating_classification() {
    assert!(!Erc20Selector::Name.is_state_mutating());
    assert!(!Erc20Selector::BalanceOf.is_state_mutating());
    assert!(!Erc20Selector::Allowance.is_state_mutating());
    assert!(Erc20Selector::Transfer.is_state_mutating());
    assert!(Erc20Selector::Burn.is_state_mutating());
    assert!(Erc20Selector::CancelAuthorization.is_state_mutating());
}

#[test]
fn return_value_encodings() {
    let v = encode_uint256(U256::from_u128(0x1234));
    assert_eq!(v.len(), 32);
    assert_eq!(&v[30..], &[0x12, 0x34]);
    let t = encode_bool(true);
    assert_eq!(t[31], 1);
    assert!(t[..31].iter().all(|b| *b == 0));
    assert_eq!(encode_bool(false), vec![0u8; 32]);
    assert_eq!(encode_uint8(200)[31], 200);
    let s = encode_string("hello");
    assert_eq!(s.len(), 96);
    assert_eq!(s[31], 0x20);
    assert_eq!(s[63], 5);
    assert_eq!(&s[64..69], b"hello");
    assert_eq!(encode_string("").len(), 64);
    assert_eq!(encode_string(&"x".repeat(32)).len(), 96);
    assert_eq!(encode_string(&"x".repeat(33)).len(), 128);
}

#[test]
fn revert_reason_encoding() {
    let r = encode_revert_reason("nope");
    assert_eq!(&r[..4], &[0x08, 0xc3, 0x79, 0xa0]);
    assert_eq!(r.len(), 4 + 96);
    assert_eq!(&r[4 + 64..4 + 68], b"nope");
}

#[test]
fn error_messages() {
    assert_eq!(
        ERC20Error::overflow_error(ERC20Resource::Allowance, ERC20Method::Burn).message(),
        "ERC20 Error: Allowance overflow during Burn"
    );
    assert_eq!(
        ERC20Error::read_error(ERC20Resource::Nonce, "db gone".to_string()).message(),
        "ERC20 Error: Failed to read Nonce: db gone"
    );
    assert_eq!(
        ERC20Error::write_error(
            ERC20Resource::Account(addr("2B5AD5c4795c026514f8317c7a215E218DcCD6cF")),
            "x".to_string()
        )
        .message(),
        "ERC20 Error: Failed to write Account(0x2B5AD5c4795c026514f8317c7a215E218DcCD6cF): x"
    );
    assert_eq!(
        ERC20Error::initialize_error(ERC20Resource::TotalSupply, "y".to_string()).message(),
        "ERC20 Error: Failed to initialize TotalSupply: y"
    );
    assert_eq!(ERC20Error::SignatureMalleability.message(), "Signature malleability detected");
    assert_eq!(
        ERC20Error::AuthorizationAlreadyUsed(U256::from_u64(1)).message(),
        "Authorization already used: nonce: 0x0000000000000000000000000000000000000000000000000000000000000001"
    );
    assert_eq!(AbiError::UnknownSelector.message(), "Unknown method selector");
    assert_eq!(AbiError::InvalidInput("z".to_string()).message(), "Invalid ABI input: z");
}

#[test]
fn event_topics_match_signatures() {
    let a = addr("7E5F4552091A69125d5DfCb7b8C2659029395Bdf");
    let b = addr("2B5AD5c4795c026514f8317c7a215E218DcCD6cF");
    let t = encode_transfer_event(a, a, b, U256::from_u64(7));
    assert_eq!(t.topics[0].to_be_bytes(), keccak256("Transfer(address,address,uint256)").to_vec());
    let ap = encode_approval_event(a, a, b, U256::from_u64(7));
    assert_eq!(ap.topics[0].to_be_bytes(), keccak256("Approval(address,address,uint256)").to_vec());
    let m = rayls_execution::events::encode_mint_event(a, b, U256::from_u64(1));
    assert_eq!(m.topics[0].to_be_bytes(), keccak256("Mint(address,uint256)").to_vec());
    let bu = rayls_execution::events::encode_burn_event(a, b, U256::from_u64(1));
    assert_eq!(bu.topics[0].to_be_bytes(), keccak256("Burn(address,uint256)").to_vec());
    let u = rayls_execution::events::encode_authorization_used_event(a, b, U256::from_u64(1));
    assert_eq!(u.topics[0].to_be_bytes(), keccak256("AuthorizationUsed(address,bytes32)").to_vec());
    assert!(u.data.is_empty());
    let c = rayls_execution::events::encode_authorization_canceled_event(a, b, U256::from_u64(1));
    assert_eq!(c.topics[0].to_be_bytes(), keccak256("AuthorizationCanceled(address,bytes32)").to_vec());
}

#[test]
fn u256_arithmetic() {
    let max = U256::max_value();
    assert_eq!(max.checked_add(&U256::one()), None);
    assert_eq!(U256::from_u64(5).checked_sub(&U256::from_u64(6)), None);
    assert_eq!(U256::from_u64(5).saturating_sub(&U256::from_u64(6)), U256::zero());
    let big = U256 { hi: 0, lo: u128::MAX };
    assert_eq!(big.checked_add(&U256::one()), Some(U256 { hi: 1, lo: 0 }));
    assert_eq!(U256 { hi: 1, lo: 0 }.checked_sub(&U256::one()), Some(big));
    assert!(U256::from_u64(3).lt(&U256::from_u64(4)));
    assert!(U256::from_u64(4).le(&U256::from_u64(4)));
    let w = Address::from_word(&U256 { hi: u128::MAX, lo: 7 });
    assert_eq!(w, Address { hi: u32::MAX, lo: 7 });
}

#[test]
fn texts_of_words_and_addresses() {
    assert_eq!(u256_string(U256::zero()), "0");
    assert_eq!(u256_string(U256::from_u128(340282366920938463463374607431768211455)), "340282366920938463463374607431768211455");
    assert_eq!(
        u256_string(U256::max_value()),
        "115792089237316195423570985008687907853269984665640564039457584007913129639935"
    );
    assert_eq!(
        b256_string(U256::from_u64(0xab)),
        "0x00000000000000000000000000000000000000000000000000000000000000ab"
    );
    let a = Address { hi: 0x5aaeb605, lo: 0x3f3e94c9b9a09f33669435e7ef1beaed };
    assert_eq!(address_string(a), "0x5aAeb6053F3E94C9b9A09f33669435E7Ef1BeAed");
}
