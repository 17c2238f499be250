use k256::ecdsa::SigningKey;
use rayls_execution::address::Address;
use rayls_execution::execution::{RaylsEvmHandler, TxValidationCounts};
use rayls_execution::faucet::{
    drip_calldata, EthSignature, FaucetError, FaucetRpcExt, FaucetService, MinedTxInfo,
    RequestAction,
};
use rayls_execution::faucet_cache::FaucetCaches;
use rayls_execution::node::{rpc_error, NodeRole, RaylsExecution, RaylsRpcError};
use rayls_execution::persistence::{
    cached_ancestor_trie_plan, BlockNumHash, PersistPoll, PersistWait, PersistenceState,
    TrieInputPlan,
};
use rayls_execution::uint::U256;

fn addr(hex: &str) -> Address {
    let h = hex.trim_start_matches("0x");
    Address {
        hi: u32::from_str_radix(&h[0..8], 16).unwrap(),
        lo: u128::from_str_radix(&h[8..40], 16).unwrap(),
    }
}

fn block(n: u64) -> BlockNumHash {
    BlockNumHash { number: n, hash: U256::from_u64(n * 1000) }
}

const SEC: u128 = 1_000_000_000;

#[test]
fn persist_due_after_threshold() {
    let mut s = PersistenceState::new(10, 5);
    assert!(!s.should_persist(15));
    assert!(s.should_persist(16));
    assert!(!s.should_persist(3));
    assert!(!s.finalize_block(15));
    assert_eq!(s.latest_finalized_number, 15);
    assert!(s.finalize_block(16));
    s.batch_started();
    assert!(s.in_progress());
    assert!(!s.finalize_block(40));
    assert_eq!(s.blocks_to_persist(40), Some((11, 40)));
    assert_eq!(s.blocks_to_persist(10), None);
}

#[test]
fn completion_polls() {
    let mut s = PersistenceState::new(10, 0);
    assert_eq!(s.check_persistence_completion(PersistPoll::Persisted(block(20))), None);
    assert_eq!(s.last_persisted_block.number, 10);
    s.batch_started();
    assert_eq!(s.check_persistence_completion(PersistPoll::Pending), None);
    assert!(s.in_progress());
    assert_eq!(s.check_persistence_completion(PersistPoll::Persisted(block(20))), Some(block(20)));
    assert!(!s.in_progress());
    assert_eq!(s.last_persisted_block, block(20));
    s.batch_started();
    assert_eq!(s.check_persistence_completion(PersistPoll::Disconnected), None);
    assert!(!s.in_progress());
}

#[test]
fn flush_steps() {
    let mut s = PersistenceState::new(1, 0);
    assert_eq!(s.settle_in_flight(PersistWait::Persisted(block(9))), None);
    s.batch_started();
    assert_eq!(s.settle_in_flight(PersistWait::Persisted(block(9))), Some(block(9)));
    assert!(!s.in_progress());
    assert_eq!(s.finish_flush(PersistWait::NoBlocks), Ok(None));
    assert_eq!(s.finish_flush(PersistWait::Persisted(block(12))), Ok(Some(block(12))));
    assert_eq!(s.last_persisted_block.number, 12);
    assert_eq!(
        s.finish_flush(PersistWait::Dropped("receiving on a closed channel".to_string())),
        Err("flush_persistence: persistence channel dropped: receiving on a closed channel".to_string())
    );
    assert_eq!(
        s.finish_flush(PersistWait::Refused("service stopped".to_string())),
        Err("flush_persistence: persistence service unavailable: service stopped".to_string())
    );
    assert_eq!(s.last_persisted_block.number, 12);
    assert_eq!(
        PersistenceState::flush_task_error("task panicked".to_string()),
        "flush_persistence: spawn_blocking failed: task panicked"
    );
}

#[test]
fn trie_input_plans() {
    assert_eq!(cached_ancestor_trie_plan(None, 5, 9), TrieInputPlan::Recompute);
    assert_eq!(cached_ancestor_trie_plan(Some((5, 9)), 5, 9), TrieInputPlan::Reuse);
    assert_eq!(cached_ancestor_trie_plan(Some((5, 7)), 5, 9), TrieInputPlan::Extend { from: 8, to: 9 });
    assert_eq!(cached_ancestor_trie_plan(Some((4, 9)), 5, 9), TrieInputPlan::Recompute);
    assert_eq!(cached_ancestor_trie_plan(Some((5, 10)), 5, 9), TrieInputPlan::Recompute);
}

#[test]
fn fee_split_pays_priority_and_basefee() {
    let basefee_account = addr("1111111111111111111111111111111111111111");
    let beneficiary = addr("2222222222222222222222222222222222222222");
    let h = RaylsEvmHandler::new(basefee_account);
    let split = h.fee_split(21_000, 7, 10);
    assert_eq!(split.beneficiary_reward, 3 * 21_000);
    assert_eq!(split.basefee_reward, 7 * 21_000);
    assert_eq!(split.beneficiary_reward + split.basefee_reward, 10 * 21_000);
    let below = h.fee_split(100, 7, 5);
    assert_eq!(below.beneficiary_reward, 0);
    assert_eq!(below.basefee_reward, 700);
    let credits = h.reward_beneficiary(beneficiary, 100, 7, 10);
    assert_eq!(credits, vec![(beneficiary, U256::from_u64(300)), (basefee_account, U256::from_u64(700))]);
}

#[test]
fn tx_validation_counts_track_ranges() {
    let a = addr("1111111111111111111111111111111111111111");
    let b = addr("2222222222222222222222222222222222222222");
    let mut c = TxValidationCounts::new();
    c.nonce_too_high = 2;
    c.nonce_too_low = 3;
    c.other = 4;
    assert_eq!(c.total(), 9);
    c.observe_nonce(a, 5);
    c.observe_nonce(a, 2);
    c.observe_nonce(a, 9);
    c.observe_nonce(b, 1);
    let ra = c.nonce_range(a).unwrap();
    assert_eq!((ra.min, ra.max), (2, 9));
    let rb = c.nonce_range(b).unwrap();
    assert_eq!((rb.min, rb.max), (1, 1));
    assert!(c.nonce_range(addr("3333333333333333333333333333333333333333")).is_none());
}

fn service() -> FaucetService {
    FaucetService::new(addr("4444444444444444444444444444444444444444"), 7, 86_400 * SEC, 3)
}

#[test]
fn faucet_wait_period_and_requests() {
    let f = service();
    let user = addr("5555555555555555555555555555555555555555");
    let t0 = 1_700_000_000 * SEC;
    assert_eq!(f.calc_wait_period(t0, t0 + 3_600 * SEC), Ok(82_800));
    assert_eq!(
        f.calc_wait_period(t0, t0 + 90_000 * SEC),
        Err(FaucetError::InvalidParams("second time provided was later than self".to_string()))
    );
    assert_eq!(f.calc_wait_period(u128::MAX, 0), Err(FaucetError::InternalEthError));
    assert_eq!(
        f.handle_request(user, None, None, None, t0),
        RequestAction::Process { user, contract: Address::zero() }
    );
    let token = addr("6666666666666666666666666666666666666666");
    assert_eq!(
        f.handle_request(user, Some(token), None, None, t0),
        RequestAction::Process { user, contract: token }
    );
    assert_eq!(
        f.handle_request(user, None, Some(t0), None, t0 + SEC / 2),
        RequestAction::Fail(FaucetError::InvalidParams("Wait period over at: 23h 59m 59s".to_string()))
    );
    assert_eq!(
        f.handle_request(user, None, None, Some(t0), t0 + 86_000 * SEC),
        RequestAction::Fail(FaucetError::InvalidParams("Wait period over at: 6m 40s".to_string()))
    );
    assert_eq!(
        f.handle_request(user, None, None, Some(t0), t0 + 86_400 * SEC),
        RequestAction::Fail(FaucetError::InvalidParams("Wait period over at: 0s".to_string()))
    );
    let mut ext = FaucetRpcExt::new(service(), FaucetCaches::new(600 * SEC as u64, 86_400 * SEC as u64));
    assert_eq!(ext.transfer(user, None, t0), RequestAction::Process { user, contract: Address::zero() });
    assert_eq!(
        ext.transfer(user, None, t0 + 1),
        RequestAction::Fail(FaucetError::InvalidParams("Wait period over at: 23h 59m 59s".to_string()))
    );
    let info = MinedTxInfo::new(user, token);
    assert_eq!(info.contract, token);
}

#[test]
fn faucet_nonce_and_transaction() {
    let mut f = service();
    assert_eq!(f.next_nonce(&[], 1), Ok(3));
    assert_eq!(f.next_nonce(&[], 8), Ok(8));
    assert_eq!(f.next_nonce(&[4, 9, 2], 100), Ok(10));
    assert_eq!(f.next_nonce(&[u64::MAX], 0), Err(FaucetError::NonceMaxValue));
    let user = addr("5555555555555555555555555555555555555555");
    let tx = f.create_transaction_to_sign(user, Address::zero(), 10, 25);
    assert_eq!(f.next_nonce, 11);
    assert_eq!(tx.nonce, 10);
    assert_eq!(tx.gas_limit, 1_000_000);
    assert_eq!(tx.max_fee_per_gas, 25);
    assert_eq!(tx.to, f.faucet_contract);
    assert_eq!(&tx.input[..4], &[0xeb, 0x38, 0x39, 0xa7]);
    assert_eq!(tx.input.len(), 68);
    assert_eq!(tx.input, drip_calldata(Address::zero(), user));
    assert_eq!(&tx.input[48..68], user.to_be_bytes().as_slice());
    assert_eq!(&alloy::primitives::keccak256("drip(address,address)")[..4], &[0xeb, 0x38, 0x39, 0xa7]);
}

#[test]
fn faucet_recovers_y_parity() {
    let f = service();
    let key = SigningKey::from_slice(&[7u8; 32]).unwrap();
    let public = key.verifying_key().to_encoded_point(true).as_bytes().to_vec();
    let digest = alloy::primitives::keccak256(b"faucet").to_vec();
    let (sig, recid) = key.sign_prehash_recoverable(&digest).unwrap();
    let compact = sig.to_bytes().to_vec();
    let parity = f.calculate_v(&digest, &compact, &public).unwrap();
    assert_eq!(parity, recid.is_y_odd());
    let other = SigningKey::from_slice(&[8u8; 32]).unwrap();
    let other_public = other.verifying_key().to_encoded_point(true).as_bytes().to_vec();
    assert_eq!(
        f.calculate_v(&digest, &compact, &other_public),
        Err(FaucetError::FailedToDecodeSignedTransaction)
    );
}

#[test]
fn rpc_errors() {
    let e = RaylsRpcError::NotFound.to_error_object();
    assert_eq!(e.code, 401);
    assert_eq!(e.message, "Not Found.");
    assert!(e.data.is_none());
    let e = RaylsRpcError::InvalidProofOfPossession.to_error_object();
    assert_eq!(e.message, "Invalid proof of possession for provided network key or genesis.");
    let e = rpc_error(-32000, "x".to_string(), Some(&[0xab, 0x01]));
    assert_eq!(e.data, Some("\"0xab01\"".to_string()));
    assert_ne!(NodeRole::ActiveCvv, NodeRole::Observer);
    assert!(RaylsExecution.validate_header(&1u8).is_ok());
}

#[test]
fn kms_reply_becomes_low_s_eth_signature() {
    let f = service();
    let key = SigningKey::from_slice(&[7u8; 32]).unwrap();
    let public = key.verifying_key().to_encoded_point(true).as_bytes().to_vec();
    let digest = alloy::primitives::keccak256(b"kms").to_vec();
    let (sig, recid) = key.sign_prehash_recoverable(&digest).unwrap();
    let compact = sig.to_bytes().to_vec();
    let expected = EthSignature {
        r: U256::from_be_bytes(&compact[..32]),
        s: U256::from_be_bytes(&compact[32..]),
        y_parity: recid.is_y_odd(),
    };
    let der = sig.to_der().as_bytes().to_vec();
    assert_eq!(f.signature_from_kms_reply(&der, &digest, &public), Ok(expected));
    // The same signature with `s` negated (high `s`) is brought back to low `s`.
    let high_s = k256::ecdsa::Signature::from_scalars(sig.r().to_bytes(), (-*sig.s()).to_bytes()).unwrap();
    let high_der = high_s.to_der().as_bytes().to_vec();
    assert_ne!(high_der, der);
    assert_eq!(f.signature_from_kms_reply(&high_der, &digest, &public), Ok(expected));
}

#[test]
fn kms_reply_errors() {
    let f = service();
    let key = SigningKey::from_slice(&[7u8; 32]).unwrap();
    let digest = alloy::primitives::keccak256(b"kms").to_vec();
    let (sig, _) = key.sign_prehash_recoverable(&digest).unwrap();
    let der = sig.to_der().as_bytes().to_vec();
    let public = key.verifying_key().to_encoded_point(true).as_bytes().to_vec();
    assert_eq!(
        f.signature_from_kms_reply(&[], &digest, &public),
        Err(FaucetError::MalformedSignature("malformed signature".to_string()))
    );
    assert_eq!(
        f.signature_from_kms_reply(&[0x30, 0x02, 0x01], &digest, &public),
        Err(FaucetError::MalformedSignature("malformed signature".to_string()))
    );
    let other = SigningKey::from_slice(&[8u8; 32]).unwrap();
    let other_public = other.verifying_key().to_encoded_point(true).as_bytes().to_vec();
    assert_eq!(
        f.signature_from_kms_reply(&der, &digest, &other_public),
        Err(FaucetError::FailedToDecodeSignedTransaction)
    );
}

#[test]
fn next_nonce_is_above_every_pooled_nonce() {
    let f = service();
    for pool in [vec![0u64], vec![7, 3, 7], vec![1, 2, 3, 4], vec![u64::MAX - 1, 5]] {
        let n = f.next_nonce(&pool, 0).unwrap();
        assert!(pool.iter().all(|p| *p < n));
    }
    assert_eq!(f.next_nonce(&[3, u64::MAX, 1], 0), Err(FaucetError::NonceMaxValue));
}

#[test]
fn faucet_caches_refuse_repeated_requests() {
    let f = service();
    let mut caches = FaucetCaches::new(600 * SEC as u64, 86_400 * SEC as u64);
    let user = addr("5555555555555555555555555555555555555555");
    let other = addr("7777777777777777777777777777777777777777");
    let token = addr("6666666666666666666666666666666666666666");
    let t0 = 1_700_000_000 * SEC;
    assert_eq!(
        f.process_request(&mut caches, user, None, t0),
        RequestAction::Process { user, contract: Address::zero() }
    );
    assert_eq!(
        f.process_request(&mut caches, user, None, t0 + SEC / 2),
        RequestAction::Fail(FaucetError::InvalidParams("Wait period over at: 23h 59m 59s".to_string()))
    );
    assert_eq!(
        f.process_request(&mut caches, user, Some(token), t0),
        RequestAction::Process { user, contract: token }
    );
    caches.record_mined(MinedTxInfo::new(other, Address::zero()), t0);
    assert_eq!(
        f.process_request(&mut caches, other, None, t0 + 86_000 * SEC),
        RequestAction::Fail(FaucetError::InvalidParams("Wait period over at: 6m 40s".to_string()))
    );
}
