//! The faucet's decisions: whether a request may be served, which nonce the
//! next transaction takes, the transaction that drips to the requester, and
//! the `v` value of a signature produced by the key service.
//!
//! The node runs the service loop: it looks requests up in its caches, asks
//! the pool and the database for nonces, obtains signatures and submits the
//! transactions; this module decides what each step yields.

use crate::address::Address;
use crate::bytes::{be_bytes, be_value};
use crate::hash::extend_bytes;
use crate::eip3009::secp256k1n_half;
use crate::faucet_cache::{request_handled, FaucetCaches};
use crate::uint::U256;
use vstd::prelude::*;
use vstd::string::StringExecFns;

verus! {

/// The compressed public key (33 bytes) that ECDSA recovery on secp256k1
/// yields for a 32-byte message digest, a 64-byte compact signature and a
/// recovery id: `None` when recovery fails, the parse error's text when the
/// signature cannot be read, as `secp256k1` computes it.
pub uninterp spec fn secp256k1_recover_compressed(
    message: Seq<u8>,
    compact_signature: Seq<u8>,
    recovery_id: u8,
) -> Result<Option<Seq<u8>>, Seq<char>>;

/// Calls `RecoverableSignature::from_compact` and `SECP256K1.recover_ecdsa`,
/// and serializes the recovered key in compressed form.
///
/// Trusted: the result is what `secp256k1_recover_compressed` names for
/// these arguments, a recovered key being 33 bytes long. The recovery id is
/// 0 or 1 and the digest 32 bytes, so the conversions cannot fail.
#[verifier::external_body]
fn recover_compressed_key(message: &[u8], compact_signature: &[u8], recovery_id: u8) -> (r: Result<Option<Vec<u8>>, String>)
    requires
        message@.len() == 32,
        compact_signature@.len() == 64,
        recovery_id <= 1,
    ensures
        match r {
            Ok(Some(k)) => secp256k1_recover_compressed(message@, compact_signature@, recovery_id)
                == Ok::<Option<Seq<u8>>, Seq<char>>(Some(k@)) && k@.len() == 33,
            Ok(None) => secp256k1_recover_compressed(message@, compact_signature@, recovery_id)
                == Ok::<Option<Seq<u8>>, Seq<char>>(None),
            Err(e) => secp256k1_recover_compressed(message@, compact_signature@, recovery_id)
                == Err::<Option<Seq<u8>>, Seq<char>>(e@),
        },
{
    let recid = secp256k1::ecdsa::RecoveryId::try_from(recovery_id as i32).unwrap();
    let digest: [u8; 32] = message.try_into().unwrap();
    match secp256k1::ecdsa::RecoverableSignature::from_compact(compact_signature, recid) {
        Err(e) => Err(e.to_string()),
        Ok(sig) => match secp256k1::SECP256K1.recover_ecdsa(&secp256k1::Message::from_digest(digest), &sig) {
            Ok(key) => Ok(Some(key.serialize().to_vec())),
            Err(_) => Ok(None),
        },
    }
}

/// The 64-byte compact form `r || s` of the DER-encoded ECDSA signature
/// `der`, with `s` brought into the lower half of its range, or the parse
/// error's text, as `secp256k1` computes it.
pub uninterp spec fn secp256k1_low_s_compact(der: Seq<u8>) -> Result<Seq<u8>, Seq<char>>;

/// Calls `ecdsa::Signature::from_der`, then `normalize_s` and
/// `serialize_compact` on the parsed signature.
///
/// Trusted: the result is what `secp256k1_low_s_compact` names for the
/// bytes; an empty input is refused (as `from_der` shows); a compact form
/// is 64 bytes long and its `s` half lies in the lower half of the group
/// order (as `normalize_s` documents).
#[verifier::external_body]
fn low_s_compact_from_der(der: &[u8]) -> (r: Result<Vec<u8>, String>)
    ensures
        der@.len() == 0 ==> r is Err,
        match r {
            Ok(c) => secp256k1_low_s_compact(der@) == Ok::<Seq<u8>, Seq<char>>(c@)
                && c@.len() == 64
                && be_value(c@.subrange(32, 64)) <= secp256k1n_half(),
            Err(e) => secp256k1_low_s_compact(der@) == Err::<Seq<u8>, Seq<char>>(e@),
        },
{
    match secp256k1::ecdsa::Signature::from_der(der) {
        Ok(mut sig) => {
            sig.normalize_s();
            Ok(sig.serialize_compact().to_vec())
        },
        Err(e) => Err(e.to_string()),
    }
}

/// The text that `humantime` writes for a duration of `secs` whole
/// seconds (such as `6m 40s`).
pub uninterp spec fn humantime_duration_text(secs: u64) -> Seq<char>;

/// Calls `humantime::format_duration` on `secs` whole seconds and writes
/// the result out.
///
/// Trusted: the text is what `humantime_duration_text` names; a zero
/// duration is written `0s`, as the source shows.
#[verifier::external_body]
fn format_seconds(secs: u64) -> (r: String)
    ensures
        r@ == humantime_duration_text(secs),
        secs == 0 ==> r@ == "0s"@,
{
    humantime::format_duration(std::time::Duration::from_secs(secs)).to_string()
}

/// The message that refuses a request whose wait period ends in `secs`
/// whole seconds.
pub open spec fn wait_message(secs: u64) -> Seq<char> {
    "Wait period over at: "@ + humantime_duration_text(secs)
}

/// The error that refuses a request whose wait period ends in `secs` whole
/// seconds.
pub fn wait_period_error(secs: u64) -> (r: FaucetError)
    ensures
        r@ == FaucetErrorView::InvalidParams(wait_message(secs)),
{
    let mut m = String::from_str("Wait period over at: ");
    let h = format_seconds(secs);
    m.append(h.as_str());
    FaucetError::InvalidParams(m)
}

/// Errors of the faucet.
#[derive(Debug, Clone, PartialEq, Eq)]
pub enum FaucetError {
    /// Invalid parameters, with the reason.
    InvalidParams(String),
    /// An internal error (a time computation overflowed).
    InternalEthError,
    /// The nonce reached its maximum value.
    NonceMaxValue,
    /// No recovery id yields the faucet's public key.
    FailedToDecodeSignedTransaction,
    /// The key service's signature is not valid DER, with the parser's reason.
    MalformedSignature(String),
}

/// The mathematical content of a [`FaucetError`].
pub enum FaucetErrorView {
    InvalidParams(Seq<char>),
    InternalEthError,
    NonceMaxValue,
    FailedToDecodeSignedTransaction,
    MalformedSignature(Seq<char>),
}

impl View for FaucetError {
    type V = FaucetErrorView;

    open spec fn view(&self) -> FaucetErrorView {
        match self {
            FaucetError::InvalidParams(m) => FaucetErrorView::InvalidParams(m@),
            FaucetError::InternalEthError => FaucetErrorView::InternalEthError,
            FaucetError::NonceMaxValue => FaucetErrorView::NonceMaxValue,
            FaucetError::FailedToDecodeSignedTransaction => FaucetErrorView::FailedToDecodeSignedTransaction,
            FaucetError::MalformedSignature(m) => FaucetErrorView::MalformedSignature(m@),
        }
    }
}

/// What the faucet does with a request.
#[derive(Debug, Clone, PartialEq, Eq)]
pub enum RequestAction {
    /// Refuse with this error.
    Fail(FaucetError),
    /// Serve the request (recording it as pending at the current time).
    Process { user: Address, contract: Address },
}

/// An EIP-1559 transaction, unsigned.
#[derive(Debug, Clone, PartialEq, Eq)]
pub struct Eip1559Transaction {
    /// Chain id.
    pub chain_id: u64,
    /// Sender nonce.
    pub nonce: u64,
    /// Max priority fee per gas.
    pub max_priority_fee_per_gas: u128,
    /// Max fee per gas.
    pub max_fee_per_gas: u128,
    /// Gas limit.
    pub gas_limit: u64,
    /// The called contract.
    pub to: Address,
    /// Native value sent.
    pub value: U256,
    /// Calldata.
    pub input: Vec<u8>,
}

/// A transaction of the faucet that was mined: who received what.
#[derive(Debug, Clone, Copy, PartialEq, Eq, Structural)]
pub struct MinedTxInfo {
    /// The address that received the faucet's drip.
    pub user: Address,
    /// The asset's contract (the zero address for the native coin).
    pub contract: Address,
}

impl MinedTxInfo {
    /// Create a new instance.
    pub fn new(user: Address, contract: Address) -> (r: Self)
        ensures
            r.user == user,
            r.contract == contract,
    {
        MinedTxInfo { user, contract }
    }
}

/// The calldata of `drip(contract, to)`: selector `0xeb3839a7` then the two
/// addresses as words.
pub open spec fn drip_calldata_spec(contract: Address, to: Address) -> Seq<u8> {
    seq![0xebu8, 0x38, 0x39, 0xa7] + be_bytes(contract@, 32) + be_bytes(to@, 32)
}

/// The calldata of `drip(contract, to)`.
pub fn drip_calldata(contract: Address, to: Address) -> (r: Vec<u8>)
    ensures
        r@ == drip_calldata_spec(contract, to),
{
    let mut input: Vec<u8> = vec![0xebu8, 0x38, 0x39, 0xa7];
    let c = contract.to_word().to_be_bytes();
    extend_bytes(&mut input, c.as_slice());
    let t = to.to_word().to_be_bytes();
    extend_bytes(&mut input, t.as_slice());
    input
}

/// The nonce of the faucet's next transaction: one past the highest nonce
/// of its transactions in the pool if there are any, else the larger of the
/// account's nonce in the database and the nonce the faucet tracks.
pub open spec fn next_nonce_spec(pool_nonces: Seq<u64>, db_nonce: u64, tracked_nonce: u64) -> Result<u64, FaucetErrorView> {
    if pool_nonces.len() > 0 {
        let highest = pool_nonces.fold_left(0u64, |m: u64, n: u64| if n > m { n } else { m });
        if highest == u64::MAX {
            Err(FaucetErrorView::NonceMaxValue)
        } else {
            Ok((highest + 1) as u64)
        }
    } else if db_nonce > tracked_nonce {
        Ok(db_nonce)
    } else {
        Ok(tracked_nonce)
    }
}

/// The `y` parity that the recovery id `recovery_id` gives under EIP-155:
/// `v = recovery_id + 2 * chain_id + 35`, odd parity when `v` is even.
pub open spec fn y_parity_spec(recovery_id: u8, chain_id: u64) -> bool {
    (recovery_id + chain_id * 2 + 35) % 2 == 0
}

/// One attempt of the `v` search: given what recovery with `recovery_id`
/// yielded, the answer (`Some`) or `None` to try the next id.
pub open spec fn v_attempt_spec(
    recovered: Result<Option<Seq<u8>>, Seq<char>>,
    recovery_id: u8,
    chain_id: u64,
    public_key: Seq<u8>,
) -> Option<Result<bool, FaucetErrorView>> {
    match recovered {
        Err(e) => Some(Err(FaucetErrorView::InvalidParams("failed to recover signature: "@ + e))),
        Ok(Some(k)) => if k == public_key {
            Some(Ok(y_parity_spec(recovery_id, chain_id)))
        } else {
            None
        },
        Ok(None) => None,
    }
}

/// The `y` parity of a compact signature over `message` by the key
/// `public_key`: tries the recovery ids 0 and 1 in turn.
pub open spec fn calculate_v_spec(message: Seq<u8>, chain_id: u64, compact_signature: Seq<u8>, public_key: Seq<u8>) -> Result<bool, FaucetErrorView> {
    match v_attempt_spec(secp256k1_recover_compressed(message, compact_signature, 0), 0, chain_id, public_key) {
        Some(r) => r,
        None => match v_attempt_spec(
            secp256k1_recover_compressed(message, compact_signature, 1),
            1,
            chain_id,
            public_key,
        ) {
            Some(r) => r,
            None => Err(FaucetErrorView::FailedToDecodeSignedTransaction),
        },
    }
}

/// The mathematical content of a faucet result.
pub open spec fn faucet_result<T>(r: Result<T, FaucetError>) -> Result<T, FaucetErrorView> {
    match r {
        Ok(v) => Ok(v),
        Err(e) => Err(e@),
    }
}

/// One attempt of the `v` search, on what recovery with `recovery_id`
/// yielded.
pub fn v_attempt(recovered: Result<Option<Vec<u8>>, String>, recovery_id: u8, chain_id: u64, public_key: &[u8]) -> (r: Option<Result<bool, FaucetError>>)
    requires
        recovery_id <= 1,
        chain_id <= u64::MAX / 2 - 36,
    ensures
        match r {
            None => v_attempt_spec(
                match recovered {
                    Ok(Some(k)) => Ok(Some(k@)),
                    Ok(None) => Ok(None),
                    Err(e) => Err(e@),
                },
                recovery_id,
                chain_id,
                public_key@,
            ) is None,
            Some(x) => v_attempt_spec(
                match recovered {
                    Ok(Some(k)) => Ok(Some(k@)),
                    Ok(None) => Ok(None),
                    Err(e) => Err(e@),
                },
                recovery_id,
                chain_id,
                public_key@,
            ) == Some(faucet_result(x)),
        },
{
    match recovered {
        Err(e) => {
            let mut m = String::from_str("failed to recover signature: ");
            m.append(e.as_str());
            Some(Err(FaucetError::InvalidParams(m)))
        },
        Ok(Some(k)) => {
            if bytes_equal(k.as_slice(), public_key) {
                let v = recovery_id as u64 + chain_id * 2 + 35;
                Some(Ok(v % 2 == 0))
            } else {
                None
            }
        },
        Ok(None) => None,
    }
}

/// True if the two byte strings are equal.
fn bytes_equal(a: &[u8], b: &[u8]) -> (r: bool)
    ensures
        r == (a@ == b@),
{
    if a.len() != b.len() {
        return false;
    }
    let mut i: usize = 0;
    while i < a.len()
        invariant
            i <= a@.len(),
            a@.len() == b@.len(),
            forall|j: int| 0 <= j < i ==> a@[j] == b@[j],
        decreases a@.len() - i,
    {
        if a[i] != b[i] {
            return false;
        }
        i = i + 1;
    }
    assert(a@ =~= b@);
    true
}

/// An Ethereum signature: the scalars `r` and `s` and the `y` parity.
#[derive(Debug, Clone, Copy, PartialEq, Eq, Structural)]
pub struct EthSignature {
    pub r: U256,
    pub s: U256,
    pub y_parity: bool,
}

/// The Ethereum signature that the key service's DER reply `der` gives for
/// the digest `digest`: its low-`s` compact form split into `r` and `s`,
/// and the `y` parity that recovers the faucet's key `public_key`.
pub open spec fn kms_signature_spec(der: Seq<u8>, digest: Seq<u8>, chain_id: u64, public_key: Seq<u8>) -> Result<(nat, nat, bool), FaucetErrorView> {
    match secp256k1_low_s_compact(der) {
        Err(e) => Err(FaucetErrorView::MalformedSignature(e)),
        Ok(c) => match calculate_v_spec(digest, chain_id, c, public_key) {
            Err(x) => Err(x),
            Ok(y) => Ok((be_value(c.subrange(0, 32)), be_value(c.subrange(32, 64)), y)),
        },
    }
}

/// The faucet service's own state.
#[derive(Debug, Clone)]
pub struct FaucetService {
    /// The faucet contract's address.
    pub faucet_contract: Address,
    /// The chain id for constructing transactions.
    pub chain_id: u64,
    /// How long an address waits between drips, in nanoseconds.
    pub wait_period: u128,
    /// The nonce of the faucet's next transaction, as tracked through the
    /// transactions it submitted.
    pub next_nonce: u64,
}

/// Nanoseconds in a second.
pub open spec fn nanos_per_second() -> int {
    1_000_000_000
}

/// The whole seconds from `now` until `last_transfer + wait_period` (times
/// in nanoseconds since the epoch), or the error.
pub open spec fn wait_period_spec(last_transfer: u128, wait_period: u128, now: u128) -> Result<u64, FaucetErrorView> {
    if last_transfer + wait_period > u128::MAX {
        Err(FaucetErrorView::InternalEthError)
    } else if now > last_transfer + wait_period {
        Err(FaucetErrorView::InvalidParams("second time provided was later than self"@))
    } else {
        Ok(((last_transfer + wait_period - now) / nanos_per_second()) as u64)
    }
}

impl FaucetService {
    /// A faucet for `faucet_contract` on `chain_id`.
    pub fn new(faucet_contract: Address, chain_id: u64, wait_period: u128, next_nonce: u64) -> (r: Self)
        ensures
            r.faucet_contract == faucet_contract,
            r.chain_id == chain_id,
            r.wait_period == wait_period,
            r.next_nonce == next_nonce,
    {
        FaucetService { faucet_contract, chain_id, wait_period, next_nonce }
    }

    /// The whole seconds left of the wait period that started at
    /// `last_transfer`, at time `now`.
    pub fn calc_wait_period(&self, last_transfer: u128, now: u128) -> (r: Result<u64, FaucetError>)
        ensures
            faucet_result(r) == wait_period_spec(last_transfer, self.wait_period, now),
    {
        let end = match last_transfer.checked_add(self.wait_period) {
            Some(e) => e,
            None => return Err(FaucetError::InternalEthError),
        };
        if now > end {
            return Err(FaucetError::InvalidParams(String::from_str("second time provided was later than self")));
        }
        let secs = (end - now) / 1_000_000_000;
        Ok(secs as u64)
    }

    /// What to do with a request of `user` for the asset `contract` (the
    /// native coin when `None`), given when the pair was last recorded in the
    /// pending cache and in the success cache, if it is there: the pending
    /// cache is checked first, then the success cache; a pair in neither is
    /// served.
    pub fn handle_request(&self, user: Address, contract: Option<Address>, pending_since: Option<u128>, succeeded_at: Option<u128>, now: u128) -> (r: RequestAction)
        ensures
            ({
                let c = match contract {
                    Some(a) => a,
                    None => Address { hi: 0, lo: 0 },
                };
                match (if pending_since is Some { pending_since } else { succeeded_at }) {
                    Some(t) => match wait_period_spec(t, self.wait_period, now) {
                        Ok(secs) => r matches RequestAction::Fail(f) && f@ == FaucetErrorView::InvalidParams(wait_message(secs)),
                        Err(e) => r matches RequestAction::Fail(f) && f@ == e,
                    },
                    None => r == RequestAction::Process { user, contract: c },
                }
            }),
    {
        let contract_address = match contract {
            Some(a) => a,
            None => Address::zero(),
        };
        let hit = match pending_since {
            Some(t) => Some(t),
            None => succeeded_at,
        };
        match hit {
            Some(t) => match self.calc_wait_period(t, now) {
                Ok(secs) => RequestAction::Fail(wait_period_error(secs)),
                Err(e) => RequestAction::Fail(e),
            },
            None => RequestAction::Process { user, contract: contract_address },
        }
    }

    /// The nonce of the next transaction, from the nonces of the faucet's
    /// transactions in the pool and its account nonce in the database.
    pub fn next_nonce(&self, pool_nonces: &[u64], db_nonce: u64) -> (r: Result<u64, FaucetError>)
        ensures
            faucet_result(r) == next_nonce_spec(pool_nonces@, db_nonce, self.next_nonce),
    {
        if pool_nonces.len() > 0 {
            let mut highest: u64 = 0;
            let mut i: usize = 0;
            while i < pool_nonces.len()
                invariant
                    i <= pool_nonces@.len(),
                    highest == pool_nonces@.take(i as int).fold_left(0u64, |m: u64, n: u64| if n > m { n } else { m }),
                decreases pool_nonces@.len() - i,
            {
                let n = pool_nonces[i];
                proof {
                    let t = pool_nonces@.take(i + 1);
                    assert(t.drop_last() =~= pool_nonces@.take(i as int));
                    t.lemma_fold_left_split(0u64, |m: u64, n: u64| if n > m { n } else { m }, i as int);
                    assert(t.subrange(0, i as int) =~= pool_nonces@.take(i as int));
                    assert(t.subrange(i as int, i + 1) =~= seq![n]);
                    reveal_with_fuel(vstd::seq::Seq::fold_left, 2);
                }
                if n > highest {
                    highest = n;
                }
                i = i + 1;
            }
            assert(pool_nonces@.take(pool_nonces@.len() as int) =~= pool_nonces@);
            if highest == u64::MAX {
                return Err(FaucetError::NonceMaxValue);
            }
            return Ok(highest + 1);
        }
        if db_nonce > self.next_nonce {
            Ok(db_nonce)
        } else {
            Ok(self.next_nonce)
        }
    }

    /// The `y` parity of a compact signature over the digest `message` made
    /// with the faucet's key `public_key` (compressed, 33 bytes).
    pub fn calculate_v(&self, message: &[u8], compact_signature: &[u8], public_key: &[u8]) -> (r: Result<bool, FaucetError>)
        requires
            message@.len() == 32,
            compact_signature@.len() == 64,
            self.chain_id <= u64::MAX / 2 - 36,
        ensures
            faucet_result(r) == calculate_v_spec(message@, self.chain_id, compact_signature@, public_key@),
    {
        let first = recover_compressed_key(message, compact_signature, 0);
        match v_attempt(first, 0, self.chain_id, public_key) {
            Some(r) => return r,
            None => {},
        }
        let second = recover_compressed_key(message, compact_signature, 1);
        match v_attempt(second, 1, self.chain_id, public_key) {
            Some(r) => r,
            None => Err(FaucetError::FailedToDecodeSignedTransaction),
        }
    }

    /// Turns the key service's DER-encoded signature of the digest `digest`
    /// into an Ethereum signature: normalizes `s`, splits the compact form
    /// into `r` and `s`, and finds the `y` parity that recovers `public_key`.
    pub fn signature_from_kms_reply(&self, der: &[u8], digest: &[u8], public_key: &[u8]) -> (r: Result<EthSignature, FaucetError>)
        requires
            digest@.len() == 32,
            self.chain_id <= u64::MAX / 2 - 36,
        ensures
            match r {
                Ok(sig) => kms_signature_spec(der@, digest@, self.chain_id, public_key@)
                    == Ok::<(nat, nat, bool), FaucetErrorView>((sig.r@, sig.s@, sig.y_parity))
                    && sig.s@ <= secp256k1n_half(),
                Err(e) => kms_signature_spec(der@, digest@, self.chain_id, public_key@) == Err::<(nat, nat, bool), FaucetErrorView>(e@),
            },
    {
        let compact = match low_s_compact_from_der(der) {
            Ok(c) => c,
            Err(e) => return Err(FaucetError::MalformedSignature(e)),
        };
        let y_parity = match self.calculate_v(digest, compact.as_slice(), public_key) {
            Ok(y) => y,
            Err(e) => return Err(e),
        };
        let r = U256::read_be(compact.as_slice(), 0);
        let s = U256::read_be(compact.as_slice(), 32);
        Ok(EthSignature { r, s, y_parity })
    }

    /// The transaction that drips the asset `contract` to `to`, with the
    /// given nonce and gas price; the tracked nonce moves past it.
    pub fn create_transaction_to_sign(&mut self, to: Address, contract: Address, nonce: u64, gas_price: u128) -> (r: Eip1559Transaction)
        requires
            nonce < u64::MAX,
        ensures
            r.chain_id == old(self).chain_id,
            r.nonce == nonce,
            r.max_priority_fee_per_gas == gas_price,
            r.max_fee_per_gas == gas_price,
            r.gas_limit == 1_000_000,
            r.to == old(self).faucet_contract,
            r.value@ == 0,
            r.input@ == drip_calldata_spec(contract, to),
            final(self).next_nonce == nonce + 1,
            final(self).faucet_contract == old(self).faucet_contract,
            final(self).chain_id == old(self).chain_id,
            final(self).wait_period == old(self).wait_period,
    {
        self.next_nonce = nonce + 1;
        Eip1559Transaction {
            chain_id: self.chain_id,
            nonce,
            max_priority_fee_per_gas: gas_price,
            max_fee_per_gas: gas_price,
            gas_limit: 1_000_000,
            to: self.faucet_contract,
            value: U256::zero(),
            input: drip_calldata(contract, to),
        }
    }
}

/// The faucet's RPC endpoint: each `transfer` request goes to the faucet
/// service, which checks its time-based caches for the pair.
pub struct FaucetRpcExt {
    /// The faucet service the requests go to.
    pub faucet: FaucetService,
    /// The service's caches of pending and mined drips.
    pub caches: FaucetCaches,
}

impl FaucetRpcExt {
    /// An endpoint for the given faucet and its caches.
    pub fn new(faucet: FaucetService, caches: FaucetCaches) -> (r: Self)
        ensures
            r.faucet == faucet,
            r.caches == caches,
    {
        FaucetRpcExt { faucet, caches }
    }

    /// A `faucet_transfer` request of `address` for `contract` at time
    /// `now`: if the pair is in neither cache it is served (and recorded as
    /// pending); otherwise the answer says when the requester may ask again
    /// (see [`FaucetService::process_request`]).
    pub fn transfer(&mut self, address: Address, contract: Option<Address>, now: u128) -> (r: RequestAction)
        ensures
            final(self).faucet == old(self).faucet,
            request_handled(old(self).faucet.wait_period, address, contract, now, old(self).caches, final(self).caches, r),
    {
        self.faucet.process_request(&mut self.caches, address, contract, now)
    }
}

/// Under EIP-155 the `y` parity is odd exactly for recovery id 1, whatever
/// the chain id.
pub proof fn law_y_parity_is_recovery_id(recovery_id: u8, chain_id: u64)
    requires
        recovery_id <= 1,
    ensures
        y_parity_spec(recovery_id, chain_id) == (recovery_id == 1),
{
}

/// The highest of `s` (0 for none).
spec fn pool_max(s: Seq<u64>) -> u64 {
    s.fold_left(0u64, |m: u64, n: u64| if n > m { n } else { m })
}

proof fn lemma_pool_max(s: Seq<u64>)
    ensures
        forall|i: int| 0 <= i < s.len() ==> s[i] <= pool_max(s),
        s.len() > 0 ==> exists|i: int| 0 <= i < s.len() && s[i] == pool_max(s),
    decreases s.len(),
{
    if s.len() > 0 {
        lemma_pool_max(s.drop_last());
        assert forall|i: int| 0 <= i < s.len() implies s[i] <= pool_max(s) by {
            if i < s.len() - 1 {
                assert(s[i] == s.drop_last()[i]);
            }
        }
        if s.last() > pool_max(s.drop_last()) {
            assert(s[s.len() - 1] == pool_max(s));
        } else if s.len() == 1 {
            assert(s.drop_last().len() == 0);
            assert(s[0] == pool_max(s));
        } else {
            let j = choose|j: int| 0 <= j < s.drop_last().len() && s.drop_last()[j] == pool_max(s.drop_last());
            assert(s[j] == pool_max(s));
        }
    }
}

/// The faucet never reuses a nonce that one of its pooled transactions
/// holds: from a non-empty pool it picks a nonce above every pooled one, and
/// it refuses only when a pooled nonce is already the largest possible.
pub proof fn law_next_nonce_fresh(pool_nonces: Seq<u64>, db_nonce: u64, tracked_nonce: u64)
    requires
        pool_nonces.len() > 0,
    ensures
        match next_nonce_spec(pool_nonces, db_nonce, tracked_nonce) {
            Ok(n) => forall|i: int| 0 <= i < pool_nonces.len() ==> pool_nonces[i] < n,
            Err(e) => e == FaucetErrorView::NonceMaxValue
                && exists|i: int| 0 <= i < pool_nonces.len() && pool_nonces[i] == u64::MAX,
        },
{
    lemma_pool_max(pool_nonces);
}

/// A served request is refused until its wait period is over: right after
/// serving at time `t`, a request for the same pair at any `now` in
/// `[t, t + wait_period]` is refused with the wait message for
/// `(t + wait_period - now)` whole seconds, never more than the wait period.
pub proof fn law_wait_after_drip(t: u128, wait_period: u128, now: u128)
    requires
        t + wait_period <= u128::MAX,
        t <= now <= t + wait_period,
    ensures
        wait_period_spec(t, wait_period, now) == Ok::<u64, FaucetErrorView>(
            ((t + wait_period - now) / nanos_per_second()) as u64,
        ),
        ((t + wait_period - now) / nanos_per_second()) <= wait_period as int / nanos_per_second(),
{
    assert((t + wait_period - now) / nanos_per_second() <= wait_period as int / nanos_per_second()) by (nonlinear_arith)
        requires
            0 <= t + wait_period - now <= wait_period,
    ;
}

} // verus!
