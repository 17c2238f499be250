//! The faucet's two time-expiring caches of served (requester, asset)
//! pairs, and the request handling that reads and fills them.
//!
//! The caches are `lru_time_cache` caches keyed by the two addresses (as
//! integers) and holding the time a pair was recorded, in nanoseconds since
//! the Unix epoch. An entry expires once its time to live has passed, so
//! what a lookup returns depends on the clock: the contracts below state
//! what holds of every answer.

use crate::address::Address;
use crate::faucet::{wait_message, wait_period_spec, FaucetErrorView, FaucetService, MinedTxInfo, RequestAction};
use lru_time_cache::LruCache;
use vstd::prelude::*;

verus! {

#[verifier::external_type_specification]
#[verifier::external_body]
#[verifier::reject_recursive_types(Key)]
#[verifier::reject_recursive_types(Value)]
pub struct ExLruCache<Key, Value>(LruCache<Key, Value>);

/// A cache of pairs, each with the time it was recorded (nanoseconds since
/// the Unix epoch).
pub type PairCache = LruCache<PairKey, u128>;

/// The key of a (requester, asset) pair: both addresses as integers.
pub type PairKey = (u32, u128, u32, u128);

/// The key of the pair of `user` and `contract`.
pub open spec fn pair_key(user: Address, contract: Address) -> PairKey {
    (user.hi, user.lo, contract.hi, contract.lo)
}

/// The entries a cache holds, expired ones included until they are evicted.
pub uninterp spec fn cache_entries(cache: PairCache) -> Map<PairKey, u128>;

/// Calls `LruCache::with_expiry_duration` with `Duration::from_nanos(ttl)`.
///
/// Trusted: a new cache holds no entry.
#[verifier::external_body]
fn new_cache(ttl: u64) -> (r: PairCache)
    ensures
        cache_entries(r).is_empty(),
{
    LruCache::with_expiry_duration(std::time::Duration::from_nanos(ttl))
}

/// Calls `LruCache::peek`.
///
/// Trusted: an answer is the value held for the key; a key the cache does
/// not hold gets no answer. The source also answers `None` for a held entry
/// whose time to live has passed, which depends on the clock, so that case
/// is left open.
#[verifier::external_body]
fn cache_peek(cache: &PairCache, key: PairKey) -> (r: Option<u128>)
    ensures
        match r {
            Some(v) => cache_entries(*cache).contains_key(key) && cache_entries(*cache)[key] == v,
            None => true,
        },
        !cache_entries(*cache).contains_key(key) ==> r is None,
{
    cache.peek(&key).copied()
}

/// Calls `LruCache::insert`.
///
/// Trusted: afterwards the key holds `value`; every other entry is one the
/// cache held before with the same value. Which expired entries the call
/// evicts depends on the clock, so that is left open.
#[verifier::external_body]
fn cache_insert(cache: &mut PairCache, key: PairKey, value: u128)
    ensures
        cache_entries(*final(cache)).contains_key(key),
        cache_entries(*final(cache))[key] == value,
        forall|k: PairKey|
            #![trigger cache_entries(*final(cache)).contains_key(k)]
            cache_entries(*final(cache)).contains_key(k) && k != key ==> cache_entries(*old(cache)).contains_key(k)
                && cache_entries(*old(cache))[k] == cache_entries(*final(cache))[k],
{
    cache.insert(key, value);
}

/// The faucet's caches: the short-lived one of requests being processed
/// and the longer-lived one of drips that were mined.
pub struct FaucetCaches {
    /// Pairs whose request is being processed, with when it was accepted.
    pub pending: PairCache,
    /// Pairs whose drip was mined, with when it was recorded.
    pub success: PairCache,
}

impl FaucetCaches {
    /// Empty caches whose entries live `pending_ttl` and `success_ttl`
    /// nanoseconds.
    pub fn new(pending_ttl: u64, success_ttl: u64) -> (r: Self)
        ensures
            cache_entries(r.pending).is_empty(),
            cache_entries(r.success).is_empty(),
    {
        FaucetCaches { pending: new_cache(pending_ttl), success: new_cache(success_ttl) }
    }

    /// Records a mined drip at time `now`.
    pub fn record_mined(&mut self, info: MinedTxInfo, now: u128)
        ensures
            cache_entries(final(self).success).contains_key(pair_key(info.user, info.contract)),
            cache_entries(final(self).success)[pair_key(info.user, info.contract)] == now,
            cache_entries(final(self).pending) == cache_entries(old(self).pending),
    {
        let key = (info.user.hi, info.user.lo, info.contract.hi, info.contract.lo);
        cache_insert(&mut self.success, key, now);
    }
}

/// The error that refuses a pair recorded at time `t`, at time `now`.
pub open spec fn refusal(t: u128, wait_period: u128, now: u128) -> FaucetErrorView {
    match wait_period_spec(t, wait_period, now) {
        Ok(secs) => FaucetErrorView::InvalidParams(wait_message(secs)),
        Err(e) => e,
    }
}

/// A request of `user` for `contract` at time `now`, with the caches
/// `before`, was answered `r` and left the caches `after`: a served pair is
/// recorded as pending at `now` and the success cache is left alone; a
/// refused pair leaves both caches as they were and was refused for the time
/// that one of them holds for it.
pub open spec fn request_handled(
    wait_period: u128,
    user: Address,
    contract: Option<Address>,
    now: u128,
    before: FaucetCaches,
    after: FaucetCaches,
    r: RequestAction,
) -> bool {
    let c = match contract {
        Some(a) => a,
        None => Address { hi: 0, lo: 0 },
    };
    let key = pair_key(user, c);
    match r {
        RequestAction::Process { user: u, contract: a } => {
            &&& u == user
            &&& a == c
            &&& cache_entries(after.pending).contains_key(key)
            &&& cache_entries(after.pending)[key] == now
            &&& cache_entries(after.success) == cache_entries(before.success)
        },
        RequestAction::Fail(f) => {
            &&& after == before
            &&& ((cache_entries(before.pending).contains_key(key)
                && f@ == refusal(cache_entries(before.pending)[key], wait_period, now))
                || (cache_entries(before.success).contains_key(key)
                && f@ == refusal(cache_entries(before.success)[key], wait_period, now)))
        },
    }
}

impl FaucetService {
    /// Handles a request of `user` for the asset `contract` (the native coin
    /// when `None`) at time `now`: a pair found in the pending cache, or else
    /// in the success cache, is refused until its wait period is over; any
    /// other pair is served and recorded as pending at `now`.
    pub fn process_request(&self, caches: &mut FaucetCaches, user: Address, contract: Option<Address>, now: u128) -> (r: RequestAction)
        ensures
            request_handled(self.wait_period, user, contract, now, *old(caches), *final(caches), r),
    {
        let c = match contract {
            Some(a) => a,
            None => Address::zero(),
        };
        let key = (user.hi, user.lo, c.hi, c.lo);
        let pending_since = cache_peek(&caches.pending, key);
        let succeeded_at = match pending_since {
            Some(_) => None,
            None => cache_peek(&caches.success, key),
        };
        let action = self.handle_request(user, contract, pending_since, succeeded_at, now);
        proof {
            assert(key == pair_key(user, c));
            match pending_since {
                Some(t) => {
                    assert(cache_entries(caches.pending).contains_key(key));
                    assert(action matches RequestAction::Fail(f) && f@ == refusal(t, self.wait_period, now));
                },
                None => match succeeded_at {
                    Some(t) => {
                        assert(action matches RequestAction::Fail(f) && f@ == refusal(t, self.wait_period, now));
                    },
                    None => {
                        assert(action == RequestAction::Process { user, contract: c });
                    },
                },
            }
        }
        match action {
            RequestAction::Process { .. } => {
                cache_insert(&mut caches.pending, key, now);
            },
            _ => {},
        }
        action
    }
}

} // verus!
