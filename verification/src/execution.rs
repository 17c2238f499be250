//! Block execution bookkeeping: the split of a transaction's fee between the
//! block's beneficiary and the base-fee account, and the per-batch counts of
//! transactions dropped during execution.

use crate::address::Address;
use crate::uint::U256;
use vstd::prelude::*;

verus! {

/// The amounts a transaction's gas pays out: the priority part to the
/// block's beneficiary, the base-fee part to the base-fee account.
#[derive(Debug, Clone, Copy, PartialEq, Eq, Structural)]
pub struct FeeSplit {
    /// Credited to the block's beneficiary.
    pub beneficiary_reward: u128,
    /// Credited to the base-fee account.
    pub basefee_reward: u128,
}

/// The beneficiary's part of the gas price: what exceeds the base fee.
pub open spec fn priority_price(effective_gas_price: u128, basefee: u64) -> nat {
    if effective_gas_price >= basefee {
        (effective_gas_price - basefee) as nat
    } else {
        0
    }
}

/// The fee split overrides the EVM's default: the beneficiary receives only
/// the priority part of the fee, the base-fee part goes to the base-fee
/// account for later (off-chain) processing.
#[derive(Debug, Clone, Copy)]
pub struct RaylsEvmHandler {
    /// Address for basefees.
    pub basefee_address: Address,
}

impl RaylsEvmHandler {
    /// A handler sending base fees to `basefee_address`.
    pub fn new(basefee_address: Address) -> (r: Self)
        ensures
            r.basefee_address == basefee_address,
    {
        RaylsEvmHandler { basefee_address }
    }

    /// The fee split of a transaction that used `gas_used` gas (after
    /// refunds) at `effective_gas_price` in a block with base fee `basefee`.
    pub fn fee_split(&self, gas_used: u64, basefee: u64, effective_gas_price: u128) -> (r: FeeSplit)
        requires
            priority_price(effective_gas_price, basefee) * gas_used <= u128::MAX,
        ensures
            r.beneficiary_reward == priority_price(effective_gas_price, basefee) * gas_used,
            r.basefee_reward == basefee * gas_used,
    {
        let gas_used = gas_used as u128;
        let basefee = basefee as u128;
        let coinbase_gas_price = effective_gas_price.saturating_sub(basefee);
        proof {
            assert(basefee * gas_used <= u64::MAX * u64::MAX) by (nonlinear_arith)
                requires
                    basefee <= u64::MAX,
                    gas_used <= u64::MAX,
            ;
        }
        FeeSplit {
            beneficiary_reward: coinbase_gas_price * gas_used,
            basefee_reward: basefee * gas_used,
        }
    }

    /// The balance credits of a transaction's fee: the beneficiary's and the
    /// base-fee account's, in that order.
    pub fn reward_beneficiary(&self, beneficiary: Address, gas_used: u64, basefee: u64, effective_gas_price: u128) -> (r: Vec<(Address, U256)>)
        requires
            priority_price(effective_gas_price, basefee) * gas_used <= u128::MAX,
        ensures
            r@.len() == 2,
            r@[0].0 == beneficiary,
            r@[0].1@ == priority_price(effective_gas_price, basefee) * gas_used,
            r@[1].0 == self.basefee_address,
            r@[1].1@ == basefee * gas_used,
    {
        let split = self.fee_split(gas_used, basefee, effective_gas_price);
        let mut credits: Vec<(Address, U256)> = Vec::new();
        credits.push((beneficiary, U256::from_u128(split.beneficiary_reward)));
        credits.push((self.basefee_address, U256::from_u128(split.basefee_reward)));
        credits
    }
}

/// The fee is split without loss: when the transaction pays at least the
/// base fee, the two credits add up to the whole fee `price * gas_used`.
pub proof fn law_fee_split_conserves(gas_used: u64, basefee: u64, effective_gas_price: u128)
    requires
        effective_gas_price >= basefee,
    ensures
        priority_price(effective_gas_price, basefee) * gas_used + basefee * gas_used
            == effective_gas_price * gas_used,
{
    assert((effective_gas_price - basefee) * gas_used + basefee * gas_used == effective_gas_price
        * gas_used) by (nonlinear_arith);
}

/// The lowest and highest nonce seen from a sender.
#[derive(Debug, Clone, Copy, PartialEq, Eq, Structural)]
pub struct NonceRange {
    /// Lowest nonce.
    pub min: u64,
    /// Highest nonce.
    pub max: u64,
}

/// Detail about a single nonce-too-high transaction.
#[derive(Debug, Clone, Copy, PartialEq, Eq, Structural)]
pub struct NonceTooHighDetail {
    /// Transaction hash.
    pub tx_hash: U256,
    /// Sender address.
    pub sender: Address,
    /// Nonce on the transaction.
    pub tx_nonce: u64,
    /// Nonce expected by the state.
    pub state_nonce: u64,
}

/// The ranges an association list holds.
pub open spec fn ranges_of(s: Seq<(Address, NonceRange)>) -> Map<Address, NonceRange>
    decreases s.len(),
{
    if s.len() == 0 {
        Map::empty()
    } else {
        ranges_of(s.drop_last()).insert(s.last().0, s.last().1)
    }
}

/// No sender occurs twice in the list.
pub open spec fn senders_distinct(s: Seq<(Address, NonceRange)>) -> bool {
    forall|i: int, j: int| 0 <= i < j < s.len() ==> #[trigger] s[i].0 != #[trigger] s[j].0
}

/// The range after observing `nonce` from a sender whose range was `old`.
pub open spec fn widened(old: Option<NonceRange>, nonce: u64) -> NonceRange {
    match old {
        None => NonceRange { min: nonce, max: nonce },
        Some(r) => NonceRange {
            min: if nonce < r.min {
                nonce
            } else {
                r.min
            },
            max: if nonce > r.max {
                nonce
            } else {
                r.max
            },
        },
    }
}

/// Per-batch counts of transactions dropped during EVM execution,
/// classified by reason.
#[derive(Debug, Clone)]
pub struct TxValidationCounts {
    /// Transactions with a nonce above the account's (a gap: the tx is lost).
    pub nonce_too_high: u32,
    /// Transactions with a nonce below the account's (already executed).
    pub nonce_too_low: u32,
    /// Transactions dropped for other validation reasons.
    pub other: u32,
    /// Detailed info for nonce-too-high transactions.
    pub nonce_too_high_details: Vec<NonceTooHighDetail>,
    /// Per-sender nonce ranges across all executed and dropped txs of the
    /// batch, one entry per sender.
    pub sender_nonce_ranges: Vec<(Address, NonceRange)>,
}

impl TxValidationCounts {
    /// The per-sender nonce ranges.
    pub open spec fn ranges(&self) -> Map<Address, NonceRange> {
        ranges_of(self.sender_nonce_ranges@)
    }

    /// Each sender has one entry.
    pub open spec fn wf(&self) -> bool {
        senders_distinct(self.sender_nonce_ranges@)
    }

    /// No transaction dropped yet.
    pub fn new() -> (r: Self)
        ensures
            r.wf(),
            r.nonce_too_high == 0,
            r.nonce_too_low == 0,
            r.other == 0,
            r.nonce_too_high_details@.len() == 0,
            r.ranges() == Map::<Address, NonceRange>::empty(),
    {
        TxValidationCounts {
            nonce_too_high: 0,
            nonce_too_low: 0,
            other: 0,
            nonce_too_high_details: Vec::new(),
            sender_nonce_ranges: Vec::new(),
        }
    }

    /// Total number of dropped transactions.
    pub fn total(&self) -> (r: u32)
        requires
            self.nonce_too_high + self.nonce_too_low + self.other <= u32::MAX,
        ensures
            r == self.nonce_too_high + self.nonce_too_low + self.other,
    {
        self.nonce_too_high + self.nonce_too_low + self.other
    }

    /// The nonce range of `sender`, if any nonce of it was observed.
    pub fn nonce_range(&self, sender: Address) -> (r: Option<NonceRange>)
        requires
            self.wf(),
        ensures
            r == (if self.ranges().contains_key(sender) {
                Some(self.ranges()[sender])
            } else {
                None::<NonceRange>
            }),
    {
        let mut i: usize = 0;
        while i < self.sender_nonce_ranges.len()
            invariant
                i <= self.sender_nonce_ranges@.len(),
                self.wf(),
                forall|j: int| 0 <= j < i ==> self.sender_nonce_ranges@[j].0 != sender,
            decreases self.sender_nonce_ranges@.len() - i,
        {
            if self.sender_nonce_ranges[i].0 == sender {
                proof {
                    lemma_ranges_of_at(self.sender_nonce_ranges@, i as int);
                }
                return Some(self.sender_nonce_ranges[i].1);
            }
            i = i + 1;
        }
        proof {
            lemma_ranges_of_absent(self.sender_nonce_ranges@, sender);
        }
        None
    }

    /// Track a sender's nonce for the range calculation.
    pub fn observe_nonce(&mut self, sender: Address, nonce: u64)
        requires
            old(self).wf(),
        ensures
            final(self).wf(),
            final(self).ranges() == old(self).ranges().insert(
                sender,
                widened(
                    if old(self).ranges().contains_key(sender) {
                        Some(old(self).ranges()[sender])
                    } else {
                        None
                    },
                    nonce,
                ),
            ),
            final(self).nonce_too_high == old(self).nonce_too_high,
            final(self).nonce_too_low == old(self).nonce_too_low,
            final(self).other == old(self).other,
            final(self).nonce_too_high_details == old(self).nonce_too_high_details,
    {
        let mut i: usize = 0;
        while i < self.sender_nonce_ranges.len()
            invariant
                i <= self.sender_nonce_ranges@.len(),
                self.wf(),
                self.sender_nonce_ranges@ == old(self).sender_nonce_ranges@,
                self.nonce_too_high == old(self).nonce_too_high,
                self.nonce_too_low == old(self).nonce_too_low,
                self.other == old(self).other,
                self.nonce_too_high_details == old(self).nonce_too_high_details,
                forall|j: int| 0 <= j < i ==> self.sender_nonce_ranges@[j].0 != sender,
            decreases self.sender_nonce_ranges@.len() - i,
        {
            if self.sender_nonce_ranges[i].0 == sender {
                let r = self.sender_nonce_ranges[i].1;
                let w = NonceRange {
                    min: if nonce < r.min {
                        nonce
                    } else {
                        r.min
                    },
                    max: if nonce > r.max {
                        nonce
                    } else {
                        r.max
                    },
                };
                let ghost before = self.sender_nonce_ranges@;
                proof {
                    lemma_ranges_of_at(before, i as int);
                }
                self.sender_nonce_ranges.set(i, (sender, w));
                proof {
                    lemma_ranges_of_update(before, i as int, w);
                }
                return;
            }
            i = i + 1;
        }
        let ghost before = self.sender_nonce_ranges@;
        proof {
            lemma_ranges_of_absent(before, sender);
        }
        self.sender_nonce_ranges.push((sender, NonceRange { min: nonce, max: nonce }));
        assert(self.sender_nonce_ranges@.drop_last() =~= before);
        assert(senders_distinct(self.sender_nonce_ranges@)) by {
            assert forall|a: int, b: int| 0 <= a < b < self.sender_nonce_ranges@.len() implies #[trigger] self.sender_nonce_ranges@[a].0 != #[trigger] self.sender_nonce_ranges@[b].0 by {
                if b == before.len() {
                    assert(self.sender_nonce_ranges@[a] == before[a]);
                } else {
                    assert(self.sender_nonce_ranges@[a] == before[a]);
                    assert(self.sender_nonce_ranges@[b] == before[b]);
                }
            }
        }
    }
}

/// The entry of a sender in a list without repeats is its range.
proof fn lemma_ranges_of_at(s: Seq<(Address, NonceRange)>, i: int)
    requires
        senders_distinct(s),
        0 <= i < s.len(),
    ensures
        ranges_of(s).contains_key(s[i].0),
        ranges_of(s)[s[i].0] == s[i].1,
    decreases s.len(),
{
    if i < s.len() - 1 {
        assert(senders_distinct(s.drop_last()));
        assert(s.drop_last()[i] == s[i]);
        lemma_ranges_of_at(s.drop_last(), i);
    }
}

/// A sender absent from the list has no range.
proof fn lemma_ranges_of_absent(s: Seq<(Address, NonceRange)>, a: Address)
    requires
        forall|j: int| 0 <= j < s.len() ==> s[j].0 != a,
    ensures
        !ranges_of(s).contains_key(a),
    decreases s.len(),
{
    if s.len() > 0 {
        lemma_ranges_of_absent(s.drop_last(), a);
    }
}

/// Replacing the range of the sender at `i` replaces it in the map.
proof fn lemma_ranges_of_update(s: Seq<(Address, NonceRange)>, i: int, r: NonceRange)
    requires
        senders_distinct(s),
        0 <= i < s.len(),
    ensures
        senders_distinct(s.update(i, (s[i].0, r))),
        ranges_of(s.update(i, (s[i].0, r))) == ranges_of(s).insert(s[i].0, r),
    decreases s.len(),
{
    let t = s.update(i, (s[i].0, r));
    assert(senders_distinct(t));
    if i == s.len() - 1 {
        assert(t.drop_last() =~= s.drop_last());
        assert(ranges_of(t) =~= ranges_of(s).insert(s[i].0, r));
    } else {
        assert(senders_distinct(s.drop_last()));
        lemma_ranges_of_update(s.drop_last(), i, r);
        assert(t.drop_last() =~= s.drop_last().update(i, (s[i].0, r)));
        assert(s.last().0 != s[i].0);
        assert(ranges_of(t) =~= ranges_of(s).insert(s[i].0, r));
    }
}

} // verus!
