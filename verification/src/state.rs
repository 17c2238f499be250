//! The chain state the precompile reads and writes.
//!
//! [`StateAccessAdapter`] is the interface through which the precompile
//! reaches the EVM's journaled state; its contract is stated over
//! [`EvmStateView`], the part of the state the precompile can observe.
//! [`InMemoryState`] is a complete in-memory implementation.

use crate::address::Address;
use crate::uint::U256;
use vstd::prelude::*;

verus! {

/// An event log entry.
#[derive(Debug, Clone)]
pub struct Log {
    /// The emitting contract.
    pub address: Address,
    /// Indexed topics (the event signature first).
    pub topics: Vec<U256>,
    /// Non-indexed data.
    pub data: Vec<u8>,
}

/// The content of a [`Log`].
pub struct LogView {
    pub address: Address,
    pub topics: Seq<nat>,
    pub data: Seq<u8>,
}

impl View for Log {
    type V = LogView;

    open spec fn view(&self) -> LogView {
        LogView {
            address: self.address,
            topics: self.topics@.map_values(|t: U256| t@),
            data: self.data@,
        }
    }
}

/// What the precompile observes of the chain state.
pub struct EvmStateView {
    /// Native balances (an address not in the map holds 0).
    pub balances: Map<Address, nat>,
    /// Storage by contract and slot (a slot not in the map holds 0).
    pub storage: Map<(Address, nat), nat>,
    /// Account code (an account not in the map has none).
    pub codes: Map<Address, Seq<u8>>,
    /// Accounts marked touched in the journal.
    pub touched: Set<Address>,
    /// Logs emitted so far, oldest first.
    pub logs: Seq<LogView>,
    /// The current block's timestamp.
    pub timestamp: nat,
}

/// The native balance of `a`.
pub open spec fn balance_of(s: EvmStateView, a: Address) -> nat {
    if s.balances.contains_key(a) {
        s.balances[a]
    } else {
        0
    }
}

/// The value at slot `k` of contract `c`.
pub open spec fn storage_at(s: EvmStateView, c: Address, k: nat) -> nat {
    if s.storage.contains_key((c, k)) {
        s.storage[(c, k)]
    } else {
        0
    }
}

/// `s` with the balance of `a` set to `v`.
pub open spec fn with_balance(s: EvmStateView, a: Address, v: nat) -> EvmStateView {
    EvmStateView { balances: s.balances.insert(a, v), ..s }
}

/// `s` with slot `k` of contract `c` set to `v`.
pub open spec fn with_storage(s: EvmStateView, c: Address, k: nat, v: nat) -> EvmStateView {
    EvmStateView { storage: s.storage.insert((c, k), v), ..s }
}

/// The code of `a` (empty when it has none).
pub open spec fn code_of(s: EvmStateView, a: Address) -> Seq<u8> {
    if s.codes.contains_key(a) {
        s.codes[a]
    } else {
        Seq::empty()
    }
}

/// `s` with the code of `a` set to `code`.
pub open spec fn with_code(s: EvmStateView, a: Address, code: Seq<u8>) -> EvmStateView {
    EvmStateView { codes: s.codes.insert(a, code), ..s }
}

/// `s` with `a` marked touched.
pub open spec fn with_touch(s: EvmStateView, a: Address) -> EvmStateView {
    EvmStateView { touched: s.touched.insert(a), ..s }
}

/// `s` with the log `l` appended.
pub open spec fn with_log(s: EvmStateView, l: LogView) -> EvmStateView {
    EvmStateView { logs: s.logs.push(l), ..s }
}

/// Access to the state the precompile works on.
///
/// Reads never change the state. A state that is `reliable` answers every
/// access without error; another one may fail an access, and then reports
/// why in the error text.
pub trait StateAccessAdapter {
    /// The observable state.
    spec fn state(&self) -> EvmStateView;

    /// True if no access can fail.
    spec fn reliable(&self) -> bool;

    /// Get an account's balance.
    fn perform_get_balance(&mut self, address: Address) -> (r: Result<U256, String>)
        ensures
            final(self).state() == old(self).state(),
            final(self).reliable() == old(self).reliable(),
            r matches Ok(v) ==> v@ == balance_of(old(self).state(), address),
            old(self).reliable() ==> r is Ok,
    ;

    /// Set an account's balance via the journal.
    fn perform_set_balance(&mut self, address: Address, balance: U256) -> (r: Result<(), String>)
        ensures
            final(self).reliable() == old(self).reliable(),
            r is Ok ==> final(self).state() == with_balance(old(self).state(), address, balance@),
            old(self).reliable() ==> r is Ok,
    ;

    /// Load a storage value.
    fn perform_sload(&mut self, contract_address: Address, key: U256) -> (r: Result<U256, String>)
        ensures
            final(self).state() == old(self).state(),
            final(self).reliable() == old(self).reliable(),
            r matches Ok(v) ==> v@ == storage_at(old(self).state(), contract_address, key@),
            old(self).reliable() ==> r is Ok,
    ;

    /// Store a storage value.
    fn perform_sstore(&mut self, contract_address: Address, key: U256, value: U256) -> (r: Result<
        (),
        String,
    >)
        ensures
            final(self).reliable() == old(self).reliable(),
            r is Ok ==> final(self).state() == with_storage(
                old(self).state(),
                contract_address,
                key@,
                value@,
            ),
            old(self).reliable() ==> r is Ok,
    ;

    /// Load an account's code (empty when it has none).
    fn perform_get_code(&mut self, address: Address) -> (r: Result<Vec<u8>, String>)
        ensures
            final(self).state() == old(self).state(),
            final(self).reliable() == old(self).reliable(),
            r matches Ok(c) ==> c@ == code_of(old(self).state(), address),
            old(self).reliable() ==> r is Ok,
    ;

    /// Set an account's code via the journal.
    fn perform_set_code(&mut self, address: Address, code: Vec<u8>) -> (r: Result<(), String>)
        ensures
            final(self).reliable() == old(self).reliable(),
            r is Ok ==> final(self).state() == with_code(old(self).state(), address, code@),
            old(self).reliable() ==> r is Ok,
    ;

    /// Mark an account as touched.
    fn perform_touch_account(&mut self, address: Address)
        ensures
            final(self).state() == with_touch(old(self).state(), address),
            final(self).reliable() == old(self).reliable(),
    ;

    /// Emit a log.
    fn perform_log(&mut self, log: Log)
        ensures
            final(self).state() == with_log(old(self).state(), log@),
            final(self).reliable() == old(self).reliable(),
    ;

    /// Get the current block timestamp.
    fn get_block_timestamp(&self) -> (r: U256)
        ensures
            r@ == self.state().timestamp,
    ;
}

/// The balances an association list holds (later entries win).
pub open spec fn balances_of_list(s: Seq<(Address, U256)>) -> Map<Address, nat>
    decreases s.len(),
{
    if s.len() == 0 {
        Map::empty()
    } else {
        balances_of_list(s.drop_last()).insert(s.last().0, s.last().1@)
    }
}

/// The storage an association list holds (later entries win).
pub open spec fn storage_of_list(s: Seq<(Address, U256, U256)>) -> Map<(Address, nat), nat>
    decreases s.len(),
{
    if s.len() == 0 {
        Map::empty()
    } else {
        storage_of_list(s.drop_last()).insert((s.last().0, s.last().1@), s.last().2@)
    }
}

/// The code an association list holds (later entries win).
pub open spec fn codes_of_list(s: Seq<(Address, Vec<u8>)>) -> Map<Address, Seq<u8>>
    decreases s.len(),
{
    if s.len() == 0 {
        Map::empty()
    } else {
        codes_of_list(s.drop_last()).insert(s.last().0, s.last().1@)
    }
}

/// A chain state held in memory; every access succeeds.
#[derive(Debug, Clone)]
pub struct InMemoryState {
    balances: Vec<(Address, U256)>,
    storage: Vec<(Address, U256, U256)>,
    codes: Vec<(Address, Vec<u8>)>,
    touched: Vec<Address>,
    logs: Vec<Log>,
    timestamp: U256,
}

impl InMemoryState {
    /// An empty state at the given block timestamp.
    pub fn new(timestamp: U256) -> (r: InMemoryState)
        ensures
            r.state() == (EvmStateView {
                balances: Map::empty(),
                storage: Map::empty(),
                codes: Map::empty(),
                touched: Set::empty(),
                logs: Seq::empty(),
                timestamp: timestamp@,
            }),
    {
        let r = InMemoryState {
            balances: Vec::new(),
            storage: Vec::new(),
            codes: Vec::new(),
            touched: Vec::new(),
            logs: Vec::new(),
            timestamp,
        };
        assert(r.touched@.to_set() =~= Set::empty());
        assert(r.logs@.map_values(|l: Log| l@) =~= Seq::empty());
        assert(balances_of_list(r.balances@) == Map::<Address, nat>::empty());
        assert(storage_of_list(r.storage@) == Map::<(Address, nat), nat>::empty());
        assert(codes_of_list(r.codes@) == Map::<Address, Seq<u8>>::empty());
        r
    }

    /// The balance of `a`.
    pub fn balance(&self, a: Address) -> (r: U256)
        ensures
            r@ == balance_of(self.state(), a),
    {
        let mut i = self.balances.len();
        assert(self.balances@.take(i as int) =~= self.balances@);
        while i > 0
            invariant
                i <= self.balances@.len(),
                balances_of_list(self.balances@).contains_key(a) == balances_of_list(
                    self.balances@.take(i as int),
                ).contains_key(a),
                balances_of_list(self.balances@).contains_key(a) ==> balances_of_list(
                    self.balances@,
                )[a] == balances_of_list(self.balances@.take(i as int))[a],
            decreases i,
        {
            let ghost prefix = self.balances@.take(i as int);
            assert(prefix.drop_last() =~= self.balances@.take(i - 1));
            if self.balances[i - 1].0 == a {
                return self.balances[i - 1].1;
            }
            i = i - 1;
        }
        U256::zero()
    }

    /// The value at slot `key` of contract `contract`.
    pub fn storage_value(&self, contract: Address, key: U256) -> (r: U256)
        ensures
            r@ == storage_at(self.state(), contract, key@),
    {
        let mut i = self.storage.len();
        assert(self.storage@.take(i as int) =~= self.storage@);
        while i > 0
            invariant
                i <= self.storage@.len(),
                storage_of_list(self.storage@).contains_key((contract, key@)) == storage_of_list(
                    self.storage@.take(i as int),
                ).contains_key((contract, key@)),
                storage_of_list(self.storage@).contains_key((contract, key@)) ==> storage_of_list(
                    self.storage@,
                )[(contract, key@)] == storage_of_list(self.storage@.take(i as int))[(
                    contract,
                    key@,
                )],
            decreases i,
        {
            let ghost prefix = self.storage@.take(i as int);
            assert(prefix.drop_last() =~= self.storage@.take(i - 1));
            let entry = &self.storage[i - 1];
            if entry.0 == contract && entry.1.eq_word(&key) {
                return entry.2;
            }
            i = i - 1;
        }
        U256::zero()
    }

    /// The code of `a` (empty when it has none).
    pub fn code(&self, a: Address) -> (r: Vec<u8>)
        ensures
            r@ == code_of(self.state(), a),
    {
        let mut i = self.codes.len();
        assert(self.codes@.take(i as int) =~= self.codes@);
        while i > 0
            invariant
                i <= self.codes@.len(),
                codes_of_list(self.codes@).contains_key(a) == codes_of_list(
                    self.codes@.take(i as int),
                ).contains_key(a),
                codes_of_list(self.codes@).contains_key(a) ==> codes_of_list(self.codes@)[a]
                    == codes_of_list(self.codes@.take(i as int))[a],
            decreases i,
        {
            let ghost prefix = self.codes@.take(i as int);
            assert(prefix.drop_last() =~= self.codes@.take(i - 1));
            if self.codes[i - 1].0 == a {
                let c = self.codes[i - 1].1.clone();
                return c;
            }
            i = i - 1;
        }
        Vec::new()
    }

    /// True if `a` has been marked touched.
    pub fn is_touched(&self, a: Address) -> (r: bool)
        ensures
            r == self.state().touched.contains(a),
    {
        let mut i: usize = 0;
        while i < self.touched.len()
            invariant
                i <= self.touched@.len(),
                forall|j: int| 0 <= j < i ==> self.touched@[j] != a,
            decreases self.touched@.len() - i,
        {
            if self.touched[i] == a {
                return true;
            }
            i = i + 1;
        }
        false
    }

    /// The logs emitted so far, oldest first.
    pub fn logs(&self) -> (r: &Vec<Log>)
        ensures
            r@.map_values(|l: Log| l@) == self.state().logs,
    {
        &self.logs
    }

    /// Sets the block timestamp.
    pub fn set_timestamp(&mut self, timestamp: U256)
        ensures
            final(self).state() == (EvmStateView { timestamp: timestamp@, ..old(self).state() }),
    {
        self.timestamp = timestamp;
    }
}

impl StateAccessAdapter for InMemoryState {
    closed spec fn state(&self) -> EvmStateView {
        EvmStateView {
            balances: balances_of_list(self.balances@),
            storage: storage_of_list(self.storage@),
            codes: codes_of_list(self.codes@),
            touched: self.touched@.to_set(),
            logs: self.logs@.map_values(|l: Log| l@),
            timestamp: self.timestamp@,
        }
    }

    open spec fn reliable(&self) -> bool {
        true
    }

    fn perform_get_balance(&mut self, address: Address) -> (r: Result<U256, String>) {
        Ok(self.balance(address))
    }

    fn perform_set_balance(&mut self, address: Address, balance: U256) -> (r: Result<(), String>) {
        self.balances.push((address, balance));
        assert(self.balances@.drop_last() =~= old(self).balances@);
        Ok(())
    }

    fn perform_sload(&mut self, contract_address: Address, key: U256) -> (r: Result<U256, String>) {
        Ok(self.storage_value(contract_address, key))
    }

    fn perform_sstore(&mut self, contract_address: Address, key: U256, value: U256) -> (r: Result<
        (),
        String,
    >) {
        self.storage.push((contract_address, key, value));
        assert(self.storage@.drop_last() =~= old(self).storage@);
        Ok(())
    }

    fn perform_get_code(&mut self, address: Address) -> (r: Result<Vec<u8>, String>) {
        Ok(self.code(address))
    }

    fn perform_set_code(&mut self, address: Address, code: Vec<u8>) -> (r: Result<(), String>) {
        self.codes.push((address, code));
        assert(self.codes@.drop_last() =~= old(self).codes@);
        Ok(())
    }

    fn perform_touch_account(&mut self, address: Address) {
        self.touched.push(address);
        assert(self.touched@.to_set() =~= old(self).touched@.to_set().insert(address)) by {
            assert forall|x: Address| #[trigger] self.touched@.contains(x) <==> (old(
                self,
            ).touched@.contains(x) || x == address) by {
                if self.touched@.contains(x) && x != address {
                    let j = choose|j: int| 0 <= j < self.touched@.len() && self.touched@[j] == x;
                    assert(j < old(self).touched@.len());
                    assert(old(self).touched@[j] == x);
                }
                if old(self).touched@.contains(x) {
                    let j = choose|j: int|
                        0 <= j < old(self).touched@.len() && old(self).touched@[j] == x;
                    assert(self.touched@[j] == x);
                }
                if x == address {
                    assert(self.touched@[self.touched@.len() - 1] == x);
                }
            }
        }
    }

    fn perform_log(&mut self, log: Log) {
        self.logs.push(log);
        assert(self.logs@.map_values(|l: Log| l@) =~= old(self).logs@.map_values(|l: Log| l@).push(
            self.logs@.last()@,
        ));
    }

    fn get_block_timestamp(&self) -> (r: U256) {
        self.timestamp
    }
}

} // verus!
