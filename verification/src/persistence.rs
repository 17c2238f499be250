//! Deferred persistence of executed blocks.
//!
//! Blocks stay in memory until the canonical head runs far enough ahead of
//! the last persisted block; then one batch at a time is handed to the
//! persistence service. [`PersistenceState`] makes the decisions: when to
//! start a batch, what a completion report changes, what a flush does. The
//! node performs the work (extracting blocks, sending them, waiting) and
//! reports back.

use crate::uint::U256;
use vstd::prelude::*;
use vstd::string::StringExecFns;

verus! {

/// A block's number and hash.
#[derive(Debug, Clone, Copy, PartialEq, Eq, Structural)]
pub struct BlockNumHash {
    /// Block number.
    pub number: u64,
    /// Block hash.
    pub hash: U256,
}

/// What a poll of the in-flight persistence reports.
#[derive(Debug, Clone, Copy, PartialEq, Eq, Structural)]
pub enum PersistPoll {
    /// The batch was written up to this block.
    Persisted(BlockNumHash),
    /// The batch completed without writing any block.
    NoBlocks,
    /// Still running.
    Pending,
    /// The service dropped its reply channel.
    Disconnected,
}

/// What waiting for a batch yields.
#[derive(Debug, Clone, PartialEq, Eq)]
pub enum PersistWait {
    /// The batch was written up to this block.
    Persisted(BlockNumHash),
    /// The batch completed without writing any block.
    NoBlocks,
    /// The reply channel was dropped; the text says why.
    Dropped(String),
    /// The persistence service refused the batch; the text says why.
    Refused(String),
}

/// How to obtain the trie input of the unpersisted ancestors.
#[derive(Debug, Clone, Copy, PartialEq, Eq, Structural)]
pub enum TrieInputPlan {
    /// The cached input is current.
    Reuse,
    /// Extend the cached input with the blocks `from..=to`.
    Extend { from: u64, to: u64 },
    /// Compute the input afresh from the blocks after the last persisted one.
    Recompute,
}

/// Tracks deferred persistence between consensus rounds.
#[derive(Debug, Clone)]
pub struct PersistenceState {
    /// Last block successfully persisted to disk (number + hash).
    pub last_persisted_block: BlockNumHash,
    /// True while a persistence batch is in flight.
    pub pending: bool,
    /// Latest finalized block number (to include in the next persist).
    pub latest_finalized_number: u64,
    /// Latest safe block number (to include in the next persist).
    pub latest_safe_number: u64,
    /// Persist when the canonical head exceeds the last persisted block by
    /// more than this many blocks.
    pub persistence_threshold: u64,
}

/// The head is far enough ahead of the last persisted block to persist.
pub open spec fn persist_due(last_persisted: u64, threshold: u64, head: u64) -> bool {
    head > last_persisted && head - last_persisted > threshold
}

/// The plan for the ancestor trie input, given the cached `(persisted, head)`
/// pair if any.
pub open spec fn trie_input_plan_spec(cache: Option<(u64, u64)>, last_persisted: u64, head: u64) -> TrieInputPlan {
    match cache {
        Some((cached_persisted, cached_head)) => if cached_persisted == last_persisted
            && cached_head == head {
            TrieInputPlan::Reuse
        } else if cached_persisted == last_persisted && cached_head < head {
            TrieInputPlan::Extend { from: (cached_head + 1) as u64, to: head }
        } else {
            TrieInputPlan::Recompute
        },
        None => TrieInputPlan::Recompute,
    }
}

/// `s` after block `number` is finalized (and made safe).
pub open spec fn finalized(s: PersistenceState, number: u64) -> PersistenceState {
    PersistenceState { latest_finalized_number: number, latest_safe_number: number, ..s }
}

/// Finalizing block `number` in `s` starts a batch: none is in flight and
/// the block is far enough ahead.
pub open spec fn starts_batch(s: PersistenceState, number: u64) -> bool {
    !s.pending && persist_due(s.last_persisted_block.number, s.persistence_threshold, number)
}

/// `s` after a batch was handed to the persistence service.
pub open spec fn started(s: PersistenceState) -> PersistenceState {
    PersistenceState { pending: true, ..s }
}

/// `s` after a poll of the in-flight batch reported `poll`, and the block up
/// to which in-memory blocks can be dropped.
pub open spec fn completed(s: PersistenceState, poll: PersistPoll) -> (PersistenceState, Option<BlockNumHash>) {
    if !s.pending {
        (s, None)
    } else {
        match poll {
            PersistPoll::Persisted(b) => (
                PersistenceState { last_persisted_block: b, pending: false, ..s },
                Some(b),
            ),
            PersistPoll::Pending => (s, None),
            _ => (PersistenceState { pending: false, ..s }, None),
        }
    }
}

impl PersistenceState {
    /// Create with the given last persisted block number and threshold.
    pub fn new(last_persisted_block_number: u64, persistence_threshold: u64) -> (r: Self)
        ensures
            r.last_persisted_block == (BlockNumHash {
                number: last_persisted_block_number,
                hash: U256 { hi: 0, lo: 0 },
            }),
            !r.pending,
            r.latest_finalized_number == last_persisted_block_number,
            r.latest_safe_number == last_persisted_block_number,
            r.persistence_threshold == persistence_threshold,
    {
        PersistenceState {
            last_persisted_block: BlockNumHash {
                number: last_persisted_block_number,
                hash: U256::zero(),
            },
            pending: false,
            latest_finalized_number: last_persisted_block_number,
            latest_safe_number: last_persisted_block_number,
            persistence_threshold,
        }
    }

    /// True if the canonical head is far enough ahead of the last persisted
    /// block to warrant a persistence flush.
    pub fn should_persist(&self, canonical_head_number: u64) -> (r: bool)
        ensures
            r == persist_due(
                self.last_persisted_block.number,
                self.persistence_threshold,
                canonical_head_number,
            ),
    {
        let ahead = if canonical_head_number > self.last_persisted_block.number {
            canonical_head_number - self.last_persisted_block.number
        } else {
            0
        };
        ahead > self.persistence_threshold
    }

    /// True if a persistence batch is in flight.
    pub fn in_progress(&self) -> (r: bool)
        ensures
            r == self.pending,
    {
        self.pending
    }

    /// Records block `number` as finalized and safe; true if a batch should
    /// now be started (none is in flight and the block is far enough ahead).
    pub fn finalize_block(&mut self, number: u64) -> (start_batch: bool)
        ensures
            *final(self) == finalized(*old(self), number),
            start_batch == starts_batch(*old(self), number),
    {
        self.latest_finalized_number = number;
        self.latest_safe_number = number;
        !self.in_progress() && self.should_persist(number)
    }

    /// Records that a batch was handed to the persistence service.
    pub fn batch_started(&mut self)
        ensures
            *final(self) == started(*old(self)),
    {
        self.pending = true;
    }

    /// The numbers of the blocks to persist up to the canonical head: from
    /// the block after the last persisted one to the head, if any.
    pub fn blocks_to_persist(&self, canonical_head: u64) -> (r: Option<(u64, u64)>)
        ensures
            r == if canonical_head > self.last_persisted_block.number {
                Some(((self.last_persisted_block.number + 1) as u64, canonical_head))
            } else {
                None::<(u64, u64)>
            },
    {
        if canonical_head > self.last_persisted_block.number {
            Some((self.last_persisted_block.number + 1, canonical_head))
        } else {
            None
        }
    }

    /// Applies a poll of the in-flight batch (nothing happens when none is in
    /// flight). Returns the block up to which the in-memory blocks are now
    /// persisted and can be dropped.
    pub fn check_persistence_completion(&mut self, poll: PersistPoll) -> (r: Option<BlockNumHash>)
        ensures
            (*final(self), r) == completed(*old(self), poll),
    {
        if !self.pending {
            return None;
        }
        match poll {
            PersistPoll::Persisted(b) => {
                self.last_persisted_block = b;
                self.pending = false;
                Some(b)
            },
            PersistPoll::NoBlocks => {
                self.pending = false;
                None
            },
            PersistPoll::Pending => None,
            PersistPoll::Disconnected => {
                self.pending = false;
                None
            },
        }
    }

    /// First step of a flush: the result of waiting for the in-flight batch,
    /// if there was one. No batch is in flight afterwards. Returns the block
    /// up to which the in-memory blocks can be dropped.
    pub fn settle_in_flight(&mut self, wait: PersistWait) -> (r: Option<BlockNumHash>)
        ensures
            !final(self).pending,
            final(self).latest_finalized_number == old(self).latest_finalized_number,
            final(self).latest_safe_number == old(self).latest_safe_number,
            final(self).persistence_threshold == old(self).persistence_threshold,
            !old(self).pending ==> r is None && final(self).last_persisted_block == old(
                self,
            ).last_persisted_block,
            old(self).pending ==> match wait {
                PersistWait::Persisted(b) => r == Some(b) && final(self).last_persisted_block == b,
                _ => r is None && final(self).last_persisted_block == old(self).last_persisted_block,
            },
    {
        if !self.pending {
            return None;
        }
        self.pending = false;
        match wait {
            PersistWait::Persisted(b) => {
                self.last_persisted_block = b;
                Some(b)
            },
            _ => None,
        }
    }

    /// Last step of a flush: what became of the batch that the flush sent.
    /// A batch the service refused, or a dropped reply channel, is an error.
    pub fn finish_flush(&mut self, wait: PersistWait) -> (r: Result<Option<BlockNumHash>, String>)
        ensures
            final(self).pending == old(self).pending,
            final(self).latest_finalized_number == old(self).latest_finalized_number,
            final(self).latest_safe_number == old(self).latest_safe_number,
            final(self).persistence_threshold == old(self).persistence_threshold,
            match wait {
                PersistWait::Persisted(b) => r == Ok::<Option<BlockNumHash>, String>(Some(b))
                    && final(self).last_persisted_block == b,
                PersistWait::NoBlocks => r == Ok::<Option<BlockNumHash>, String>(None)
                    && final(self).last_persisted_block == old(self).last_persisted_block,
                PersistWait::Dropped(e) => r matches Err(m) && m@
                    == "flush_persistence: persistence channel dropped: "@ + e@
                    && final(self).last_persisted_block == old(self).last_persisted_block,
                PersistWait::Refused(e) => r matches Err(m) && m@
                    == "flush_persistence: persistence service unavailable: "@ + e@
                    && final(self).last_persisted_block == old(self).last_persisted_block,
            },
    {
        match wait {
            PersistWait::Persisted(b) => {
                self.last_persisted_block = b;
                Ok(Some(b))
            },
            PersistWait::NoBlocks => Ok(None),
            PersistWait::Dropped(e) => {
                let mut m = String::from_str("flush_persistence: persistence channel dropped: ");
                m.append(e.as_str());
                Err(m)
            },
            PersistWait::Refused(e) => {
                let mut m = String::from_str("flush_persistence: persistence service unavailable: ");
                m.append(e.as_str());
                Err(m)
            },
        }
    }

    /// The error of a flush whose blocking task itself failed (its effects
    /// on the state, if any, were made by the steps it got through).
    pub fn flush_task_error(reason: String) -> (r: String)
        ensures
            r@ == "flush_persistence: spawn_blocking failed: "@ + reason@,
    {
        let mut m = String::from_str("flush_persistence: spawn_blocking failed: ");
        m.append(reason.as_str());
        m
    }
}

/// How to obtain the trie input of the unpersisted ancestors, given the
/// cached `(last persisted, head)` pair if any: reuse it when both match,
/// extend it with the new blocks when only the head moved forward, and
/// recompute it otherwise.
pub fn cached_ancestor_trie_plan(cache: Option<(u64, u64)>, last_persisted: u64, canonical_head: u64) -> (r: TrieInputPlan)
    ensures
        r == trie_input_plan_spec(cache, last_persisted, canonical_head),
{
    match cache {
        Some((cached_persisted, cached_head)) => {
            if cached_persisted == last_persisted {
                if cached_head == canonical_head {
                    return TrieInputPlan::Reuse;
                }
                if cached_head < canonical_head {
                    return TrieInputPlan::Extend { from: cached_head + 1, to: canonical_head };
                }
            }
            TrieInputPlan::Recompute
        },
        None => TrieInputPlan::Recompute,
    }
}

/// No second batch starts while one is in flight: once a batch has
/// started, finalizing any block starts none until a completion frees the
/// way.
pub proof fn law_single_batch_in_flight(s: PersistenceState, n1: u64, n2: u64)
    requires
        starts_batch(s, n1),
    ensures
        !starts_batch(finalized(started(finalized(s, n1)), n2), n2),
        !starts_batch(started(finalized(s, n1)), n2),
{
}

/// A reported completion moves the persisted mark to the reported block and
/// frees the way: the next batch is due exactly when the head is far enough
/// ahead of the new mark. A poll that finds the batch still running changes
/// nothing.
pub proof fn law_completion_advances_mark(s: PersistenceState, b: BlockNumHash, n: u64)
    ensures
        completed(started(s), PersistPoll::Persisted(b)).0.last_persisted_block == b,
        completed(started(s), PersistPoll::Persisted(b)).1 == Some(b),
        starts_batch(completed(started(s), PersistPoll::Persisted(b)).0, n) == persist_due(
            b.number,
            s.persistence_threshold,
            n,
        ),
        completed(started(s), PersistPoll::Pending).0 == started(s),
{
}

/// The threshold is the number of unpersisted blocks tolerated: with the
/// last persisted block at `last`, heads up to `last + threshold` are not
/// due, and every head past that is.
pub proof fn law_persist_due_after_threshold(last: u64, threshold: u64, head: u64)
    ensures
        head as int <= last + threshold ==> !persist_due(last, threshold, head),
        head as int > last + threshold ==> persist_due(last, threshold, head),
{
}

/// Every report that the in-flight batch is over ends it: after a batch was
/// started, a poll that reports it written, written without blocks, or its
/// reply channel dropped leaves no batch in flight, so finalizing a block far
/// enough ahead of the persisted mark starts the next one. Only a written
/// batch moves the mark; the other reports keep it and release no blocks.
pub proof fn law_completion_ends_batch(s: PersistenceState, poll: PersistPoll, n: u64)
    requires
        !(poll is Pending),
    ensures
        !completed(started(s), poll).0.pending,
        starts_batch(completed(started(s), poll).0, n) == persist_due(
            completed(started(s), poll).0.last_persisted_block.number,
            s.persistence_threshold,
            n,
        ),
        !(poll is Persisted) ==> completed(started(s), poll).0.last_persisted_block
            == s.last_persisted_block && completed(started(s), poll).1 is None,
        completed(started(s), poll).0.persistence_threshold == s.persistence_threshold,
        completed(started(s), poll).0.latest_finalized_number == s.latest_finalized_number,
{
}

/// The ancestor trie input is only extended on the same persisted base,
/// with exactly the blocks after the cached head up to the new head.
pub proof fn law_trie_extension_is_forward(cache: Option<(u64, u64)>, last_persisted: u64, head: u64)
    ensures
        trie_input_plan_spec(cache, last_persisted, head) matches TrieInputPlan::Extend { from, to }
            ==> cache matches Some((p, h)) && p == last_persisted && from == h + 1 && to == head
            && h < head,
        trie_input_plan_spec(cache, last_persisted, head) is Reuse ==> cache == Some(
            (last_persisted, head),
        ),
{
}

/// The blocks numbered `from..=to`.
pub open spec fn block_span(from: int, to: int) -> Set<int> {
    Set::new(|n: int| from <= n <= to)
}

/// Every plan covers the same blocks as a recompute: the unpersisted
/// blocks after `last_persisted` up to `head`. A reused input covers them
/// already; an extension adds exactly the blocks its cached input lacks.
/// (A cached input was built for a head at or past its persisted block.)
pub proof fn law_trie_plans_cover_unpersisted_blocks(cache: Option<(u64, u64)>, last_persisted: u64, head: u64)
    requires
        cache matches Some((p, h)) ==> p <= h,
    ensures
        trie_input_plan_spec(cache, last_persisted, head) is Reuse ==> (cache matches Some((p, h))
            && block_span(p + 1, h as int) == block_span(last_persisted + 1, head as int)),
        trie_input_plan_spec(cache, last_persisted, head) matches TrieInputPlan::Extend { from, to } ==> (
        cache matches Some((p, h)) && block_span(p + 1, h as int).union(block_span(from as int, to as int))
            == block_span(last_persisted + 1, head as int)
            && block_span(p + 1, h as int).disjoint(block_span(from as int, to as int))),
{
    law_trie_extension_is_forward(cache, last_persisted, head);
    match trie_input_plan_spec(cache, last_persisted, head) {
        TrieInputPlan::Extend { from, to } => {
            let (p, h) = cache.unwrap();
            assert(block_span(p + 1, h as int).union(block_span(from as int, to as int))
                =~= block_span(last_persisted + 1, head as int));
        },
        TrieInputPlan::Reuse => {
            let (p, h) = cache.unwrap();
            assert(block_span(p + 1, h as int) =~= block_span(last_persisted + 1, head as int));
        },
        TrieInputPlan::Recompute => {},
    }
}

} // verus!
