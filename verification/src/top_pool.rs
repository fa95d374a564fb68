//! The trusted-operation pool: a per-shard mempool of user-submitted
//! confidential operations.
//!
//! An operation's identity is the digest of its encoding: submitting the
//! same bytes twice is idempotent. Shards never interact — shards are
//! created lazily on first submission, and an unknown shard is
//! indistinguishable from an empty one. The pool orders candidates in
//! submission order; it owns no shard state and makes no delivery promise
//! beyond "available until removed".

use vstd::prelude::*;
use vstd::bytes::spec_u64_to_le_bytes;
use vstd::bytes::u64_to_le_bytes;
use crate::errors::PoolError;
use crate::hashing::{content_hash, h256_of, h256_to_bytes, spec_h256_to_bytes, H256};
use crate::primitives::dup_bytes;

verus! {

/// Where an operation was submitted from.
#[derive(Clone, Copy, Debug, PartialEq, Eq, Structural)]
pub enum TrustedOperationSource {
    InBlock,
    Local,
    External,
}

/// A confidential operation as submitted: an opaque signed call, its nonce
/// and the shard it is destined for.
#[derive(Clone, Debug)]
pub struct TrustedOperation {
    pub call: Vec<u8>,
    pub signature: Vec<u8>,
    pub nonce: u64,
    pub shard: H256,
}

/// Content equality of two operations.
pub open spec fn op_eq(a: TrustedOperation, b: TrustedOperation) -> bool {
    a.call@ == b.call@ && a.signature@ == b.signature@ && a.nonce == b.nonce && a.shard == b.shard
}

/// The shard-independent well-formedness rule: a call and a signature must
/// be present. Anything needing external state (nonce-in-state checks) is
/// the caller's duty before submission.
pub open spec fn op_well_formed(op: TrustedOperation) -> bool {
    op.call@.len() > 0 && op.signature@.len() > 0
}

/// The encoding an operation is hashed over: length-prefixed call and
/// signature, the nonce, and the shard.
pub open spec fn op_encoding(op: TrustedOperation) -> Seq<u8> {
    spec_u64_to_le_bytes(op.call@.len() as u64) + op.call@ + spec_u64_to_le_bytes(
        op.signature@.len() as u64,
    ) + op.signature@ + spec_u64_to_le_bytes(op.nonce) + spec_h256_to_bytes(op.shard)
}

/// The operation's identity: the digest of its encoding.
pub open spec fn op_hash_of(op: TrustedOperation) -> H256 {
    h256_of(op_encoding(op))
}

impl TrustedOperation {
    /// Whether this operation passes the well-formedness rule.
    pub fn well_formed(&self) -> (r: bool)
        ensures
            r == op_well_formed(*self),
    {
        self.call.len() > 0 && self.signature.len() > 0
    }

    /// Copies an operation, content-wise.
    pub fn dup(&self) -> (r: TrustedOperation)
        ensures
            op_eq(r, *self),
    {
        TrustedOperation {
            call: dup_bytes(&self.call),
            signature: dup_bytes(&self.signature),
            nonce: self.nonce,
            shard: self.shard,
        }
    }
}

/// Computes the encoding an operation is hashed over.
pub fn encode_operation(op: &TrustedOperation) -> (r: Vec<u8>)
    ensures
        r@ == op_encoding(*op),
{
    let mut r = u64_to_le_bytes(op.call.len() as u64);
    let mut call = dup_bytes(&op.call);
    r.append(&mut call);
    let mut sig_len = u64_to_le_bytes(op.signature.len() as u64);
    r.append(&mut sig_len);
    let mut sig = dup_bytes(&op.signature);
    r.append(&mut sig);
    let mut nonce = u64_to_le_bytes(op.nonce);
    r.append(&mut nonce);
    let mut shard = h256_to_bytes(&op.shard);
    r.append(&mut shard);
    r
}

/// An operation held in the pool, wrapped with its pool metadata.
#[derive(Clone, Debug)]
pub struct PoolEntry {
    pub operation: TrustedOperation,
    pub hash: H256,
    pub byte_size: usize,
    pub priority: u64,
    /// Advisory expiry horizon in the sidechain's block-number clock.
    pub valid_till: u64,
    pub source: TrustedOperationSource,
}

/// The entry that submitting `op` with the given metadata stores.
pub open spec fn entry_with(
    op: TrustedOperation,
    source: TrustedOperationSource,
    priority: u64,
    valid_till: u64,
) -> PoolEntry {
    PoolEntry {
        operation: op,
        hash: op_hash_of(op),
        byte_size: op_encoding(op).len() as usize,
        priority,
        valid_till,
        source,
    }
}

/// The entry that a plain submission stores: no priority, no expiry.
pub open spec fn entry_of(op: TrustedOperation, source: TrustedOperationSource) -> PoolEntry {
    entry_with(op, source, 0, u64::MAX)
}

/// One shard's slice of the pool.
#[derive(Clone, Debug)]
pub struct ShardPool {
    pub shard: H256,
    pub entries: Vec<PoolEntry>,
}

/// Whether an entry with this hash is present.
pub open spec fn contains_hash(ops: Seq<PoolEntry>, h: H256) -> bool {
    exists|i: int| 0 <= i < ops.len() && ops[i].hash == h
}

/// The entries of `shard` under the first matching slot.
pub open spec fn ops_of(shards: Seq<ShardPool>, shard: H256) -> Seq<PoolEntry>
    decreases shards.len(),
{
    if shards.len() == 0 {
        Seq::empty()
    } else if shards[0].shard == shard {
        shards[0].entries@
    } else {
        ops_of(shards.drop_first(), shard)
    }
}

/// The mempool: per-shard slices, one per shard ever submitted to.
#[derive(Clone, Debug)]
pub struct TrustedOperationPool {
    pub shards: Vec<ShardPool>,
}

/// An aggregate, read-only snapshot of one shard; recomputed on demand,
/// never persisted.
#[derive(Clone, Copy, Debug, PartialEq, Eq, Structural)]
pub struct PoolStatus {
    pub ready: usize,
    pub ready_bytes: usize,
    pub future: usize,
    pub future_bytes: usize,
}

/// The status of an unknown or empty shard: all zero.
pub fn default_pool_status() -> (r: PoolStatus)
    ensures
        r == (PoolStatus { ready: 0, ready_bytes: 0, future: 0, future_bytes: 0 }),
{
    PoolStatus { ready: 0, ready_bytes: 0, future: 0, future_bytes: 0 }
}

/// The bytes held for a sequence of entries.
pub open spec fn sum_bytes(ops: Seq<PoolEntry>) -> nat
    decreases ops.len(),
{
    if ops.len() == 0 {
        0
    } else {
        sum_bytes(ops.drop_last()) + ops.last().byte_size as nat
    }
}

/// What one submission does: rejected if and only if malformed or destined
/// for another shard; otherwise the returned hash is the operation's
/// identity, a duplicate changes nothing, and a fresh operation is appended
/// to its shard's entries, all other shards untouched.
pub open spec fn spec_submitted_with(
    pre: TrustedOperationPool,
    post: TrustedOperationPool,
    shard: H256,
    source: TrustedOperationSource,
    op: TrustedOperation,
    priority: u64,
    valid_till: u64,
    r: Result<H256, PoolError>,
) -> bool {
    &&& (r is Err <==> !(op_well_formed(op) && op.shard == shard))
    &&& (r matches Err(e) ==> e == PoolError::InvalidOperation && post == pre)
    &&& (r matches Ok(h) ==> h == op_hash_of(op))
    &&& (r is Ok ==> {
        &&& (contains_hash(ops_of(pre.shards@, shard), op_hash_of(op)) ==> post == pre)
        &&& (!contains_hash(ops_of(pre.shards@, shard), op_hash_of(op)) ==> {
            &&& ops_of(post.shards@, shard) == ops_of(pre.shards@, shard).push(
                entry_with(op, source, priority, valid_till),
            )
            &&& (forall|s: H256| s != shard ==> ops_of(post.shards@, s) == ops_of(pre.shards@, s))
        })
    })
}

/// What a plain submission does; see [`spec_submitted_with`].
pub open spec fn spec_submitted(
    pre: TrustedOperationPool,
    post: TrustedOperationPool,
    shard: H256,
    source: TrustedOperationSource,
    op: TrustedOperation,
    r: Result<H256, PoolError>,
) -> bool {
    spec_submitted_with(pre, post, shard, source, op, 0, u64::MAX, r)
}

/// What a sequence of submissions does, one at a time, first to last.
pub open spec fn spec_submitted_many(
    pre: TrustedOperationPool,
    post: TrustedOperationPool,
    shard: H256,
    source: TrustedOperationSource,
    ops: Seq<TrustedOperation>,
    rs: Seq<Result<H256, PoolError>>,
) -> bool
    decreases ops.len(),
{
    &&& rs.len() == ops.len()
    &&& if ops.len() == 0 {
        post == pre
    } else {
        exists|mid: TrustedOperationPool|
            #[trigger] spec_submitted(pre, mid, shard, source, ops[0], rs[0])
                && spec_submitted_many(mid, post, shard, source, ops.drop_first(), rs.drop_first())
    }
}

impl TrustedOperationPool {
    /// Shards are listed at most once.
    pub open spec fn wf(self) -> bool {
        forall|i: int, j: int|
            0 <= i < j < self.shards@.len() ==> (#[trigger] self.shards@[i]).shard != (
            #[trigger] self.shards@[j]).shard
    }

    /// The entries currently pooled for a shard, in submission order.
    pub open spec fn shard_ops(self, shard: H256) -> Seq<PoolEntry> {
        ops_of(self.shards@, shard)
    }

    /// An empty pool: every shard reads as empty.
    pub fn new() -> (r: TrustedOperationPool)
        ensures
            r.wf(),
            forall|s: H256| r.shard_ops(s) == Seq::<PoolEntry>::empty(),
    {
        let r = TrustedOperationPool { shards: Vec::new() };
        proof {
            assert forall|s: H256| r.shard_ops(s) == Seq::<PoolEntry>::empty() by {
                assert(r.shards@.len() == 0);
            }
        }
        r
    }

    /// The identity under which an operation would be pooled.
    pub fn hash_of(&self, xt: &TrustedOperation) -> (r: H256)
        ensures
            r == op_hash_of(*xt),
    {
        let encoded = encode_operation(xt);
        content_hash(encoded.as_slice())
    }

    /// Submits one operation to a shard.
    ///
    /// A malformed operation, or one destined for a different shard, fails
    /// with `InvalidOperation` and is never stored. A duplicate (same
    /// identity) re-returns the existing hash without duplicating storage.
    pub fn submit(
        &mut self,
        shard: H256,
        source: TrustedOperationSource,
        operation: TrustedOperation,
    ) -> (r: Result<H256, PoolError>)
        requires
            old(self).wf(),
        ensures
            final(self).wf(),
            spec_submitted(*old(self), *final(self), shard, source, operation, r),
    {
        self.submit_entry(shard, source, operation, 0, u64::MAX)
    }

    /// Submits one operation together with the verdict of the caller's
    /// validation: the entry carries the verdict's priority, and expires
    /// `longevity` blocks after `at_block` (saturating).
    pub fn submit_validated(
        &mut self,
        shard: H256,
        source: TrustedOperationSource,
        operation: TrustedOperation,
        verdict: &ValidTransaction,
        at_block: u64,
    ) -> (r: Result<H256, PoolError>)
        requires
            old(self).wf(),
        ensures
            final(self).wf(),
            spec_submitted_with(
                *old(self),
                *final(self),
                shard,
                source,
                operation,
                verdict.priority,
                at_block.saturating_add(verdict.longevity),
                r,
            ),
    {
        self.submit_entry(
            shard,
            source,
            operation,
            verdict.priority,
            at_block.saturating_add(verdict.longevity),
        )
    }

    /// The one place an entry is admitted and stored.
    fn submit_entry(
        &mut self,
        shard: H256,
        source: TrustedOperationSource,
        operation: TrustedOperation,
        priority: u64,
        valid_till: u64,
    ) -> (r: Result<H256, PoolError>)
        requires
            old(self).wf(),
        ensures
            final(self).wf(),
            spec_submitted_with(
                *old(self),
                *final(self),
                shard,
                source,
                operation,
                priority,
                valid_till,
                r,
            ),
    {
        if !(operation.well_formed() && operation.shard == shard) {
            return Err(PoolError::InvalidOperation);
        }
        let ghost op0 = operation;
        let encoded = encode_operation(&operation);
        let h = content_hash(encoded.as_slice());
        let byte_size = encoded.len();
        let entry = PoolEntry {
            operation,
            hash: h,
            byte_size,
            priority,
            valid_till,
            source,
        };
        proof {
            assert(entry == entry_with(op0, source, priority, valid_till));
        }
        match self.find_shard(shard) {
            Some(idx) => {
                proof {
                    lemma_ops_of_found(self.shards@, shard, idx as int);
                }
                if contains_entry_hash(&self.shards[idx].entries, h) {
                    return Ok(h);
                }
                let mut slot = ShardPool { shard, entries: Vec::new() };
                self.shards.set_and_swap(idx, &mut slot);
                slot.entries.push(entry);
                self.shards.set_and_swap(idx, &mut slot);
                proof {
                    let updated = self.shards@[idx as int];
                    assert(self.shards@ =~= old(self).shards@.update(idx as int, updated));
                    assert(updated.shard == shard);
                    assert(updated.entries@ == ops_of(old(self).shards@, shard).push(
                        entry_with(op0, source, priority, valid_till),
                    ));
                    lemma_ops_of_update(old(self).shards@, idx as int, updated);
                    assert forall|i: int, j: int|
                        0 <= i < j < self.shards@.len() implies (
                    #[trigger] self.shards@[i]).shard != (#[trigger] self.shards@[j]).shard by {
                        assert(self.shards@[i].shard == old(self).shards@[i].shard);
                        assert(self.shards@[j].shard == old(self).shards@[j].shard);
                    }
                }
                Ok(h)
            },
            None => {
                proof {
                    lemma_ops_of_none(self.shards@, shard);
                }
                let mut entries: Vec<PoolEntry> = Vec::new();
                entries.push(entry);
                let fresh = ShardPool { shard, entries };
                self.shards.push(fresh);
                proof {
                    let appended = self.shards@[self.shards@.len() - 1];
                    assert(self.shards@ =~= old(self).shards@.push(appended));
                    assert(appended.shard == shard);
                    assert(appended.entries@ =~= Seq::<PoolEntry>::empty().push(
                        entry_with(op0, source, priority, valid_till),
                    ));
                    lemma_ops_of_push(old(self).shards@, appended);
                    assert(ops_of(self.shards@, shard) == ops_of(old(self).shards@, shard).push(
                        entry_with(op0, source, priority, valid_till),
                    ));
                    assert forall|i: int, j: int|
                        0 <= i < j < self.shards@.len() implies (
                    #[trigger] self.shards@[i]).shard != (#[trigger] self.shards@[j]).shard by {
                        if j < self.shards@.len() - 1 {
                            assert(old(self).wf());
                        } else {
                            assert(self.shards@[j].shard == shard);
                            assert(old(self).shards@[i].shard != shard);
                        }
                    }
                }
                Ok(h)
            },
        }
    }

    /// Submits a batch of operations to one shard, reporting one outcome per
    /// operation: one operation's failure blocks none of the others.
    pub fn submit_many(
        &mut self,
        shard: H256,
        source: TrustedOperationSource,
        operations: Vec<TrustedOperation>,
    ) -> (r: Vec<Result<H256, PoolError>>)
        requires
            old(self).wf(),
        ensures
            final(self).wf(),
            r@.len() == operations@.len(),
            spec_submitted_many(*old(self), *final(self), shard, source, operations@, r@),
    {
        let ghost ops0 = operations@;
        let mut remaining = operations;
        let mut results: Vec<Result<H256, PoolError>> = Vec::new();
        proof {
            assert(ops0.take(0) =~= Seq::<TrustedOperation>::empty());
            assert(remaining@ =~= ops0.skip(0));
            assert(spec_submitted_many(*old(self), *self, shard, source, ops0.take(0), results@));
        }
        while remaining.len() > 0
            invariant
                results@.len() + remaining@.len() == ops0.len(),
                remaining@ == ops0.skip(results@.len() as int),
                self.wf(),
                spec_submitted_many(
                    *old(self),
                    *self,
                    shard,
                    source,
                    ops0.take(results@.len() as int),
                    results@,
                ),
            decreases remaining@.len(),
        {
            let ghost i = results@.len() as int;
            let ghost mid = *self;
            let ghost rs_pre = results@;
            let op = remaining.remove(0);
            proof {
                assert(op == ops0.skip(i)[0]);
                assert(op == ops0[i]);
                assert(remaining@ =~= ops0.skip(i + 1));
            }
            let outcome = self.submit(shard, source, op);
            proof {
                lemma_submitted_many_snoc(
                    *old(self),
                    mid,
                    *self,
                    shard,
                    source,
                    ops0.take(i),
                    rs_pre,
                    op,
                    outcome,
                );
                assert(ops0.take(i + 1) =~= ops0.take(i).push(ops0[i]));
            }
            results.push(outcome);
        }
        proof {
            assert(ops0.take(results@.len() as int) =~= ops0);
        }
        results
    }

    /// A finite, restartable snapshot of the operations currently pooled for
    /// a shard, in submission order. An unknown shard reads as empty.
    pub fn ready(&self, shard: H256) -> (r: Vec<TrustedOperation>)
        ensures
            r@.len() == self.shard_ops(shard).len(),
            forall|i: int|
                0 <= i < r@.len() ==> op_eq(#[trigger] r@[i], self.shard_ops(shard)[i].operation),
    {
        match self.find_shard(shard) {
            Some(idx) => {
                proof {
                    lemma_ops_of_found(self.shards@, shard, idx as int);
                }
                let entries = &self.shards[idx].entries;
                let mut out: Vec<TrustedOperation> = Vec::new();
                let mut i: usize = 0;
                while i < entries.len()
                    invariant
                        i <= entries@.len(),
                        out@.len() == i,
                        forall|j: int|
                            0 <= j < i ==> op_eq(#[trigger] out@[j], entries@[j].operation),
                    decreases entries@.len() - i,
                {
                    out.push(entries[i].operation.dup());
                    i = i + 1;
                }
                out
            },
            None => {
                proof {
                    lemma_ops_of_none(self.shards@, shard);
                }
                Vec::new()
            },
        }
    }

    /// The shards that have ever been submitted to, in creation order.
    pub fn shards(&self) -> (r: Vec<H256>)
        ensures
            r@.len() == self.shards@.len(),
            forall|i: int| 0 <= i < r@.len() ==> #[trigger] r@[i] == self.shards@[i].shard,
    {
        let mut out: Vec<H256> = Vec::new();
        let mut i: usize = 0;
        while i < self.shards.len()
            invariant
                i <= self.shards@.len(),
                out@.len() == i,
                forall|j: int| 0 <= j < i ==> #[trigger] out@[j] == self.shards@[j].shard,
            decreases self.shards@.len() - i,
        {
            out.push(self.shards[i].shard);
            i = i + 1;
        }
        out
    }

    /// The aggregate snapshot of one shard: entry count and held bytes
    /// (saturating), all zero for an unknown shard.
    pub fn status(&self, shard: H256) -> (r: PoolStatus)
        ensures
            r.ready == self.shard_ops(shard).len(),
            sum_bytes(self.shard_ops(shard)) <= usize::MAX ==> r.ready_bytes == sum_bytes(
                self.shard_ops(shard),
            ),
            sum_bytes(self.shard_ops(shard)) > usize::MAX ==> r.ready_bytes == usize::MAX,
            r.future == 0,
            r.future_bytes == 0,
    {
        match self.find_shard(shard) {
            Some(idx) => {
                proof {
                    lemma_ops_of_found(self.shards@, shard, idx as int);
                }
                let entries = &self.shards[idx].entries;
                let mut held: usize = 0;
                let mut i: usize = 0;
                proof {
                    assert(entries@.take(0) =~= Seq::<PoolEntry>::empty());
                }
                while i < entries.len()
                    invariant
                        i <= entries@.len(),
                        sum_bytes(entries@.take(i as int)) <= usize::MAX ==> held == sum_bytes(
                            entries@.take(i as int),
                        ),
                        sum_bytes(entries@.take(i as int)) > usize::MAX ==> held == usize::MAX,
                    decreases entries@.len() - i,
                {
                    proof {
                        assert(entries@.take(i as int + 1).drop_last() =~= entries@.take(i as int));
                        assert(entries@.take(i as int + 1).last() == entries@[i as int]);
                    }
                    held = held.saturating_add(entries[i].byte_size);
                    i = i + 1;
                }
                proof {
                    assert(entries@.take(entries@.len() as int) =~= entries@);
                }
                PoolStatus { ready: entries.len(), ready_bytes: held, future: 0, future_bytes: 0 }
            },
            None => {
                proof {
                    lemma_ops_of_none(self.shards@, shard);
                }
                default_pool_status()
            },
        }
    }

    /// Removes the entries with the listed hashes from one shard, for good,
    /// and returns the removed operations in their pooled order. Used after
    /// execution or on explicit rejection.
    pub fn remove_invalid(&mut self, hashes: &Vec<H256>, shard: H256) -> (r: Vec<TrustedOperation>)
        requires
            old(self).wf(),
        ensures
            final(self).wf(),
            final(self).shard_ops(shard) == old(self).shard_ops(shard).filter(
                |e: PoolEntry| !hashes@.contains(e.hash),
            ),
            forall|s: H256|
                s != shard ==> final(self).shard_ops(s) == old(self).shard_ops(s),
            r@.len() == old(self).shard_ops(shard).filter(
                |e: PoolEntry| hashes@.contains(e.hash),
            ).len(),
            forall|i: int|
                0 <= i < r@.len() ==> #[trigger] r@[i] == old(self).shard_ops(shard).filter(
                    |e: PoolEntry| hashes@.contains(e.hash),
                )[i].operation,
    {
        match self.find_shard(shard) {
            Some(idx) => {
                proof {
                    lemma_ops_of_found(self.shards@, shard, idx as int);
                }
                let mut slot = ShardPool { shard, entries: Vec::new() };
                self.shards.set_and_swap(idx, &mut slot);
                let ghost mid_shards = self.shards@;
                let ghost orig = slot.entries@;
                let mut kept: Vec<PoolEntry> = Vec::new();
                let mut removed: Vec<TrustedOperation> = Vec::new();
                let ghost mut j: int = 0;
                proof {
                    reveal_with_fuel(Seq::<PoolEntry>::filter, 2);
                    assert(orig.take(0) =~= Seq::<PoolEntry>::empty());
                    assert(slot.entries@ =~= orig.skip(0));
                }
                while slot.entries.len() > 0
                    invariant
                        0 <= j <= orig.len(),
                        idx < self.shards@.len(),
                        self.shards@ == mid_shards,
                        slot.shard == shard,
                        slot.entries@ == orig.skip(j),
                        kept@ == orig.take(j).filter(|e: PoolEntry| !hashes@.contains(e.hash)),
                        removed@.len() == orig.take(j).filter(
                            |e: PoolEntry| hashes@.contains(e.hash),
                        ).len(),
                        forall|i: int|
                            0 <= i < removed@.len() ==> #[trigger] removed@[i] == orig.take(
                                j,
                            ).filter(|e: PoolEntry| hashes@.contains(e.hash))[i].operation,
                    decreases orig.len() - j,
                {
                    let e = slot.entries.remove(0);
                    proof {
                        reveal_with_fuel(Seq::<PoolEntry>::filter, 2);
                        assert(e == orig.skip(j)[0]);
                        assert(e == orig[j]);
                        assert(slot.entries@ =~= orig.skip(j + 1));
                        assert(orig.take(j + 1).drop_last() =~= orig.take(j));
                        assert(orig.take(j + 1).last() == orig[j]);
                    }
                    if contains_h256(hashes, e.hash) {
                        removed.push(e.operation);
                    } else {
                        kept.push(e);
                    }
                    proof {
                        j = j + 1;
                    }
                }
                proof {
                    assert(orig.take(j) =~= orig);
                }
                slot.entries = kept;
                self.shards.set_and_swap(idx, &mut slot);
                proof {
                    let updated = self.shards@[idx as int];
                    assert(self.shards@ =~= old(self).shards@.update(idx as int, updated));
                    assert(updated.shard == shard);
                    lemma_ops_of_update(old(self).shards@, idx as int, updated);
                    assert forall|i: int, j2: int|
                        0 <= i < j2 < self.shards@.len() implies (
                    #[trigger] self.shards@[i]).shard != (#[trigger] self.shards@[j2]).shard by {
                        assert(self.shards@[i].shard == old(self).shards@[i].shard);
                        assert(self.shards@[j2].shard == old(self).shards@[j2].shard);
                    }
                }
                removed
            },
            None => {
                proof {
                    reveal_with_fuel(Seq::<PoolEntry>::filter, 2);
                    lemma_ops_of_none(self.shards@, shard);
                    assert(Seq::<PoolEntry>::empty().filter(
                        |e: PoolEntry| !hashes@.contains(e.hash),
                    ) =~= Seq::<PoolEntry>::empty());
                    assert(Seq::<PoolEntry>::empty().filter(
                        |e: PoolEntry| hashes@.contains(e.hash),
                    ) =~= Seq::<PoolEntry>::empty());
                }
                Vec::new()
            },
        }
    }

    /// Sweeps one shard's expired entries: those whose advisory horizon lies
    /// before `now`, in the sidechain's block-number clock. Returns the
    /// removed operations in their pooled order.
    pub fn remove_expired(&mut self, shard: H256, now: u64) -> (r: Vec<TrustedOperation>)
        requires
            old(self).wf(),
        ensures
            final(self).wf(),
            final(self).shard_ops(shard) == old(self).shard_ops(shard).filter(
                |e: PoolEntry| e.valid_till >= now,
            ),
            forall|s: H256| s != shard ==> final(self).shard_ops(s) == old(self).shard_ops(s),
            r@.len() == old(self).shard_ops(shard).filter(
                |e: PoolEntry| e.valid_till < now,
            ).len(),
            forall|i: int|
                0 <= i < r@.len() ==> #[trigger] r@[i] == old(self).shard_ops(shard).filter(
                    |e: PoolEntry| e.valid_till < now,
                )[i].operation,
    {
        match self.find_shard(shard) {
            Some(idx) => {
                proof {
                    lemma_ops_of_found(self.shards@, shard, idx as int);
                }
                let mut slot = ShardPool { shard, entries: Vec::new() };
                self.shards.set_and_swap(idx, &mut slot);
                let ghost mid_shards = self.shards@;
                let ghost orig = slot.entries@;
                let mut kept: Vec<PoolEntry> = Vec::new();
                let mut removed: Vec<TrustedOperation> = Vec::new();
                let ghost mut j: int = 0;
                proof {
                    reveal_with_fuel(Seq::<PoolEntry>::filter, 2);
                    assert(orig.take(0) =~= Seq::<PoolEntry>::empty());
                    assert(slot.entries@ =~= orig.skip(0));
                }
                while slot.entries.len() > 0
                    invariant
                        0 <= j <= orig.len(),
                        idx < self.shards@.len(),
                        self.shards@ == mid_shards,
                        slot.shard == shard,
                        slot.entries@ == orig.skip(j),
                        kept@ == orig.take(j).filter(|e: PoolEntry| e.valid_till >= now),
                        removed@.len() == orig.take(j).filter(
                            |e: PoolEntry| e.valid_till < now,
                        ).len(),
                        forall|i: int|
                            0 <= i < removed@.len() ==> #[trigger] removed@[i] == orig.take(
                                j,
                            ).filter(|e: PoolEntry| e.valid_till < now)[i].operation,
                    decreases orig.len() - j,
                {
                    let e = slot.entries.remove(0);
                    proof {
                        reveal_with_fuel(Seq::<PoolEntry>::filter, 2);
                        assert(e == orig.skip(j)[0]);
                        assert(e == orig[j]);
                        assert(slot.entries@ =~= orig.skip(j + 1));
                        assert(orig.take(j + 1).drop_last() =~= orig.take(j));
                        assert(orig.take(j + 1).last() == orig[j]);
                    }
                    if e.valid_till < now {
                        removed.push(e.operation);
                    } else {
                        kept.push(e);
                    }
                    proof {
                        j = j + 1;
                    }
                }
                proof {
                    assert(orig.take(j) =~= orig);
                }
                slot.entries = kept;
                self.shards.set_and_swap(idx, &mut slot);
                proof {
                    let updated = self.shards@[idx as int];
                    assert(self.shards@ =~= old(self).shards@.update(idx as int, updated));
                    assert(updated.shard == shard);
                    lemma_ops_of_update(old(self).shards@, idx as int, updated);
                    assert forall|i: int, j2: int|
                        0 <= i < j2 < self.shards@.len() implies (
                    #[trigger] self.shards@[i]).shard != (#[trigger] self.shards@[j2]).shard by {
                        assert(self.shards@[i].shard == old(self).shards@[i].shard);
                        assert(self.shards@[j2].shard == old(self).shards@[j2].shard);
                    }
                }
                removed
            },
            None => {
                proof {
                    reveal_with_fuel(Seq::<PoolEntry>::filter, 2);
                    lemma_ops_of_none(self.shards@, shard);
                    assert(Seq::<PoolEntry>::empty().filter(
                        |e: PoolEntry| e.valid_till >= now,
                    ) =~= Seq::<PoolEntry>::empty());
                    assert(Seq::<PoolEntry>::empty().filter(
                        |e: PoolEntry| e.valid_till < now,
                    ) =~= Seq::<PoolEntry>::empty());
                }
                Vec::new()
            },
        }
    }

    /// The index of a shard's slot, if the shard was ever submitted to.
    fn find_shard(&self, shard: H256) -> (r: Option<usize>)
        ensures
            match r {
                Option::Some(idx) => idx < self.shards@.len() && self.shards@[idx as int].shard
                    == shard && (forall|j: int|
                    0 <= j < idx ==> (#[trigger] self.shards@[j]).shard != shard),
                Option::None => forall|j: int|
                    0 <= j < self.shards@.len() ==> (#[trigger] self.shards@[j]).shard != shard,
            },
    {
        let mut i: usize = 0;
        while i < self.shards.len()
            invariant
                i <= self.shards@.len(),
                forall|j: int| 0 <= j < i ==> (#[trigger] self.shards@[j]).shard != shard,
            decreases self.shards@.len() - i,
        {
            if self.shards[i].shard == shard {
                return Some(i);
            }
            i = i + 1;
        }
        None
    }
}

/// The verdict of validating an operation against the pool's admission
/// rules: its priority, ordering tags, longevity and propagation flag.
#[derive(Clone, Debug)]
pub struct ValidTransaction {
    pub priority: u64,
    pub requires_tags: Vec<Vec<u8>>,
    pub provides_tags: Vec<Vec<u8>>,
    pub longevity: u64,
    pub propagate: bool,
}

/// What the submission boundary asks of anything it may pool.
pub trait PoolTransactionValidation {
    /// The verdict this item validates to.
    spec fn spec_verdict(&self) -> Result<ValidTransaction, PoolError>;

    /// Judges whether this item may enter the pool, and with what metadata.
    fn validate(&self) -> (r: Result<ValidTransaction, PoolError>)
        ensures
            r == self.spec_verdict(),
    ;
}

/// A state getter, as it reaches the submission boundary: getters read
/// state, they are not transactions, so validation never admits one.
#[derive(Clone, Copy, Debug, PartialEq, Eq, Structural)]
#[allow(non_camel_case_types)]
pub enum GetterMock {
    public,
    trusted,
}

impl PoolTransactionValidation for GetterMock {
    /// A getter cannot be looked up in the pool, whichever kind it is.
    open spec fn spec_verdict(&self) -> Result<ValidTransaction, PoolError> {
        Err(PoolError::InvalidOperation)
    }

    fn validate(&self) -> (r: Result<ValidTransaction, PoolError>) {
        Err(PoolError::InvalidOperation)
    }
}

/// Whether `hashes` lists `h`.
fn contains_h256(hashes: &Vec<H256>, h: H256) -> (r: bool)
    ensures
        r == hashes@.contains(h),
{
    let mut i: usize = 0;
    while i < hashes.len()
        invariant
            i <= hashes@.len(),
            forall|j: int| 0 <= j < i ==> hashes@[j] != h,
        decreases hashes@.len() - i,
    {
        if hashes[i] == h {
            return true;
        }
        i = i + 1;
    }
    false
}

/// Whether these entries contain one with the given hash.
fn contains_entry_hash(entries: &Vec<PoolEntry>, h: H256) -> (r: bool)
    ensures
        r == contains_hash(entries@, h),
{
    let mut i: usize = 0;
    while i < entries.len()
        invariant
            i <= entries@.len(),
            forall|j: int| 0 <= j < i ==> (#[trigger] entries@[j]).hash != h,
        decreases entries@.len() - i,
    {
        if entries[i].hash == h {
            return true;
        }
        i = i + 1;
    }
    false
}

/// At the first slot holding `shard`, the pooled entries are that slot's.
pub proof fn lemma_ops_of_found(shards: Seq<ShardPool>, shard: H256, idx: int)
    requires
        0 <= idx < shards.len(),
        shards[idx].shard == shard,
        forall|j: int| 0 <= j < idx ==> (#[trigger] shards[j]).shard != shard,
    ensures
        ops_of(shards, shard) == shards[idx].entries@,
    decreases idx,
{
    if idx > 0 {
        lemma_ops_of_found(shards.drop_first(), shard, idx - 1);
    }
}

/// A shard with no slot has no entries.
pub proof fn lemma_ops_of_none(shards: Seq<ShardPool>, shard: H256)
    requires
        forall|j: int| 0 <= j < shards.len() ==> (#[trigger] shards[j]).shard != shard,
    ensures
        ops_of(shards, shard) == Seq::<PoolEntry>::empty(),
    decreases shards.len(),
{
    if shards.len() > 0 {
        lemma_ops_of_none(shards.drop_first(), shard);
    }
}

/// Replacing the first slot of a shard in place changes that shard's
/// entries and no other's.
pub proof fn lemma_ops_of_update(shards: Seq<ShardPool>, idx: int, e: ShardPool)
    requires
        0 <= idx < shards.len(),
        shards[idx].shard == e.shard,
        forall|j: int| 0 <= j < idx ==> (#[trigger] shards[j]).shard != e.shard,
    ensures
        ops_of(shards.update(idx, e), e.shard) == e.entries@,
        forall|s: H256|
            s != e.shard ==> ops_of(shards.update(idx, e), s) == ops_of(shards, s),
    decreases idx,
{
    let updated = shards.update(idx, e);
    if idx == 0 {
        assert(updated.drop_first() =~= shards.drop_first());
        assert forall|s: H256| s != e.shard implies ops_of(updated, s) == ops_of(shards, s) by {
            assert(ops_of(updated, s) == ops_of(updated.drop_first(), s));
            assert(ops_of(shards, s) == ops_of(shards.drop_first(), s));
        }
    } else {
        assert(updated.drop_first() =~= shards.drop_first().update(idx - 1, e));
        lemma_ops_of_update(shards.drop_first(), idx - 1, e);
        assert(updated[0] == shards[0]);
        assert(shards[0].shard != e.shard);
        assert(ops_of(updated, e.shard) == ops_of(updated.drop_first(), e.shard));
        assert forall|s: H256| s != e.shard implies ops_of(updated, s) == ops_of(shards, s) by {
            if shards[0].shard == s {
                assert(ops_of(updated, s) == updated[0].entries@);
                assert(ops_of(shards, s) == shards[0].entries@);
            } else {
                assert(ops_of(updated, s) == ops_of(updated.drop_first(), s));
                assert(ops_of(shards, s) == ops_of(shards.drop_first(), s));
            }
        }
    }
}

/// Appending a slot for a fresh shard gives that shard its entries and
/// changes no other's.
pub proof fn lemma_ops_of_push(shards: Seq<ShardPool>, e: ShardPool)
    requires
        forall|j: int| 0 <= j < shards.len() ==> (#[trigger] shards[j]).shard != e.shard,
    ensures
        ops_of(shards.push(e), e.shard) == e.entries@,
        forall|s: H256| s != e.shard ==> ops_of(shards.push(e), s) == ops_of(shards, s),
    decreases shards.len(),
{
    let appended = shards.push(e);
    if shards.len() == 0 {
        assert(appended[0] == e);
        assert(appended.drop_first() =~= Seq::<ShardPool>::empty());
        assert forall|s: H256| s != e.shard implies ops_of(appended, s) == ops_of(shards, s) by {
            assert(ops_of(appended, s) == ops_of(appended.drop_first(), s));
        }
    } else {
        assert(appended[0] == shards[0]);
        assert(appended.drop_first() =~= shards.drop_first().push(e));
        lemma_ops_of_push(shards.drop_first(), e);
        assert(shards[0].shard != e.shard);
        assert(ops_of(appended, e.shard) == ops_of(appended.drop_first(), e.shard));
        assert forall|s: H256| s != e.shard implies ops_of(appended, s) == ops_of(shards, s) by {
            if shards[0].shard == s {
                assert(ops_of(appended, s) == appended[0].entries@);
                assert(ops_of(shards, s) == shards[0].entries@);
            } else {
                assert(ops_of(appended, s) == ops_of(appended.drop_first(), s));
                assert(ops_of(shards, s) == ops_of(shards.drop_first(), s));
            }
        }
    }
}

/// Pool dedupe: submitting a byte-identical operation twice returns the
/// same hash both times, and the shard's entries grow by exactly one, not
/// two — the second submission changes nothing.
pub proof fn lemma_pool_dedupe(
    p1: TrustedOperationPool,
    p2: TrustedOperationPool,
    p3: TrustedOperationPool,
    shard: H256,
    source1: TrustedOperationSource,
    source2: TrustedOperationSource,
    op1: TrustedOperation,
    op2: TrustedOperation,
    r1: Result<H256, PoolError>,
    r2: Result<H256, PoolError>,
)
    requires
        spec_submitted(p1, p2, shard, source1, op1, r1),
        spec_submitted(p2, p3, shard, source2, op2, r2),
        op_eq(op2, op1),
        op_well_formed(op1),
        op1.shard == shard,
        !contains_hash(ops_of(p1.shards@, shard), op_hash_of(op1)),
    ensures
        r1 == Ok::<H256, PoolError>(op_hash_of(op1)),
        r2 == r1,
        ops_of(p2.shards@, shard).len() == ops_of(p1.shards@, shard).len() + 1,
        p3 == p2,
{
    assert(op_encoding(op2) == op_encoding(op1));
    assert(op_hash_of(op2) == op_hash_of(op1));
    let after = ops_of(p2.shards@, shard);
    assert(after == ops_of(p1.shards@, shard).push(entry_of(op1, source1)));
    assert(after[after.len() - 1].hash == op_hash_of(op1));
    assert(contains_hash(after, op_hash_of(op2)));
}

/// Shard isolation: a submission to one shard leaves every other shard's
/// pooled entries exactly as they were.
pub proof fn lemma_shard_isolation(
    p1: TrustedOperationPool,
    p2: TrustedOperationPool,
    shard_a: H256,
    shard_b: H256,
    source: TrustedOperationSource,
    op: TrustedOperation,
    r: Result<H256, PoolError>,
)
    requires
        spec_submitted(p1, p2, shard_a, source, op, r),
        shard_b != shard_a,
    ensures
        ops_of(p2.shards@, shard_b) == ops_of(p1.shards@, shard_b),
{
    if r is Ok {
        if !contains_hash(ops_of(p1.shards@, shard_a), op_hash_of(op)) {
            assert(ops_of(p2.shards@, shard_b) == ops_of(p1.shards@, shard_b));
        }
    }
}

/// A chain of submissions extends by one more at its end.
pub proof fn lemma_submitted_many_snoc(
    pre: TrustedOperationPool,
    mid: TrustedOperationPool,
    post: TrustedOperationPool,
    shard: H256,
    source: TrustedOperationSource,
    ops: Seq<TrustedOperation>,
    rs: Seq<Result<H256, PoolError>>,
    op: TrustedOperation,
    r: Result<H256, PoolError>,
)
    requires
        spec_submitted_many(pre, mid, shard, source, ops, rs),
        spec_submitted(mid, post, shard, source, op, r),
    ensures
        spec_submitted_many(pre, post, shard, source, ops.push(op), rs.push(r)),
    decreases ops.len(),
{
    if ops.len() == 0 {
        assert(ops.push(op)[0] == op);
        assert(ops.push(op).drop_first() =~= Seq::<TrustedOperation>::empty());
        assert(rs.push(r).drop_first() =~= Seq::<Result<H256, PoolError>>::empty());
        assert(mid == pre);
        assert(spec_submitted(pre, post, shard, source, ops.push(op)[0], rs.push(r)[0]));
        assert(spec_submitted_many(
            post,
            post,
            shard,
            source,
            ops.push(op).drop_first(),
            rs.push(r).drop_first(),
        ));
    } else {
        let step = choose|m: TrustedOperationPool|
            #[trigger] spec_submitted(pre, m, shard, source, ops[0], rs[0])
                && spec_submitted_many(m, mid, shard, source, ops.drop_first(), rs.drop_first());
        assert(ops.push(op).drop_first() =~= ops.drop_first().push(op));
        assert(rs.push(r).drop_first() =~= rs.drop_first().push(r));
        lemma_submitted_many_snoc(
            step,
            mid,
            post,
            shard,
            source,
            ops.drop_first(),
            rs.drop_first(),
            op,
            r,
        );
        assert(ops.push(op)[0] == ops[0]);
        assert(rs.push(r)[0] == rs[0]);
        assert(spec_submitted(pre, step, shard, source, ops.push(op)[0], rs.push(r)[0]));
        assert(spec_submitted_many(
            step,
            post,
            shard,
            source,
            ops.push(op).drop_first(),
            rs.push(r).drop_first(),
        ));
    }
}

} // verus!
