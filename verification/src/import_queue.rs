//! The sidechain block import queue: connectivity bookkeeping for blocks
//! whose parent is not yet the locally imported head.
//!
//! A block is accepted only if its parent is the imported head or a block
//! already queued: no speculative storage of orphans. Draining removes, in
//! parent-before-child order, the blocks that now chain contiguously from
//! the head; forks are just several queued blocks sharing a parent, and
//! choosing among them is the consensus rule's business, not the queue's.

use vstd::prelude::*;
use vstd::bytes::spec_u64_to_le_bytes;
use vstd::bytes::u64_to_le_bytes;
use crate::errors::QueueError;
use crate::hashing::{content_hash, h256_of, h256_to_bytes, spec_h256_to_bytes, H256};

verus! {

/// A sidechain block header: its ordinal, the back-reference to its parent,
/// and the digest of the block's data, which tells forks of equal height
/// apart.
#[derive(Clone, Copy, Debug, PartialEq, Eq, Structural)]
pub struct SidechainHeader {
    pub block_number: u64,
    pub parent_hash: H256,
    pub block_data_hash: H256,
}

/// A sidechain block, as far as the queue reads it: its header. The block
/// body travels alongside, outside this queue's concern.
#[derive(Clone, Copy, Debug, PartialEq, Eq, Structural)]
pub struct SidechainBlock {
    pub header: SidechainHeader,
}

/// The bytes a sidechain header is hashed over.
pub open spec fn sidechain_header_encoding(h: SidechainHeader) -> Seq<u8> {
    spec_u64_to_le_bytes(h.block_number) + spec_h256_to_bytes(h.parent_hash)
        + spec_h256_to_bytes(h.block_data_hash)
}

/// The content identifier of a sidechain header.
pub open spec fn sidechain_header_hash(h: SidechainHeader) -> H256 {
    h256_of(sidechain_header_encoding(h))
}

/// Computes the content identifier of a sidechain header.
pub fn hash_of_sidechain_header(h: &SidechainHeader) -> (r: H256)
    ensures
        r == sidechain_header_hash(*h),
{
    let mut encoding = u64_to_le_bytes(h.block_number);
    let mut parent_bytes = h256_to_bytes(&h.parent_hash);
    encoding.append(&mut parent_bytes);
    let mut data_bytes = h256_to_bytes(&h.block_data_hash);
    encoding.append(&mut data_bytes);
    content_hash(encoding.as_slice())
}

/// The block at `i` is connected: its parent is an imported block or
/// another queued one.
pub open spec fn connected_at(queue: Seq<SidechainBlock>, imported: Seq<H256>, i: int) -> bool {
    imported.contains(queue[i].header.parent_hash) || exists|j: int|
        0 <= j < queue.len() && j != i && sidechain_header_hash(queue[j].header)
            == queue[i].header.parent_hash
}

/// Buffers sidechain blocks until they chain contiguously from the
/// imported head, never holding a dangling fragment.
#[derive(Clone, Debug)]
pub struct BlockImportQueue {
    /// The hashes of the imported blocks, the current head last.
    pub imported: Vec<H256>,
    /// The buffered blocks, in arrival order.
    pub queue: Vec<SidechainBlock>,
}

impl BlockImportQueue {
    /// At least one block counts as imported, and every queued block is
    /// connected back to a known point.
    pub open spec fn wf(self) -> bool {
        self.imported@.len() > 0 && (forall|i: int|
            0 <= i < self.queue@.len() ==> connected_at(self.queue@, self.imported@, i))
    }

    /// The hash of the imported head.
    pub open spec fn head(self) -> H256 {
        self.imported@.last()
    }

    /// A queue whose imported head is the given block hash — the genesis
    /// sentinel, or wherever the importer currently stands.
    pub fn new(initial_head: H256) -> (r: BlockImportQueue)
        ensures
            r.wf(),
            r.head() == initial_head,
            r.queue@ == Seq::<SidechainBlock>::empty(),
            r.imported@.len() == 1,
    {
        let mut imported: Vec<H256> = Vec::new();
        imported.push(initial_head);
        let r = BlockImportQueue { imported, queue: Vec::new() };
        proof {
            assert(r.queue@ =~= Seq::<SidechainBlock>::empty());
        }
        r
    }

    /// Computes the hash of the imported head.
    pub fn head_hash(&self) -> (r: H256)
        requires
            self.wf(),
        ensures
            r == self.head(),
    {
        self.imported[self.imported.len() - 1]
    }

    /// Accepts a block whose parent is the imported head or a block already
    /// queued; rejects anything else with `DisconnectedBlock`, so the caller
    /// fetches the missing ancestor first.
    pub fn enqueue(&mut self, block: SidechainBlock) -> (r: Result<(), QueueError>)
        requires
            old(self).wf(),
        ensures
            final(self).wf(),
            r is Ok <==> (block.header.parent_hash == old(self).head() || exists|j: int|
                0 <= j < old(self).queue@.len() && sidechain_header_hash(
                    #[trigger] old(self).queue@[j].header,
                ) == block.header.parent_hash),
            r is Ok ==> final(self).queue@ == old(self).queue@.push(block) && final(self).imported@
                == old(self).imported@,
            r is Err ==> *final(self) == *old(self) && r == Err::<(), QueueError>(
                QueueError::DisconnectedBlock,
            ),
    {
        let connected = block.header.parent_hash == self.head_hash() || self.has_queued_parent(
            block.header.parent_hash,
        );
        if !connected {
            return Err(QueueError::DisconnectedBlock);
        }
        self.queue.push(block);
        proof {
            let q = self.queue@;
            let n = q.len() - 1;
            assert(q[n] == block);
            assert forall|i: int| 0 <= i < q.len() implies connected_at(
                q,
                self.imported@,
                i,
            ) by {
                if i < n {
                    assert(connected_at(old(self).queue@, self.imported@, i));
                    if !self.imported@.contains(q[i].header.parent_hash) {
                        let j = choose|j: int|
                            0 <= j < old(self).queue@.len() && j != i && sidechain_header_hash(
                                old(self).queue@[j].header,
                            ) == old(self).queue@[i].header.parent_hash;
                        assert(q[j] == old(self).queue@[j]);
                        assert(sidechain_header_hash(q[j].header) == q[i].header.parent_hash);
                    }
                } else {
                    if block.header.parent_hash == old(self).head() {
                        let w = self.imported@.len() - 1;
                        assert(self.imported@[w] == block.header.parent_hash);
                        assert(self.imported@.contains(q[i].header.parent_hash));
                    } else {
                        let j = choose|j: int|
                            0 <= j < old(self).queue@.len() && sidechain_header_hash(
                                old(self).queue@[j].header,
                            ) == block.header.parent_hash;
                        assert(q[j] == old(self).queue@[j]);
                        assert(j != i);
                        assert(sidechain_header_hash(q[j].header) == q[i].header.parent_hash);
                    }
                }
            }
        }
        Ok(())
    }

    /// Whether some queued block's hash is `parent`.
    fn has_queued_parent(&self, parent: H256) -> (r: bool)
        ensures
            r == exists|j: int|
                0 <= j < self.queue@.len() && sidechain_header_hash(
                    #[trigger] self.queue@[j].header,
                ) == parent,
    {
        let mut i: usize = 0;
        while i < self.queue.len()
            invariant
                i <= self.queue@.len(),
                forall|j: int|
                    0 <= j < i ==> sidechain_header_hash(#[trigger] self.queue@[j].header)
                        != parent,
            decreases self.queue@.len() - i,
        {
            if hash_of_sidechain_header(&self.queue[i].header) == parent {
                return true;
            }
            i = i + 1;
        }
        false
    }

    /// The first queued child of `parent`, if any.
    fn find_child(&self, parent: H256) -> (r: Option<usize>)
        ensures
            match r {
                Option::Some(idx) => idx < self.queue@.len() && self.queue@[idx as int]
                    .header.parent_hash == parent,
                Option::None => forall|j: int|
                    0 <= j < self.queue@.len() ==> (#[trigger] self.queue@[j]).header.parent_hash
                        != parent,
            },
    {
        let mut i: usize = 0;
        while i < self.queue.len()
            invariant
                i <= self.queue@.len(),
                forall|j: int|
                    0 <= j < i ==> (#[trigger] self.queue@[j]).header.parent_hash != parent,
            decreases self.queue@.len() - i,
        {
            if self.queue[i].header.parent_hash == parent {
                return Some(i);
            }
            i = i + 1;
        }
        None
    }

    /// Removes and returns, parent before child, the blocks that now chain
    /// contiguously from the imported head, advancing the head block by
    /// block; blocks still waiting on a missing ancestor stay queued.
    pub fn drain_ready(&mut self) -> (out: Vec<SidechainBlock>)
        requires
            old(self).wf(),
        ensures
            final(self).wf(),
            out@.len() > 0 ==> out@[0].header.parent_hash == old(self).head(),
            forall|i: int|
                0 < i < out@.len() ==> (#[trigger] out@[i]).header.parent_hash
                    == sidechain_header_hash(out@[i - 1].header),
            final(self).imported@ == old(self).imported@ + out@.map_values(
                |b: SidechainBlock| sidechain_header_hash(b.header),
            ),
            final(self).queue@.len() + out@.len() == old(self).queue@.len(),
            forall|i: int| 0 <= i < out@.len() ==> old(self).queue@.contains(#[trigger] out@[i]),
            forall|i: int|
                0 <= i < final(self).queue@.len() ==> old(self).queue@.contains(
                    #[trigger] final(self).queue@[i],
                ),
            forall|i: int|
                0 <= i < final(self).queue@.len() ==> (#[trigger] final(self).queue@[i]).header.parent_hash != final(self).head(),
    {
        let mut out: Vec<SidechainBlock> = Vec::new();
        proof {
            assert(out@.map_values(|b: SidechainBlock| sidechain_header_hash(b.header)) =~= Seq::<
                H256,
            >::empty());
            assert(self.imported@ =~= old(self).imported@ + Seq::<H256>::empty());
        }
        loop
            invariant
                self.wf(),
                self.imported@ == old(self).imported@ + out@.map_values(
                    |b: SidechainBlock| sidechain_header_hash(b.header),
                ),
                out@.len() > 0 ==> out@[0].header.parent_hash == old(self).head(),
                forall|i: int|
                    0 < i < out@.len() ==> (#[trigger] out@[i]).header.parent_hash
                        == sidechain_header_hash(out@[i - 1].header),
                self.queue@.len() + out@.len() == old(self).queue@.len(),
                forall|i: int|
                    0 <= i < out@.len() ==> old(self).queue@.contains(#[trigger] out@[i]),
                forall|i: int|
                    0 <= i < self.queue@.len() ==> old(self).queue@.contains(
                        #[trigger] self.queue@[i],
                    ),
            ensures
                self.wf(),
                self.imported@ == old(self).imported@ + out@.map_values(
                    |b: SidechainBlock| sidechain_header_hash(b.header),
                ),
                out@.len() > 0 ==> out@[0].header.parent_hash == old(self).head(),
                forall|i: int|
                    0 < i < out@.len() ==> (#[trigger] out@[i]).header.parent_hash
                        == sidechain_header_hash(out@[i - 1].header),
                self.queue@.len() + out@.len() == old(self).queue@.len(),
                forall|i: int|
                    0 <= i < out@.len() ==> old(self).queue@.contains(#[trigger] out@[i]),
                forall|i: int|
                    0 <= i < self.queue@.len() ==> old(self).queue@.contains(
                        #[trigger] self.queue@[i],
                    ),
                forall|j: int|
                    0 <= j < self.queue@.len() ==> (#[trigger] self.queue@[j]).header.parent_hash
                        != self.head(),
            decreases self.queue@.len(),
        {
            let head = self.head_hash();
            match self.find_child(head) {
                None => {
                    break ;
                },
                Some(idx) => {
                    let ghost pre_queue = self.queue@;
                    let ghost pre_imported = self.imported@;
                    let ghost pre_out = out@;
                    let b = self.queue.remove(idx);
                    let h = hash_of_sidechain_header(&b.header);
                    self.imported.push(h);
                    out.push(b);
                    proof {
                        lemma_connected_after_step(pre_queue, pre_imported, idx as int, h);
                        assert(self.queue@ == pre_queue.remove(idx as int));
                        assert(out@.map_values(|bb: SidechainBlock| sidechain_header_hash(bb.header))
                            =~= pre_out.map_values(
                            |bb: SidechainBlock| sidechain_header_hash(bb.header),
                        ).push(h));
                        assert(self.imported@ =~= old(self).imported@ + out@.map_values(
                            |bb: SidechainBlock| sidechain_header_hash(bb.header),
                        ));
                        assert(self.imported@.len() > 0);
                        assert(b.header.parent_hash == pre_imported.last());
                        if pre_out.len() == 0 {
                            assert(pre_imported =~= old(self).imported@);
                            assert(out@[0].header.parent_hash == old(self).head());
                        } else {
                            assert(pre_imported.last() == sidechain_header_hash(
                                pre_out.last().header,
                            ));
                        }
                        assert forall|i: int|
                            0 <= i < self.queue@.len() implies old(self).queue@.contains(
                            #[trigger] self.queue@[i],
                        ) by {
                            if i < idx as int {
                                assert(self.queue@[i] == pre_queue[i]);
                            } else {
                                assert(self.queue@[i] == pre_queue[i + 1]);
                            }
                        }
                        assert(old(self).queue@.contains(b) || pre_queue.contains(b));
                        assert(pre_queue[idx as int] == b);
                        assert(pre_queue.contains(b));
                    }
                },
            }
        }
        out
    }
}

/// After removing a connected block and marking it imported, every block
/// still queued is still connected.
proof fn lemma_connected_after_step(
    q: Seq<SidechainBlock>,
    imported: Seq<H256>,
    idx: int,
    h: H256,
)
    requires
        0 <= idx < q.len(),
        forall|k: int| 0 <= k < q.len() ==> connected_at(q, imported, k),
        h == sidechain_header_hash(q[idx].header),
    ensures
        forall|k: int|
            0 <= k < q.remove(idx).len() ==> connected_at(q.remove(idx), imported.push(h), k),
{
    let qr = q.remove(idx);
    assert forall|k: int| 0 <= k < qr.len() implies connected_at(qr, imported.push(h), k) by {
        let ok = if k < idx {
            k
        } else {
            k + 1
        };
        assert(qr[k] == q[ok]);
        assert(connected_at(q, imported, ok));
        if imported.contains(q[ok].header.parent_hash) {
            let w = choose|w: int|
                0 <= w < imported.len() && imported[w] == q[ok].header.parent_hash;
            assert(imported.push(h)[w] == q[ok].header.parent_hash);
            assert(imported.push(h).contains(qr[k].header.parent_hash));
        } else {
            let j = choose|j: int|
                0 <= j < q.len() && j != ok && sidechain_header_hash(q[j].header)
                    == q[ok].header.parent_hash;
            if j == idx {
                assert(imported.push(h)[imported.len() as int] == h);
                assert(imported.push(h).contains(qr[k].header.parent_hash));
            } else {
                let nj = if j < idx {
                    j
                } else {
                    j - 1
                };
                assert(qr[nj] == q[j]);
                assert(nj != k);
                assert(0 <= nj < qr.len() && nj != k && sidechain_header_hash(qr[nj].header)
                    == qr[k].header.parent_hash);
            }
        }
    }
}

/// Seeds a mock block queue: a genesis block first, then whatever blocks
/// the caller chains onto it.
#[derive(Clone, Debug)]
pub struct BlockQueueBuilder {
    pub queue: Vec<SidechainBlock>,
}

/// The genesis block the builder seeds with: number zero, all-zero parent.
pub open spec fn builder_genesis() -> SidechainBlock {
    SidechainBlock {
        header: SidechainHeader {
            block_number: 0,
            parent_hash: H256 { w0: 0, w1: 0, w2: 0, w3: 0 },
            block_data_hash: H256 { w0: 0, w1: 0, w2: 0, w3: 0 },
        },
    }
}

impl BlockQueueBuilder {
    /// An empty builder.
    pub fn new() -> (r: BlockQueueBuilder)
        ensures
            r.queue@ == Seq::<SidechainBlock>::empty(),
    {
        let r = BlockQueueBuilder { queue: Vec::new() };
        proof {
            assert(r.queue@ =~= Seq::<SidechainBlock>::empty());
        }
        r
    }

    /// Appends the genesis block and hands out the queue built so far; the
    /// caller extends it with the blocks of the scenario.
    pub fn build_queue(&mut self) -> (r: Vec<SidechainBlock>)
        ensures
            final(self).queue@ == old(self).queue@.push(builder_genesis()),
            r@ == final(self).queue@,
    {
        self.add_genesis_block_to_queue();
        let mut r: Vec<SidechainBlock> = Vec::new();
        let mut i: usize = 0;
        while i < self.queue.len()
            invariant
                i <= self.queue@.len(),
                r@ == self.queue@.take(i as int),
            decreases self.queue@.len() - i,
        {
            r.push(self.queue[i]);
            proof {
                assert(self.queue@.take(i as int + 1) =~= self.queue@.take(i as int).push(
                    self.queue@[i as int],
                ));
            }
            i = i + 1;
        }
        proof {
            assert(self.queue@.take(self.queue@.len() as int) =~= self.queue@);
        }
        r
    }

    /// Appends the genesis block to the queue under construction.
    pub fn add_genesis_block_to_queue(&mut self)
        ensures
            final(self).queue@ == old(self).queue@.push(builder_genesis()),
    {
        let genesis = SidechainBlock {
            header: SidechainHeader {
                block_number: 0,
                parent_hash: H256 { w0: 0, w1: 0, w2: 0, w3: 0 },
                block_data_hash: H256 { w0: 0, w1: 0, w2: 0, w3: 0 },
            },
        };
        self.queue.push(genesis);
    }
}

/// Builds a header for a block queue from a number and a parent hash.
pub trait BlockQueueHeaderBuild<BlockNumber, Hash> {
    type QueueHeader;

    /// The header this builder makes from a number and a parent.
    spec fn spec_queue_header(block_number: BlockNumber, parent_hash: Hash) -> Self::QueueHeader;

    /// The header with this number and parent.
    fn build_queue_header(block_number: BlockNumber, parent_hash: Hash) -> (r: Self::QueueHeader)
        ensures
            r == Self::spec_queue_header(block_number, parent_hash),
    ;
}

/// The header builder of the sidechain block queue.
pub struct BlockQueueHeaderBuilder;

impl BlockQueueHeaderBuild<u64, H256> for BlockQueueHeaderBuilder {
    type QueueHeader = SidechainHeader;

    /// The number and parent as given, with an empty block-data digest.
    open spec fn spec_queue_header(block_number: u64, parent_hash: H256) -> SidechainHeader {
        SidechainHeader {
            block_number,
            parent_hash,
            block_data_hash: H256 { w0: 0, w1: 0, w2: 0, w3: 0 },
        }
    }

    fn build_queue_header(block_number: u64, parent_hash: H256) -> (r: Self::QueueHeader) {
        SidechainHeader {
            block_number,
            parent_hash,
            block_data_hash: H256 { w0: 0, w1: 0, w2: 0, w3: 0 },
        }
    }
}

} // verus!
