//! The boundary to the deterministic state-transition executor.
//!
//! The executor is an external collaborator: the dispatcher only relies on
//! what the trait contract states, namely that a successful call applies
//! exactly the presented block and a failed call applies nothing.

use vstd::prelude::*;
use crate::errors::ExecutorError;
use crate::primitives::BlockRef;

verus! {

/// A light-client-verified block as handed to the executor: its identity,
/// the events of the block and the storage proof for the event root, both
/// carried opaquely.
#[derive(Clone, Debug)]
pub struct VerifiedBlock {
    pub reference: BlockRef,
    pub events: Vec<u8>,
    pub events_proof: Vec<u8>,
}

/// What the dispatcher asks of a state-transition executor.
///
/// `applied()` is the executor's history of successfully applied blocks; a
/// call either appends exactly the presented block to it or fails and leaves
/// it unchanged.
pub trait ExecuteParentchainBlocks: Sized {
    /// The blocks this executor has successfully applied, in order.
    spec fn applied(&self) -> Seq<BlockRef>;

    /// Applies one verified block to confidential state.
    fn apply_block(&mut self, block: &VerifiedBlock) -> (r: Result<(), ExecutorError>)
        ensures
            r is Ok ==> final(self).applied() == old(self).applied().push(block.reference),
            r is Err ==> final(self).applied() == old(self).applied(),
    ;
}

/// The in-enclave state-transition executor handle: it keeps the record of
/// applied blocks that the import pipeline is verified against.
#[derive(Clone, Debug)]
pub struct StfExecutor {
    pub applied_blocks: Vec<BlockRef>,
}

impl StfExecutor {
    /// A fresh executor that has applied nothing.
    pub fn new() -> (r: StfExecutor)
        ensures
            r.applied() == Seq::<BlockRef>::empty(),
    {
        let r = StfExecutor { applied_blocks: Vec::new() };
        proof {
            assert(r.applied_blocks@ =~= Seq::<BlockRef>::empty());
        }
        r
    }

    /// How many blocks were applied so far.
    pub fn applied_count(&self) -> (r: usize)
        ensures
            r == self.applied().len(),
    {
        self.applied_blocks.len()
    }

    /// The block applied at position `i`.
    pub fn applied_at(&self, i: usize) -> (r: BlockRef)
        requires
            i < self.applied().len(),
        ensures
            r == self.applied()[i as int],
    {
        self.applied_blocks[i]
    }
}

impl ExecuteParentchainBlocks for StfExecutor {
    open spec fn applied(&self) -> Seq<BlockRef> {
        self.applied_blocks@
    }

    fn apply_block(&mut self, block: &VerifiedBlock) -> (r: Result<(), ExecutorError>)
        ensures
            r is Ok,
    {
        self.applied_blocks.push(block.reference);
        Ok(())
    }
}

/// The identity the enclave signs indirect calls with; held by the block
/// importer of a dispatcher.
#[derive(Clone, Copy, Debug, PartialEq, Eq, Structural)]
pub struct StfEnclaveSigner {
    pub account: u64,
}

} // verus!
