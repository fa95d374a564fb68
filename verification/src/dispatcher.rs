//! The block-import dispatcher: gates when a light-client-verified block is
//! actually applied to confidential state.
//!
//! The three behaviors form a closed tagged union, selected at construction:
//! immediate execution inline with verification, triggered execution through
//! an explicit drain of a queue of verified blocks, or no import at all.

use vstd::prelude::*;
use crate::stf_executor::{StfEnclaveSigner, VerifiedBlock};

verus! {

/// What both importing dispatcher variants carry: the components a verified
/// block is executed with.
#[derive(Clone, Copy, Debug, PartialEq, Eq, Structural)]
pub struct BlockImporter {
    pub stf_enclave_signer: StfEnclaveSigner,
}

/// Verifies blocks eagerly and queues them for an explicit trigger, so that
/// CPU-light verification can run ahead of CPU-heavy execution without
/// blocking the sync loop.
#[derive(Clone, Debug)]
pub struct TriggeredDispatcher {
    pub import_queue: Vec<VerifiedBlock>,
    pub block_importer: BlockImporter,
}

/// Executes a verified block synchronously in the same import operation.
#[derive(Clone, Copy, Debug, PartialEq, Eq, Structural)]
pub struct ImmediateDispatcher {
    pub block_importer: BlockImporter,
}

/// The dispatcher of one tracked chain, in one of its three modes.
#[derive(Clone, Debug)]
pub enum BlockImportDispatcher {
    TriggeredDispatcher(TriggeredDispatcher),
    ImmediateDispatcher(ImmediateDispatcher),
    EmptyDispatcher,
}

impl BlockImportDispatcher {
    /// The verified blocks waiting for a trigger; empty for the other modes.
    pub open spec fn queue_view(self) -> Seq<VerifiedBlock> {
        match self {
            BlockImportDispatcher::TriggeredDispatcher(t) => t.import_queue@,
            _ => Seq::empty(),
        }
    }

    /// A dispatcher that verifies and queues until triggered.
    pub fn new_triggered_dispatcher(block_importer: BlockImporter) -> (r: BlockImportDispatcher)
        ensures
            r matches BlockImportDispatcher::TriggeredDispatcher(t) && t.block_importer
                == block_importer,
            r.queue_view() == Seq::<VerifiedBlock>::empty(),
    {
        let r = BlockImportDispatcher::TriggeredDispatcher(
            TriggeredDispatcher { import_queue: Vec::new(), block_importer },
        );
        proof {
            assert(r.queue_view() =~= Seq::<VerifiedBlock>::empty());
        }
        r
    }

    /// A dispatcher that executes inline with verification.
    pub fn new_immediate_dispatcher(block_importer: BlockImporter) -> (r: BlockImportDispatcher)
        ensures
            r == BlockImportDispatcher::ImmediateDispatcher(ImmediateDispatcher { block_importer }),
    {
        BlockImportDispatcher::ImmediateDispatcher(ImmediateDispatcher { block_importer })
    }

    /// A dispatcher that imports nothing, for worker modes that do not track
    /// this chain's state transitions.
    pub fn new_empty_dispatcher() -> (r: BlockImportDispatcher)
        ensures
            r == BlockImportDispatcher::EmptyDispatcher,
    {
        BlockImportDispatcher::EmptyDispatcher
    }

    /// The triggered variant, if this dispatcher is one.
    pub fn triggered_dispatcher(&self) -> (r: Option<&TriggeredDispatcher>)
        ensures
            match r {
                Option::Some(t) => *self == BlockImportDispatcher::TriggeredDispatcher(*t),
                Option::None => !(self is TriggeredDispatcher),
            },
    {
        match self {
            BlockImportDispatcher::TriggeredDispatcher(t) => Some(t),
            _ => None,
        }
    }
}

} // verus!
