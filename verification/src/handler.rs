//! The per-chain handler: one light client, one dispatcher and the
//! components a tracked parentchain is served with.
//!
//! `import_block` is the single gate through which fetched blocks reach
//! confidential state: the light client decides trust, the dispatcher mode
//! decides when the executor runs, and the handler's own "latest imported"
//! pointer advances only after a successful executor call, so that a failed
//! block is re-presented on retry and never skipped.

use vstd::prelude::*;
use crate::dispatcher::{BlockImportDispatcher, BlockImporter, ImmediateDispatcher};
use crate::errors::{ExecutorError, ImportError, InitError, TriggerError, ValidationError};
use crate::hashing::H256;
use crate::light_client::{
    ancestry_connects, chains_from, quorum_met, resubmits_latest, spec_accepts, spec_submit,
    FinalityMode, ValidatorState,
};
use crate::primitives::{
    header_eq, header_hash, BlockRef, Header, ParentchainBlock, ParentchainId,
    ParentchainInitParams, WorkerMode,
};
use crate::stf_executor::{ExecuteParentchainBlocks, StfEnclaveSigner, VerifiedBlock};

verus! {

/// Holds the chain's node metadata once it was fetched; empty until then.
#[derive(Clone, Debug)]
pub struct NodeMetadataRepository {
    pub metadata: Option<Vec<u8>>,
}

impl NodeMetadataRepository {
    /// Stores freshly fetched metadata, replacing what was there.
    pub fn set_metadata(&mut self, metadata: Vec<u8>)
        ensures
            final(self).metadata == Some(metadata),
    {
        self.metadata = Some(metadata);
    }
}

/// Builds extrinsics for the tracked chain: it remembers the genesis hash
/// they are anchored to and the next nonce to sign with.
#[derive(Clone, Copy, Debug, PartialEq, Eq, Structural)]
pub struct ExtrinsicsFactory {
    pub genesis_hash: H256,
    pub nonce: u64,
}

/// One tracked parentchain on the enclave side: its light client state, its
/// import dispatcher and the components execution is served with.
#[derive(Clone, Debug)]
pub struct ChainHandler<E> {
    pub genesis_header: Header,
    pub validator: ValidatorState,
    pub import_dispatcher: BlockImportDispatcher,
    pub stf_executor: E,
    pub node_metadata_repository: NodeMetadataRepository,
    pub extrinsics_factory: ExtrinsicsFactory,
    /// The last block successfully applied by the executor; never advanced on
    /// executor failure.
    pub latest_imported: Option<BlockRef>,
}

/// The verified form of a fetched block: what the executor receives.
pub open spec fn verified_of(block: ParentchainBlock) -> VerifiedBlock {
    VerifiedBlock {
        reference: block.reference(),
        events: block.events,
        events_proof: block.events_proof,
    }
}

impl<E: ExecuteParentchainBlocks> ChainHandler<E> {
    /// The light client state is internally consistent.
    pub open spec fn wf(self) -> bool {
        self.validator.wf()
    }

    /// The verified blocks waiting for a trigger.
    pub open spec fn queue_view(self) -> Seq<VerifiedBlock> {
        self.import_dispatcher.queue_view()
    }

    /// The components that no import operation touches.
    pub open spec fn statics_unchanged(pre: ChainHandler<E>, post: ChainHandler<E>) -> bool {
        &&& post.genesis_header == pre.genesis_header
        &&& post.node_metadata_repository == pre.node_metadata_repository
        &&& post.extrinsics_factory == pre.extrinsics_factory
        &&& dispatcher_same_shape(pre.import_dispatcher, post.import_dispatcher)
    }

    /// Creates the handler of one tracked chain: initializes the light client
    /// at the trusted genesis and picks the dispatcher for the worker mode.
    ///
    /// A sidechain worker drives only the primary chain's state transitions
    /// through triggers; requesting sidechain mode for an auxiliary chain is a
    /// configuration error.
    pub fn init(
        params: ParentchainInitParams,
        worker_mode: WorkerMode,
        stf_executor: E,
        signer: StfEnclaveSigner,
    ) -> (r: Result<ChainHandler<E>, InitError>)
        ensures
            r == Err::<ChainHandler<E>, InitError>(InitError::UnsupportedWorkerMode) <==> (
            worker_mode == WorkerMode::Sidechain && params.spec_id() != ParentchainId::Integritee),
            r matches Err(InitError::Validation(e)) ==> e == ValidationError::InvalidGenesis,
            r is Ok <==> (!(worker_mode == WorkerMode::Sidechain && params.spec_id()
                != ParentchainId::Integritee) && params.spec_genesis_header().number == 0),
            r matches Ok(h) ==> {
                &&& h.wf()
                &&& crate::light_client::spec_initialized(h.validator, params)
                &&& header_eq(h.genesis_header, params.spec_genesis_header())
                &&& h.stf_executor == stf_executor
                &&& h.latest_imported is None
                &&& h.node_metadata_repository.metadata is None
                &&& h.extrinsics_factory == (ExtrinsicsFactory {
                    genesis_hash: header_hash(params.spec_genesis_header()),
                    nonce: 0,
                })
                &&& (worker_mode == WorkerMode::OffChainWorker ==> h.import_dispatcher
                    == BlockImportDispatcher::ImmediateDispatcher(
                    ImmediateDispatcher { block_importer: BlockImporter { stf_enclave_signer: signer } },
                ))
                &&& (worker_mode == WorkerMode::Sidechain ==> (h.import_dispatcher matches
                    BlockImportDispatcher::TriggeredDispatcher(t) && t.block_importer == (
                BlockImporter { stf_enclave_signer: signer }) && t.import_queue@ == Seq::<
                    VerifiedBlock,
                >::empty()))
                &&& (worker_mode == WorkerMode::Teeracle ==> h.import_dispatcher
                    is EmptyDispatcher)
            },
    {
        if matches!(worker_mode, WorkerMode::Sidechain) && !matches!(
            params.id(),
            ParentchainId::Integritee,
        ) {
            return Err(InitError::UnsupportedWorkerMode);
        }
        let genesis_header = crate::primitives::dup_header(params.genesis_header_ref());
        let genesis_hash = crate::primitives::hash_of_header(&genesis_header);
        let validator = match ValidatorState::initialize(params) {
            Ok(v) => v,
            Err(e) => {
                return Err(InitError::Validation(e));
            },
        };
        let block_importer = BlockImporter { stf_enclave_signer: signer };
        let import_dispatcher = match worker_mode {
            WorkerMode::OffChainWorker => BlockImportDispatcher::new_immediate_dispatcher(
                block_importer,
            ),
            WorkerMode::Sidechain => BlockImportDispatcher::new_triggered_dispatcher(
                block_importer,
            ),
            WorkerMode::Teeracle => BlockImportDispatcher::new_empty_dispatcher(),
        };
        Ok(
            ChainHandler {
                genesis_header,
                validator,
                import_dispatcher,
                stf_executor,
                node_metadata_repository: NodeMetadataRepository { metadata: None },
                extrinsics_factory: ExtrinsicsFactory { genesis_hash, nonce: 0 },
                latest_imported: None,
            },
        )
    }

    /// Imports one fetched block: the light client validates it, and the
    /// dispatcher either executes it now, queues it for a trigger, or — in
    /// the empty mode — drops it.
    ///
    /// A block that the light client rejected changes nothing. A block the
    /// executor failed on is trusted (it is the latest finalized header) but
    /// not marked imported: an expected transient state.
    pub fn import_block(&mut self, block: ParentchainBlock) -> (r: Result<(), ImportError>)
        requires
            old(self).wf(),
        ensures
            final(self).wf(),
            Self::statics_unchanged(*old(self), *final(self)),
            old(self).import_dispatcher is EmptyDispatcher ==> r is Ok && *final(self) == *old(self),
            !(old(self).import_dispatcher is EmptyDispatcher) ==> {
                &&& (r matches Err(ImportError::Validation(_)) <==> !spec_accepts(
                    old(self).validator,
                    block.header,
                    block.proof,
                ))
                &&& (r matches Err(ImportError::Validation(_)) ==> *final(self) == *old(self))
                &&& (r == Err::<(), ImportError>(
                    ImportError::Validation(ValidationError::UnknownAncestor),
                ) <==> !ancestry_connects(old(self).validator, block.header) || (resubmits_latest(
                    old(self).validator,
                    block.header,
                ) && crate::light_client::proof_accepted(old(self).validator, block.proof)))
                &&& (r == Err::<(), ImportError>(
                    ImportError::Validation(ValidationError::StaleSetId),
                ) <==> ancestry_connects(old(self).validator, block.header) && old(self).validator.finality == FinalityMode::Grandpa && block.proof.set_id != old(self).validator.current_authority_set.set_id)
                &&& (r == Err::<(), ImportError>(
                    ImportError::Validation(ValidationError::InsufficientSignatures),
                ) <==> ancestry_connects(old(self).validator, block.header) && old(self).validator.finality == FinalityMode::Grandpa && block.proof.set_id == old(self).validator.current_authority_set.set_id && !quorum_met(
                    old(self).validator.current_authority_set.authorities@,
                    block.proof.signers@,
                ))
                &&& (spec_accepts(old(self).validator, block.header, block.proof) ==> final(self).validator == spec_submit(old(self).validator, block.header))
                &&& (spec_accepts(old(self).validator, block.header, block.proof) && old(self).import_dispatcher is TriggeredDispatcher ==> r is Ok && final(self).queue_view()
                    == old(self).queue_view().push(verified_of(block)) && final(self).stf_executor
                    == old(self).stf_executor && final(self).latest_imported == old(self).latest_imported)
                &&& (spec_accepts(old(self).validator, block.header, block.proof) && old(self).import_dispatcher is ImmediateDispatcher ==> {
                    &&& final(self).queue_view() == old(self).queue_view()
                    &&& (r is Ok ==> final(self).stf_executor.applied() == old(self).stf_executor.applied().push(block.reference()) && final(self).latest_imported
                        == Some(block.reference()))
                    &&& (r is Err ==> (r matches Err(ImportError::Executor(_))) && final(self).stf_executor.applied() == old(self).stf_executor.applied() && final(self).latest_imported == old(self).latest_imported)
                })
            },
    {
        if matches!(&self.import_dispatcher, BlockImportDispatcher::EmptyDispatcher) {
            return Ok(());
        }
        let reference = block.block_reference();
        let ParentchainBlock { header, proof, events, events_proof } = block;
        match self.validator.submit_finalized_header(header, proof) {
            Err(e) => Err(ImportError::Validation(e)),
            Ok(()) => {
                let vb = VerifiedBlock { reference, events, events_proof };
                match &mut self.import_dispatcher {
                    BlockImportDispatcher::TriggeredDispatcher(t) => {
                        t.import_queue.push(vb);
                        Ok(())
                    },
                    BlockImportDispatcher::ImmediateDispatcher(_) => {
                        match self.stf_executor.apply_block(&vb) {
                            Ok(()) => {
                                self.latest_imported = Some(reference);
                                Ok(())
                            },
                            Err(e) => Err(ImportError::Executor(e)),
                        }
                    },
                    BlockImportDispatcher::EmptyDispatcher => Ok(()),
                }
            },
        }
    }

    /// Drains the queue of verified blocks into the executor, in order,
    /// stopping at the first executor failure; the failed block stays at the
    /// head of the queue and is re-presented on the next trigger.
    pub fn trigger_import(&mut self) -> (r: Result<(), TriggerError>)
        requires
            old(self).wf(),
        ensures
            final(self).wf(),
            Self::statics_unchanged(*old(self), *final(self)),
            final(self).validator == old(self).validator,
            !(old(self).import_dispatcher is TriggeredDispatcher) ==> r == Err::<(), TriggerError>(
                TriggerError::ExpectedTriggeredImportDispatcher,
            ) && *final(self) == *old(self),
            old(self).import_dispatcher is TriggeredDispatcher ==> exists|k: int|
                spec_drained(*old(self), *final(self), r, k),
    {
        if !matches!(&self.import_dispatcher, BlockImportDispatcher::TriggeredDispatcher(_)) {
            return Err(TriggerError::ExpectedTriggeredImportDispatcher);
        }
        let mut queue: Vec<VerifiedBlock> = Vec::new();
        match &mut self.import_dispatcher {
            BlockImportDispatcher::TriggeredDispatcher(t) => {
                core::mem::swap(&mut queue, &mut t.import_queue);
            },
            _ => {},
        }
        let ghost base_applied = self.stf_executor.applied();
        let ghost base_latest = self.latest_imported;
        let ghost q0 = queue@;
        let mut i: usize = 0;
        let mut failure: Option<ExecutorError> = None;
        while i < queue.len()
            invariant_except_break
                failure is None,
            invariant
                i <= queue@.len(),
                queue@ == q0,
                q0 == old(self).queue_view(),
                old(self).wf(),
                self.validator == old(self).validator,
                self.genesis_header == old(self).genesis_header,
                self.node_metadata_repository == old(self).node_metadata_repository,
                self.extrinsics_factory == old(self).extrinsics_factory,
                self.import_dispatcher matches BlockImportDispatcher::TriggeredDispatcher(t)
                    && t.import_queue@ == Seq::<VerifiedBlock>::empty() && (old(self)
                    .import_dispatcher matches BlockImportDispatcher::TriggeredDispatcher(t0)
                    && t.block_importer == t0.block_importer),
                self.stf_executor.applied() == base_applied + q0.take(i as int).map_values(
                    |b: VerifiedBlock| b.reference,
                ),
                i > 0 ==> self.latest_imported == Some(q0[i as int - 1].reference),
                i == 0 ==> self.latest_imported == base_latest,
                base_applied == old(self).stf_executor.applied(),
                base_latest == old(self).latest_imported,
            ensures
                i <= q0.len(),
                failure is None ==> i == q0.len(),
                failure matches Some(_) ==> i < q0.len(),
            decreases queue@.len() - i,
        {
            match self.stf_executor.apply_block(&queue[i]) {
                Ok(()) => {
                    self.latest_imported = Some(queue[i].reference);
                    proof {
                        assert(q0.take(i as int + 1).map_values(|b: VerifiedBlock| b.reference)
                            =~= q0.take(i as int).map_values(|b: VerifiedBlock| b.reference).push(
                            q0[i as int].reference,
                        ));
                    }
                    i = i + 1;
                },
                Err(e) => {
                    failure = Some(e);
                    break ;
                },
            }
        }
        let remaining = queue.split_off(i);
        match &mut self.import_dispatcher {
            BlockImportDispatcher::TriggeredDispatcher(t) => {
                t.import_queue = remaining;
            },
            _ => {},
        }
        let r: Result<(), TriggerError> = match failure {
            None => Ok(()),
            Some(e) => Err(TriggerError::Executor(e)),
        };
        proof {
            assert(remaining@ =~= q0.skip(i as int));
            assert(spec_drained(*old(self), *self, r, i as int));
        }
        r
    }
}

/// The outcome of one trigger: the first `k` queued blocks were applied in
/// order, the rest stayed queued, and success means the whole queue drained.
pub open spec fn spec_drained<E: ExecuteParentchainBlocks>(
    pre: ChainHandler<E>,
    post: ChainHandler<E>,
    r: Result<(), TriggerError>,
    k: int,
) -> bool {
    &&& 0 <= k <= pre.queue_view().len()
    &&& post.stf_executor.applied() == pre.stf_executor.applied() + pre.queue_view().take(
        k,
    ).map_values(|b: VerifiedBlock| b.reference)
    &&& post.queue_view() == pre.queue_view().skip(k)
    &&& (r is Ok <==> k == pre.queue_view().len())
    &&& (r is Err ==> r matches Err(TriggerError::Executor(_)))
    &&& (k > 0 ==> post.latest_imported == Some(pre.queue_view()[k - 1].reference))
    &&& (k == 0 ==> post.latest_imported == pre.latest_imported)
}

/// One import in triggered mode: the block was verified and queued, and the
/// executor was left alone.
pub open spec fn spec_queued<E: ExecuteParentchainBlocks>(
    pre: ChainHandler<E>,
    post: ChainHandler<E>,
    block: ParentchainBlock,
) -> bool {
    &&& post.queue_view() == pre.queue_view().push(verified_of(block))
    &&& post.stf_executor == pre.stf_executor
    &&& post.latest_imported == pre.latest_imported
}

/// A run of triggered-mode imports with no trigger in between, first to
/// last.
pub open spec fn spec_queued_run<E: ExecuteParentchainBlocks>(
    pre: ChainHandler<E>,
    post: ChainHandler<E>,
    blocks: Seq<ParentchainBlock>,
) -> bool
    decreases blocks.len(),
{
    if blocks.len() == 0 {
        post == pre
    } else {
        exists|mid: ChainHandler<E>|
            #[trigger] spec_queued(pre, mid, blocks[0]) && spec_queued_run(
                mid,
                post,
                blocks.drop_first(),
            )
    }
}

/// Triggered-mode decoupling: importing any number of blocks without a
/// trigger leaves the executor's applied history untouched and queues
/// exactly those blocks, in order, behind what was already waiting. A
/// single trigger then drains them in that order, stopping at the first
/// executor failure; see [`spec_drained`].
pub proof fn lemma_triggered_decoupling<E: ExecuteParentchainBlocks>(
    pre: ChainHandler<E>,
    post: ChainHandler<E>,
    blocks: Seq<ParentchainBlock>,
)
    requires
        spec_queued_run(pre, post, blocks),
    ensures
        post.stf_executor.applied() == pre.stf_executor.applied(),
        post.latest_imported == pre.latest_imported,
        post.queue_view() == pre.queue_view() + blocks.map_values(
            |b: ParentchainBlock| verified_of(b),
        ),
    decreases blocks.len(),
{
    if blocks.len() == 0 {
        assert(blocks.map_values(|b: ParentchainBlock| verified_of(b)) =~= Seq::<
            VerifiedBlock,
        >::empty());
        assert(post.queue_view() =~= pre.queue_view() + blocks.map_values(
            |b: ParentchainBlock| verified_of(b),
        ));
    } else {
        let mid = choose|mid: ChainHandler<E>|
            #[trigger] spec_queued(pre, mid, blocks[0]) && spec_queued_run(
                mid,
                post,
                blocks.drop_first(),
            );
        lemma_triggered_decoupling(mid, post, blocks.drop_first());
        assert(post.queue_view() =~= pre.queue_view() + blocks.map_values(
            |b: ParentchainBlock| verified_of(b),
        ));
    }
}

/// The executor history only grew, and every appended reference is numbered
/// consecutively from the block after `pre`'s trusted head: the forwarded
/// trace of an immediate-mode run.
pub open spec fn applied_trace_extends<E: ExecuteParentchainBlocks>(
    pre: ChainHandler<E>,
    post: ChainHandler<E>,
) -> bool {
    &&& post.stf_executor.applied().len() >= pre.stf_executor.applied().len()
    &&& post.stf_executor.applied().take(pre.stf_executor.applied().len() as int)
        == pre.stf_executor.applied()
    &&& forall|i: int|
        pre.stf_executor.applied().len() <= i < post.stf_executor.applied().len() ==> (
        #[trigger] post.stf_executor.applied()[i]).number
            == pre.validator.latest_finalized_header.number + 1 + (i
            - pre.stf_executor.applied().len())
}

/// Exactly one block was applied per header the light client trusted: holds
/// of an immediate-mode run that saw no executor failure.
pub open spec fn applied_count_tracks_trust<E: ExecuteParentchainBlocks>(
    pre: ChainHandler<E>,
    post: ChainHandler<E>,
) -> bool {
    post.stf_executor.applied().len() - pre.stf_executor.applied().len()
        == post.validator.latest_finalized_header.number
        - pre.validator.latest_finalized_header.number
}

/// The trigger queue only grew: nothing queued was executed or dropped.
pub open spec fn queue_only_extended<E: ExecuteParentchainBlocks>(
    pre: ChainHandler<E>,
    post: ChainHandler<E>,
) -> bool {
    &&& post.queue_view().len() >= pre.queue_view().len()
    &&& post.queue_view().take(pre.queue_view().len() as int) == pre.queue_view()
}

/// Forwarded traces compose across consecutive runs.
pub proof fn lemma_applied_trace_compose<E: ExecuteParentchainBlocks>(
    a: ChainHandler<E>,
    b: ChainHandler<E>,
    c: ChainHandler<E>,
)
    requires
        applied_trace_extends(a, b),
        applied_count_tracks_trust(a, b),
        applied_trace_extends(b, c),
    ensures
        applied_trace_extends(a, c),
        applied_count_tracks_trust(b, c) ==> applied_count_tracks_trust(a, c),
{
    let la = a.stf_executor.applied().len() as int;
    let lb = b.stf_executor.applied().len() as int;
    let lc = c.stf_executor.applied().len() as int;
    assert(c.stf_executor.applied().take(la) =~= c.stf_executor.applied().take(lb).take(la));
    assert forall|i: int|
        la <= i < lc implies (#[trigger] c.stf_executor.applied()[i]).number
        == a.validator.latest_finalized_header.number + 1 + (i - la) by {
        if i < lb {
            assert(c.stf_executor.applied().take(lb)[i] == c.stf_executor.applied()[i]);
            assert(b.stf_executor.applied()[i] == c.stf_executor.applied()[i]);
        }
    }
}

/// Queue extensions compose across consecutive runs.
pub proof fn lemma_queue_extension_compose<E: ExecuteParentchainBlocks>(
    a: ChainHandler<E>,
    b: ChainHandler<E>,
    c: ChainHandler<E>,
)
    requires
        queue_only_extended(a, b),
        queue_only_extended(b, c),
    ensures
        queue_only_extended(a, c),
{
    let la = a.queue_view().len() as int;
    let lb = b.queue_view().len() as int;
    assert(c.queue_view().take(la) =~= c.queue_view().take(lb).take(la));
}

/// Both dispatchers are the same variant with the same importer; the
/// triggered queue contents may differ.
pub open spec fn dispatcher_same_shape(a: BlockImportDispatcher, b: BlockImportDispatcher) -> bool {
    match (a, b) {
        (
            BlockImportDispatcher::TriggeredDispatcher(x),
            BlockImportDispatcher::TriggeredDispatcher(y),
        ) => x.block_importer == y.block_importer,
        (
            BlockImportDispatcher::ImmediateDispatcher(x),
            BlockImportDispatcher::ImmediateDispatcher(y),
        ) => x == y,
        (BlockImportDispatcher::EmptyDispatcher, BlockImportDispatcher::EmptyDispatcher) => true,
        _ => false,
    }
}

} // verus!
