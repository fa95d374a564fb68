//! The batched sync engine: brings a chain handler's view from the last
//! synced header to the chain's current finalized head without unbounded
//! memory growth.
//!
//! Blocks are fetched in bounded batches and imported one at a time, in
//! order, so a failure partway through a batch leaves the handler consistent
//! at the last successfully imported block. Everything a data source returns
//! is untrusted until the light client verified it.

use vstd::prelude::*;
use crate::errors::{ImportError, ServiceError, SyncError, TriggerError};
use crate::handler::{
    applied_count_tracks_trust, applied_trace_extends, lemma_applied_trace_compose,
    lemma_queue_extension_compose, queue_only_extended, spec_drained, ChainHandler,
};
use crate::hashing::H256;
use crate::light_client::{FinalityMode, ValidatorState};
use crate::primitives::{
    dup_bytes, dup_header, dup_proof, dup_u64s, header_eq, header_hash, hash_of_header, Header,
    ParentchainBlock, ParentchainId, ParentchainInitParams, SignedBlock, WorkerMode,
};
use crate::stf_executor::{ExecuteParentchainBlocks, StfEnclaveSigner};

verus! {

/// At most this many blocks are fetched and held in memory per batch, so
/// that a long backlog never exhausts memory inside the enclave.
pub const BLOCK_SYNC_BATCH_SIZE: u64 = 1000;

/// A parentchain data source, e.g. an RPC client of a full node.
///
/// All results are fallible and, except for the reported head number,
/// nothing a source returns is assumed correct: fetched blocks pass the
/// light client before anything acts on them.
pub trait ParentchainDataSource: Sized {
    /// The number of the source's current finalized head, if it knows one.
    spec fn head_number(&self) -> Option<u64>;

    /// The hash of the source's genesis block, if it knows one.
    spec fn spec_genesis_hash(&self) -> Option<H256>;

    /// The header the source knows under a hash.
    spec fn spec_header_of(&self, hash: H256) -> Option<Header>;

    /// Whether the source's chain finalizes through an authority set.
    spec fn spec_grandpa_available(&self) -> bool;

    /// The authority set the source reports at genesis.
    spec fn spec_genesis_authorities(&self) -> Seq<u64>;

    /// The storage proof the source reports for that set.
    spec fn spec_genesis_authorities_proof(&self) -> Seq<u8>;

    /// Asks for the number of the latest finalized block.
    fn last_finalized_number(&self) -> (r: Result<Option<u64>, SyncError>)
        ensures
            r matches Ok(n) ==> n == self.head_number(),
    ;

    /// Fetches the blocks numbered `from..=to` with their justifications.
    fn get_blocks(&self, from: u64, to: u64) -> (r: Result<Vec<SignedBlock>, SyncError>);

    /// The hash of the chain's genesis block.
    fn get_genesis_hash(&self) -> (r: Result<H256, SyncError>)
        ensures
            r matches Ok(h) ==> self.spec_genesis_hash() == Some(h),
    ;

    /// The header of the block with the given hash, if the source knows it.
    fn header(&self, hash: H256) -> (r: Result<Option<Header>, SyncError>)
        ensures
            r matches Ok(o) ==> ((o matches Some(h) && self.spec_header_of(hash) matches Some(sh)
                && header_eq(h, sh)) || (o is None && self.spec_header_of(hash) is None)),
    ;

    /// Whether the chain finalizes through an authority set.
    fn is_grandpa_available(&self) -> (r: Result<bool, SyncError>)
        ensures
            r matches Ok(b) ==> b == self.spec_grandpa_available(),
    ;

    /// The authority set at genesis.
    fn grandpa_authorities(&self) -> (r: Result<Vec<u64>, SyncError>)
        ensures
            r matches Ok(v) ==> v@ == self.spec_genesis_authorities(),
    ;

    /// The storage proof of the authority set at genesis; carried opaquely.
    fn grandpa_authorities_proof(&self) -> (r: Result<Vec<u8>, SyncError>)
        ensures
            r matches Ok(v) ==> v@ == self.spec_genesis_authorities_proof(),
    ;

    /// The events of the block with the given hash.
    fn get_events_for_block(&self, hash: H256) -> (r: Result<Vec<u8>, SyncError>);

    /// The storage proof for the event root of that block.
    fn get_events_value_proof(&self, hash: H256) -> (r: Result<Vec<u8>, SyncError>);
}

/// Handles the interaction between one parentchain and the enclave side.
pub struct ParentchainHandler<S, E> {
    pub parentchain_api: S,
    pub parentchain_init_params: ParentchainInitParams,
    pub enclave: ChainHandler<E>,
}

/// A fresh validator matches the init parameters, content-wise.
pub open spec fn initialized_from(s: ValidatorState, params: ParentchainInitParams) -> bool {
    &&& s.parentchain_id == params.spec_id()
    &&& header_eq(s.latest_finalized_header, params.spec_genesis_header())
    &&& s.latest_hash == header_hash(params.spec_genesis_header())
    &&& s.pending_change is None
    &&& s.current_authority_set.set_id == 0
    &&& match params {
        ParentchainInitParams::Grandpa { authorities, .. } => s.finality == FinalityMode::Grandpa
            && s.current_authority_set.authorities@ == authorities@,
        ParentchainInitParams::Simple { .. } => s.finality == FinalityMode::Simple
            && s.current_authority_set.authorities@ == Seq::<u64>::empty(),
    }
}

impl<S: ParentchainDataSource, E: ExecuteParentchainBlocks> ParentchainHandler<S, E> {
    /// What no sync operation changes: the data source, the stored init
    /// parameters and the enclave components around the import path.
    pub open spec fn engine_statics_unchanged(
        pre: ParentchainHandler<S, E>,
        post: ParentchainHandler<S, E>,
    ) -> bool {
        &&& post.parentchain_api == pre.parentchain_api
        &&& post.parentchain_init_params == pre.parentchain_init_params
        &&& ChainHandler::<E>::statics_unchanged(pre.enclave, post.enclave)
    }

    /// Wires a handler from its parts.
    pub fn new(
        parentchain_api: S,
        enclave: ChainHandler<E>,
        parentchain_init_params: ParentchainInitParams,
    ) -> (r: ParentchainHandler<S, E>)
        ensures
            r.parentchain_api == parentchain_api,
            r.enclave == enclave,
            r.parentchain_init_params == parentchain_init_params,
    {
        ParentchainHandler { parentchain_api, parentchain_init_params, enclave }
    }

    /// Builds a handler by asking the data source for the genesis header and,
    /// where finality is available, the genesis authority set, and
    /// initializing the light client from them.
    pub fn new_with_automatic_light_client_allocation(
        parentchain_api: S,
        id: ParentchainId,
        worker_mode: WorkerMode,
        stf_executor: E,
        signer: StfEnclaveSigner,
    ) -> (r: Result<ParentchainHandler<S, E>, ServiceError>)
        ensures
            r matches Ok(ph) ==> {
                &&& ph.parentchain_api == parentchain_api
                &&& ph.enclave.wf()
                &&& ph.enclave.validator.latest_finalized_header.number == 0
                &&& ph.parentchain_init_params.spec_id() == id
                &&& initialized_from(ph.enclave.validator, ph.parentchain_init_params)
                &&& ph.enclave.stf_executor == stf_executor
                &&& ph.enclave.latest_imported is None
                &&& (worker_mode == WorkerMode::OffChainWorker ==> ph.enclave.import_dispatcher
                    is ImmediateDispatcher)
                &&& (worker_mode == WorkerMode::Sidechain ==> ph.enclave.import_dispatcher
                    is TriggeredDispatcher && ph.enclave.queue_view() == Seq::<
                    crate::stf_executor::VerifiedBlock,
                >::empty())
                &&& (worker_mode == WorkerMode::Teeracle ==> ph.enclave.import_dispatcher
                    is EmptyDispatcher)
                &&& (ph.parentchain_init_params is Grandpa <==> parentchain_api
                    .spec_grandpa_available())
                &&& (match ph.parentchain_init_params {
                    ParentchainInitParams::Grandpa { authorities, authorities_proof, .. } =>
                        authorities@ == parentchain_api.spec_genesis_authorities()
                        && authorities_proof@ == parentchain_api.spec_genesis_authorities_proof(),
                    ParentchainInitParams::Simple { .. } => true,
                })
                &&& (parentchain_api.spec_genesis_hash() matches Some(gh) ==> (parentchain_api
                    .spec_header_of(gh) matches Some(g) ==> header_eq(
                    ph.parentchain_init_params.spec_genesis_header(),
                    g,
                )))
            },
            parentchain_api.spec_genesis_hash() matches Some(gh) ==> (parentchain_api.spec_header_of(
                gh,
            ) is None ==> r is Err),
    {
        let genesis_hash = match parentchain_api.get_genesis_hash() {
            Ok(h) => h,
            Err(e) => {
                return Err(ServiceError::Sync(e));
            },
        };
        let genesis_header = match parentchain_api.header(genesis_hash) {
            Ok(Some(h)) => h,
            Ok(None) => {
                return Err(ServiceError::Sync(SyncError::MissingGenesisHeader));
            },
            Err(e) => {
                return Err(ServiceError::Sync(e));
            },
        };
        let grandpa = match parentchain_api.is_grandpa_available() {
            Ok(b) => b,
            Err(e) => {
                return Err(ServiceError::Sync(e));
            },
        };
        let parentchain_init_params: ParentchainInitParams = if grandpa {
            let authorities = match parentchain_api.grandpa_authorities() {
                Ok(a) => a,
                Err(e) => {
                    return Err(ServiceError::Sync(e));
                },
            };
            let authorities_proof = match parentchain_api.grandpa_authorities_proof() {
                Ok(p) => p,
                Err(e) => {
                    return Err(ServiceError::Sync(e));
                },
            };
            ParentchainInitParams::Grandpa { id, genesis_header, authorities, authorities_proof }
        } else {
            ParentchainInitParams::Simple { id, genesis_header }
        };
        let enclave = match ChainHandler::init(
            parentchain_init_params.dup(),
            worker_mode,
            stf_executor,
            signer,
        ) {
            Ok(h) => h,
            Err(e) => {
                return Err(ServiceError::Init(e));
            },
        };
        Ok(ParentchainHandler { parentchain_api, parentchain_init_params, enclave })
    }

    /// The data source this handler reads from.
    pub fn parentchain_api(&self) -> (r: &S)
        ensures
            *r == self.parentchain_api,
    {
        &self.parentchain_api
    }

    /// The chain this handler serves.
    pub fn parentchain_id(&self) -> (r: ParentchainId)
        ensures
            r == self.parentchain_init_params.spec_id(),
    {
        self.parentchain_init_params.id()
    }

    /// The header everything up to which is synced: the light client's latest
    /// finalized header, genesis right after initialization.
    pub fn init_parentchain_components(&self) -> (r: Header)
        ensures
            header_eq(r, self.enclave.validator.latest_finalized_header),
            r.number == self.enclave.validator.latest_finalized_header.number,
    {
        dup_header(&self.enclave.validator.latest_finalized_header)
    }

    /// Fetches and imports one bounded batch, the blocks numbered
    /// `from..=to`, one block at a time and in order.
    ///
    /// `EmptyChunk` answers an empty batch, and also one whose last block
    /// lies below `from`: such a batch cannot advance the sync.
    fn sync_blocks(&mut self, from: u64, to: u64) -> (r: Result<Header, SyncError>)
        requires
            old(self).enclave.wf(),
        ensures
            final(self).enclave.wf(),
            Self::engine_statics_unchanged(*old(self), *final(self)),
            old(self).enclave.import_dispatcher is TriggeredDispatcher ==> final(self)
                .enclave.stf_executor == old(self).enclave.stf_executor && final(self)
                .enclave.latest_imported == old(self).enclave.latest_imported
                && queue_only_extended(old(self).enclave, final(self).enclave),
            old(self).enclave.import_dispatcher is ImmediateDispatcher ==> applied_trace_extends(
                old(self).enclave,
                final(self).enclave,
            ) && (r is Ok ==> applied_count_tracks_trust(old(self).enclave, final(self).enclave)),
            final(self).enclave.validator.latest_finalized_header.number >= old(self).enclave.validator.latest_finalized_header.number,
            r matches Ok(h) ==> h.number >= from,
            !(old(self).enclave.import_dispatcher is EmptyDispatcher) ==> (r matches Ok(h)
                ==> h.number == final(self).enclave.validator.latest_finalized_header.number),
            old(self).enclave.import_dispatcher is EmptyDispatcher ==> final(self).enclave == old(self).enclave,
    {
        proof {
            assert(old(self).enclave.queue_view().take(
                old(self).enclave.queue_view().len() as int,
            ) =~= old(self).enclave.queue_view());
            assert(old(self).enclave.stf_executor.applied().take(
                old(self).enclave.stf_executor.applied().len() as int,
            ) =~= old(self).enclave.stf_executor.applied());
        }
        let blocks = match self.parentchain_api.get_blocks(from, to) {
            Ok(b) => b,
            Err(e) => {
                return Err(e);
            },
        };
        if blocks.len() == 0 {
            return Err(SyncError::EmptyChunk);
        }
        let last_number = blocks[blocks.len() - 1].header.number;
        if last_number < from {
            return Err(SyncError::EmptyChunk);
        }
        let mut i: usize = 0;
        while i < blocks.len()
            invariant
                i <= blocks@.len(),
                self.enclave.wf(),
                self.parentchain_api == old(self).parentchain_api,
                self.parentchain_init_params == old(self).parentchain_init_params,
                ChainHandler::<E>::statics_unchanged(old(self).enclave, self.enclave),
                old(self).enclave.import_dispatcher is TriggeredDispatcher ==> self
                    .enclave.stf_executor == old(self).enclave.stf_executor && self
                    .enclave.latest_imported == old(self).enclave.latest_imported
                    && queue_only_extended(old(self).enclave, self.enclave),
                old(self).enclave.import_dispatcher is ImmediateDispatcher ==> applied_trace_extends(
                    old(self).enclave,
                    self.enclave,
                ) && applied_count_tracks_trust(old(self).enclave, self.enclave),
                self.enclave.validator.latest_finalized_header.number >= old(
                    self,
                ).enclave.validator.latest_finalized_header.number,
                (!(old(self).enclave.import_dispatcher is EmptyDispatcher) && i > 0)
                    ==> self.enclave.validator.latest_finalized_header.number == blocks@[i as int
                    - 1].header.number,
                old(self).enclave.import_dispatcher is EmptyDispatcher ==> self.enclave == old(self).enclave,
            decreases blocks@.len() - i,
        {
            let block_hash = hash_of_header(&blocks[i].header);
            let events = match self.parentchain_api.get_events_for_block(block_hash) {
                Ok(v) => v,
                Err(e) => {
                    return Err(e);
                },
            };
            let events_proof = match self.parentchain_api.get_events_value_proof(block_hash) {
                Ok(v) => v,
                Err(e) => {
                    return Err(e);
                },
            };
            let candidate = ParentchainBlock {
                header: dup_header(&blocks[i].header),
                proof: dup_proof(&blocks[i].proof),
                events,
                events_proof,
            };
            let ghost step_pre = self.enclave;
            match self.enclave.import_block(candidate) {
                Ok(()) => {},
                Err(ImportError::Validation(e)) => {
                    return Err(SyncError::Validation(e));
                },
                Err(ImportError::Executor(e)) => {
                    return Err(SyncError::Executor(e));
                },
            }
            proof {
                if old(self).enclave.import_dispatcher is TriggeredDispatcher {
                    assert(self.enclave.queue_view().take(step_pre.queue_view().len() as int)
                        =~= step_pre.queue_view());
                    lemma_queue_extension_compose(old(self).enclave, step_pre, self.enclave);
                }
                if old(self).enclave.import_dispatcher is ImmediateDispatcher {
                    assert(self.enclave.stf_executor.applied().take(
                        step_pre.stf_executor.applied().len() as int,
                    ) =~= step_pre.stf_executor.applied());
                    assert(applied_trace_extends(step_pre, self.enclave));
                    lemma_applied_trace_compose(old(self).enclave, step_pre, self.enclave);
                }
            }
            i = i + 1;
        }
        Ok(dup_header(&blocks[blocks.len() - 1].header))
    }

    /// Brings the handler from `last_synced_header` to the head the source
    /// reported at entry, batch by batch: one fallible head fetch, then
    /// [`Self::sync_from_head`], which fixes the outcome for every value the
    /// fetch can deliver.
    ///
    /// If the head equals the last synced header this is a no-op that
    /// returns the header unchanged; a last synced header ahead of the head
    /// is a fatal misconfiguration.
    pub fn sync_parentchain(&mut self, last_synced_header: Header) -> (r: Result<Header, SyncError>)
        requires
            old(self).enclave.wf(),
        ensures
            final(self).enclave.wf(),
            Self::engine_statics_unchanged(*old(self), *final(self)),
            old(self).parentchain_api.head_number() == Some(last_synced_header.number) ==> (*final(self) == *old(self) && (r matches Ok(h) ==> h == last_synced_header)),
            (old(self).parentchain_api.head_number() matches Some(n) && n
                < last_synced_header.number) ==> r is Err && *final(self) == *old(self),
            old(self).parentchain_api.head_number() is None ==> r is Err && *final(self) == *old(self),
            old(self).parentchain_api.head_number() matches Some(n) ==> (n
                > last_synced_header.number ==> (r matches Ok(h) ==> h.number >= n)),
            r matches Ok(h) ==> h.number >= last_synced_header.number,
            r matches Ok(h) ==> (h.number == last_synced_header.number ==> (*final(self) == *old(self)
                && h == last_synced_header)),
            !(old(self).enclave.import_dispatcher is EmptyDispatcher) ==> (r matches Ok(h)
                ==> (h == last_synced_header || h.number
                == final(self).enclave.validator.latest_finalized_header.number)),
            old(self).enclave.import_dispatcher is EmptyDispatcher ==> final(self).enclave == old(self).enclave,
            old(self).enclave.import_dispatcher is TriggeredDispatcher ==> final(self)
                .enclave.stf_executor == old(self).enclave.stf_executor && final(self)
                .enclave.latest_imported == old(self).enclave.latest_imported
                && queue_only_extended(old(self).enclave, final(self).enclave),
            old(self).enclave.import_dispatcher is ImmediateDispatcher ==> applied_trace_extends(
                old(self).enclave,
                final(self).enclave,
            ) && (r is Ok ==> applied_count_tracks_trust(old(self).enclave, final(self).enclave)),
    {
        proof {
            assert(old(self).enclave.queue_view().take(
                old(self).enclave.queue_view().len() as int,
            ) =~= old(self).enclave.queue_view());
            assert(old(self).enclave.stf_executor.applied().take(
                old(self).enclave.stf_executor.applied().len() as int,
            ) =~= old(self).enclave.stf_executor.applied());
        }
        let head = match self.parentchain_api.last_finalized_number() {
            Ok(o) => o,
            Err(e) => {
                return Err(e);
            },
        };
        self.sync_from_head(last_synced_header, head)
    }

    /// Decides and performs what a reported finalized head asks for. The
    /// head is handed in as a value, so every outcome is fixed for each
    /// value of it, whatever the source did: no head is the definite
    /// missing-head error, a head at the last synced header is a successful
    /// no-op, a head behind it is the fatal misconfiguration, and a head
    /// beyond it is synced to in bounded batches.
    pub fn sync_from_head(&mut self, last_synced_header: Header, head: Option<u64>) -> (r: Result<
        Header,
        SyncError,
    >)
        requires
            old(self).enclave.wf(),
        ensures
            final(self).enclave.wf(),
            Self::engine_statics_unchanged(*old(self), *final(self)),
            head is None ==> r == Err::<Header, SyncError>(SyncError::MissingLastFinalizedBlock)
                && *final(self) == *old(self),
            head == Some(last_synced_header.number) ==> (*final(self) == *old(self) && (r matches
                Ok(h) && h == last_synced_header)),
            (head matches Some(n) && n < last_synced_header.number) ==> r == Err::<
                Header,
                SyncError,
            >(SyncError::InconsistentConfiguration) && *final(self) == *old(self),
            head matches Some(n) ==> (n > last_synced_header.number ==> (r matches Ok(h)
                ==> h.number >= n)),
            r matches Ok(h) ==> h.number >= last_synced_header.number,
            r matches Ok(h) ==> (h.number == last_synced_header.number ==> (*final(self) == *old(self)
                && h == last_synced_header)),
            !(old(self).enclave.import_dispatcher is EmptyDispatcher) ==> (r matches Ok(h)
                ==> (h == last_synced_header || h.number
                == final(self).enclave.validator.latest_finalized_header.number)),
            old(self).enclave.import_dispatcher is EmptyDispatcher ==> final(self).enclave == old(self).enclave,
            old(self).enclave.import_dispatcher is TriggeredDispatcher ==> final(self)
                .enclave.stf_executor == old(self).enclave.stf_executor && final(self)
                .enclave.latest_imported == old(self).enclave.latest_imported
                && queue_only_extended(old(self).enclave, final(self).enclave),
            old(self).enclave.import_dispatcher is ImmediateDispatcher ==> applied_trace_extends(
                old(self).enclave,
                final(self).enclave,
            ) && (r is Ok ==> applied_count_tracks_trust(old(self).enclave, final(self).enclave)),
    {
        proof {
            assert(old(self).enclave.queue_view().take(
                old(self).enclave.queue_view().len() as int,
            ) =~= old(self).enclave.queue_view());
            assert(old(self).enclave.stf_executor.applied().take(
                old(self).enclave.stf_executor.applied().len() as int,
            ) =~= old(self).enclave.stf_executor.applied());
        }
        let head_number = match head {
            None => {
                return Err(SyncError::MissingLastFinalizedBlock);
            },
            Some(n) => n,
        };
        if last_synced_header.number == head_number {
            return Ok(last_synced_header);
        }
        if last_synced_header.number > head_number {
            return Err(SyncError::InconsistentConfiguration);
        }
        let mut until_synced_header = last_synced_header;
        while until_synced_header.number < head_number
            invariant
                head == Some(head_number),
                last_synced_header.number < head_number,
                self.enclave.wf(),
                self.parentchain_api == old(self).parentchain_api,
                self.parentchain_init_params == old(self).parentchain_init_params,
                ChainHandler::<E>::statics_unchanged(old(self).enclave, self.enclave),
                old(self).enclave.import_dispatcher is EmptyDispatcher ==> self.enclave == old(self).enclave,
                old(self).enclave.import_dispatcher is TriggeredDispatcher ==> self
                    .enclave.stf_executor == old(self).enclave.stf_executor && self
                    .enclave.latest_imported == old(self).enclave.latest_imported
                    && queue_only_extended(old(self).enclave, self.enclave),
                old(self).enclave.import_dispatcher is ImmediateDispatcher ==> applied_trace_extends(
                    old(self).enclave,
                    self.enclave,
                ) && applied_count_tracks_trust(old(self).enclave, self.enclave),
                until_synced_header.number >= last_synced_header.number,
                !(old(self).enclave.import_dispatcher is EmptyDispatcher) ==> (until_synced_header
                    == last_synced_header || until_synced_header.number
                    == self.enclave.validator.latest_finalized_header.number),
            decreases
                    (if until_synced_header.number < head_number {
                        head_number - until_synced_header.number
                    } else {
                        0int
                    }),
        {
            let batch_end = min_u64(
                until_synced_header.number.saturating_add(BLOCK_SYNC_BATCH_SIZE),
                head_number,
            );
            let ghost batch_pre = self.enclave;
            let outcome = self.sync_blocks(until_synced_header.number + 1, batch_end);
            proof {
                if old(self).enclave.import_dispatcher is TriggeredDispatcher {
                    lemma_queue_extension_compose(old(self).enclave, batch_pre, self.enclave);
                }
                if old(self).enclave.import_dispatcher is ImmediateDispatcher {
                    lemma_applied_trace_compose(old(self).enclave, batch_pre, self.enclave);
                }
            }
            let next = match outcome {
                Ok(h) => h,
                Err(e) => {
                    return Err(e);
                },
            };
            until_synced_header = next;
        }
        Ok(until_synced_header)
    }

    /// Triggers the import of the verified blocks queued inside the enclave.
    pub fn trigger_parentchain_block_import(&mut self) -> (r: Result<(), TriggerError>)
        requires
            old(self).enclave.wf(),
        ensures
            final(self).enclave.wf(),
            Self::engine_statics_unchanged(*old(self), *final(self)),
            final(self).enclave.validator == old(self).enclave.validator,
            !(old(self).enclave.import_dispatcher is TriggeredDispatcher) ==> r == Err::<
                (),
                TriggerError,
            >(TriggerError::ExpectedTriggeredImportDispatcher) && *final(self) == *old(self),
            old(self).enclave.import_dispatcher is TriggeredDispatcher ==> exists|k: int|
                spec_drained(old(self).enclave, final(self).enclave, r, k),
    {
        self.enclave.trigger_import()
    }

    /// Syncs and imports from `last_synced_header` until `until_header`,
    /// triggering the import queue after every batch so that a long backlog
    /// never accumulates in memory.
    ///
    /// Returns the header reached; that is short of `until_header` when the
    /// source reported no further finalized blocks.
    pub fn sync_and_import_parentchain_until(
        &mut self,
        last_synced_header: &Header,
        until_header: &Header,
    ) -> (r: Result<Header, ServiceError>)
        requires
            old(self).enclave.wf(),
        ensures
            final(self).enclave.wf(),
            Self::engine_statics_unchanged(*old(self), *final(self)),
            r matches Ok(h) ==> h.number >= last_synced_header.number,
            last_synced_header.number >= until_header.number ==> (*final(self) == *old(self) && (
            r matches Ok(h) && header_eq(h, *last_synced_header) && h.number
                == last_synced_header.number)),
            old(self).enclave.import_dispatcher is TriggeredDispatcher ==> ((r matches Ok(h)
                && h.number > last_synced_header.number)
                ==> final(self).enclave.queue_view().len() == 0),
    {
        let mut last = dup_header(last_synced_header);
        while last.number < until_header.number
            invariant
                self.enclave.wf(),
                self.parentchain_api == old(self).parentchain_api,
                self.parentchain_init_params == old(self).parentchain_init_params,
                ChainHandler::<E>::statics_unchanged(old(self).enclave, self.enclave),
                last.number >= last_synced_header.number,
                last_synced_header.number >= until_header.number ==> (*self == *old(self)
                    && header_eq(last, *last_synced_header) && last.number
                    == last_synced_header.number),
                (old(self).enclave.import_dispatcher is TriggeredDispatcher && last.number
                    > last_synced_header.number) ==> self.enclave.queue_view().len() == 0,
            decreases
                    (if last.number < until_header.number {
                        until_header.number - last.number
                    } else {
                        0int
                    }),
        {
            let prev_number = last.number;
            let next = match self.sync_parentchain(last) {
                Ok(h) => h,
                Err(e) => {
                    return Err(ServiceError::Sync(e));
                },
            };
            if next.number <= prev_number {
                return Ok(next);
            }
            let ghost pre_enclave = self.enclave;
            let trigger_result = self.trigger_parentchain_block_import();
            match trigger_result {
                Ok(()) => {},
                Err(e) => {
                    return Err(ServiceError::Trigger(e));
                },
            }
            proof {
                if old(self).enclave.import_dispatcher is TriggeredDispatcher {
                    let k = choose|k: int|
                        spec_drained(pre_enclave, self.enclave, trigger_result, k);
                    assert(self.enclave.queue_view() =~= Seq::<
                        crate::stf_executor::VerifiedBlock,
                    >::empty());
                }
            }
            last = next;
        }
        Ok(last)
    }
}

/// The smaller of two numbers.
fn min_u64(a: u64, b: u64) -> (r: u64)
    ensures
        r == if a < b {
            a
        } else {
            b
        },
{
    if a < b {
        a
    } else {
        b
    }
}

/// An in-memory parentchain: the chain data the worker was handed, served
/// through the data-source interface. Used where the blocks are already at
/// hand, and as the test double of a remote node.
pub struct ChainData {
    /// The finalized blocks in order, the genesis block first.
    pub blocks: Vec<SignedBlock>,
    pub genesis_authorities: Vec<u64>,
    pub genesis_authorities_proof: Vec<u8>,
    pub grandpa: bool,
}

/// The first stored block whose header hashes to `hash`.
pub open spec fn find_header(blocks: Seq<SignedBlock>, hash: H256) -> Option<Header>
    decreases blocks.len(),
{
    if blocks.len() == 0 {
        None
    } else if header_hash(blocks[0].header) == hash {
        Some(blocks[0].header)
    } else {
        find_header(blocks.drop_first(), hash)
    }
}

/// At the first block hashing to `hash`, the search finds that header.
proof fn lemma_find_header_at(blocks: Seq<SignedBlock>, hash: H256, idx: int)
    requires
        0 <= idx < blocks.len(),
        header_hash(blocks[idx].header) == hash,
        forall|j: int| 0 <= j < idx ==> header_hash((#[trigger] blocks[j]).header) != hash,
    ensures
        find_header(blocks, hash) == Some(blocks[idx].header),
    decreases idx,
{
    if idx > 0 {
        lemma_find_header_at(blocks.drop_first(), hash, idx - 1);
    }
}

/// With no block hashing to `hash`, the search finds nothing.
proof fn lemma_find_header_none(blocks: Seq<SignedBlock>, hash: H256)
    requires
        forall|j: int|
            0 <= j < blocks.len() ==> header_hash((#[trigger] blocks[j]).header) != hash,
    ensures
        find_header(blocks, hash) is None,
    decreases blocks.len(),
{
    if blocks.len() > 0 {
        lemma_find_header_none(blocks.drop_first(), hash);
    }
}

impl ParentchainDataSource for ChainData {
    open spec fn head_number(&self) -> Option<u64> {
        if self.blocks@.len() == 0 {
            None
        } else {
            Some(self.blocks@.last().header.number)
        }
    }

    open spec fn spec_genesis_hash(&self) -> Option<H256> {
        if self.blocks@.len() == 0 {
            None
        } else {
            Some(header_hash(self.blocks@[0].header))
        }
    }

    open spec fn spec_header_of(&self, hash: H256) -> Option<Header> {
        find_header(self.blocks@, hash)
    }

    open spec fn spec_grandpa_available(&self) -> bool {
        self.grandpa
    }

    open spec fn spec_genesis_authorities(&self) -> Seq<u64> {
        self.genesis_authorities@
    }

    open spec fn spec_genesis_authorities_proof(&self) -> Seq<u8> {
        self.genesis_authorities_proof@
    }

    fn last_finalized_number(&self) -> (r: Result<Option<u64>, SyncError>) {
        if self.blocks.len() == 0 {
            Ok(None)
        } else {
            Ok(Some(self.blocks[self.blocks.len() - 1].header.number))
        }
    }

    fn get_blocks(&self, from: u64, to: u64) -> (r: Result<Vec<SignedBlock>, SyncError>) {
        let mut out: Vec<SignedBlock> = Vec::new();
        let mut i: usize = 0;
        while i < self.blocks.len()
            invariant
                i <= self.blocks@.len(),
            decreases self.blocks@.len() - i,
        {
            let number = self.blocks[i].header.number;
            if from <= number && number <= to {
                out.push(dup_signed_block(&self.blocks[i]));
            }
            i = i + 1;
        }
        Ok(out)
    }

    fn get_genesis_hash(&self) -> (r: Result<H256, SyncError>) {
        if self.blocks.len() == 0 {
            Err(SyncError::Transport)
        } else {
            Ok(hash_of_header(&self.blocks[0].header))
        }
    }

    fn header(&self, hash: H256) -> (r: Result<Option<Header>, SyncError>) {
        let mut i: usize = 0;
        while i < self.blocks.len()
            invariant
                i <= self.blocks@.len(),
                forall|j: int|
                    0 <= j < i ==> header_hash((#[trigger] self.blocks@[j]).header) != hash,
            decreases self.blocks@.len() - i,
        {
            if hash_of_header(&self.blocks[i].header) == hash {
                proof {
                    lemma_find_header_at(self.blocks@, hash, i as int);
                }
                return Ok(Some(dup_header(&self.blocks[i].header)));
            }
            i = i + 1;
        }
        proof {
            lemma_find_header_none(self.blocks@, hash);
        }
        Ok(None)
    }

    fn is_grandpa_available(&self) -> (r: Result<bool, SyncError>) {
        Ok(self.grandpa)
    }

    fn grandpa_authorities(&self) -> (r: Result<Vec<u64>, SyncError>) {
        Ok(dup_u64s(&self.genesis_authorities))
    }

    fn grandpa_authorities_proof(&self) -> (r: Result<Vec<u8>, SyncError>) {
        Ok(dup_bytes(&self.genesis_authorities_proof))
    }

    fn get_events_for_block(&self, hash: H256) -> (r: Result<Vec<u8>, SyncError>) {
        let _ = hash;
        Ok(Vec::new())
    }

    fn get_events_value_proof(&self, hash: H256) -> (r: Result<Vec<u8>, SyncError>) {
        let _ = hash;
        Ok(Vec::new())
    }
}

/// Copies a fetched block, content-wise.
pub fn dup_signed_block(b: &SignedBlock) -> (r: SignedBlock)
    ensures
        header_eq(r.header, b.header),
        r.header.number == b.header.number,
        r.proof.set_id == b.proof.set_id,
        r.proof.signers@ == b.proof.signers@,
{
    SignedBlock { header: dup_header(&b.header), proof: dup_proof(&b.proof) }
}

} // verus!
