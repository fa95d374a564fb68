//! Error taxonomy of the worker.
//!
//! Configuration errors are fatal and never retried; validation errors are
//! surfaced to the sync loop, which decides the retry policy; transport and
//! decode errors are retried at the granularity of a whole `sync` call; pool
//! errors are reported per operation to the submitter.

use vstd::prelude::*;

verus! {

/// Rejection reasons of the light client for a candidate finalized header.
#[derive(Clone, Copy, Debug, PartialEq, Eq, Structural)]
pub enum ValidationError {
    /// The candidate does not connect to the trusted state; the caller must
    /// fetch the missing ancestors and retry.
    UnknownAncestor,
    /// The finality proof does not carry a quorum of the current authority set.
    InsufficientSignatures,
    /// The finality proof claims an authority-set generation that is not the
    /// current one.
    StaleSetId,
    /// The genesis header handed to `initialize` does not have number zero.
    InvalidGenesis,
}

/// Failure of the external state-transition executor.
#[derive(Clone, Copy, Debug, PartialEq, Eq, Structural)]
pub enum ExecutorError {
    /// The executor rejected or could not apply the block.
    ExecutionFailed,
}

/// Failure of a block import through the dispatcher.
#[derive(Clone, Copy, Debug, PartialEq, Eq, Structural)]
pub enum ImportError {
    /// The light client rejected the candidate header.
    Validation(ValidationError),
    /// The header was accepted, but the executor failed; the block is not
    /// marked imported.
    Executor(ExecutorError),
}

/// Failure of a `sync` invocation.
#[derive(Clone, Copy, Debug, PartialEq, Eq, Structural)]
pub enum SyncError {
    /// The data source failed to deliver; safe to retry the whole call.
    Transport,
    /// The data source delivered bytes that could not be decoded.
    Decode,
    /// The last synced header is ahead of the reported finalized head: stale
    /// or duplicated state. Fatal, never retried.
    InconsistentConfiguration,
    /// The data source reported no finalized head at all.
    MissingLastFinalizedBlock,
    /// The data source reported no genesis header.
    MissingGenesisHeader,
    /// The data source returned an empty block batch for a non-empty range.
    EmptyChunk,
    /// A fetched block was rejected by the light client.
    Validation(ValidationError),
    /// A verified block could not be applied by the executor.
    Executor(ExecutorError),
}

/// Failure of a trigger of queued imports.
#[derive(Clone, Copy, Debug, PartialEq, Eq, Structural)]
pub enum TriggerError {
    /// The chain's dispatcher is not the triggered variant.
    ExpectedTriggeredImportDispatcher,
    /// A queued block could not be applied; it stays queued.
    Executor(ExecutorError),
}

/// Failure of constructing a chain handler.
#[derive(Clone, Copy, Debug, PartialEq, Eq, Structural)]
pub enum InitError {
    /// The genesis header is invalid for the light client.
    Validation(ValidationError),
    /// The requested worker mode is not supported for this chain.
    UnsupportedWorkerMode,
}

/// Failure anywhere in the service-side driving of a parentchain: fetching,
/// syncing, handler construction or triggering.
#[derive(Clone, Copy, Debug, PartialEq, Eq, Structural)]
pub enum ServiceError {
    Sync(SyncError),
    Init(InitError),
    Trigger(TriggerError),
}

/// Failure of a component-registry lookup.
#[derive(Clone, Copy, Debug, PartialEq, Eq, Structural)]
pub enum ComponentError {
    /// No handler was configured for the primary chain role.
    NoIntegriteeParentchainAssigned,
    /// No handler was configured for the first auxiliary chain role.
    NoTargetAParentchainAssigned,
    /// No handler was configured for the second auxiliary chain role.
    NoTargetBParentchainAssigned,
    /// The configured dispatcher is not the triggered variant.
    ExpectedTriggeredImportDispatcher,
}

/// Rejection reasons of the trusted-operation pool.
#[derive(Clone, Copy, Debug, PartialEq, Eq, Structural)]
pub enum PoolError {
    /// The submitted operation failed the well-formedness rules; it was not
    /// stored.
    InvalidOperation,
}

/// Rejection of a sidechain block by the import queue.
#[derive(Clone, Copy, Debug, PartialEq, Eq, Structural)]
pub enum QueueError {
    /// The block's parent is neither the imported head nor a block already in
    /// the queue; the caller must fetch the missing ancestor first.
    DisconnectedBlock,
}

} // verus!
