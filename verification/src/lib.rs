//! Parentchain-to-enclave synchronization and import pipeline, together with
//! the trusted-operation mempool of a confidential sidechain worker.
//!
//! The worker follows one or more "parentchains" (public ledgers) through a
//! light client, gates when verified blocks are applied to confidential state
//! through a block-import dispatcher, paces ingestion through a batched sync
//! engine, and orders user-submitted confidential operations in a per-shard
//! mempool before they reach the state-transition executor.

pub mod dispatcher;
pub mod errors;
pub mod handler;
pub mod hashing;
pub mod import_queue;
pub mod light_client;
pub mod mortality;
pub mod primitives;
pub mod registry;
pub mod stf_executor;
pub mod sync;
pub mod top_pool;
