use tee_worker::errors::PoolError;
use tee_worker::hashing::H256;
use tee_worker::top_pool::{
    default_pool_status, GetterMock, PoolTransactionValidation, TrustedOperation,
    TrustedOperationPool, TrustedOperationSource, ValidTransaction,
};

fn shard(tag: u64) -> H256 {
    H256 { w0: tag, w1: 0, w2: 0, w3: 0 }
}

fn operation(call: Vec<u8>, nonce: u64, shard: H256) -> TrustedOperation {
    TrustedOperation { call, signature: vec![9], nonce, shard }
}

#[test]
fn pool_scenario_submit_ready_remove_status() {
    let mut pool = TrustedOperationPool::new();
    let s = shard(1);
    let op1 = operation(vec![1, 2, 3], 0, s);

    let h1 = pool.submit(s, TrustedOperationSource::External, op1).unwrap();
    let ready = pool.ready(s);
    assert_eq!(ready.len(), 1);
    assert_eq!(ready[0].call, vec![1, 2, 3]);

    let removed = pool.remove_invalid(&vec![h1], s);
    assert_eq!(removed.len(), 1);
    assert_eq!(removed[0].call, vec![1, 2, 3]);
    assert_eq!(pool.ready(s).len(), 0);

    let status = pool.status(s);
    assert_eq!(status.ready, 0);
    assert_eq!(status.ready_bytes, 0);
    assert_eq!(status.future, 0);
    assert_eq!(status.future_bytes, 0);
}

#[test]
fn duplicate_submission_is_idempotent() {
    let mut pool = TrustedOperationPool::new();
    let s = shard(2);
    let op = operation(vec![5, 6], 3, s);

    let h1 = pool.submit(s, TrustedOperationSource::External, op.dup()).unwrap();
    let h2 = pool.submit(s, TrustedOperationSource::External, op).unwrap();
    assert_eq!(h1, h2);
    assert_eq!(pool.status(s).ready, 1);
}

#[test]
fn shard_isolation() {
    let mut pool = TrustedOperationPool::new();
    let a = shard(10);
    let b = shard(11);
    pool.submit(a, TrustedOperationSource::External, operation(vec![1], 0, a)).unwrap();
    pool.submit(a, TrustedOperationSource::External, operation(vec![2], 1, a)).unwrap();
    pool.submit(b, TrustedOperationSource::Local, operation(vec![3], 0, b)).unwrap();

    assert_eq!(pool.ready(b).len(), 1);
    assert_eq!(pool.ready(b)[0].call, vec![3]);
    assert_eq!(pool.ready(a).len(), 2);
    let shards = pool.shards();
    assert_eq!(shards, vec![a, b]);
}

#[test]
fn malformed_operations_are_rejected_and_never_stored() {
    let mut pool = TrustedOperationPool::new();
    let s = shard(3);
    let unsigned = TrustedOperation { call: vec![1], signature: vec![], nonce: 0, shard: s };
    assert_eq!(
        pool.submit(s, TrustedOperationSource::External, unsigned),
        Err(PoolError::InvalidOperation)
    );
    // An operation destined for another shard is rejected as well.
    let misrouted = operation(vec![1], 0, shard(4));
    assert_eq!(
        pool.submit(s, TrustedOperationSource::External, misrouted),
        Err(PoolError::InvalidOperation)
    );
    assert_eq!(pool.status(s).ready, 0);
}

#[test]
fn submit_many_reports_independent_outcomes() {
    let mut pool = TrustedOperationPool::new();
    let s = shard(5);
    let good1 = operation(vec![1], 0, s);
    let bad = TrustedOperation { call: vec![], signature: vec![], nonce: 1, shard: s };
    let good2 = operation(vec![2], 2, s);

    let results = pool.submit_many(s, TrustedOperationSource::External, vec![good1, bad, good2]);
    assert_eq!(results.len(), 3);
    assert!(results[0].is_ok());
    assert_eq!(results[1], Err(PoolError::InvalidOperation));
    assert!(results[2].is_ok());
    assert_eq!(pool.status(s).ready, 2);
}

#[test]
fn status_counts_held_bytes_exactly() {
    let mut pool = TrustedOperationPool::new();
    let s = shard(6);
    // Encoding: 8 (call length) + 3 (call) + 8 (signature length) + 1
    // (signature) + 8 (nonce) + 32 (shard) = 60 bytes.
    pool.submit(s, TrustedOperationSource::External, operation(vec![1, 2, 3], 0, s)).unwrap();
    let status = pool.status(s);
    assert_eq!(status.ready, 1);
    assert_eq!(status.ready_bytes, 60);
}

#[test]
fn unknown_shard_reads_as_empty() {
    let pool = TrustedOperationPool::new();
    let s = shard(7);
    assert_eq!(pool.ready(s).len(), 0);
    assert_eq!(pool.status(s), default_pool_status());
}

#[test]
fn remove_invalid_leaves_unlisted_entries() {
    let mut pool = TrustedOperationPool::new();
    let s = shard(8);
    let keep = operation(vec![1], 0, s);
    let drop1 = operation(vec![2], 1, s);
    let keep_hash = pool.hash_of(&keep);
    pool.submit(s, TrustedOperationSource::External, keep).unwrap();
    let h2 = pool.submit(s, TrustedOperationSource::External, drop1).unwrap();

    let removed = pool.remove_invalid(&vec![h2], s);
    assert_eq!(removed.len(), 1);
    assert_eq!(removed[0].call, vec![2]);
    let ready = pool.ready(s);
    assert_eq!(ready.len(), 1);
    assert_eq!(pool.hash_of(&ready[0]), keep_hash);
}

#[test]
fn expired_entries_are_swept_and_live_ones_stay() {
    let mut pool = TrustedOperationPool::new();
    let s = shard(12);
    let verdict_short = ValidTransaction {
        priority: 7,
        requires_tags: vec![],
        provides_tags: vec![],
        longevity: 5,
        propagate: true,
    };
    let verdict_long = ValidTransaction {
        priority: 1,
        requires_tags: vec![],
        provides_tags: vec![],
        longevity: 100,
        propagate: true,
    };
    // Submitted at block 10: valid till 15 and 110 respectively.
    pool.submit_validated(s, TrustedOperationSource::External, operation(vec![1], 0, s), &verdict_short, 10)
        .unwrap();
    pool.submit_validated(s, TrustedOperationSource::External, operation(vec![2], 1, s), &verdict_long, 10)
        .unwrap();

    // At block 12 nothing has expired.
    assert_eq!(pool.remove_expired(s, 12).len(), 0);
    assert_eq!(pool.status(s).ready, 2);

    // At block 50 the short-lived entry goes.
    let swept = pool.remove_expired(s, 50);
    assert_eq!(swept.len(), 1);
    assert_eq!(swept[0].call, vec![1]);
    let ready = pool.ready(s);
    assert_eq!(ready.len(), 1);
    assert_eq!(ready[0].call, vec![2]);
}

#[test]
fn getters_are_never_admitted() {
    assert!(GetterMock::public.validate().is_err());
    assert!(GetterMock::trusted.validate().is_err());
}
