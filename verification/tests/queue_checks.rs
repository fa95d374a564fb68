use tee_worker::errors::QueueError;
use tee_worker::hashing::H256;
use tee_worker::import_queue::{
    hash_of_sidechain_header, BlockImportQueue, BlockQueueBuilder, BlockQueueHeaderBuild,
    BlockQueueHeaderBuilder, SidechainBlock, SidechainHeader,
};

fn zero_hash() -> H256 {
    H256 { w0: 0, w1: 0, w2: 0, w3: 0 }
}

fn data_hash(tag: u64) -> H256 {
    H256 { w0: tag, w1: 0, w2: 0, w3: 0 }
}

fn header(block_number: u64, parent_hash: H256, data_tag: u64) -> SidechainHeader {
    SidechainHeader { block_number, parent_hash, block_data_hash: data_hash(data_tag) }
}

#[test]
fn process_sequential_queue_no_forks() {
    let mut builder = BlockQueueBuilder::new();
    let mut queue = builder.build_queue();
    for i in 1..5u64 {
        let parent_header = queue.last().unwrap().header;
        let header = <BlockQueueHeaderBuilder as BlockQueueHeaderBuild<u64, H256>>::build_queue_header(
            i,
            hash_of_sidechain_header(&parent_header),
        );
        queue.push(SidechainBlock { header });
    }

    // H1 - H2 - H3 - H4 - H5: everything chains, so one drain takes all.
    let genesis = queue[0];
    let mut import_queue = BlockImportQueue::new(genesis.header.parent_hash);
    for block in &queue {
        assert!(import_queue.enqueue(*block).is_ok());
    }
    let drained = import_queue.drain_ready();
    assert_eq!(drained.len(), 5);
    for (i, block) in drained.iter().enumerate() {
        assert_eq!(block.header.block_number, i as u64);
    }
    assert_eq!(import_queue.queue.len(), 0);
    println!("Process Sequential Queue With No Forks");
}

#[test]
fn process_sequential_queue_with_forks() {
    //   - H2..
    //  /
    // H1..   - H4..
    //  \   /
    //   - H3..
    //      \
    //       - H5..
    let h1 = header(1, zero_hash(), 1);
    let h2 = header(2, hash_of_sidechain_header(&h1), 2);
    let h3 = header(2, hash_of_sidechain_header(&h1), 3);
    let h4 = header(3, hash_of_sidechain_header(&h3), 4);
    let h5 = header(3, hash_of_sidechain_header(&h3), 5);

    let mut import_queue = BlockImportQueue::new(zero_hash());
    for header in [h1, h2, h3, h4, h5] {
        assert!(import_queue.enqueue(SidechainBlock { header }).is_ok());
    }

    // Draining follows one branch: H1, then its first-arrived child H2.
    let drained = import_queue.drain_ready();
    assert_eq!(drained.len(), 2);
    assert_eq!(drained[0].header, h1);
    assert_eq!(drained[1].header, h2);
    // The other fork stays queued, still connected to imported blocks.
    assert_eq!(import_queue.queue.len(), 3);
    println!("Process Sequential Queue with Forks");
}

#[test]
fn enqueue_rejects_disconnected_block() {
    let mut import_queue = BlockImportQueue::new(zero_hash());
    let orphan = SidechainBlock { header: header(7, H256 { w0: 77, w1: 0, w2: 0, w3: 0 }, 0) };
    assert_eq!(import_queue.enqueue(orphan), Err(QueueError::DisconnectedBlock));
    assert_eq!(import_queue.queue.len(), 0);
}

#[test]
fn drain_on_empty_queue_returns_nothing() {
    let mut import_queue = BlockImportQueue::new(zero_hash());
    let drained = import_queue.drain_ready();
    assert_eq!(drained.len(), 0);
    assert_eq!(import_queue.head_hash(), zero_hash());
}

#[test]
fn drained_fork_resumes_after_head_advances() {
    let h1 = header(1, zero_hash(), 0);
    let h2 = header(2, hash_of_sidechain_header(&h1), 0);
    let h3 = header(3, hash_of_sidechain_header(&h2), 0);

    let mut import_queue = BlockImportQueue::new(zero_hash());
    // H3 cannot be stored before anything links it back to a known block.
    assert_eq!(
        import_queue.enqueue(SidechainBlock { header: h3 }),
        Err(QueueError::DisconnectedBlock)
    );
    assert!(import_queue.enqueue(SidechainBlock { header: h1 }).is_ok());
    assert!(import_queue.enqueue(SidechainBlock { header: h2 }).is_ok());
    assert!(import_queue.enqueue(SidechainBlock { header: h3 }).is_ok());
    let drained = import_queue.drain_ready();
    assert_eq!(drained.len(), 3);
    assert_eq!(drained[2].header, h3);
    assert_eq!(import_queue.head_hash(), hash_of_sidechain_header(&h3));
}

#[test]
fn builder_seeds_genesis_first() {
    let mut builder = BlockQueueBuilder::new();
    let queue = builder.build_queue();
    assert_eq!(queue.len(), 1);
    assert_eq!(queue[0].header.block_number, 0);
    assert_eq!(queue[0].header.parent_hash, zero_hash());
}
