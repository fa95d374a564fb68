use tee_worker::dispatcher::BlockImportDispatcher;
use tee_worker::errors::{
    ComponentError, ImportError, InitError, ServiceError, SyncError, TriggerError, ValidationError,
};
use tee_worker::handler::ChainHandler;
use tee_worker::hashing::H256;
use tee_worker::primitives::{
    hash_of_header, FinalityProof, Header, ParentchainBlock, ParentchainId, ParentchainInitParams,
    SignedBlock, WorkerMode,
};
use tee_worker::registry::{
    get_extrinsic_factory_from_integritee_solo_or_parachain,
    get_node_metadata_repository_from_target_a_solo_or_parachain,
    get_stf_enclave_signer_from_solo_or_parachain, get_stf_executor_from_integritee_solo_or_parachain,
    get_stf_executor_from_target_b_solo_or_parachain,
    get_triggered_dispatcher_from_integritee_solo_or_parachain,
    get_triggered_dispatcher_from_target_a_solo_or_parachain,
    get_validator_accessor_from_integritee_solo_or_parachain,
    get_validator_accessor_from_target_b_solo_or_parachain, ComponentRegistry,
};
use tee_worker::stf_executor::{StfEnclaveSigner, StfExecutor};
use tee_worker::sync::{ParentchainDataSource, ParentchainHandler, ChainData};

fn zero_hash() -> H256 {
    H256 { w0: 0, w1: 0, w2: 0, w3: 0 }
}

fn genesis_header() -> Header {
    Header { number: 0, parent_hash: zero_hash(), change: None }
}

fn signer() -> StfEnclaveSigner {
    StfEnclaveSigner { account: 42 }
}

/// A chain of `n + 1` finalized blocks, genesis first, each signed by a
/// 2-of-3 quorum.
fn chain_with(n: u64) -> ChainData {
    let mut blocks = vec![SignedBlock {
        header: genesis_header(),
        proof: FinalityProof { set_id: 0, signers: vec![] },
    }];
    for i in 1..=n {
        let parent = &blocks[(i - 1) as usize].header;
        blocks.push(SignedBlock {
            header: Header { number: i, parent_hash: hash_of_header(parent), change: None },
            proof: FinalityProof { set_id: 0, signers: vec![1, 2] },
        });
    }
    ChainData {
        blocks,
        genesis_authorities: vec![1, 2, 3],
        genesis_authorities_proof: vec![],
        grandpa: true,
    }
}

fn block_at(source: &ChainData, number: u64) -> ParentchainBlock {
    let signed = &source.blocks[number as usize];
    ParentchainBlock {
        header: Header {
            number: signed.header.number,
            parent_hash: signed.header.parent_hash,
            change: None,
        },
        proof: FinalityProof {
            set_id: signed.proof.set_id,
            signers: signed.proof.signers.clone(),
        },
        events: vec![],
        events_proof: vec![],
    }
}

fn grandpa_params() -> ParentchainInitParams {
    ParentchainInitParams::Grandpa {
        id: ParentchainId::Integritee,
        genesis_header: genesis_header(),
        authorities: vec![1, 2, 3],
        authorities_proof: vec![],
    }
}

#[test]
fn sync_walks_to_the_reported_head() {
    let source = chain_with(3);
    let mut handler = ParentchainHandler::new_with_automatic_light_client_allocation(
        source,
        ParentchainId::Integritee,
        WorkerMode::OffChainWorker,
        StfExecutor::new(),
        signer(),
    )
    .unwrap();
    let start = handler.init_parentchain_components();
    assert_eq!(start.number, 0);
    let reached = handler.sync_parentchain(start).unwrap();
    assert_eq!(reached.number, 3);
    assert_eq!(handler.enclave.stf_executor.applied_count(), 3);
    assert_eq!(handler.enclave.validator.latest_finalized_header.number, 3);
    // Forwarded exactly once each, in strictly increasing number order.
    for i in 0..3usize {
        assert_eq!(handler.enclave.stf_executor.applied_at(i).number, (i + 1) as u64);
    }
}

#[test]
fn the_head_decision_is_fixed_for_every_head_value() {
    let source = chain_with(2);
    let mut handler = ParentchainHandler::new_with_automatic_light_client_allocation(
        source,
        ParentchainId::Integritee,
        WorkerMode::OffChainWorker,
        StfExecutor::new(),
        signer(),
    )
    .unwrap();

    // No head at all: the definite missing-head error, nothing done.
    let start = handler.init_parentchain_components();
    let r = handler.sync_from_head(start, None);
    assert!(matches!(r, Err(SyncError::MissingLastFinalizedBlock)));
    assert_eq!(handler.enclave.stf_executor.applied_count(), 0);

    // A head at the last synced header: a successful no-op.
    let start = handler.init_parentchain_components();
    let reached = handler.sync_from_head(start, Some(0)).unwrap();
    assert_eq!(reached.number, 0);
    assert_eq!(handler.enclave.stf_executor.applied_count(), 0);

    // A head behind the last synced header: the fatal misconfiguration.
    let stale = Header { number: 5, parent_hash: zero_hash(), change: None };
    let r = handler.sync_from_head(stale, Some(2));
    assert!(matches!(r, Err(SyncError::InconsistentConfiguration)));

    // A head beyond: synced to, in order.
    let start = handler.init_parentchain_components();
    let reached = handler.sync_from_head(start, Some(2)).unwrap();
    assert_eq!(reached.number, 2);
    assert_eq!(handler.enclave.stf_executor.applied_count(), 2);
}

#[test]
fn sync_twice_is_idempotent() {
    let source = chain_with(2);
    let mut handler = ParentchainHandler::new_with_automatic_light_client_allocation(
        source,
        ParentchainId::Integritee,
        WorkerMode::OffChainWorker,
        StfExecutor::new(),
        signer(),
    )
    .unwrap();
    let start = handler.init_parentchain_components();
    let reached = handler.sync_parentchain(start).unwrap();
    assert_eq!(reached.number, 2);
    assert_eq!(handler.enclave.stf_executor.applied_count(), 2);

    // No new blocks finalized: the second call returns the same header and
    // performs zero executor calls.
    let reached_again = handler.sync_parentchain(reached).unwrap();
    assert_eq!(reached_again.number, 2);
    assert_eq!(handler.enclave.stf_executor.applied_count(), 2);
}

#[test]
fn a_last_synced_header_ahead_of_the_head_is_fatal() {
    let source = chain_with(1);
    let mut handler = ParentchainHandler::new_with_automatic_light_client_allocation(
        source,
        ParentchainId::Integritee,
        WorkerMode::OffChainWorker,
        StfExecutor::new(),
        signer(),
    )
    .unwrap();
    let stale = Header { number: 9, parent_hash: zero_hash(), change: None };
    let r = handler.sync_parentchain(stale);
    assert!(matches!(r, Err(SyncError::InconsistentConfiguration)));
}

#[test]
fn triggered_mode_decouples_verification_from_execution() {
    let source = chain_with(3);
    let mut enclave = ChainHandler::init(
        grandpa_params(),
        WorkerMode::Sidechain,
        StfExecutor::new(),
        signer(),
    )
    .unwrap();

    for i in 1..=3u64 {
        assert_eq!(enclave.import_block(block_at(&source, i)), Ok(()));
    }
    // Verified but not applied: the executor has seen nothing.
    assert_eq!(enclave.stf_executor.applied_count(), 0);
    match &enclave.import_dispatcher {
        BlockImportDispatcher::TriggeredDispatcher(t) => assert_eq!(t.import_queue.len(), 3),
        _ => panic!("expected the triggered dispatcher"),
    }

    // One trigger applies all three, in block order.
    assert_eq!(enclave.trigger_import(), Ok(()));
    assert_eq!(enclave.stf_executor.applied_count(), 3);
    for i in 0..3usize {
        assert_eq!(enclave.stf_executor.applied_at(i).number, (i + 1) as u64);
    }
    match &enclave.import_dispatcher {
        BlockImportDispatcher::TriggeredDispatcher(t) => assert_eq!(t.import_queue.len(), 0),
        _ => panic!("expected the triggered dispatcher"),
    }
}

#[test]
fn trigger_on_an_immediate_dispatcher_is_refused() {
    let mut enclave = ChainHandler::init(
        grandpa_params(),
        WorkerMode::OffChainWorker,
        StfExecutor::new(),
        signer(),
    )
    .unwrap();
    assert_eq!(
        enclave.trigger_import(),
        Err(TriggerError::ExpectedTriggeredImportDispatcher)
    );
}

#[test]
fn import_rejects_what_the_light_client_rejects() {
    let source = chain_with(2);
    let mut enclave = ChainHandler::init(
        grandpa_params(),
        WorkerMode::OffChainWorker,
        StfExecutor::new(),
        signer(),
    )
    .unwrap();
    // Block #2 does not chain from genesis.
    let r = enclave.import_block(block_at(&source, 2));
    assert_eq!(r, Err(ImportError::Validation(ValidationError::UnknownAncestor)));
    assert_eq!(enclave.stf_executor.applied_count(), 0);
}

#[test]
fn sync_until_triggers_after_every_batch() {
    let source = chain_with(4);
    let until = block_at(&source, 4).header;
    let mut handler = ParentchainHandler::new_with_automatic_light_client_allocation(
        source,
        ParentchainId::Integritee,
        WorkerMode::Sidechain,
        StfExecutor::new(),
        signer(),
    )
    .unwrap();
    let start = handler.init_parentchain_components();
    let reached = handler.sync_and_import_parentchain_until(&start, &until).unwrap();
    assert_eq!(reached.number, 4);
    assert_eq!(handler.enclave.stf_executor.applied_count(), 4);
    match &handler.enclave.import_dispatcher {
        BlockImportDispatcher::TriggeredDispatcher(t) => assert_eq!(t.import_queue.len(), 0),
        _ => panic!("expected the triggered dispatcher"),
    }
}

#[test]
fn sync_until_an_already_reached_header_is_a_no_op() {
    let source = chain_with(2);
    let mut handler = ParentchainHandler::new_with_automatic_light_client_allocation(
        source,
        ParentchainId::Integritee,
        WorkerMode::Sidechain,
        StfExecutor::new(),
        signer(),
    )
    .unwrap();
    let start = handler.init_parentchain_components();
    let until = Header { number: 0, parent_hash: zero_hash(), change: None };
    let reached = handler.sync_and_import_parentchain_until(&start, &until).unwrap();
    assert_eq!(reached.number, 0);
    assert_eq!(handler.enclave.stf_executor.applied_count(), 0);
}

#[test]
fn teeracle_mode_imports_nothing() {
    let source = chain_with(1);
    let mut enclave = ChainHandler::init(
        grandpa_params(),
        WorkerMode::Teeracle,
        StfExecutor::new(),
        signer(),
    )
    .unwrap();
    assert_eq!(enclave.import_block(block_at(&source, 1)), Ok(()));
    assert_eq!(enclave.stf_executor.applied_count(), 0);
    assert_eq!(enclave.validator.latest_finalized_header.number, 0);
}

#[test]
fn sidechain_mode_is_refused_for_auxiliary_chains() {
    let r = ChainHandler::init(
        ParentchainInitParams::Simple {
            id: ParentchainId::TargetB,
            genesis_header: genesis_header(),
        },
        WorkerMode::Sidechain,
        StfExecutor::new(),
        signer(),
    );
    assert!(matches!(r.err(), Some(InitError::UnsupportedWorkerMode)));
}

#[test]
fn a_source_without_a_head_cannot_be_synced() {
    let empty = ChainData {
        blocks: vec![],
        genesis_authorities: vec![],
        genesis_authorities_proof: vec![],
        grandpa: false,
    };
    let enclave = ChainHandler::init(
        ParentchainInitParams::Simple {
            id: ParentchainId::Integritee,
            genesis_header: genesis_header(),
        },
        WorkerMode::OffChainWorker,
        StfExecutor::new(),
        signer(),
    )
    .unwrap();
    let mut handler = ParentchainHandler::new(
        empty,
        enclave,
        ParentchainInitParams::Simple {
            id: ParentchainId::Integritee,
            genesis_header: genesis_header(),
        },
    );
    let r = handler.sync_parentchain(genesis_header());
    assert!(matches!(r, Err(SyncError::MissingLastFinalizedBlock)));
}

#[test]
fn a_gap_in_the_served_blocks_stops_the_sync() {
    // The source claims head #3 but cannot serve blocks #1 and #2: what it
    // serves does not connect, and the caller must fetch the ancestors.
    let full = chain_with(3);
    let gappy = ChainData {
        blocks: vec![full.blocks[0].clone(), full.blocks[3].clone()],
        genesis_authorities: vec![1, 2, 3],
        genesis_authorities_proof: vec![],
        grandpa: true,
    };
    let mut handler = ParentchainHandler::new_with_automatic_light_client_allocation(
        gappy,
        ParentchainId::Integritee,
        WorkerMode::OffChainWorker,
        StfExecutor::new(),
        signer(),
    )
    .unwrap();
    let start = handler.init_parentchain_components();
    let r = handler.sync_parentchain(start);
    assert!(matches!(
        r,
        Err(SyncError::Validation(ValidationError::UnknownAncestor))
    ));
    assert_eq!(handler.enclave.stf_executor.applied_count(), 0);
}

#[test]
fn sync_surfaces_light_client_rejections() {
    // Block #1 carries only a 1-of-3 signature set.
    let mut source = chain_with(2);
    source.blocks[1].proof.signers = vec![2];
    let mut handler = ParentchainHandler::new_with_automatic_light_client_allocation(
        source,
        ParentchainId::Integritee,
        WorkerMode::OffChainWorker,
        StfExecutor::new(),
        signer(),
    )
    .unwrap();
    let start = handler.init_parentchain_components();
    let r = handler.sync_parentchain(start);
    assert!(matches!(
        r,
        Err(SyncError::Validation(ValidationError::InsufficientSignatures))
    ));
    assert_eq!(handler.enclave.stf_executor.applied_count(), 0);
}

#[test]
fn an_empty_source_has_no_genesis() {
    let empty = ChainData {
        blocks: vec![],
        genesis_authorities: vec![],
        genesis_authorities_proof: vec![],
        grandpa: false,
    };
    let r = ParentchainHandler::new_with_automatic_light_client_allocation(
        empty,
        ParentchainId::TargetA,
        WorkerMode::OffChainWorker,
        StfExecutor::new(),
        signer(),
    );
    assert!(matches!(r.err(), Some(ServiceError::Sync(SyncError::Transport))));
}

#[test]
fn registry_lookups_answer_definitely() {
    let empty: ComponentRegistry<StfExecutor> = ComponentRegistry::new_empty();
    assert_eq!(
        get_triggered_dispatcher_from_integritee_solo_or_parachain(&empty).err(),
        Some(ComponentError::NoIntegriteeParentchainAssigned)
    );
    assert_eq!(
        get_validator_accessor_from_target_b_solo_or_parachain(&empty).err(),
        Some(ComponentError::NoTargetBParentchainAssigned)
    );

    let mut registry: ComponentRegistry<StfExecutor> = ComponentRegistry::new_empty();
    registry.integritee_solochain = Some(
        ChainHandler::init(grandpa_params(), WorkerMode::Sidechain, StfExecutor::new(), signer())
            .unwrap(),
    );
    registry.target_a_parachain = Some(
        ChainHandler::init(
            ParentchainInitParams::Simple {
                id: ParentchainId::TargetA,
                genesis_header: genesis_header(),
            },
            WorkerMode::OffChainWorker,
            StfExecutor::new(),
            signer(),
        )
        .unwrap(),
    );

    assert!(get_triggered_dispatcher_from_integritee_solo_or_parachain(&registry).is_ok());
    assert_eq!(
        get_triggered_dispatcher_from_target_a_solo_or_parachain(&registry).err(),
        Some(ComponentError::ExpectedTriggeredImportDispatcher)
    );
    assert!(get_stf_executor_from_integritee_solo_or_parachain(&registry).is_ok());
    assert_eq!(
        get_stf_enclave_signer_from_solo_or_parachain(&registry).unwrap(),
        signer()
    );
    assert!(get_validator_accessor_from_integritee_solo_or_parachain(&registry).is_ok());
    assert!(get_node_metadata_repository_from_target_a_solo_or_parachain(&registry).is_ok());
    assert!(get_extrinsic_factory_from_integritee_solo_or_parachain(&registry).is_ok());
    assert_eq!(
        get_stf_executor_from_target_b_solo_or_parachain(&registry).err(),
        Some(ComponentError::NoTargetBParentchainAssigned)
    );
    let factory = get_extrinsic_factory_from_integritee_solo_or_parachain(&registry).unwrap();
    assert_eq!(factory.genesis_hash, hash_of_header(&genesis_header()));
    assert_eq!(factory.nonce, 0);
}

#[test]
fn the_source_reports_its_head() {
    let source = chain_with(2);
    assert_eq!(source.last_finalized_number(), Ok(Some(2)));
    let empty = ChainData {
        blocks: vec![],
        genesis_authorities: vec![],
        genesis_authorities_proof: vec![],
        grandpa: false,
    };
    assert_eq!(empty.last_finalized_number(), Ok(None));
}
