//! The component registry: who serves which chain role.
//!
//! The worker looks the handler of a logical role up — primary chain, or one
//! of the auxiliary chains, each either solochain or parachain — and gets a
//! definite `NoChainAssigned`-style error if none was configured, never a
//! guessed substitute.

use vstd::prelude::*;
use crate::dispatcher::{BlockImportDispatcher, TriggeredDispatcher};
use crate::errors::ComponentError;
use crate::handler::{ChainHandler, ExtrinsicsFactory, NodeMetadataRepository};
use crate::light_client::ValidatorState;
use crate::stf_executor::StfEnclaveSigner;

verus! {

/// The handlers configured at startup, at most one per chain role. A chain
/// is served by its solochain handler if one is set, else by its parachain
/// handler.
pub struct ComponentRegistry<E> {
    pub integritee_solochain: Option<ChainHandler<E>>,
    pub integritee_parachain: Option<ChainHandler<E>>,
    pub target_a_solochain: Option<ChainHandler<E>>,
    pub target_a_parachain: Option<ChainHandler<E>>,
    pub target_b_solochain: Option<ChainHandler<E>>,
    pub target_b_parachain: Option<ChainHandler<E>>,
}

/// The handler serving a role: the solochain one if set, else the parachain
/// one.
pub open spec fn selected<E>(
    solo: Option<ChainHandler<E>>,
    para: Option<ChainHandler<E>>,
) -> Option<ChainHandler<E>> {
    if solo is Some {
        solo
    } else {
        para
    }
}

impl<E> ComponentRegistry<E> {
    /// A registry with no handler configured.
    pub fn new_empty() -> (r: ComponentRegistry<E>)
        ensures
            r.integritee_solochain is None && r.integritee_parachain is None,
            r.target_a_solochain is None && r.target_a_parachain is None,
            r.target_b_solochain is None && r.target_b_parachain is None,
    {
        ComponentRegistry {
            integritee_solochain: None,
            integritee_parachain: None,
            target_a_solochain: None,
            target_a_parachain: None,
            target_b_solochain: None,
            target_b_parachain: None,
        }
    }

    /// The handler serving the primary chain.
    pub open spec fn integritee(self) -> Option<ChainHandler<E>> {
        selected(self.integritee_solochain, self.integritee_parachain)
    }

    /// The handler serving the first auxiliary chain.
    pub open spec fn target_a(self) -> Option<ChainHandler<E>> {
        selected(self.target_a_solochain, self.target_a_parachain)
    }

    /// The handler serving the second auxiliary chain.
    pub open spec fn target_b(self) -> Option<ChainHandler<E>> {
        selected(self.target_b_solochain, self.target_b_parachain)
    }
}

/// The triggered variant of a dispatcher, or the definite error that it is
/// not one.
pub fn get_triggered_dispatcher(dispatcher: &BlockImportDispatcher) -> (r: Result<
    &TriggeredDispatcher,
    ComponentError,
>)
    ensures
        r is Ok <==> dispatcher is TriggeredDispatcher,
        r matches Ok(t) ==> *dispatcher == BlockImportDispatcher::TriggeredDispatcher(*t),
        r matches Err(e) ==> e == ComponentError::ExpectedTriggeredImportDispatcher,
{
    match dispatcher.triggered_dispatcher() {
        Some(t) => Ok(t),
        None => Err(ComponentError::ExpectedTriggeredImportDispatcher),
    }
}

/// The primary chain's triggered dispatcher, from whichever handler serves
/// that role.
pub fn get_triggered_dispatcher_from_integritee_solo_or_parachain<E>(
    registry: &ComponentRegistry<E>,
) -> (r: Result<&TriggeredDispatcher, ComponentError>)
    ensures
        registry.integritee() is None ==> r == Err::<&TriggeredDispatcher, ComponentError>(
            ComponentError::NoIntegriteeParentchainAssigned,
        ),
        r matches Ok(t) ==> (registry.integritee() matches Some(h) && h.import_dispatcher
            == BlockImportDispatcher::TriggeredDispatcher(*t)),
        registry.integritee() matches Some(h) ==> (r is Ok <==> h.import_dispatcher
            is TriggeredDispatcher),
        (registry.integritee() matches Some(h) && !(h.import_dispatcher is TriggeredDispatcher))
            ==> r == Err::<&TriggeredDispatcher, ComponentError>(
            ComponentError::ExpectedTriggeredImportDispatcher,
        ),
{
    if let Some(solochain_handler) = &registry.integritee_solochain {
        get_triggered_dispatcher(&solochain_handler.import_dispatcher)
    } else if let Some(parachain_handler) = &registry.integritee_parachain {
        get_triggered_dispatcher(&parachain_handler.import_dispatcher)
    } else {
        Err(ComponentError::NoIntegriteeParentchainAssigned)
    }
}

/// The first auxiliary chain's triggered dispatcher.
pub fn get_triggered_dispatcher_from_target_a_solo_or_parachain<E>(
    registry: &ComponentRegistry<E>,
) -> (r: Result<&TriggeredDispatcher, ComponentError>)
    ensures
        registry.target_a() is None ==> r == Err::<&TriggeredDispatcher, ComponentError>(
            ComponentError::NoTargetAParentchainAssigned,
        ),
        r matches Ok(t) ==> (registry.target_a() matches Some(h) && h.import_dispatcher
            == BlockImportDispatcher::TriggeredDispatcher(*t)),
        registry.target_a() matches Some(h) ==> (r is Ok <==> h.import_dispatcher
            is TriggeredDispatcher),
        (registry.target_a() matches Some(h) && !(h.import_dispatcher is TriggeredDispatcher))
            ==> r == Err::<&TriggeredDispatcher, ComponentError>(
            ComponentError::ExpectedTriggeredImportDispatcher,
        ),
{
    if let Some(solochain_handler) = &registry.target_a_solochain {
        get_triggered_dispatcher(&solochain_handler.import_dispatcher)
    } else if let Some(parachain_handler) = &registry.target_a_parachain {
        get_triggered_dispatcher(&parachain_handler.import_dispatcher)
    } else {
        Err(ComponentError::NoTargetAParentchainAssigned)
    }
}

/// The second auxiliary chain's triggered dispatcher.
pub fn get_triggered_dispatcher_from_target_b_solo_or_parachain<E>(
    registry: &ComponentRegistry<E>,
) -> (r: Result<&TriggeredDispatcher, ComponentError>)
    ensures
        registry.target_b() is None ==> r == Err::<&TriggeredDispatcher, ComponentError>(
            ComponentError::NoTargetBParentchainAssigned,
        ),
        r matches Ok(t) ==> (registry.target_b() matches Some(h) && h.import_dispatcher
            == BlockImportDispatcher::TriggeredDispatcher(*t)),
        registry.target_b() matches Some(h) ==> (r is Ok <==> h.import_dispatcher
            is TriggeredDispatcher),
        (registry.target_b() matches Some(h) && !(h.import_dispatcher is TriggeredDispatcher))
            ==> r == Err::<&TriggeredDispatcher, ComponentError>(
            ComponentError::ExpectedTriggeredImportDispatcher,
        ),
{
    if let Some(solochain_handler) = &registry.target_b_solochain {
        get_triggered_dispatcher(&solochain_handler.import_dispatcher)
    } else if let Some(parachain_handler) = &registry.target_b_parachain {
        get_triggered_dispatcher(&parachain_handler.import_dispatcher)
    } else {
        Err(ComponentError::NoTargetBParentchainAssigned)
    }
}

/// The primary chain's light client state.
pub fn get_validator_accessor_from_integritee_solo_or_parachain<E>(
    registry: &ComponentRegistry<E>,
) -> (r: Result<&ValidatorState, ComponentError>)
    ensures
        r is Ok <==> registry.integritee() is Some,
        r matches Ok(v) ==> (registry.integritee() matches Some(h) && *v == h.validator),
        r matches Err(e) ==> e == ComponentError::NoIntegriteeParentchainAssigned,
{
    if let Some(solochain_handler) = &registry.integritee_solochain {
        Ok(&solochain_handler.validator)
    } else if let Some(parachain_handler) = &registry.integritee_parachain {
        Ok(&parachain_handler.validator)
    } else {
        Err(ComponentError::NoIntegriteeParentchainAssigned)
    }
}

/// The first auxiliary chain's light client state.
pub fn get_validator_accessor_from_target_a_solo_or_parachain<E>(
    registry: &ComponentRegistry<E>,
) -> (r: Result<&ValidatorState, ComponentError>)
    ensures
        r is Ok <==> registry.target_a() is Some,
        r matches Ok(v) ==> (registry.target_a() matches Some(h) && *v == h.validator),
        r matches Err(e) ==> e == ComponentError::NoTargetAParentchainAssigned,
{
    if let Some(solochain_handler) = &registry.target_a_solochain {
        Ok(&solochain_handler.validator)
    } else if let Some(parachain_handler) = &registry.target_a_parachain {
        Ok(&parachain_handler.validator)
    } else {
        Err(ComponentError::NoTargetAParentchainAssigned)
    }
}

/// The second auxiliary chain's light client state.
pub fn get_validator_accessor_from_target_b_solo_or_parachain<E>(
    registry: &ComponentRegistry<E>,
) -> (r: Result<&ValidatorState, ComponentError>)
    ensures
        r is Ok <==> registry.target_b() is Some,
        r matches Ok(v) ==> (registry.target_b() matches Some(h) && *v == h.validator),
        r matches Err(e) ==> e == ComponentError::NoTargetBParentchainAssigned,
{
    if let Some(solochain_handler) = &registry.target_b_solochain {
        Ok(&solochain_handler.validator)
    } else if let Some(parachain_handler) = &registry.target_b_parachain {
        Ok(&parachain_handler.validator)
    } else {
        Err(ComponentError::NoTargetBParentchainAssigned)
    }
}

/// The primary chain's node metadata repository.
pub fn get_node_metadata_repository_from_integritee_solo_or_parachain<E>(
    registry: &ComponentRegistry<E>,
) -> (r: Result<&NodeMetadataRepository, ComponentError>)
    ensures
        r is Ok <==> registry.integritee() is Some,
        r matches Ok(m) ==> (registry.integritee() matches Some(h) && *m
            == h.node_metadata_repository),
        r matches Err(e) ==> e == ComponentError::NoIntegriteeParentchainAssigned,
{
    if let Some(solochain_handler) = &registry.integritee_solochain {
        Ok(&solochain_handler.node_metadata_repository)
    } else if let Some(parachain_handler) = &registry.integritee_parachain {
        Ok(&parachain_handler.node_metadata_repository)
    } else {
        Err(ComponentError::NoIntegriteeParentchainAssigned)
    }
}

/// The first auxiliary chain's node metadata repository.
pub fn get_node_metadata_repository_from_target_a_solo_or_parachain<E>(
    registry: &ComponentRegistry<E>,
) -> (r: Result<&NodeMetadataRepository, ComponentError>)
    ensures
        r is Ok <==> registry.target_a() is Some,
        r matches Ok(m) ==> (registry.target_a() matches Some(h) && *m
            == h.node_metadata_repository),
        r matches Err(e) ==> e == ComponentError::NoTargetAParentchainAssigned,
{
    if let Some(solochain_handler) = &registry.target_a_solochain {
        Ok(&solochain_handler.node_metadata_repository)
    } else if let Some(parachain_handler) = &registry.target_a_parachain {
        Ok(&parachain_handler.node_metadata_repository)
    } else {
        Err(ComponentError::NoTargetAParentchainAssigned)
    }
}

/// The second auxiliary chain's node metadata repository.
pub fn get_node_metadata_repository_from_target_b_solo_or_parachain<E>(
    registry: &ComponentRegistry<E>,
) -> (r: Result<&NodeMetadataRepository, ComponentError>)
    ensures
        r is Ok <==> registry.target_b() is Some,
        r matches Ok(m) ==> (registry.target_b() matches Some(h) && *m
            == h.node_metadata_repository),
        r matches Err(e) ==> e == ComponentError::NoTargetBParentchainAssigned,
{
    if let Some(solochain_handler) = &registry.target_b_solochain {
        Ok(&solochain_handler.node_metadata_repository)
    } else if let Some(parachain_handler) = &registry.target_b_parachain {
        Ok(&parachain_handler.node_metadata_repository)
    } else {
        Err(ComponentError::NoTargetBParentchainAssigned)
    }
}

/// The primary chain's extrinsics factory.
pub fn get_extrinsic_factory_from_integritee_solo_or_parachain<E>(
    registry: &ComponentRegistry<E>,
) -> (r: Result<&ExtrinsicsFactory, ComponentError>)
    ensures
        r is Ok <==> registry.integritee() is Some,
        r matches Ok(f) ==> (registry.integritee() matches Some(h) && *f == h.extrinsics_factory),
        r matches Err(e) ==> e == ComponentError::NoIntegriteeParentchainAssigned,
{
    if let Some(solochain_handler) = &registry.integritee_solochain {
        Ok(&solochain_handler.extrinsics_factory)
    } else if let Some(parachain_handler) = &registry.integritee_parachain {
        Ok(&parachain_handler.extrinsics_factory)
    } else {
        Err(ComponentError::NoIntegriteeParentchainAssigned)
    }
}

/// The first auxiliary chain's extrinsics factory.
pub fn get_extrinsic_factory_from_target_a_solo_or_parachain<E>(
    registry: &ComponentRegistry<E>,
) -> (r: Result<&ExtrinsicsFactory, ComponentError>)
    ensures
        r is Ok <==> registry.target_a() is Some,
        r matches Ok(f) ==> (registry.target_a() matches Some(h) && *f == h.extrinsics_factory),
        r matches Err(e) ==> e == ComponentError::NoTargetAParentchainAssigned,
{
    if let Some(solochain_handler) = &registry.target_a_solochain {
        Ok(&solochain_handler.extrinsics_factory)
    } else if let Some(parachain_handler) = &registry.target_a_parachain {
        Ok(&parachain_handler.extrinsics_factory)
    } else {
        Err(ComponentError::NoTargetAParentchainAssigned)
    }
}

/// The second auxiliary chain's extrinsics factory.
pub fn get_extrinsic_factory_from_target_b_solo_or_parachain<E>(
    registry: &ComponentRegistry<E>,
) -> (r: Result<&ExtrinsicsFactory, ComponentError>)
    ensures
        r is Ok <==> registry.target_b() is Some,
        r matches Ok(f) ==> (registry.target_b() matches Some(h) && *f == h.extrinsics_factory),
        r matches Err(e) ==> e == ComponentError::NoTargetBParentchainAssigned,
{
    if let Some(solochain_handler) = &registry.target_b_solochain {
        Ok(&solochain_handler.extrinsics_factory)
    } else if let Some(parachain_handler) = &registry.target_b_parachain {
        Ok(&parachain_handler.extrinsics_factory)
    } else {
        Err(ComponentError::NoTargetBParentchainAssigned)
    }
}

/// The primary chain's state-transition executor.
pub fn get_stf_executor_from_integritee_solo_or_parachain<E>(
    registry: &ComponentRegistry<E>,
) -> (r: Result<&E, ComponentError>)
    ensures
        r is Ok <==> registry.integritee() is Some,
        r matches Ok(x) ==> (registry.integritee() matches Some(h) && *x == h.stf_executor),
        r matches Err(e) ==> e == ComponentError::NoIntegriteeParentchainAssigned,
{
    if let Some(solochain_handler) = &registry.integritee_solochain {
        Ok(&solochain_handler.stf_executor)
    } else if let Some(parachain_handler) = &registry.integritee_parachain {
        Ok(&parachain_handler.stf_executor)
    } else {
        Err(ComponentError::NoIntegriteeParentchainAssigned)
    }
}

/// The first auxiliary chain's state-transition executor.
pub fn get_stf_executor_from_target_a_solo_or_parachain<E>(
    registry: &ComponentRegistry<E>,
) -> (r: Result<&E, ComponentError>)
    ensures
        r is Ok <==> registry.target_a() is Some,
        r matches Ok(x) ==> (registry.target_a() matches Some(h) && *x == h.stf_executor),
        r matches Err(e) ==> e == ComponentError::NoTargetAParentchainAssigned,
{
    if let Some(solochain_handler) = &registry.target_a_solochain {
        Ok(&solochain_handler.stf_executor)
    } else if let Some(parachain_handler) = &registry.target_a_parachain {
        Ok(&parachain_handler.stf_executor)
    } else {
        Err(ComponentError::NoTargetAParentchainAssigned)
    }
}

/// The second auxiliary chain's state-transition executor.
pub fn get_stf_executor_from_target_b_solo_or_parachain<E>(
    registry: &ComponentRegistry<E>,
) -> (r: Result<&E, ComponentError>)
    ensures
        r is Ok <==> registry.target_b() is Some,
        r matches Ok(x) ==> (registry.target_b() matches Some(h) && *x == h.stf_executor),
        r matches Err(e) ==> e == ComponentError::NoTargetBParentchainAssigned,
{
    if let Some(solochain_handler) = &registry.target_b_solochain {
        Ok(&solochain_handler.stf_executor)
    } else if let Some(parachain_handler) = &registry.target_b_parachain {
        Ok(&parachain_handler.stf_executor)
    } else {
        Err(ComponentError::NoTargetBParentchainAssigned)
    }
}

/// The identity the primary chain's block importer signs with; only the
/// importing dispatcher variants carry one.
pub fn get_stf_enclave_signer_from_solo_or_parachain<E>(registry: &ComponentRegistry<E>) -> (r:
    Result<StfEnclaveSigner, ComponentError>)
    ensures
        r matches Ok(s) ==> (registry.integritee() matches Some(h) && match h.import_dispatcher {
            BlockImportDispatcher::TriggeredDispatcher(t) => s == t.block_importer.stf_enclave_signer,
            BlockImportDispatcher::ImmediateDispatcher(im) => s
                == im.block_importer.stf_enclave_signer,
            BlockImportDispatcher::EmptyDispatcher => false,
        }),
        r matches Err(e) ==> e == ComponentError::NoIntegriteeParentchainAssigned,
        r is Ok <==> (registry.integritee() matches Some(h) && !(h.import_dispatcher
            is EmptyDispatcher)),
{
    let handler = if let Some(solochain_handler) = &registry.integritee_solochain {
        solochain_handler
    } else if let Some(parachain_handler) = &registry.integritee_parachain {
        parachain_handler
    } else {
        return Err(ComponentError::NoIntegriteeParentchainAssigned);
    };
    match &handler.import_dispatcher {
        BlockImportDispatcher::TriggeredDispatcher(dispatcher) => Ok(
            dispatcher.block_importer.stf_enclave_signer,
        ),
        BlockImportDispatcher::ImmediateDispatcher(dispatcher) => Ok(
            dispatcher.block_importer.stf_enclave_signer,
        ),
        BlockImportDispatcher::EmptyDispatcher => Err(
            ComponentError::NoIntegriteeParentchainAssigned,
        ),
    }
}

} // verus!
