use setheum::service::{
    dev_authoring, parachain_node_kind, partial_plan, DevAuthoring, ImportQueueKind,
    ParachainNodeKind, StartError,
};

#[test]
fn parachain_node_plan() {
    let p = partial_plan(false, true);
    assert!(!p.select_chain);
    assert!(!p.mock_inherent_providers);
    assert_eq!(p.import_queue, ImportQueueKind::RelayChain);
    assert_eq!(partial_plan(false, false).import_queue, ImportQueueKind::RelayChain);
}

#[test]
fn dev_node_plan() {
    let p = partial_plan(true, true);
    assert!(p.select_chain);
    assert!(p.mock_inherent_providers);
    assert_eq!(p.import_queue, ImportQueueKind::InstantSeal);
    assert_eq!(partial_plan(true, false).import_queue, ImportQueueKind::Aura);
}

#[test]
fn light_clients_are_refused() {
    assert_eq!(parachain_node_kind(true, true), Err(StartError::LightClientNotSupported));
    assert_eq!(parachain_node_kind(true, false), Err(StartError::LightClientNotSupported));
    assert_eq!(StartError::LightClientNotSupported.message(), "Light client not supported!");
}

#[test]
fn validators_collate() {
    assert_eq!(parachain_node_kind(false, true), Ok(ParachainNodeKind::Collator));
    assert_eq!(parachain_node_kind(false, false), Ok(ParachainNodeKind::FullNode));
}

#[test]
fn dev_authoring_choice() {
    assert_eq!(dev_authoring(false, true), None);
    assert_eq!(dev_authoring(false, false), None);
    assert_eq!(dev_authoring(true, true), Some(DevAuthoring::InstantSeal));
    assert_eq!(dev_authoring(true, false), Some(DevAuthoring::Aura));
}
