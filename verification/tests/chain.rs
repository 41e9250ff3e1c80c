use setheum::chain::{chain_ops_runtime, ChainRuntime, ChainSpecId, IdentifyVariant};

fn spec(id: &str) -> ChainSpecId {
    ChainSpecId::new(id.to_string())
}

#[test]
fn setheum_identifiers() {
    assert!(spec("setheum").is_setheum());
    assert!(spec("setheum-local").is_setheum());
    assert!(spec("set").is_setheum());
    assert!(!spec("se").is_setheum());
    assert!(!spec("xsetheum").is_setheum());
}

#[test]
fn neom_identifiers() {
    assert!(spec("neom").is_neom());
    assert!(spec("neo-testnet").is_neom());
    assert!(!spec("ne").is_neom());
    assert!(!spec("newrome").is_neom());
}

#[test]
fn newrome_identifiers() {
    assert!(spec("newrome").is_newrome());
    assert!(spec("rome").is_newrome());
    assert!(spec("newrome-dev").is_newrome());
    assert!(spec("newrome-dev").is_newrome_dev());
    assert!(!spec("newrome").is_newrome_dev());
    assert!(!spec("newrom").is_newrome());
}

#[test]
fn unknown_identifiers_name_no_network() {
    let s = spec("polkadot");
    assert!(!s.is_setheum() && !s.is_neom() && !s.is_newrome() && !s.is_newrome_dev());
    let e = spec("");
    assert!(!e.is_setheum() && !e.is_neom() && !e.is_newrome() && !e.is_newrome_dev());
}

#[test]
fn chain_ops_runtime_choice() {
    assert_eq!(chain_ops_runtime(&spec("newrome-dev")), ChainRuntime::NewromeDev);
    assert_eq!(chain_ops_runtime(&spec("newrome")), ChainRuntime::Newrome);
    assert_eq!(chain_ops_runtime(&spec("rom")), ChainRuntime::Newrome);
    assert_eq!(chain_ops_runtime(&spec("neom")), ChainRuntime::Neom);
    assert_eq!(chain_ops_runtime(&spec("setheum")), ChainRuntime::Setheum);
    assert_eq!(chain_ops_runtime(&spec("anything")), ChainRuntime::Setheum);
}
