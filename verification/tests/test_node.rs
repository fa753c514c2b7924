use acala_test_support::node_config::{node_config, node_settings, relay_chain_node_name, Keyring, Role};
use acala_test_support::test_node::{Consensus, SealMode, StartMode, TestNodeBuilder};

fn s(x: &str) -> String {
    x.to_string()
}

#[test]
fn keyring_names_and_seeds() {
    assert_eq!(Keyring::Alice.name(), "Alice");
    assert_eq!(Keyring::Ferdie.name(), "Ferdie");
    assert_eq!(Keyring::Alice.to_seed(), "//Alice");
    assert_eq!(Keyring::Two.to_seed(), "//Two");
}

#[test]
fn node_settings_of_a_full_node() {
    let settings = node_settings(Keyring::Bob, vec![s("a"), s("b")], false, false, 77);
    assert_eq!(settings.role, Role::Full);
    assert_eq!(settings.node_name, "//Bob (parachain)");
    assert_eq!(settings.data_dir_name, "cumulus_test_service_Bob");
    assert_eq!(settings.database_dir_name, "db");
    assert_eq!(settings.boot_nodes, vec![s("a"), s("b")]);
    assert!(settings.reserved_nodes.is_empty());
    assert!(!settings.deny_non_reserved_peers);
    assert_eq!(settings.listen_memory_address, 77);
    assert_eq!(settings.dev_key_seed, "//Bob");
    assert!(settings.keystore_in_memory);
    assert!(settings.state_pruning_archive_all);
    assert!(settings.blocks_pruning_keep_all);
    assert_eq!(settings.impl_name, "cumulus-test-node");
    assert_eq!(settings.impl_version, "0.1");
    assert_eq!(settings.client_version, "network/test/0.1");
    assert!(settings.allow_non_globals_in_dht);
    assert!(settings.memory_only_transport);
    assert!(settings.offchain_worker_enabled);
    assert!(!settings.offchain_indexing_enabled);
    assert_eq!(settings.database_cache_size, 128);
    assert_eq!(settings.trie_cache_maximum_size, 64 * 1024 * 1024);
    assert_eq!(settings.rpc_port, 9944);
    assert_eq!(settings.max_runtime_instances, 8);
    assert_eq!(settings.runtime_cache_size, 2);
    assert!(settings.announce_block);
    assert!(!settings.force_authoring);
    assert!(!settings.disable_grandpa);
}

#[test]
fn exclusive_collator_connects_only_to_given_nodes() {
    let settings = node_settings(Keyring::Alice, vec![s("peer")], true, true, 1);
    assert_eq!(settings.role, Role::Authority);
    assert_eq!(settings.reserved_nodes, vec![s("peer")]);
    assert!(settings.boot_nodes.is_empty());
    assert!(settings.deny_non_reserved_peers);
}

#[test]
fn node_config_draws_only_the_address() {
    let settings = node_config(Keyring::Charlie, vec![], false, false);
    assert_eq!(settings.node_name, "//Charlie (parachain)");
    assert_eq!(settings.role, Role::Full);
    assert!(settings.boot_nodes.is_empty());
}

#[test]
fn relay_chain_node_name_appends_suffix() {
    assert_eq!(relay_chain_node_name(s("Alice")), "Alice (relay chain)");
}

#[test]
fn new_builder_defaults() {
    let b = TestNodeBuilder::new(2000, Keyring::Alice);
    assert_eq!(b.para_id(), 2000);
    assert_eq!(b.key(), Keyring::Alice);
    assert!(!b.is_collator());
    assert!(b.parachain_nodes().is_empty());
    assert!(b.relay_chain_nodes().is_empty());
    assert!(b.relay_chain_full_node_urls().is_empty());
    assert_eq!(b.consensus(), Consensus::Aura);
    assert_eq!(b.seal_mode(), SealMode::DevAuraSeal);
    assert!(b.offchain_worker());
    assert!(!b.is_announce_block_wrapped());
    assert!(!b.is_parachain_storage_updated());
    assert!(!b.is_relay_chain_storage_updated());
}

#[test]
fn builder_setters_change_one_thing_each() {
    let b = TestNodeBuilder::new(1, Keyring::Bob)
        .enable_collator()
        .disable_offchain_worker()
        .use_null_consensus()
        .with_seal_mode(SealMode::ParaSeal)
        .wrap_announce_block()
        .update_storage_parachain()
        .update_storage_relay_chain();
    assert!(b.is_collator());
    assert!(!b.offchain_worker());
    assert_eq!(b.consensus(), Consensus::Null);
    assert_eq!(b.seal_mode(), SealMode::ParaSeal);
    assert!(b.is_announce_block_wrapped());
    assert!(b.is_parachain_storage_updated());
    assert!(b.is_relay_chain_storage_updated());
    assert_eq!(b.para_id(), 1);
    assert_eq!(b.key(), Keyring::Bob);
    let b = b.use_relay_consensus();
    assert_eq!(b.consensus(), Consensus::RelayChain);
}

#[test]
fn connecting_one_by_one_equals_connecting_a_list() {
    let one = TestNodeBuilder::new(1, Keyring::Alice)
        .connect_to_parachain_node(s("x"))
        .connect_to_parachain_node(s("y"))
        .connect_to_relay_chain_node(s("r1"))
        .connect_to_relay_chain_node(s("r2"));
    let list = TestNodeBuilder::new(1, Keyring::Alice)
        .connect_to_parachain_nodes(vec![s("x"), s("y")])
        .connect_to_relay_chain_nodes(vec![s("r1"), s("r2")]);
    assert_eq!(one.parachain_nodes(), list.parachain_nodes());
    assert_eq!(one.relay_chain_nodes(), list.relay_chain_nodes());
    assert_eq!(list.parachain_nodes(), &vec![s("x"), s("y")]);
}

#[test]
fn external_relay_chain_node_urls() {
    let b = TestNodeBuilder::new(1, Keyring::Alice).use_external_relay_chain_node_at_url(s("ws://relay:1/"));
    assert_eq!(b.relay_chain_full_node_urls(), &vec![s("ws://relay:1/")]);
    let b = b.use_external_relay_chain_node_at_port(9944);
    assert_eq!(b.relay_chain_full_node_urls(), &vec![s("ws://localhost:9944/")]);
    let b = b.use_external_relay_chain_node_at_port(80);
    assert_eq!(b.relay_chain_full_node_urls(), &vec![s("ws://localhost/")]);
}

#[test]
fn launch_plan_follows_seal_mode_and_builder() {
    let dev = TestNodeBuilder::new(1, Keyring::Alice).build();
    assert_eq!(dev.start, StartMode::DevNode);
    assert_eq!(dev.parachain.role, Role::Full);
    assert!(dev.parachain.offchain_worker_enabled);
    let instant = TestNodeBuilder::new(1, Keyring::Alice).with_seal_mode(SealMode::DevInstantSeal).build();
    assert_eq!(instant.start, StartMode::DevNode);
    let para = TestNodeBuilder::new(1, Keyring::Dave)
        .with_seal_mode(SealMode::ParaSeal)
        .enable_collator()
        .disable_offchain_worker()
        .connect_to_parachain_node(s("p"))
        .exclusively_connect_to_registered_parachain_nodes()
        .build();
    assert_eq!(para.start, StartMode::ParachainNode);
    assert_eq!(para.parachain.role, Role::Authority);
    assert!(!para.parachain.offchain_worker_enabled);
    assert_eq!(para.parachain.reserved_nodes, vec![s("p")]);
    assert!(para.parachain.deny_non_reserved_peers);
    assert_eq!(para.parachain.node_name, "//Dave (parachain)");
}

#[test]
fn seal_mode_setter_enables_collator() {
    let b = TestNodeBuilder::new(3, Keyring::Eve).with_seal_mode(SealMode::DevInstantSeal);
    assert!(b.is_collator());
    assert_eq!(b.seal_mode(), SealMode::DevInstantSeal);
    assert_eq!(b.consensus(), Consensus::Aura);
    let plan = b.build();
    assert_eq!(plan.parachain.role, Role::Authority);
    assert!(plan.collator);
}

#[test]
fn relay_chain_node_is_not_exclusive() {
    let plan = TestNodeBuilder::new(1, Keyring::Alice)
        .connect_to_relay_chain_node(s("r"))
        .build();
    assert_eq!(plan.relay_chain_nodes, vec![s("r")]);
    assert!(!plan.relay_chain_nodes_exclusive);
}
