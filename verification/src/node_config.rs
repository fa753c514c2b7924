//! The settings of a test parachain node: which keys it runs with, which
//! peers it talks to, and how its services are sized.

use vstd::prelude::*;
use vstd::string::StringExecFns;

verus! {

/// The well-known development accounts that a test node can run as.
#[derive(Clone, Copy, Debug, PartialEq, Eq, Structural)]
pub enum Keyring {
    Alice,
    Bob,
    Charlie,
    Dave,
    Eve,
    Ferdie,
    One,
    Two,
}

impl Keyring {
    /// The account's name, as it is displayed.
    pub open spec fn spec_name(self) -> Seq<char> {
        match self {
            Keyring::Alice => "Alice"@,
            Keyring::Bob => "Bob"@,
            Keyring::Charlie => "Charlie"@,
            Keyring::Dave => "Dave"@,
            Keyring::Eve => "Eve"@,
            Keyring::Ferdie => "Ferdie"@,
            Keyring::One => "One"@,
            Keyring::Two => "Two"@,
        }
    }

    /// The secret derivation path of the account: `//` and its name.
    pub open spec fn spec_seed(self) -> Seq<char> {
        "//"@ + self.spec_name()
    }

    /// The account's name, as it is displayed.
    pub fn name(&self) -> (s: String)
        ensures
            s@ == self.spec_name(),
    {
        match self {
            Keyring::Alice => String::from_str("Alice"),
            Keyring::Bob => String::from_str("Bob"),
            Keyring::Charlie => String::from_str("Charlie"),
            Keyring::Dave => String::from_str("Dave"),
            Keyring::Eve => String::from_str("Eve"),
            Keyring::Ferdie => String::from_str("Ferdie"),
            Keyring::One => String::from_str("One"),
            Keyring::Two => String::from_str("Two"),
        }
    }

    /// The secret derivation path of the account: `//` and its name.
    pub fn to_seed(&self) -> (s: String)
        ensures
            s@ == self.spec_seed(),
    {
        let name = self.name();
        String::from_str("//").concat(name.as_str())
    }
}

/// Whether a node authors blocks or only follows the chain.
#[derive(Clone, Copy, Debug, PartialEq, Eq, Structural)]
pub enum Role {
    Authority,
    Full,
}

/// The configuration of a test parachain node, as far as it is decided here;
/// the chain specification, the base directory and the task runtime are added
/// where the node is started.
pub struct NodeSettings {
    pub role: Role,
    pub impl_name: String,
    pub impl_version: String,
    /// The name the node announces on the network.
    pub node_name: String,
    /// The client version the node announces on the network.
    pub client_version: String,
    /// The directory, under the base directory, that holds the node's data.
    pub data_dir_name: String,
    /// The directory, under the data directory, that holds the database.
    pub database_dir_name: String,
    /// The peers the node keeps connections to, and no other where
    /// `deny_non_reserved_peers` holds.
    pub reserved_nodes: Vec<String>,
    /// The peers the node starts discovering the network from.
    pub boot_nodes: Vec<String>,
    pub deny_non_reserved_peers: bool,
    pub allow_non_globals_in_dht: bool,
    /// The node uses an in-memory transport instead of sockets.
    pub memory_only_transport: bool,
    /// The address, in memory, that the node listens on.
    pub listen_memory_address: u64,
    pub dev_key_seed: String,
    /// The node keeps its keys in memory, not on disk.
    pub keystore_in_memory: bool,
    /// The node keeps the state of every block.
    pub state_pruning_archive_all: bool,
    /// The node keeps every block.
    pub blocks_pruning_keep_all: bool,
    pub offchain_worker_enabled: bool,
    pub offchain_indexing_enabled: bool,
    pub database_cache_size: usize,
    pub trie_cache_maximum_size: usize,
    pub rpc_port: u16,
    pub max_runtime_instances: usize,
    pub runtime_cache_size: u8,
    pub announce_block: bool,
    pub force_authoring: bool,
    pub disable_grandpa: bool,
}

/// The settings that a test parachain node running as `key`, told of `nodes`,
/// gets, but for the address it listens on and its offchain worker.
pub open spec fn settings_for(
    s: NodeSettings,
    key: Keyring,
    nodes: Seq<String>,
    nodes_exclusive: bool,
    is_collator: bool,
) -> bool {
    &&& s.role == (if is_collator { Role::Authority } else { Role::Full })
    &&& s.impl_name@ == "cumulus-test-node"@
    &&& s.impl_version@ == "0.1"@
    &&& s.node_name@ == key.spec_seed() + " (parachain)"@
    &&& s.client_version@ == "network/test/0.1"@
    &&& s.data_dir_name@ == "cumulus_test_service_"@ + key.spec_name()
    &&& s.database_dir_name@ == "db"@
    &&& nodes_exclusive ==> {
        &&& s.reserved_nodes@ == nodes
        &&& s.boot_nodes@ == Seq::<String>::empty()
        &&& s.deny_non_reserved_peers
    }
    &&& !nodes_exclusive ==> {
        &&& s.boot_nodes@ == nodes
        &&& s.reserved_nodes@ == Seq::<String>::empty()
        &&& !s.deny_non_reserved_peers
    }
    &&& s.allow_non_globals_in_dht
    &&& s.memory_only_transport
    &&& s.dev_key_seed@ == key.spec_seed()
    &&& s.keystore_in_memory
    &&& s.state_pruning_archive_all
    &&& s.blocks_pruning_keep_all
    &&& !s.offchain_indexing_enabled
    &&& s.database_cache_size == 128
    &&& s.trie_cache_maximum_size == 64 * 1024 * 1024
    &&& s.rpc_port == 9944
    &&& s.max_runtime_instances == 8
    &&& s.runtime_cache_size == 2
    &&& s.announce_block
    &&& !s.force_authoring
    &&& !s.disable_grandpa
}

/// The settings of a test parachain node running as `key` and listening in
/// memory at `memory_address`. Where `nodes_exclusive` holds, the node
/// connects to `nodes` and to no other node; else it starts discovering the
/// network from `nodes`. A collator is an authority, other nodes are full
/// nodes.
pub fn node_settings(
    key: Keyring,
    nodes: Vec<String>,
    nodes_exclusive: bool,
    is_collator: bool,
    memory_address: u64,
) -> (s: NodeSettings)
    ensures
        settings_for(s, key, nodes@, nodes_exclusive, is_collator),
        s.listen_memory_address == memory_address,
        s.offchain_worker_enabled,
{
    let role = if is_collator {
        Role::Authority
    } else {
        Role::Full
    };
    let key_seed = key.to_seed();
    let node_name = key.to_seed().concat(" (parachain)");
    let data_dir_name = String::from_str("cumulus_test_service_").concat(key.name().as_str());
    let (reserved_nodes, boot_nodes, deny_non_reserved_peers) = if nodes_exclusive {
        (nodes, Vec::new(), true)
    } else {
        (Vec::new(), nodes, false)
    };
    NodeSettings {
        role,
        impl_name: String::from_str("cumulus-test-node"),
        impl_version: String::from_str("0.1"),
        node_name,
        client_version: String::from_str("network/test/0.1"),
        data_dir_name,
        database_dir_name: String::from_str("db"),
        reserved_nodes,
        boot_nodes,
        deny_non_reserved_peers,
        allow_non_globals_in_dht: true,
        memory_only_transport: true,
        listen_memory_address: memory_address,
        dev_key_seed: key_seed,
        keystore_in_memory: true,
        state_pruning_archive_all: true,
        blocks_pruning_keep_all: true,
        offchain_worker_enabled: true,
        offchain_indexing_enabled: false,
        database_cache_size: 128,
        trie_cache_maximum_size: 64 * 1024 * 1024,
        rpc_port: 9944,
        max_runtime_instances: 8,
        runtime_cache_size: 2,
        announce_block: true,
        force_authoring: false,
        disable_grandpa: false,
    }
}

/// Draws a number with `rand::random::<u64>()`, from the thread's random
/// number generator; any number may come back.
#[verifier::external_body]
fn random_u64() -> (r: u64) {
    rand::random::<u64>()
}

/// The settings of a test parachain node running as `key`, listening in
/// memory at an address drawn at random.
pub fn node_config(key: Keyring, nodes: Vec<String>, nodes_exclusive: bool, is_collator: bool) -> (s:
    NodeSettings)
    ensures
        settings_for(s, key, nodes@, nodes_exclusive, is_collator),
        s.offchain_worker_enabled,
{
    let memory_address = random_u64();
    node_settings(key, nodes, nodes_exclusive, is_collator, memory_address)
}

/// The name of the relay chain node that runs inside a parachain node whose
/// relay chain configuration is named `name`.
pub fn relay_chain_node_name(name: String) -> (s: String)
    ensures
        s@ == name@ + " (relay chain)"@,
{
    name.concat(" (relay chain)")
}

/// The eight accounts have eight different names, none of them empty, and an
/// account's secret derivation path is `//` followed by its own name, so no two
/// accounts share a derivation path.
pub proof fn lemma_keyring_names_distinct(a: Keyring, b: Keyring)
    ensures
        a.spec_name().len() > 0,
        a != b ==> a.spec_name() != b.spec_name(),
        a.spec_seed().len() == a.spec_name().len() + 2,
        a.spec_seed()[0] == '/',
        a.spec_seed()[1] == '/',
        a.spec_seed().subrange(2, a.spec_seed().len() as int) == a.spec_name(),
        a != b ==> a.spec_seed() != b.spec_seed(),
{
    reveal_strlit("Alice");
    reveal_strlit("Bob");
    reveal_strlit("Charlie");
    reveal_strlit("Dave");
    reveal_strlit("Eve");
    reveal_strlit("Ferdie");
    reveal_strlit("One");
    reveal_strlit("Two");
    reveal_strlit("//");
    let sa = a.spec_seed();
    assert(sa.subrange(2, sa.len() as int) =~= a.spec_name());
    let sb = b.spec_seed();
    assert(sb.subrange(2, sb.len() as int) =~= b.spec_name());
    if a != b {
        assert(a.spec_name()[0] != b.spec_name()[0] || a.spec_name().len() != b.spec_name().len());
    }
}

/// Each account is displayed by the name of its own variant.
pub proof fn lemma_keyring_name_table(k: Keyring)
    ensures
        k == Keyring::Alice <==> k.spec_name() == "Alice"@,
        k == Keyring::Bob <==> k.spec_name() == "Bob"@,
        k == Keyring::Charlie <==> k.spec_name() == "Charlie"@,
        k == Keyring::Dave <==> k.spec_name() == "Dave"@,
        k == Keyring::Eve <==> k.spec_name() == "Eve"@,
        k == Keyring::Ferdie <==> k.spec_name() == "Ferdie"@,
        k == Keyring::One <==> k.spec_name() == "One"@,
        k == Keyring::Two <==> k.spec_name() == "Two"@,
{
    lemma_keyring_names_distinct(k, Keyring::Alice);
    lemma_keyring_names_distinct(k, Keyring::Bob);
    lemma_keyring_names_distinct(k, Keyring::Charlie);
    lemma_keyring_names_distinct(k, Keyring::Dave);
    lemma_keyring_names_distinct(k, Keyring::Eve);
    lemma_keyring_names_distinct(k, Keyring::Ferdie);
    lemma_keyring_names_distinct(k, Keyring::One);
    lemma_keyring_names_distinct(k, Keyring::Two);
}

/// Whatever key, nodes and role a test parachain node is configured with, it
/// allows non-global addresses in its DHT, uses an in-memory transport and
/// keystore, keeps every block and its state, runs no offchain indexing, and
/// announces the blocks it imports. It is an authority exactly when it
/// collates, and refuses peers it was not told of exactly when it connects
/// exclusively. Every node it is told of is a reserved node or a boot node,
/// and no other node is. Its dev key seed, node name and data directory are
/// made from its own key's name.
pub proof fn lemma_node_settings_shape(
    s: NodeSettings,
    key: Keyring,
    nodes: Seq<String>,
    nodes_exclusive: bool,
    is_collator: bool,
)
    requires
        settings_for(s, key, nodes, nodes_exclusive, is_collator),
    ensures
        s.allow_non_globals_in_dht,
        s.memory_only_transport,
        s.keystore_in_memory,
        s.state_pruning_archive_all,
        s.blocks_pruning_keep_all,
        !s.offchain_indexing_enabled,
        s.announce_block,
        !s.force_authoring,
        !s.disable_grandpa,
        s.rpc_port == 9944,
        s.database_cache_size == 128,
        s.trie_cache_maximum_size == 67_108_864,
        s.max_runtime_instances == 8,
        s.runtime_cache_size == 2,
        s.impl_name@ == "cumulus-test-node"@,
        s.impl_version@ == "0.1"@,
        s.client_version@ == "network/test/0.1"@,
        s.database_dir_name@ == "db"@,
        (s.role == Role::Authority) <==> is_collator,
        s.deny_non_reserved_peers <==> nodes_exclusive,
        s.reserved_nodes@ + s.boot_nodes@ == nodes,
        nodes_exclusive ==> s.boot_nodes@.len() == 0,
        !nodes_exclusive ==> s.reserved_nodes@.len() == 0,
        s.dev_key_seed@ == "//"@ + key.spec_name(),
        s.node_name@ == s.dev_key_seed@ + " (parachain)"@,
        s.data_dir_name@ == "cumulus_test_service_"@ + key.spec_name(),
{
    if nodes_exclusive {
        assert(s.reserved_nodes@ + s.boot_nodes@ =~= nodes);
    } else {
        assert(s.reserved_nodes@ + s.boot_nodes@ =~= nodes);
    }
}

/// Test nodes configured for two different keys have different dev key seeds,
/// node names and data directories.
pub proof fn lemma_node_settings_distinguish_keys(
    s1: NodeSettings,
    k1: Keyring,
    n1: Seq<String>,
    e1: bool,
    c1: bool,
    s2: NodeSettings,
    k2: Keyring,
    n2: Seq<String>,
    e2: bool,
    c2: bool,
)
    requires
        settings_for(s1, k1, n1, e1, c1),
        settings_for(s2, k2, n2, e2, c2),
        k1 != k2,
    ensures
        s1.dev_key_seed@ != s2.dev_key_seed@,
        s1.node_name@ != s2.node_name@,
        s1.data_dir_name@ != s2.data_dir_name@,
{
    lemma_keyring_names_distinct(k1, k2);
    let p = "cumulus_test_service_"@;
    let d1 = s1.data_dir_name@;
    let d2 = s2.data_dir_name@;
    assert(d1.subrange(p.len() as int, d1.len() as int) =~= k1.spec_name());
    assert(d2.subrange(p.len() as int, d2.len() as int) =~= k2.spec_name());
    let q = " (parachain)"@;
    let m1 = s1.node_name@;
    let m2 = s2.node_name@;
    assert(m1.subrange(0, m1.len() - q.len()) =~= k1.spec_seed());
    assert(m2.subrange(0, m2.len() - q.len()) =~= k2.spec_seed());
}

} // verus!
