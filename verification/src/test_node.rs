//! The builder of an end-to-end test parachain node, and what building it
//! decides: how the node is started and how it is configured.

use crate::node_config::{Keyring, NodeSettings, node_config, settings_for};
use vstd::prelude::*;

verus! {

/// How a test parachain node reaches consensus.
#[derive(Clone, Copy, Debug, PartialEq, Eq, Structural)]
pub enum Consensus {
    /// Collators are chosen by the relay chain.
    RelayChain,
    /// Blocks are authored in turns.
    Aura,
    /// No block is ever authored.
    Null,
}

/// How a test node seals its blocks.
#[derive(Clone, Copy, Debug, PartialEq, Eq, Structural)]
pub enum SealMode {
    /// A standalone development node that seals a block for each transaction.
    DevInstantSeal,
    /// A standalone development node that seals blocks in turns.
    DevAuraSeal,
    /// A parachain node whose blocks the relay chain seals.
    ParaSeal,
}

/// What a test node builder holds, in the terms that its contracts use.
pub struct TestNodeBuilderView {
    pub para_id: u32,
    pub key: Keyring,
    pub collator: bool,
    pub parachain_nodes: Seq<String>,
    pub parachain_nodes_exclusive: bool,
    pub relay_chain_nodes: Seq<String>,
    pub announce_block_wrapped: bool,
    pub parachain_storage_updated: bool,
    pub relay_chain_storage_updated: bool,
    pub consensus: Consensus,
    pub seal_mode: SealMode,
    pub relay_chain_full_node_urls: Seq<String>,
    pub offchain_worker: bool,
}

/// Builds a test parachain node. The builder records what the node will be:
/// the parachain it runs for, the key it runs as, whether it collates, the
/// nodes it connects to, its consensus and seal mode, the relay chain nodes it
/// reaches over RPC and whether its offchain worker runs. Where a closure or a
/// key pair is handed to the node (a wrapped block announcement, a storage
/// update, a collator key), the builder records that one is there.
pub struct TestNodeBuilder {
    para_id: u32,
    key: Keyring,
    collator: bool,
    parachain_nodes: Vec<String>,
    parachain_nodes_exclusive: bool,
    relay_chain_nodes: Vec<String>,
    announce_block_wrapped: bool,
    parachain_storage_updated: bool,
    relay_chain_storage_updated: bool,
    consensus: Consensus,
    seal_mode: SealMode,
    relay_chain_full_node_urls: Vec<String>,
    offchain_worker: bool,
}

impl View for TestNodeBuilder {
    type V = TestNodeBuilderView;

    closed spec fn view(&self) -> TestNodeBuilderView {
        TestNodeBuilderView {
            para_id: self.para_id,
            key: self.key,
            collator: self.collator,
            parachain_nodes: self.parachain_nodes@,
            parachain_nodes_exclusive: self.parachain_nodes_exclusive,
            relay_chain_nodes: self.relay_chain_nodes@,
            announce_block_wrapped: self.announce_block_wrapped,
            parachain_storage_updated: self.parachain_storage_updated,
            relay_chain_storage_updated: self.relay_chain_storage_updated,
            consensus: self.consensus,
            seal_mode: self.seal_mode,
            relay_chain_full_node_urls: self.relay_chain_full_node_urls@,
            offchain_worker: self.offchain_worker,
        }
    }
}

/// The builder after it is told to connect to the parachain node at `addr`.
pub open spec fn with_parachain_node(b: TestNodeBuilderView, addr: String) -> TestNodeBuilderView {
    TestNodeBuilderView { parachain_nodes: b.parachain_nodes.push(addr), ..b }
}

/// The builder after it is told to connect to the parachain nodes at `addrs`.
pub open spec fn with_parachain_nodes(b: TestNodeBuilderView, addrs: Seq<String>) -> TestNodeBuilderView {
    TestNodeBuilderView { parachain_nodes: b.parachain_nodes + addrs, ..b }
}

/// The builder after it is told to connect to the relay chain node at `addr`.
pub open spec fn with_relay_chain_node(b: TestNodeBuilderView, addr: String) -> TestNodeBuilderView {
    TestNodeBuilderView { relay_chain_nodes: b.relay_chain_nodes.push(addr), ..b }
}

/// The builder after it is told to connect to the relay chain nodes at `addrs`.
pub open spec fn with_relay_chain_nodes(b: TestNodeBuilderView, addrs: Seq<String>) -> TestNodeBuilderView {
    TestNodeBuilderView { relay_chain_nodes: b.relay_chain_nodes + addrs, ..b }
}

/// The character of the decimal digit `d`.
pub open spec fn digit_char(d: int) -> char {
    (d + 48) as char
}

/// The decimal digits of `n`, most significant first, with no leading zero.
pub open spec fn decimal(n: nat) -> Seq<char>
    decreases n,
{
    if n < 10 {
        seq![digit_char(n as int)]
    } else {
        decimal(n / 10) + seq![digit_char((n % 10) as int)]
    }
}

/// The WebSocket URL of `localhost` on `port`: the port is left out where it
/// is the scheme's default, 80.
pub open spec fn localhost_ws_url(port: u16) -> Seq<char> {
    if port == 80 {
        "ws://localhost/"@
    } else {
        "ws://localhost:"@ + decimal(port as nat) + "/"@
    }
}

/// The URL that `url::Url` makes of `base` with its port set to `port`, where
/// `base` parses and takes a port.
pub uninterp spec fn url_with_port(base: Seq<char>, port: u16) -> Option<Seq<char>>;

/// Parses `base` with `url::Url::parse`, sets its port to `port` with
/// `Url::set_port`, and hands back the URL as a string; `None` where `base`
/// does not parse or takes no port. Parsing `ws://localhost` gives a URL with
/// a host and the path `/`, which takes a port; the port is written in
/// decimal after the host, and left out where it is 80, the default of `ws`.
#[verifier::external_body]
fn url_with_port_exec(base: &str, port: u16) -> (r: Option<String>)
    ensures
        match r {
            Some(s) => url_with_port(base@, port) == Some(s@),
            None => url_with_port(base@, port) is None,
        },
        base@ == "ws://localhost"@ ==> r is Some && r->0@ == localhost_ws_url(port),
{
    let mut url = url::Url::parse(base).ok()?;
    url.set_port(Some(port)).ok()?;
    Some(url.into())
}

/// How a built test node is started.
#[derive(Clone, Copy, Debug, PartialEq, Eq, Structural)]
pub enum StartMode {
    /// As a standalone development node, sealing blocks in its seal mode.
    DevNode,
    /// As a parachain node with a relay chain node inside it.
    ParachainNode,
}

/// What building a test node decides: how the node is started, how the
/// parachain node is configured, and what the parachain and relay chain nodes
/// are started with.
pub struct LaunchPlan {
    pub start: StartMode,
    pub parachain: NodeSettings,
    pub para_id: u32,
    pub key: Keyring,
    pub collator: bool,
    pub consensus: Consensus,
    pub seal_mode: SealMode,
    pub relay_chain_nodes: Vec<String>,
    /// Whether the relay chain node inside connects to `relay_chain_nodes`
    /// and to no other node.
    pub relay_chain_nodes_exclusive: bool,
    pub relay_chain_full_node_urls: Vec<String>,
    pub announce_block_wrapped: bool,
    pub parachain_storage_updated: bool,
    pub relay_chain_storage_updated: bool,
}

impl TestNodeBuilder {
    /// A builder for a node of parachain `para_id` running as `key`: an Aura
    /// development node that collates nothing, is connected to no node, has no
    /// relay chain RPC node, and runs its offchain worker.
    pub fn new(para_id: u32, key: Keyring) -> (b: TestNodeBuilder)
        ensures
            b@ == (TestNodeBuilderView {
                para_id,
                key,
                collator: false,
                parachain_nodes: Seq::empty(),
                parachain_nodes_exclusive: false,
                relay_chain_nodes: Seq::empty(),
                announce_block_wrapped: false,
                parachain_storage_updated: false,
                relay_chain_storage_updated: false,
                consensus: Consensus::Aura,
                seal_mode: SealMode::DevAuraSeal,
                relay_chain_full_node_urls: Seq::empty(),
                offchain_worker: true,
            }),
    {
        TestNodeBuilder {
            para_id,
            key,
            collator: false,
            parachain_nodes: Vec::new(),
            parachain_nodes_exclusive: false,
            relay_chain_nodes: Vec::new(),
            announce_block_wrapped: false,
            parachain_storage_updated: false,
            relay_chain_storage_updated: false,
            consensus: Consensus::Aura,
            seal_mode: SealMode::DevAuraSeal,
            relay_chain_full_node_urls: Vec::new(),
            offchain_worker: true,
        }
    }

    /// The node collates, with a fresh collator key.
    pub fn enable_collator(self) -> (b: TestNodeBuilder)
        ensures
            b@ == (TestNodeBuilderView { collator: true, ..self@ }),
    {
        TestNodeBuilder { collator: true, ..self }
    }

    /// The node runs no offchain worker.
    pub fn disable_offchain_worker(self) -> (b: TestNodeBuilder)
        ensures
            b@ == (TestNodeBuilderView { offchain_worker: false, ..self@ }),
    {
        TestNodeBuilder { offchain_worker: false, ..self }
    }

    /// The node connects to the registered parachain nodes and to no other.
    pub fn exclusively_connect_to_registered_parachain_nodes(self) -> (b: TestNodeBuilder)
        ensures
            b@ == (TestNodeBuilderView { parachain_nodes_exclusive: true, ..self@ }),
    {
        TestNodeBuilder { parachain_nodes_exclusive: true, ..self }
    }

    /// The node connects to the parachain node at `addr`.
    pub fn connect_to_parachain_node(self, addr: String) -> (b: TestNodeBuilder)
        ensures
            b@ == with_parachain_node(self@, addr),
    {
        let mut b = self;
        b.parachain_nodes.push(addr);
        b
    }

    /// The node connects to the parachain nodes at `addrs`, in order.
    pub fn connect_to_parachain_nodes(self, addrs: Vec<String>) -> (b: TestNodeBuilder)
        ensures
            b@ == with_parachain_nodes(self@, addrs@),
    {
        let mut b = self;
        let mut addrs = addrs;
        b.parachain_nodes.append(&mut addrs);
        b
    }

    /// The node connects to the relay chain node at `addr`.
    pub fn connect_to_relay_chain_node(self, addr: String) -> (b: TestNodeBuilder)
        ensures
            b@ == with_relay_chain_node(self@, addr),
    {
        let mut b = self;
        b.relay_chain_nodes.push(addr);
        b
    }

    /// The node connects to the relay chain nodes at `addrs`, in order.
    pub fn connect_to_relay_chain_nodes(self, addrs: Vec<String>) -> (b: TestNodeBuilder)
        ensures
            b@ == with_relay_chain_nodes(self@, addrs@),
    {
        let mut b = self;
        let mut addrs = addrs;
        b.relay_chain_nodes.append(&mut addrs);
        b
    }

    /// The node's block announcement is wrapped.
    pub fn wrap_announce_block(self) -> (b: TestNodeBuilder)
        ensures
            b@ == (TestNodeBuilderView { announce_block_wrapped: true, ..self@ }),
    {
        TestNodeBuilder { announce_block_wrapped: true, ..self }
    }

    /// The parachain genesis storage is updated before the node is built.
    pub fn update_storage_parachain(self) -> (b: TestNodeBuilder)
        ensures
            b@ == (TestNodeBuilderView { parachain_storage_updated: true, ..self@ }),
    {
        TestNodeBuilder { parachain_storage_updated: true, ..self }
    }

    /// The relay chain genesis storage is updated before the node is built.
    pub fn update_storage_relay_chain(self) -> (b: TestNodeBuilder)
        ensures
            b@ == (TestNodeBuilderView { relay_chain_storage_updated: true, ..self@ }),
    {
        TestNodeBuilder { relay_chain_storage_updated: true, ..self }
    }

    /// The node never authors a block.
    pub fn use_null_consensus(self) -> (b: TestNodeBuilder)
        ensures
            b@ == (TestNodeBuilderView { consensus: Consensus::Null, ..self@ }),
    {
        TestNodeBuilder { consensus: Consensus::Null, ..self }
    }

    /// The node follows the relay chain's consensus.
    pub fn use_relay_consensus(self) -> (b: TestNodeBuilder)
        ensures
            b@ == (TestNodeBuilderView { consensus: Consensus::RelayChain, ..self@ }),
    {
        TestNodeBuilder { consensus: Consensus::RelayChain, ..self }
    }

    /// Enables the collator for this node, which seals its blocks in
    /// `seal_mode`.
    pub fn with_seal_mode(self, seal_mode: SealMode) -> (b: TestNodeBuilder)
        ensures
            b@ == (TestNodeBuilderView { seal_mode, collator: true, ..self@ }),
    {
        TestNodeBuilder { seal_mode, collator: true, ..self }
    }

    /// The node reaches the relay chain over RPC at `network_address`, and at
    /// no other address.
    pub fn use_external_relay_chain_node_at_url(self, network_address: String) -> (b: TestNodeBuilder)
        ensures
            b@ == (TestNodeBuilderView { relay_chain_full_node_urls: seq![network_address], ..self@ }),
    {
        let mut urls: Vec<String> = Vec::new();
        urls.push(network_address);
        TestNodeBuilder { relay_chain_full_node_urls: urls, ..self }
    }

    /// The node reaches the relay chain over RPC at `ws://localhost` on
    /// `port`, and at no other address.
    pub fn use_external_relay_chain_node_at_port(self, port: u16) -> (b: TestNodeBuilder)
        ensures
            url_with_port("ws://localhost"@, port) == Some(localhost_ws_url(port)),
            b@.relay_chain_full_node_urls.len() == 1,
            b@.relay_chain_full_node_urls[0]@ == localhost_ws_url(port),
            b@ == (TestNodeBuilderView { relay_chain_full_node_urls: b@.relay_chain_full_node_urls, ..self@ }),
    {
        let localhost_url = url_with_port_exec("ws://localhost", port);
        match localhost_url {
            Some(url) => {
                let mut urls: Vec<String> = Vec::new();
                urls.push(url);
                TestNodeBuilder { relay_chain_full_node_urls: urls, ..self }
            },
            None => self,
        }
    }

    /// The parachain the node runs for.
    pub fn para_id(&self) -> (r: u32)
        ensures
            r == self@.para_id,
    {
        self.para_id
    }

    /// The key the node runs as.
    pub fn key(&self) -> (r: Keyring)
        ensures
            r == self@.key,
    {
        self.key
    }

    /// Whether the node collates.
    pub fn is_collator(&self) -> (r: bool)
        ensures
            r == self@.collator,
    {
        self.collator
    }

    /// The parachain nodes the node connects to.
    pub fn parachain_nodes(&self) -> (r: &Vec<String>)
        ensures
            r@ == self@.parachain_nodes,
    {
        &self.parachain_nodes
    }

    /// The relay chain nodes the node connects to.
    pub fn relay_chain_nodes(&self) -> (r: &Vec<String>)
        ensures
            r@ == self@.relay_chain_nodes,
    {
        &self.relay_chain_nodes
    }

    /// Whether the node's block announcement is wrapped.
    pub fn is_announce_block_wrapped(&self) -> (r: bool)
        ensures
            r == self@.announce_block_wrapped,
    {
        self.announce_block_wrapped
    }

    /// Whether the parachain genesis storage is updated.
    pub fn is_parachain_storage_updated(&self) -> (r: bool)
        ensures
            r == self@.parachain_storage_updated,
    {
        self.parachain_storage_updated
    }

    /// Whether the relay chain genesis storage is updated.
    pub fn is_relay_chain_storage_updated(&self) -> (r: bool)
        ensures
            r == self@.relay_chain_storage_updated,
    {
        self.relay_chain_storage_updated
    }

    /// The node's consensus.
    pub fn consensus(&self) -> (r: Consensus)
        ensures
            r == self@.consensus,
    {
        self.consensus
    }

    /// The node's seal mode.
    pub fn seal_mode(&self) -> (r: SealMode)
        ensures
            r == self@.seal_mode,
    {
        self.seal_mode
    }

    /// The relay chain RPC addresses the node reaches.
    pub fn relay_chain_full_node_urls(&self) -> (r: &Vec<String>)
        ensures
            r@ == self@.relay_chain_full_node_urls,
    {
        &self.relay_chain_full_node_urls
    }

    /// Whether the node runs its offchain worker.
    pub fn offchain_worker(&self) -> (r: bool)
        ensures
            r == self@.offchain_worker,
    {
        self.offchain_worker
    }

    /// What building the node decides. Both development seal modes start a
    /// standalone development node, the parachain seal mode a parachain node.
    /// The parachain node is configured as `node_config` configures it for the
    /// builder's key and parachain nodes, as an authority where it collates,
    /// with its offchain worker running as the builder says. The relay chain
    /// node inside is told of the builder's relay chain nodes without being
    /// limited to them; the rest of the builder is handed on unchanged.
    pub fn build(self) -> (p: LaunchPlan)
        ensures
            p.start == (match self@.seal_mode {
                SealMode::DevInstantSeal | SealMode::DevAuraSeal => StartMode::DevNode,
                SealMode::ParaSeal => StartMode::ParachainNode,
            }),
            settings_for(
                p.parachain,
                self@.key,
                self@.parachain_nodes,
                self@.parachain_nodes_exclusive,
                self@.collator,
            ),
            p.parachain.offchain_worker_enabled == self@.offchain_worker,
            p.para_id == self@.para_id,
            p.key == self@.key,
            p.collator == self@.collator,
            p.consensus == self@.consensus,
            p.seal_mode == self@.seal_mode,
            p.relay_chain_nodes@ == self@.relay_chain_nodes,
            !p.relay_chain_nodes_exclusive,
            p.relay_chain_full_node_urls@ == self@.relay_chain_full_node_urls,
            p.announce_block_wrapped == self@.announce_block_wrapped,
            p.parachain_storage_updated == self@.parachain_storage_updated,
            p.relay_chain_storage_updated == self@.relay_chain_storage_updated,
    {
        let mut parachain = node_config(
            self.key,
            self.parachain_nodes,
            self.parachain_nodes_exclusive,
            self.collator,
        );
        parachain.offchain_worker_enabled = self.offchain_worker;
        let start = match self.seal_mode {
            SealMode::DevInstantSeal | SealMode::DevAuraSeal => StartMode::DevNode,
            SealMode::ParaSeal => StartMode::ParachainNode,
        };
        LaunchPlan {
            start,
            parachain,
            para_id: self.para_id,
            key: self.key,
            collator: self.collator,
            consensus: self.consensus,
            seal_mode: self.seal_mode,
            relay_chain_nodes: self.relay_chain_nodes,
            relay_chain_nodes_exclusive: false,
            relay_chain_full_node_urls: self.relay_chain_full_node_urls,
            announce_block_wrapped: self.announce_block_wrapped,
            parachain_storage_updated: self.parachain_storage_updated,
            relay_chain_storage_updated: self.relay_chain_storage_updated,
        }
    }
}

/// Connecting to a list of parachain nodes is connecting to each in turn.
pub proof fn lemma_connect_parachain_nodes_one_by_one(
    b: TestNodeBuilderView,
    addrs: Seq<String>,
    addr: String,
)
    ensures
        with_parachain_nodes(b, Seq::empty()) == b,
        with_parachain_nodes(b, addrs.push(addr)) == with_parachain_node(
            with_parachain_nodes(b, addrs),
            addr,
        ),
{
    assert(b.parachain_nodes + Seq::empty() =~= b.parachain_nodes);
    assert(b.parachain_nodes + addrs.push(addr) =~= (b.parachain_nodes + addrs).push(addr));
}

/// Connecting to a list of relay chain nodes is connecting to each in turn.
pub proof fn lemma_connect_relay_chain_nodes_one_by_one(
    b: TestNodeBuilderView,
    addrs: Seq<String>,
    addr: String,
)
    ensures
        with_relay_chain_nodes(b, Seq::empty()) == b,
        with_relay_chain_nodes(b, addrs.push(addr)) == with_relay_chain_node(
            with_relay_chain_nodes(b, addrs),
            addr,
        ),
{
    assert(b.relay_chain_nodes + Seq::empty() =~= b.relay_chain_nodes);
    assert(b.relay_chain_nodes + addrs.push(addr) =~= (b.relay_chain_nodes + addrs).push(addr));
}

/// Connecting to a parachain node keeps the parachain nodes registered before,
/// in order, and adds the new one last; connecting to a list keeps them and
/// adds the list after them, in order. Nothing else about the builder changes.
pub proof fn lemma_connect_parachain_nodes_appends(
    b: TestNodeBuilderView,
    addr: String,
    addrs: Seq<String>,
)
    ensures
        with_parachain_node(b, addr).parachain_nodes.len() == b.parachain_nodes.len() + 1,
        forall|i: int|
            0 <= i < b.parachain_nodes.len() ==> #[trigger] with_parachain_node(
                b,
                addr,
            ).parachain_nodes[i] == b.parachain_nodes[i],
        with_parachain_node(b, addr).parachain_nodes[b.parachain_nodes.len() as int] == addr,
        with_parachain_node(b, addr) == (TestNodeBuilderView {
            parachain_nodes: with_parachain_node(b, addr).parachain_nodes,
            ..b
        }),
        with_parachain_nodes(b, addrs).parachain_nodes.len() == b.parachain_nodes.len()
            + addrs.len(),
        forall|i: int|
            0 <= i < b.parachain_nodes.len() ==> #[trigger] with_parachain_nodes(
                b,
                addrs,
            ).parachain_nodes[i] == b.parachain_nodes[i],
        forall|i: int|
            0 <= i < addrs.len() ==> with_parachain_nodes(b, addrs).parachain_nodes[b.parachain_nodes.len()
                + i] == #[trigger] addrs[i],
        with_parachain_nodes(b, addrs) == (TestNodeBuilderView {
            parachain_nodes: with_parachain_nodes(b, addrs).parachain_nodes,
            ..b
        }),
{
}

/// Connecting to a relay chain node keeps the relay chain nodes registered
/// before, in order, and adds the new one last; connecting to a list keeps
/// them and adds the list after them, in order. Nothing else about the builder
/// changes.
pub proof fn lemma_connect_relay_chain_nodes_appends(
    b: TestNodeBuilderView,
    addr: String,
    addrs: Seq<String>,
)
    ensures
        with_relay_chain_node(b, addr).relay_chain_nodes.len() == b.relay_chain_nodes.len() + 1,
        forall|i: int|
            0 <= i < b.relay_chain_nodes.len() ==> #[trigger] with_relay_chain_node(
                b,
                addr,
            ).relay_chain_nodes[i] == b.relay_chain_nodes[i],
        with_relay_chain_node(b, addr).relay_chain_nodes[b.relay_chain_nodes.len() as int] == addr,
        with_relay_chain_node(b, addr) == (TestNodeBuilderView {
            relay_chain_nodes: with_relay_chain_node(b, addr).relay_chain_nodes,
            ..b
        }),
        with_relay_chain_nodes(b, addrs).relay_chain_nodes.len() == b.relay_chain_nodes.len()
            + addrs.len(),
        forall|i: int|
            0 <= i < b.relay_chain_nodes.len() ==> #[trigger] with_relay_chain_nodes(
                b,
                addrs,
            ).relay_chain_nodes[i] == b.relay_chain_nodes[i],
        forall|i: int|
            0 <= i < addrs.len() ==> with_relay_chain_nodes(b, addrs).relay_chain_nodes[b.relay_chain_nodes.len()
                + i] == #[trigger] addrs[i],
        with_relay_chain_nodes(b, addrs) == (TestNodeBuilderView {
            relay_chain_nodes: with_relay_chain_nodes(b, addrs).relay_chain_nodes,
            ..b
        }),
{
}

/// The number that a string of decimal digits reads as.
pub open spec fn decimal_value(s: Seq<char>) -> int
    decreases s.len(),
{
    if s.len() == 0 {
        0
    } else {
        decimal_value(s.drop_last()) * 10 + (s.last() as int - 48)
    }
}

/// The decimal digits of a number are digits, start with no zero unless the
/// number is zero, and read back as the number.
pub proof fn lemma_decimal_reads_back(n: nat)
    ensures
        decimal(n).len() >= 1,
        forall|i: int| 0 <= i < decimal(n).len() ==> '0' <= #[trigger] decimal(n)[i] <= '9',
        decimal(n)[0] == '0' ==> n == 0,
        decimal_value(decimal(n)) == n,
    decreases n,
{
    let s = decimal(n);
    if n >= 10 {
        lemma_decimal_reads_back(n / 10);
        assert(s.drop_last() =~= decimal(n / 10));
        assert(s[0] == decimal(n / 10)[0]);
        let d = (n % 10) as int;
        assert(digit_char(d) as int == d + 48);
        assert(s.last() == digit_char(d));
        assert(decimal_value(s) == decimal_value(decimal(n / 10)) * 10 + d);
    } else {
        assert(s.drop_last() =~= Seq::<char>::empty());
        assert(digit_char(n as int) as int == n + 48);
        assert(decimal_value(s) == decimal_value(s.drop_last()) * 10 + (s.last() as int - 48));
    }
}

/// The relay chain RPC URL on `localhost` is `ws://localhost/` on port 80,
/// the default; on any other port it is `ws://localhost:`, then digits that
/// read as the port, then `/`.
pub proof fn lemma_localhost_ws_url_names_port(port: u16)
    ensures
        port == 80 ==> localhost_ws_url(port) == "ws://localhost/"@,
        port != 80 ==> {
            let u = localhost_ws_url(port);
            &&& u.subrange(0, 15) == "ws://localhost:"@
            &&& u.last() == '/'
            &&& decimal_value(u.subrange(15, u.len() - 1)) == port
            &&& forall|i: int| 15 <= i < u.len() - 1 ==> '0' <= #[trigger] u[i] <= '9'
        },
{
    reveal_strlit("ws://localhost:");
    reveal_strlit("/");
    if port != 80 {
        lemma_decimal_reads_back(port as nat);
        let u = localhost_ws_url(port);
        let d = decimal(port as nat);
        assert(u.subrange(0, 15) =~= "ws://localhost:"@);
        assert(u.subrange(15, u.len() - 1) =~= d);
        assert forall|i: int| 15 <= i < u.len() - 1 implies '0' <= #[trigger] u[i] <= '9' by {
            assert(u[i] == d[i - 15]);
        }
    }
}

} // verus!
