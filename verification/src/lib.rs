//! Verified models of the Acala test fixtures: the homa validator list mock
//! runtime hooks, the idle scheduler mock tasks, the honzon bridge weights and
//! the end-to-end test node builder.

pub mod bridge_weights;
pub mod exchange_rate;
pub mod homa_mock;
pub mod idle_mock;
pub mod node_config;
pub mod shares;
pub mod test_node;
pub mod weight;
