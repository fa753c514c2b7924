# acala_test_support

Verified models of the fixtures that Acala's tests run on:

- `homa_mock`: the accounts, currencies and genesis balances of the homa
  validator list mock runtime, and its hooks: the slash total, the guarantee
  share ledger (`shares`), the exchange rate (`exchange_rate`) and the block
  number provider.
- `idle_mock`: the idle scheduler mock tasks and their dispatch, the relay
  chain block number read back from its SCALE-encoded storage entry, and the
  genesis that stores it.
- `bridge_weights`: the weights of the honzon bridge calls (`weight`).
- `node_config`, `test_node`: the end-to-end test node builder and the node
  settings and start mode that building it decides.

`src/` is verified with Verus; `app/` holds the thread-local state, the
conversions to Substrate types, and the directories and addresses a node is
started with.
