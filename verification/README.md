# ddc_bucket

The logic of the DDC bucket smart contract, verified with Verus: accounts
with deposits, bonds and payment flows; buckets; storage clusters with their
nodes, virtual nodes and revenues; CDN nodes and CDN clusters with their
traffic revenues; permissions; protocol and network fees; and era commits.

## Layout

- `src/` — the library. `lib.rs` holds the contract state (`DdcBucket`), the
  call environment (`Env`), the errors and the events. Each area has a
  module: `account`, `billing`, `bucket`, `cluster`, `cdn_cluster`, `node`,
  `cdn_node`, `cdn_node_tier`, `topology`, `perm`, `protocol`, `committer`,
  `admin`, `params`, `service`, `deal`, plus the value types `cash`,
  `schedule`, `currency`, `flow`, and `keymap`, the verified map the stores
  are built on.
- `tests/` — tests on concrete values, run against the compiled library.
- `app/` — the host adapter: it reads the caller, the block time and the
  transferred value from the ink! environment before each message, and
  performs the transfers that the message queued.

## How the contract meets its environment

Messages read the current call from `DdcBucket::env`, which the host sets
with `set_env`. They never transfer value themselves: `send_cash` appends a
`Transfer` to `DdcBucket::transfers`, and events are appended to
`DdcBucket::events`; the host drains both with `take_transfers` and
`take_events`.

A message that fails part way keeps the writes it made before the failure;
each contract says which.

## Design choices

- Storage. The stores are built on `keymap::KeyMap`, a map verified here
  whose view is a `Map` and whose keys keep their insertion order. Contract
  storage is the host's business: the library holds its state in memory,
  and the host persists it.
- CDN clusters price traffic with the protocol's currency converter
  (`protocol.curr_converter`) and pay the protocol fee at
  `protocol.protocol_fee_bp`; their revenue distribution pays the fees of
  `network_fee.fee_config`, which `message_admin_set_fee_config` sets.
  Storage clusters pay the fees of `protocol.network_fee_config`, which
  `message_admin_set_network_fee_config` sets.
- `message_cluster_create` creates a cluster with a resource per virtual
  node of zero; `message_cluster_reserve_resource` raises it.
- Not part of the library: starting a billing flow on a billing account
  (its schedule locking is not defined), deals over virtual nodes and the
  creation of services (both need a virtual-node store and a link from
  clusters to services, neither of which is defined).
