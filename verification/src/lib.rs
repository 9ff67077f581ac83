//! Verified core of the DDC bucket contract: accounts and deposits, buckets,
//! clusters, storage and CDN nodes, permissions, protocol fees and era commits.
//!
//! The contract's environment (caller, block time, transferred value) is read
//! from [`Env`], set by the host before each message; value transfers and
//! events are appended to outboxes that the host drains.

pub mod keymap;
pub mod cash;
pub mod schedule;
pub mod currency;
pub mod account;
pub mod billing;
pub mod flow;
pub mod perm;
pub mod protocol;
pub mod node;
pub mod cdn_node;
pub mod cdn_node_tier;
pub mod cluster;
pub mod cdn_cluster;
pub mod topology;
pub mod bucket;
pub mod buckets_perms;
pub mod committer;
pub mod admin;
pub mod contract_fee;
pub mod network_fee;
pub mod params;
pub mod service;
pub mod deal;

use vstd::prelude::*;

verus! {

/// Amounts of CERE tokens or of USD, in their smallest units.
pub type Balance = u128;

/// One CERE token in its smallest units.
pub const TOKEN: Balance = 10_000_000_000;

/// 100% in basis points.
pub const BASIS_POINTS: Balance = 10_000;

/// A 32-byte account identifier, held as two 128-bit halves.
#[derive(Clone, Copy, PartialEq, Eq, Structural, Debug, Hash, Default)]
pub struct AccountId {
    pub high: u128,
    pub low: u128,
}

impl AccountId {
    pub open spec fn zero_spec() -> AccountId {
        AccountId { high: 0, low: 0 }
    }

    /// The all-zero account.
    pub fn zero() -> (a: AccountId)
        ensures
            a == AccountId::zero_spec(),
    {
        AccountId { high: 0, low: 0 }
    }
}

impl keymap::Key for AccountId {
    fn key_eq(&self, other: &Self) -> (r: bool) {
        *self == *other
    }
}

/// A 32-byte hash, held as two 128-bit halves.
#[derive(Clone, Copy, PartialEq, Eq, Structural, Debug, Hash, Default)]
pub struct Hash {
    pub high: u128,
    pub low: u128,
}

/// The errors that the contract's messages return.
#[derive(Clone, Copy, PartialEq, Eq, Structural, Debug)]
pub enum Error {
    BucketDoesNotExist,
    ClusterDoesNotExist,
    ParamsTooBig,
    ParamsDoesNotExist,
    ParamsSizeExceedsLimit,
    NodeDoesNotExist,
    CdnNodeDoesNotExist,
    NodeAlreadyExists,
    CdnNodeAlreadyExists,
    FlowDoesNotExist,
    DealDoesNotExist,
    ServiceDoesNotExist,
    AccountDoesNotExist,
    AccountsSizeExceedsLimit,
    NodesSizeExceedsLimit,
    CdnNodesSizeExceedsLimit,
    ClustersSizeExceedsLimit,
    Unauthorized,
    UnauthorizedClusterManager,
    ClusterManagerIsNotTrusted,
    OnlyOwner,
    OnlyNodeProvider,
    OnlyCdnNodeProvider,
    OnlyClusterManager,
    OnlyTrustedClusterManager,
    OnlySuperAdmin,
    OnlyClusterManagerOrNodeProvider,
    OnlyClusterManagerOrCdnNodeProvider,
    NodeProviderIsNotSuperAdmin,
    CdnNodeOwnerIsNotSuperAdmin,
    NodeIsAddedToCluster(u32),
    CdnNodeIsAddedToCluster(u32),
    NodeIsNotAddedToCluster(u32),
    CdnNodeIsNotAddedToCluster(u32),
    ClusterIsNotEmpty,
    TopologyAlreadyExists,
    TopologyDoesNotExist,
    VNodeIsAlreadyAssignedToNode(AccountId),
    VNodeIsNotAssignedToNode(u32, u64),
    VNodeDoesNotExistsInCluster(u32),
    InsufficientBalance,
    InsufficientResources,
    InsufficientNodeResources,
    EraSettingFailed,
    BondingPeriodNotFinished,
}

/// The outcome of a message: a value or one of the contract's errors.
pub type Result<T> = core::result::Result<T, Error>;

/// Byte length of a text parameter (its UTF-8 encoding), as `usize`.
pub open spec fn text_len(s: String) -> usize {
    vstd::utf8::encode_utf8(s@).len() as usize
}

/// Byte length of a text parameter.
pub fn params_len(s: &String) -> (n: usize)
    ensures
        n == text_len(*s),
{
    s.as_str().len()
}

/// What the host tells the contract about the current call.
#[derive(Clone, Copy, PartialEq, Eq, Structural, Debug)]
pub struct Env {
    /// The account that called the message.
    pub caller: AccountId,
    /// The time of the current block, in milliseconds.
    pub block_timestamp: u64,
    /// The value transferred with the call.
    pub transferred_value: Balance,
}

/// A transfer of value from the contract that the host must perform.
#[derive(Clone, Copy, PartialEq, Eq, Structural, Debug)]
pub struct Transfer {
    pub destination: AccountId,
    pub value: Balance,
}

/// The events the contract emits.
#[derive(PartialEq, Eq, Debug)]
pub enum Event {
    Deposit { account_id: AccountId, value: Balance },
    PermissionGranted { account_id: AccountId, permission: perm::entity::Permission },
    PermissionRevoked { account_id: AccountId, permission: perm::entity::Permission },
    NodeOwnershipTransferred { account_id: AccountId, node_key: AccountId },
    CdnNodeOwnershipTransferred { account_id: AccountId, cdn_node_key: AccountId },
    BucketCreated { bucket_id: u32, owner_id: AccountId },
    BucketAllocated { bucket_id: u32, cluster_id: u32, resource: u32 },
    BucketSettlePayment { bucket_id: u32, cluster_id: u32 },
    BucketParamsSet { bucket_id: u32, bucket_params: String },
    BucketAvailabilityUpdated { bucket_id: u32, public_availability: bool },
    ClusterCreated { cluster_id: u32, manager_id: AccountId, cluster_params: String },
    CdnClusterCreated { cluster_id: u32, manager: AccountId },
    ClusterNodeAdded { cluster_id: u32, node_key: AccountId },
    ClusterNodeRemoved { cluster_id: u32, node_key: AccountId },
    ClusterNodeReplaced { cluster_id: u32, node_key: AccountId },
    ClusterNodeReset { cluster_id: u32, node_key: AccountId },
    ClusterCdnNodeAdded { cluster_id: u32, cdn_node_key: AccountId },
    ClusterCdnNodeRemoved { cluster_id: u32, cdn_node_key: AccountId },
    ClusterRemoved { cluster_id: u32 },
    ClusterNodeStatusSet { node_key: AccountId, cluster_id: u32, status: node::entity::NodeStatusInCluster },
    ClusterCdnNodeStatusSet { cdn_node_key: AccountId, cluster_id: u32, status: node::entity::NodeStatusInCluster },
    ClusterParamsSet { cluster_id: u32, cluster_params: String },
    ClusterReserveResource { cluster_id: u32, resource: u32 },
    ClusterDistributeRevenues { cluster_id: u32, provider_id: AccountId },
    ClusterDistributeCdnRevenues { cluster_id: u32, provider_id: AccountId },
    NodeCreated { node_key: AccountId, provider_id: AccountId, rent_v_node_per_month: Balance, node_params: String },
    NodeRemoved { node_key: AccountId },
    NodeParamsSet { node_key: AccountId, node_params: String },
    CdnNodeCreated { cdn_node_key: AccountId, provider_id: AccountId, cdn_node_params: String, undistributed_payment: Balance },
    CdnNodeRemoved { cdn_node_key: AccountId },
    CdnNodeParamsSet { cdn_node_key: AccountId, cdn_node_params: String },
}

/// The state of the DDC bucket contract.
pub struct DdcBucket {
    /// The current call, set by the host before each message.
    pub env: Env,
    pub buckets: bucket::store::BucketStore,
    pub clusters: cluster::store::ClusterStore,
    pub cdn_clusters: cdn_cluster::store::CdnClusterStore,
    pub nodes: node::store::NodeStore,
    pub cdn_nodes: cdn_node::store::CdnNodeStore,
    pub accounts: account::store::AccountStore,
    /// The accounts and payment flows of the billing layer.
    pub billing_accounts: billing::store::AccountStore,
    pub flows: billing::store::FlowStore,
    pub perms: perm::store::PermStore,
    pub committer: committer::store::CommitterStore,
    pub protocol: protocol::store::ProtocolStore,
    /// The fees that CDN cluster revenues pay.
    pub network_fee: network_fee::NetworkFeeStore,
    pub topology: topology::store::TopologyStore,
    /// Events emitted so far, oldest first.
    pub events: Vec<Event>,
    /// Transfers the host has yet to perform, oldest first.
    pub transfers: Vec<Transfer>,
}

/// The parts of the contract's state, to say which of them a message changes.
pub enum Part {
    Accounts,
    Billing,
    Buckets,
    Clusters,
    CdnClusters,
    Nodes,
    CdnNodes,
    Perms,
    Committer,
    Protocol,
    NetworkFee,
    Topology,
    Events,
    Transfers,
}

/// The transfers after sending `value` to `destination`: nothing is sent for zero.
pub open spec fn sent(transfers: Seq<Transfer>, destination: AccountId, value: Balance) -> Seq<Transfer> {
    if value == 0 {
        transfers
    } else {
        transfers.push(Transfer { destination, value })
    }
}

/// The total value of a sequence of transfers.
pub open spec fn total_value(transfers: Seq<Transfer>) -> int
    decreases transfers.len(),
{
    if transfers.len() == 0 {
        0
    } else {
        total_value(transfers.drop_last()) + transfers.last().value
    }
}

/// The value of two sequences of transfers, one after the other, is the sum of their values.
pub proof fn lemma_total_value_concat(a: Seq<Transfer>, b: Seq<Transfer>)
    ensures
        total_value(a + b) == total_value(a) + total_value(b),
    decreases b.len(),
{
    if b.len() == 0 {
        assert(a + b =~= a);
    } else {
        lemma_total_value_concat(a, b.drop_last());
        assert((a + b).drop_last() =~= a + b.drop_last());
    }
}

/// Sending a value adds exactly that value to the transfers.
pub proof fn lemma_total_value_sent(transfers: Seq<Transfer>, destination: AccountId, value: Balance)
    ensures
        total_value(sent(transfers, destination, value)) == total_value(transfers) + value,
{
    if value != 0 {
        assert(transfers.push(Transfer { destination, value }).drop_last() =~= transfers);
    }
}

impl DdcBucket {
    /// Every part of the state outside `changed` is as in `before`, and so is the call.
    pub open spec fn only_changed(&self, before: &DdcBucket, changed: Set<Part>) -> bool {
        &&& self.env == before.env
        &&& !changed.contains(Part::Accounts) ==> self.accounts == before.accounts
        &&& !changed.contains(Part::Billing) ==> self.billing_accounts == before.billing_accounts && self.flows == before.flows
        &&& !changed.contains(Part::Buckets) ==> self.buckets == before.buckets
        &&& !changed.contains(Part::Clusters) ==> self.clusters == before.clusters
        &&& !changed.contains(Part::CdnClusters) ==> self.cdn_clusters == before.cdn_clusters
        &&& !changed.contains(Part::Nodes) ==> self.nodes == before.nodes
        &&& !changed.contains(Part::CdnNodes) ==> self.cdn_nodes == before.cdn_nodes
        &&& !changed.contains(Part::Perms) ==> self.perms == before.perms
        &&& !changed.contains(Part::Committer) ==> self.committer == before.committer
        &&& !changed.contains(Part::Protocol) ==> self.protocol == before.protocol
        &&& !changed.contains(Part::NetworkFee) ==> self.network_fee == before.network_fee
        &&& !changed.contains(Part::Topology) ==> self.topology == before.topology
        &&& !changed.contains(Part::Events) ==> self.events == before.events
        &&& !changed.contains(Part::Transfers) ==> self.transfers == before.transfers
    }

    /// The account that called the current message.
    pub open spec fn caller(&self) -> AccountId {
        self.env.caller
    }

    /// A contract whose deployer, the caller of `env`, is super admin and
    /// era operator, and receives the protocol fees.
    pub fn new(env: Env) -> (c: DdcBucket)
        ensures
            c.env == env,
            c.perms.granted() == Set::<perm::entity::PermKey>::empty().insert(
                perm::entity::perm_key(env.caller, perm::entity::Permission::SuperAdmin),
            ),
            c.committer.operator_id == env.caller,
            c.committer.commits@ == Map::<AccountId, Vec<(AccountId, committer::store::Commit)>>::empty(),
            c.committer.validated_commits@ == Map::<AccountId, committer::store::EraAndTimestamp>::empty(),
            c.committer.era_settings == (committer::store::EraConfig {
                start: 0,
                interval: 0,
                commit_duration: 0,
                validation_duration: 0,
            }),
            c.protocol == (protocol::store::ProtocolStore {
                protocol_fee_bp: 0,
                protocol_fee_destination: env.caller,
                revenues: cash::Cash(0),
                curr_converter: currency::CurrencyConverter::new_spec(),
                network_fee_config: protocol::store::NetworkFeeConfig {
                    network_fee_bp: 0,
                    network_fee_destination: AccountId::zero_spec(),
                    cluster_management_fee_bp: 0,
                },
            }),
            c.network_fee.fee_config == (network_fee::FeeConfig {
                network_fee_bp: 0,
                network_fee_destination: AccountId::zero_spec(),
                cluster_management_fee_bp: 0,
            }),
            c.accounts.wf(),
            c.accounts@ == Map::<AccountId, account::entity::Account>::empty(),
            c.accounts.accounts_keys@ == Seq::<AccountId>::empty(),
            c.billing_accounts@ == Map::<AccountId, billing::account::BillingAccount>::empty(),
            c.flows@ == Seq::<billing::flow::BillingFlow>::empty(),
            c.clusters.wf(),
            c.clusters@ == Map::<u32, cluster::entity::ClusterView>::empty(),
            c.clusters.next_cluster_id == 0,
            c.clusters.clusters_ids@ == Seq::<u32>::empty(),
            c.cdn_clusters@ == Seq::<cdn_cluster::entity::CdnClusterView>::empty(),
            c.buckets.next_bucket_id == 0,
            c.buckets.wf(),
            c.buckets.buckets@ == Map::<u32, bucket::entity::Bucket>::empty(),
            forall|k: u32| c.buckets.writers_of(k) == Seq::<AccountId>::empty() && c.buckets.readers_of(k) == Seq::<AccountId>::empty(),
            c.nodes.nodes@ == Map::<AccountId, node::entity::Node>::empty(),
            c.nodes.keys@ == Seq::<AccountId>::empty(),
            c.nodes.wf(),
            c.cdn_nodes.cdn_nodes@ == Map::<AccountId, cdn_node::entity::CdnNode>::empty(),
            c.cdn_nodes.keys@ == Seq::<AccountId>::empty(),
            c.cdn_nodes.wf(),
            c.topology.node_lists() == Map::<AccountId, Seq<topology::store::VNodeToken>>::empty(),
            c.topology.assignment() == Map::<topology::store::ClusterVNode, AccountId>::empty(),
            c.topology.cluster_lists() == Map::<u32, Seq<topology::store::VNodeToken>>::empty(),
            c.events@ == Seq::<Event>::empty(),
            c.transfers@ == Seq::<Transfer>::empty(),
    {
        let mut perms = perm::store::PermStore::new();
        perms.grant_permission(env.caller, perm::entity::Permission::SuperAdmin);
        let mut committer = committer::store::CommitterStore::new();
        committer.init(env.caller);
        let mut protocol = protocol::store::ProtocolStore::new();
        protocol.init(0, env.caller, 0, AccountId::zero(), 0);
        DdcBucket {
            env,
            buckets: bucket::store::BucketStore::new(),
            clusters: cluster::store::ClusterStore::new(),
            cdn_clusters: cdn_cluster::store::CdnClusterStore::new(),
            nodes: node::store::NodeStore::new(),
            cdn_nodes: cdn_node::store::CdnNodeStore::new(),
            accounts: account::store::AccountStore::new(),
            billing_accounts: billing::store::AccountStore::new(),
            flows: billing::store::FlowStore::new(),
            perms,
            committer,
            protocol,
            network_fee: network_fee::NetworkFeeStore::new(),
            topology: topology::store::TopologyStore::new(),
            events: Vec::new(),
            transfers: Vec::new(),
        }
    }

    /// Sets what the host tells about the next call.
    pub fn set_env(&mut self, env: Env)
        ensures
            final(self).env == env,
            final(self).buckets == old(self).buckets,
            final(self).clusters == old(self).clusters,
            final(self).cdn_clusters == old(self).cdn_clusters,
            final(self).nodes == old(self).nodes,
            final(self).cdn_nodes == old(self).cdn_nodes,
            final(self).accounts == old(self).accounts,
            final(self).billing_accounts == old(self).billing_accounts,
            final(self).flows == old(self).flows,
            final(self).perms == old(self).perms,
            final(self).committer == old(self).committer,
            final(self).protocol == old(self).protocol,
            final(self).network_fee == old(self).network_fee,
            final(self).topology == old(self).topology,
            final(self).events == old(self).events,
            final(self).transfers == old(self).transfers,
    {
        self.env = env;
    }

    /// The value transferred with the current call.
    pub fn receive_cash(&self) -> (c: cash::Cash)
        ensures
            c.0 == self.env.transferred_value,
    {
        cash::Cash(self.env.transferred_value)
    }

    /// Sends cash to an account; nothing is sent for zero.
    pub fn send_cash(&mut self, destination: AccountId, cash: cash::Cash) -> (r: Result<()>)
        ensures
            r == Ok::<(), Error>(()),
            final(self).transfers@ == sent(old(self).transfers@, destination, cash.0),
            final(self).only_changed(old(self), set![Part::Transfers]),
    {
        if cash.peek() == 0 {
            return Ok(());
        }
        self.transfers.push(Transfer { destination, value: cash.consume() });
        Ok(())
    }

    /// Takes the outstanding transfers, leaving none.
    pub fn take_transfers(&mut self) -> (t: Vec<Transfer>)
        ensures
            t@ == old(self).transfers@,
            final(self).transfers@ == Seq::<Transfer>::empty(),
    {
        let mut t = Vec::new();
        std::mem::swap(&mut t, &mut self.transfers);
        t
    }

    /// Takes the events emitted so far, leaving none.
    pub fn take_events(&mut self) -> (e: Vec<Event>)
        ensures
            e@ == old(self).events@,
            final(self).events@ == Seq::<Event>::empty(),
    {
        let mut e = Vec::new();
        std::mem::swap(&mut e, &mut self.events);
        e
    }
}

} // verus!
