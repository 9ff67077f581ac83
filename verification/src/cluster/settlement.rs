//! What putting CDN revenues into a cluster does, step by step: charge the
//! accounts of the clients, credit the CDN nodes and the protocol, and deduct
//! the consumption from the buckets.

use vstd::prelude::*;
use crate::{AccountId, Balance, BASIS_POINTS, Error, Result, Transfer, lemma_total_value_sent, sent, total_value};
use crate::account::entity::Account;
use crate::bucket::entity::{Bucket, BucketId};
use crate::cdn_node::entity::{CdnNode, CdnNodeKey};
use crate::currency::{PRECISION, cere_of};
use crate::node::entity::Resource;
use super::entity::KB_PER_GB;

verus! {

/// The price in USD of `used` KB of CDN traffic at `usd_per_gb`.
pub open spec fn usage_usd(used: u128, usd_per_gb: Balance) -> int {
    used * usd_per_gb / (KB_PER_GB as int)
}

/// The price in CERE of `used` KB of CDN traffic at `usd_per_gb`, at the
/// exchange rate `rate`.
pub open spec fn usage_cere(used: u128, usd_per_gb: Balance, rate: int) -> int {
    cere_of(rate, usage_usd(used, usd_per_gb))
}

/// Whether pricing `used` KB neither overflows nor divides by zero.
pub open spec fn priceable(used: u128, usd_per_gb: Balance, rate: int) -> bool {
    &&& used * usd_per_gb <= u128::MAX
    &&& rate > 0
    &&& usage_usd(used, usd_per_gb) * PRECISION <= u128::MAX
}

/// What each client owes for its traffic, in CERE.
pub open spec fn account_charges(usage: Seq<(AccountId, u128)>, usd_per_gb: Balance, rate: int) -> Seq<(AccountId, Balance)> {
    Seq::new(usage.len(), |i: int| (usage[i].0, usage_cere(usage[i].1, usd_per_gb, rate) as u128))
}

/// The accounts after each charge, in order, is paid from the bonded funds
/// of its account; a client without an account stops it.
pub open spec fn charge_accounts(accounts: Map<AccountId, Account>, charges: Seq<(AccountId, Balance)>) -> (Result<()>, Map<AccountId, Account>)
    decreases charges.len(),
{
    if charges.len() == 0 {
        (Ok(()), accounts)
    } else if !accounts.contains_key(charges[0].0) {
        (Err(Error::InsufficientBalance), accounts)
    } else {
        charge_accounts(
            accounts.insert(charges[0].0, accounts[charges[0].0].bonded_paid(charges[0].1)),
            charges.drop_first(),
        )
    }
}

/// Charging accounts only changes accounts that exist: the set of
/// accounts stays as it was.
pub proof fn lemma_charge_accounts_keeps_accounts(accounts: Map<AccountId, Account>, charges: Seq<(AccountId, Balance)>)
    ensures
        charge_accounts(accounts, charges).1.dom() == accounts.dom(),
    decreases charges.len(),
{
    if charges.len() > 0 && accounts.contains_key(charges[0].0) {
        let next = accounts.insert(charges[0].0, accounts[charges[0].0].bonded_paid(charges[0].1));
        lemma_charge_accounts_keeps_accounts(next, charges.drop_first());
        assert(next.dom() =~= accounts.dom());
    }
}

/// Charging one client takes the charge from its bonded funds; what its
/// bonded funds not being unbonded do not cover becomes debt in its negative
/// balance. No other account changes; a client without an account is refused.
pub proof fn lemma_charge_one_client(accounts: Map<AccountId, Account>, client: AccountId, p: Balance)
    requires
        accounts.contains_key(client) ==> charges_fit(accounts, seq![(client, p)], 0),
    ensures
        !accounts.contains_key(client) ==> charge_accounts(accounts, seq![(client, p)]) == (
        Err::<(), Error>(Error::InsufficientBalance),
        accounts,
        ),
        accounts.contains_key(client) ==> ({
            let (r, after) = charge_accounts(accounts, seq![(client, p)]);
            let a = accounts[client];
            let remaining = a.bonded.0 - a.unbonded_amount.0;
            &&& r == Ok::<(), Error>(())
            &&& after.dom() == accounts.dom()
            &&& forall|k: AccountId| k != client && #[trigger] accounts.contains_key(k) ==> after[k] == accounts[k]
            &&& after[client].bonded.0 == a.bonded.0 - p
            &&& after[client].negative.0 == a.negative.0 + if p > remaining { p - remaining } else { 0 }
            &&& after[client].deposit == a.deposit
            &&& after[client].unbonded_amount == a.unbonded_amount
        }),
{
    let charges = seq![(client, p)];
    if accounts.contains_key(client) {
        assert(charges[0] == (client, p));
        assert(charges.drop_first() =~= Seq::<(AccountId, Balance)>::empty());
        let next = accounts.insert(client, accounts[client].bonded_paid(p));
        assert(charge_accounts(accounts, charges) == charge_accounts(next, charges.drop_first()));
        assert(next.dom() =~= accounts.dom());
    } else {
        assert(charges[0] == (client, p));
    }
}

/// Whether no charge reached by `charge_accounts` overflows or takes more
/// than is bonded, with `total` charged before.
pub open spec fn charges_fit(accounts: Map<AccountId, Account>, charges: Seq<(AccountId, Balance)>, total: int) -> bool
    decreases charges.len(),
{
    if charges.len() == 0 || !accounts.contains_key(charges[0].0) {
        true
    } else {
        let a = accounts[charges[0].0];
        let p = charges[0].1;
        &&& a.bonded.0 >= a.unbonded_amount.0
        &&& a.bonded.0 >= p
        &&& a.remaining_bonded() < p ==> a.negative.0 + p - a.remaining_bonded() <= u128::MAX
        &&& total + p <= u128::MAX
        &&& charges_fit(accounts.insert(charges[0].0, a.bonded_paid(p)), charges.drop_first(), total + p)
    }
}

/// The share of a payment that goes to the CDN node, the rest going to the
/// protocol.
pub open spec fn node_share(payment: int, protocol_fee_bp: int) -> int {
    payment * (BASIS_POINTS - protocol_fee_bp) / (BASIS_POINTS as int)
}

/// What crediting the CDN nodes changes.
pub struct CdnSettlement {
    pub cdn_nodes: Map<CdnNodeKey, CdnNode>,
    pub protocol_revenues: int,
    pub validated: Map<CdnNodeKey, (u64, u64)>,
    pub cluster_payment: int,
}

/// The state after each CDN node of `usage`, in order, is credited its share
/// of the price of its traffic, the protocol gets the rest, and the commit
/// of the node is marked validated; a missing CDN node stops it.
pub open spec fn settle_cdn_nodes(
    s: CdnSettlement,
    usage: Seq<(CdnNodeKey, u128)>,
    usd_per_gb: Balance,
    rate: int,
    protocol_fee_bp: int,
    commit: (u64, u64),
) -> (Result<()>, CdnSettlement)
    decreases usage.len(),
{
    if usage.len() == 0 {
        (Ok(()), s)
    } else if !s.cdn_nodes.contains_key(usage[0].0) {
        (Err(Error::CdnNodeDoesNotExist), s)
    } else {
        let k = usage[0].0;
        let n = s.cdn_nodes[k];
        let payment = usage_cere(usage[0].1, usd_per_gb, rate);
        let share = node_share(payment, protocol_fee_bp);
        settle_cdn_nodes(
            CdnSettlement {
                cdn_nodes: s.cdn_nodes.insert(k, CdnNode { undistributed_payment: (n.undistributed_payment + share) as u128, ..n }),
                protocol_revenues: s.protocol_revenues + (payment - share),
                validated: s.validated.insert(k, commit),
                cluster_payment: s.cluster_payment + share,
            },
            usage.drop_first(),
            usd_per_gb,
            rate,
            protocol_fee_bp,
            commit,
        )
    }
}

/// Whether no step reached by `settle_cdn_nodes` overflows, divides by zero
/// or has a protocol fee above 100%; `commit_fits` says whether the commit
/// timestamp can be computed.
pub open spec fn settlement_fits(
    s: CdnSettlement,
    usage: Seq<(CdnNodeKey, u128)>,
    usd_per_gb: Balance,
    rate: int,
    protocol_fee_bp: int,
    commit: (u64, u64),
    commit_fits: bool,
) -> bool
    decreases usage.len(),
{
    if usage.len() == 0 || !s.cdn_nodes.contains_key(usage[0].0) {
        true
    } else {
        let k = usage[0].0;
        let n = s.cdn_nodes[k];
        let payment = usage_cere(usage[0].1, usd_per_gb, rate);
        let share = node_share(payment, protocol_fee_bp);
        &&& priceable(usage[0].1, usd_per_gb, rate)
        &&& protocol_fee_bp <= BASIS_POINTS
        &&& payment * (BASIS_POINTS - protocol_fee_bp) <= u128::MAX
        &&& n.undistributed_payment + share <= u128::MAX
        &&& s.protocol_revenues + (payment - share) <= u128::MAX
        &&& commit_fits
        &&& s.cluster_payment + share <= u128::MAX
        &&& settlement_fits(
            CdnSettlement {
                cdn_nodes: s.cdn_nodes.insert(k, CdnNode { undistributed_payment: (n.undistributed_payment + share) as u128, ..n }),
                protocol_revenues: s.protocol_revenues + (payment - share),
                validated: s.validated.insert(k, commit),
                cluster_payment: s.cluster_payment + share,
            },
            usage.drop_first(),
            usd_per_gb,
            rate,
            protocol_fee_bp,
            commit,
            commit_fits,
        )
    }
}

/// The buckets after each consumption of `usage`, in order, is deducted from
/// the bucket's consumption cap where the cap does not exceed it; a missing
/// bucket stops it.
pub open spec fn deduct_buckets(buckets: Map<BucketId, Bucket>, usage: Seq<(BucketId, Resource)>) -> (Result<()>, Map<BucketId, Bucket>)
    decreases usage.len(),
{
    if usage.len() == 0 {
        (Ok(()), buckets)
    } else if !buckets.contains_key(usage[0].0) {
        (Err(Error::BucketDoesNotExist), buckets)
    } else {
        let b = buckets[usage[0].0];
        if b.resource_consumption_cap <= usage[0].1 {
            deduct_buckets(
                buckets.insert(
                    usage[0].0,
                    Bucket { resource_consumption_cap: (b.resource_consumption_cap - usage[0].1) as u32, ..b },
                ),
                usage.drop_first(),
            )
        } else {
            deduct_buckets(buckets, usage.drop_first())
        }
    }
}

/// Deducting consumption changes no bucket id.
pub proof fn lemma_deduct_buckets_keeps_ids(buckets: Map<BucketId, Bucket>, usage: Seq<(BucketId, Resource)>)
    ensures
        deduct_buckets(buckets, usage).1.dom() == buckets.dom(),
    decreases usage.len(),
{
    if usage.len() > 0 && buckets.contains_key(usage[0].0) {
        let b = buckets[usage[0].0];
        if b.resource_consumption_cap <= usage[0].1 {
            let next = buckets.insert(
                usage[0].0,
                Bucket { resource_consumption_cap: (b.resource_consumption_cap - usage[0].1) as u32, ..b },
            );
            lemma_deduct_buckets_keeps_ids(next, usage.drop_first());
            assert(next.dom() =~= buckets.dom());
        } else {
            lemma_deduct_buckets_keeps_ids(buckets, usage.drop_first());
        }
    }
}

/// Whether no deduction reached by `deduct_buckets` goes below zero: a cap
/// below the consumption.
pub open spec fn deductions_fit(buckets: Map<BucketId, Bucket>, usage: Seq<(BucketId, Resource)>) -> bool
    decreases usage.len(),
{
    if usage.len() == 0 || !buckets.contains_key(usage[0].0) {
        true
    } else {
        let b = buckets[usage[0].0];
        &&& b.resource_consumption_cap >= usage[0].1
        &&& if b.resource_consumption_cap <= usage[0].1 {
            deductions_fit(
                buckets.insert(
                    usage[0].0,
                    Bucket { resource_consumption_cap: (b.resource_consumption_cap - usage[0].1) as u32, ..b },
                ),
                usage.drop_first(),
            )
        } else {
            deductions_fit(buckets, usage.drop_first())
        }
    }
}

/// What the CDN nodes of `keys` have been credited and not yet paid, in total.
pub open spec fn undistributed_total(cdn_nodes: Map<CdnNodeKey, CdnNode>, keys: Seq<CdnNodeKey>) -> int
    decreases keys.len(),
{
    if keys.len() == 0 {
        0
    } else {
        undistributed_total(cdn_nodes, keys.drop_last()) + cdn_nodes[keys.last()].undistributed_payment
    }
}

/// The CDN nodes, transfers and paid providers after the provider of each
/// CDN node of `keys`, in order, is paid what the node was credited, which
/// is then cleared; each paid provider is added to `paid`.
pub open spec fn pay_out_cdn_nodes(
    cdn_nodes: Map<CdnNodeKey, CdnNode>,
    keys: Seq<CdnNodeKey>,
    transfers: Seq<Transfer>,
    paid: Seq<AccountId>,
) -> (Map<CdnNodeKey, CdnNode>, Seq<Transfer>, Seq<AccountId>)
    decreases keys.len(),
{
    if keys.len() == 0 {
        (cdn_nodes, transfers, paid)
    } else {
        let n = cdn_nodes[keys[0]];
        pay_out_cdn_nodes(
            cdn_nodes.insert(keys[0], CdnNode { undistributed_payment: 0, ..n }),
            keys.drop_first(),
            sent(transfers, n.provider_id, n.undistributed_payment),
            paid.push(n.provider_id),
        )
    }
}

/// The price of the traffic of the CDN nodes in `usage`, in total.
pub open spec fn usage_total(usage: Seq<(CdnNodeKey, u128)>, usd_per_gb: Balance, rate: int) -> int
    decreases usage.len(),
{
    if usage.len() == 0 {
        0
    } else {
        usage_cere(usage[0].1, usd_per_gb, rate) + usage_total(usage.drop_first(), usd_per_gb, rate)
    }
}

/// Crediting CDN nodes neither creates nor loses value: what the protocol
/// and the cluster get, together, is the price of the traffic.
pub proof fn lemma_settlement_conserves(
    s: CdnSettlement,
    usage: Seq<(CdnNodeKey, u128)>,
    usd_per_gb: Balance,
    rate: int,
    protocol_fee_bp: int,
    commit: (u64, u64),
)
    requires
        settle_cdn_nodes(s, usage, usd_per_gb, rate, protocol_fee_bp, commit).0 is Ok,
    ensures
        ({
            let s1 = settle_cdn_nodes(s, usage, usd_per_gb, rate, protocol_fee_bp, commit).1;
            (s1.protocol_revenues - s.protocol_revenues) + (s1.cluster_payment - s.cluster_payment)
                == usage_total(usage, usd_per_gb, rate)
        }),
    decreases usage.len(),
{
    if usage.len() > 0 {
        let k = usage[0].0;
        let n = s.cdn_nodes[k];
        let payment = usage_cere(usage[0].1, usd_per_gb, rate);
        let share = node_share(payment, protocol_fee_bp);
        lemma_settlement_conserves(
            CdnSettlement {
                cdn_nodes: s.cdn_nodes.insert(k, CdnNode { undistributed_payment: (n.undistributed_payment + share) as u128, ..n }),
                protocol_revenues: s.protocol_revenues + (payment - share),
                validated: s.validated.insert(k, commit),
                cluster_payment: s.cluster_payment + share,
            },
            usage.drop_first(),
            usd_per_gb,
            rate,
            protocol_fee_bp,
            commit,
        );
    }
}

/// The credited total of `keys`, taken from the first key on.
proof fn lemma_undistributed_total_first(cdn_nodes: Map<CdnNodeKey, CdnNode>, keys: Seq<CdnNodeKey>)
    requires
        keys.len() > 0,
    ensures
        undistributed_total(cdn_nodes, keys) == cdn_nodes[keys[0]].undistributed_payment
            + undistributed_total(cdn_nodes, keys.drop_first()),
    decreases keys.len(),
{
    if keys.len() > 1 {
        lemma_undistributed_total_first(cdn_nodes, keys.drop_last());
        assert(keys.drop_last().drop_first() =~= keys.drop_first().drop_last());
        assert(keys.drop_first().last() == keys.last());
        assert(keys.drop_last()[0] == keys[0]);
        assert(undistributed_total(cdn_nodes, keys.drop_first()) == undistributed_total(cdn_nodes, keys.drop_first().drop_last())
            + cdn_nodes[keys.drop_first().last()].undistributed_payment);
    } else {
        assert(keys.drop_first().len() == 0);
        assert(keys.drop_last().len() == 0);
        assert(keys.last() == keys[0]);
        assert(undistributed_total(cdn_nodes, keys.drop_last()) == 0);
    }
}

/// The credited total of keys that do not include `k` does not depend on
/// the record of `k`.
proof fn lemma_undistributed_total_other(cdn_nodes: Map<CdnNodeKey, CdnNode>, keys: Seq<CdnNodeKey>, k: CdnNodeKey, n: CdnNode)
    requires
        !keys.contains(k),
    ensures
        undistributed_total(cdn_nodes.insert(k, n), keys) == undistributed_total(cdn_nodes, keys),
    decreases keys.len(),
{
    if keys.len() > 0 {
        assert(keys.last() != k) by {
            assert(keys.contains(keys.last()));
        }
        assert forall|j: int| 0 <= j < keys.drop_last().len() implies keys.drop_last()[j] != k by {
            assert(keys.contains(keys[j]));
        }
        lemma_undistributed_total_other(cdn_nodes, keys.drop_last(), k, n);
    }
}

/// Paying out CDN nodes with distinct keys, all known, sends exactly what
/// they were credited, in total.
pub proof fn lemma_pay_out_conserves(
    cdn_nodes: Map<CdnNodeKey, CdnNode>,
    keys: Seq<CdnNodeKey>,
    transfers: Seq<Transfer>,
    paid: Seq<AccountId>,
)
    requires
        forall|i: int| 0 <= i < keys.len() ==> cdn_nodes.contains_key(#[trigger] keys[i]),
        keys.no_duplicates(),
    ensures
        total_value(pay_out_cdn_nodes(cdn_nodes, keys, transfers, paid).1)
            == total_value(transfers) + undistributed_total(cdn_nodes, keys),
    decreases keys.len(),
{
    if keys.len() > 0 {
        let k = keys[0];
        let n = cdn_nodes[k];
        let rest = keys.drop_first();
        let cleared = cdn_nodes.insert(k, CdnNode { undistributed_payment: 0, ..n });
        assert(!rest.contains(k)) by {
            if rest.contains(k) {
                let j = choose|j: int| 0 <= j < rest.len() && rest[j] == k;
                assert(keys[j + 1] == keys[0]);
            }
        }
        assert forall|i: int| 0 <= i < rest.len() implies cleared.contains_key(#[trigger] rest[i]) by {
            assert(keys[i + 1] == rest[i]);
        }
        assert(rest.no_duplicates()) by {
            assert forall|i: int, j: int| 0 <= i < rest.len() && 0 <= j < rest.len() && i != j implies rest[i] != rest[j] by {
                assert(rest[i] == keys[i + 1] && rest[j] == keys[j + 1]);
            }
        }
        lemma_pay_out_conserves(cleared, rest, sent(transfers, n.provider_id, n.undistributed_payment), paid.push(n.provider_id));
        lemma_total_value_sent(transfers, n.provider_id, n.undistributed_payment);
        lemma_undistributed_total_other(cdn_nodes, rest, k, CdnNode { undistributed_payment: 0, ..n });
        lemma_undistributed_total_first(cdn_nodes, keys);
    }
}

} // verus!
