//! The store of commits, validated commits and era settings.

use vstd::prelude::*;
use crate::AccountId;
use crate::cdn_node::entity::CdnNodeKey;
use crate::keymap::KeyMap;

verus! {

#[derive(Clone, Copy, PartialEq, Eq, Structural, Debug)]
pub enum Error {
    /// The caller is not the authorised operator of the smart contract.
    UnauthorizedOperator,
}

/// Within an era, the phase that interested agents are told about.
#[derive(Clone, Copy, PartialEq, Eq, Structural, Debug)]
pub enum Phase {
    Commit,
    Valiadation,
    Payout,
}

#[derive(Clone, Copy, PartialEq, Eq, Structural, Debug)]
pub struct EraStatus {
    pub current_era: u64,
    pub current_phase: Phase,
    pub previous_era: u64,
    pub prev_era_from_timestamp: u64,
    pub prev_era_to_timestamp: u64,
}

#[derive(Clone, Copy, PartialEq, Eq, Structural, Debug)]
pub struct Commit {
    pub hash: crate::Hash,
    pub total_logs: u128,
    pub from_timestamp: u64,
    pub to_timestamp: u64,
}

#[derive(Clone, Copy, PartialEq, Eq, Structural, Debug, Default)]
pub struct EraConfig {
    pub start: u64,
    pub interval: u64,
    pub commit_duration: u64,
    pub validation_duration: u64,
}

/// The era and the timestamp at which it ended.
pub type EraAndTimestamp = (u64, u64);

pub struct CommitterStore {
    pub operator_id: AccountId,
    pub commits: KeyMap<AccountId, Vec<(CdnNodeKey, Commit)>>,
    pub validated_commits: KeyMap<CdnNodeKey, EraAndTimestamp>,
    pub era_settings: EraConfig,
}

/// `s` without its first entry for `key`, if there is one.
pub open spec fn without_key(s: Seq<(CdnNodeKey, Commit)>, key: CdnNodeKey) -> Seq<(CdnNodeKey, Commit)> {
    if exists|i: int| 0 <= i < s.len() && s[i].0 == key {
        s.remove(choose|i: int| 0 <= i < s.len() && s[i].0 == key && forall|j: int| 0 <= j < i ==> s[j].0 != key)
    } else {
        s
    }
}

/// The phase at a point `elapsed` into an era.
pub open spec fn phase_at(cfg: EraConfig, elapsed: int) -> Phase {
    if elapsed < cfg.commit_duration {
        Phase::Commit
    } else if elapsed < cfg.validation_duration + cfg.commit_duration {
        Phase::Valiadation
    } else {
        Phase::Payout
    }
}

fn copy_commits(v: &Vec<(CdnNodeKey, Commit)>) -> (r: Vec<(CdnNodeKey, Commit)>)
    ensures
        r@ == v@,
{
    let mut r: Vec<(CdnNodeKey, Commit)> = Vec::new();
    let mut i: usize = 0;
    while i < v.len()
        invariant
            i <= v@.len(),
            r@ == v@.take(i as int),
        decreases v@.len() - i,
    {
        let e = v[i];
        r.push(e);
        assert(v@.take(i + 1) =~= v@.take(i as int).push(v@[i as int]));
        i = i + 1;
    }
    assert(v@.take(v@.len() as int) =~= v@);
    r
}

/// The position of the first entry for `key`, if any.
fn find_commit(v: &Vec<(CdnNodeKey, Commit)>, key: CdnNodeKey) -> (r: Option<usize>)
    ensures
        match r {
            Some(i) => i < v@.len() && v@.remove(i as int) == without_key(v@, key),
            None => v@ == without_key(v@, key),
        },
{
    let mut i: usize = 0;
    while i < v.len()
        invariant
            i <= v@.len(),
            forall|j: int| 0 <= j < i ==> v@[j].0 != key,
        decreases v@.len() - i,
    {
        if v[i].0 == key {
            proof {
                let ii = i as int;
                assert(0 <= ii < v@.len() && v@[ii].0 == key && forall|j: int| 0 <= j < ii ==> v@[j].0 != key);
                let c = choose|k: int| 0 <= k < v@.len() && v@[k].0 == key && forall|j: int| 0 <= j < k ==> v@[j].0 != key;
                if c < ii {
                    assert(false);
                }
                if c > ii {
                    assert(v@[ii].0 != key);
                }
            }
            return Some(i);
        }
        i = i + 1;
    }
    None
}

impl CommitterStore {
    /// The commits of a CDN owner, empty when there are none.
    pub open spec fn commits_of(&self, owner: AccountId) -> Seq<(CdnNodeKey, Commit)> {
        if self.commits@.contains_key(owner) {
            self.commits@[owner]@
        } else {
            Seq::empty()
        }
    }

    pub fn new() -> (s: CommitterStore)
        ensures
            s.operator_id == AccountId::zero_spec(),
            s.commits@ == Map::<AccountId, Vec<(CdnNodeKey, Commit)>>::empty(),
            s.validated_commits@ == Map::<CdnNodeKey, EraAndTimestamp>::empty(),
            s.era_settings == (EraConfig { start: 0, interval: 0, commit_duration: 0, validation_duration: 0 }),
    {
        CommitterStore {
            operator_id: AccountId::zero(),
            commits: KeyMap::new(),
            validated_commits: KeyMap::new(),
            era_settings: EraConfig { start: 0, interval: 0, commit_duration: 0, validation_duration: 0 },
        }
    }

    pub fn init(&mut self, operator_id: AccountId)
        ensures
            final(self).operator_id == operator_id,
            final(self).commits@ == old(self).commits@,
            final(self).validated_commits@ == old(self).validated_commits@,
            final(self).era_settings == old(self).era_settings,
    {
        self.operator_id = operator_id;
    }

    /// Records the latest commit of a CDN node, replacing the previous one.
    pub fn set_commit(&mut self, cdn_owner: AccountId, cdn_node_key: CdnNodeKey, commit: Commit)
        ensures
            forall|o: AccountId| #[trigger] final(self).commits_of(o) == if o == cdn_owner {
                without_key(old(self).commits_of(cdn_owner), cdn_node_key).push((cdn_node_key, commit))
            } else {
                old(self).commits_of(o)
            },
            final(self).commits@.dom() == old(self).commits@.dom().insert(cdn_owner),
            final(self).operator_id == old(self).operator_id,
            final(self).validated_commits@ == old(self).validated_commits@,
            final(self).era_settings == old(self).era_settings,
    {
        let mut account_commits = match self.commits.get(&cdn_owner) {
            Some(c) => copy_commits(c),
            None => Vec::new(),
        };
        let ghost before = account_commits@;
        match find_commit(&account_commits, cdn_node_key) {
            Some(index) => {
                account_commits.remove(index);
            },
            None => {},
        }
        assert(account_commits@ == without_key(before, cdn_node_key));
        account_commits.push((cdn_node_key, commit));
        self.commits.insert(cdn_owner, account_commits);
    }

    pub fn get_commit(&self, cdn_owner: AccountId) -> (r: Vec<(CdnNodeKey, Commit)>)
        ensures
            r@ == self.commits_of(cdn_owner),
    {
        match self.commits.get(&cdn_owner) {
            Some(c) => copy_commits(c),
            None => Vec::new(),
        }
    }

    /// Records the last validated era of a CDN node, with the time it ended.
    pub fn set_validated_commit(&mut self, cdn_node_key: CdnNodeKey, era: u64) -> (r: Result<(), Error>)
        requires
            era + 1 <= u64::MAX,
            old(self).era_settings.start + old(self).era_settings.interval * (era + 1) <= u64::MAX,
        ensures
            r == Ok::<(), Error>(()),
            final(self).validated_commits@ == old(self).validated_commits@.insert(
                cdn_node_key,
                (era, (old(self).era_settings.start + old(self).era_settings.interval * (era + 1)) as u64),
            ),
            final(self).operator_id == old(self).operator_id,
            final(self).commits@ == old(self).commits@,
            final(self).era_settings == old(self).era_settings,
    {
        assert(0 <= self.era_settings.interval * (era + 1)) by (nonlinear_arith);
        let prev_era_to_timestamp = self.era_settings.start + self.era_settings.interval * (era + 1);
        self.validated_commits.insert(cdn_node_key, (era, prev_era_to_timestamp));
        Ok(())
    }

    /// The last validated era and timestamp of a CDN node, or zeros.
    pub fn get_validate_commit(&self, cdn_node_key: CdnNodeKey) -> (r: EraAndTimestamp)
        ensures
            r == if self.validated_commits@.contains_key(cdn_node_key) {
                self.validated_commits@[cdn_node_key]
            } else {
                (0u64, 0u64)
            },
    {
        match self.validated_commits.get(&cdn_node_key) {
            Some(v) => *v,
            None => (0, 0),
        }
    }

    pub fn only_owner(&self, operator_id: AccountId) -> (r: Result<(), Error>)
        ensures
            r == if self.operator_id == operator_id { Ok::<(), Error>(()) } else { Err(Error::UnauthorizedOperator) },
    {
        if self.operator_id == operator_id {
            Ok(())
        } else {
            Err(Error::UnauthorizedOperator)
        }
    }

    pub fn set_era(&mut self, caller: AccountId, era_config: EraConfig) -> (r: Result<(), Error>)
        ensures
            caller == old(self).operator_id ==> r == Ok::<(), Error>(()) && final(self).era_settings == era_config,
            caller != old(self).operator_id ==> r == Err::<(), Error>(Error::UnauthorizedOperator)
                && final(self).era_settings == old(self).era_settings,
            final(self).operator_id == old(self).operator_id,
            final(self).commits@ == old(self).commits@,
            final(self).validated_commits@ == old(self).validated_commits@,
    {
        match self.only_owner(caller) {
            Ok(()) => {},
            Err(e) => return Err(e),
        }
        self.era_settings = era_config;
        Ok(())
    }

    /// The current era, its phase, and the bounds of the previous era.
    pub fn get_era(&self, timestamp: u64) -> (s: EraStatus)
        requires
            self.era_settings.interval > 0,
            timestamp >= self.era_settings.start + self.era_settings.interval,
            (timestamp - self.era_settings.start) % (self.era_settings.interval as int) >= self.era_settings.commit_duration
                ==> self.era_settings.validation_duration + self.era_settings.commit_duration <= u64::MAX,
            self.era_settings.start + self.era_settings.interval * ((timestamp - self.era_settings.start) / (self.era_settings.interval as int)) <= u64::MAX,
        ensures
            ({
                let cfg = self.era_settings;
                let elapsed = timestamp - cfg.start;
                let era = elapsed / (cfg.interval as int);
                &&& s.current_era == era
                &&& s.current_phase == phase_at(cfg, elapsed % (cfg.interval as int))
                &&& elapsed % (cfg.interval as int) < cfg.commit_duration ==> s.current_phase == Phase::Commit
                &&& cfg.commit_duration <= elapsed % (cfg.interval as int) < cfg.commit_duration + cfg.validation_duration
                    ==> s.current_phase == Phase::Valiadation
                &&& elapsed % (cfg.interval as int) >= cfg.commit_duration + cfg.validation_duration
                    ==> s.current_phase == Phase::Payout
                &&& s.previous_era == era - 1
                &&& s.prev_era_from_timestamp == cfg.start + cfg.interval * (era - 1)
                &&& s.prev_era_to_timestamp == cfg.start + cfg.interval * era
            }),
    {
        let era_start = self.era_settings.start;
        let interval = self.era_settings.interval;
        let elapsed_time_within_interval = (timestamp - era_start) % interval;
        let current_phase = if elapsed_time_within_interval < self.era_settings.commit_duration {
            Phase::Commit
        } else if elapsed_time_within_interval < self.era_settings.validation_duration + self.era_settings.commit_duration {
            Phase::Valiadation
        } else {
            Phase::Payout
        };
        let current_era = (timestamp - era_start) / interval;
        proof {
            let e = (timestamp - era_start) as int;
            assert(e / (interval as int) >= 1) by {
                vstd::arithmetic::div_mod::lemma_div_is_ordered(interval as int, e, interval as int);
                vstd::arithmetic::div_mod::lemma_div_by_self(interval as int);
            }
            assert(interval * (current_era - 1) <= interval * current_era) by (nonlinear_arith)
                requires
                    current_era >= 1,
                    interval > 0,
            ;
            assert(0 <= interval * (current_era - 1)) by (nonlinear_arith)
                requires
                    current_era >= 1,
                    interval > 0,
            ;
        }
        let previous_era = current_era - 1;
        let prev_era_from_timestamp = era_start + interval * previous_era;
        let prev_era_to_timestamp = era_start + interval * current_era;
        EraStatus { current_era, current_phase, previous_era, prev_era_from_timestamp, prev_era_to_timestamp }
    }

    pub fn get_era_settings(&self) -> (r: EraConfig)
        ensures
            r == self.era_settings,
    {
        self.era_settings
    }
}

/// The previous era ends where the current one begins, one interval after it
/// began, and the given time lies within the current era.
pub proof fn lemma_era_bounds(cfg: EraConfig, timestamp: int, s: EraStatus)
    requires
        cfg.interval > 0,
        timestamp >= cfg.start + cfg.interval,
        s.current_era == (timestamp - cfg.start) / (cfg.interval as int),
        s.prev_era_from_timestamp == cfg.start + cfg.interval * (s.current_era - 1),
        s.prev_era_to_timestamp == cfg.start + cfg.interval * s.current_era,
    ensures
        s.prev_era_to_timestamp - s.prev_era_from_timestamp == cfg.interval,
        s.prev_era_to_timestamp <= timestamp < s.prev_era_to_timestamp + cfg.interval,
{
    let i = cfg.interval as int;
    let e = timestamp - cfg.start;
    let q = s.current_era as int;
    assert(i * q - i * (q - 1) == i) by (nonlinear_arith);
    vstd::arithmetic::div_mod::lemma_fundamental_div_mod(e, i);
    assert(i * q <= e < i * q + i) by (nonlinear_arith)
        requires
            i > 0,
            q == e / i,
            e == i * (e / i) + e % i,
            0 <= e % i < i,
    {
        vstd::arithmetic::div_mod::lemma_mod_bound(e, i);
    }
}

/// After a commit is set for a CDN node, the owner's commits end with it;
/// if they held at most one commit for that node before, they now hold no
/// other.
pub proof fn lemma_set_commit_read_back(before: Seq<(CdnNodeKey, Commit)>, key: CdnNodeKey, commit: Commit)
    requires
        forall|i: int, j: int| 0 <= i < j < before.len() && before[i].0 == key ==> before[j].0 != key,
    ensures
        ({
            let after = without_key(before, key).push((key, commit));
            &&& after.last() == (key, commit)
            &&& forall|i: int| 0 <= i < after.len() - 1 ==> after[i].0 != key
        }),
{
    let w = without_key(before, key);
    if exists|i: int| 0 <= i < before.len() && before[i].0 == key {
        let p = choose|i: int| 0 <= i < before.len() && before[i].0 == key && forall|j: int| 0 <= j < i ==> before[j].0 != key;
        assert(exists|i: int| 0 <= i < before.len() && before[i].0 == key && forall|j: int| 0 <= j < i ==> before[j].0 != key) by {
            let q = choose|i: int| 0 <= i < before.len() && before[i].0 == key;
            assert forall|j: int| 0 <= j < q && before[j].0 == key implies false by {
                assert(before[q].0 != key);
            }
        }
        assert(w == before.remove(p));
        assert forall|i: int| 0 <= i < w.len() implies w[i].0 != key by {
            if i < p {
                assert(w[i] == before[i]);
            } else {
                assert(w[i] == before[i + 1]);
            }
        }
    }
    let after = w.push((key, commit));
    assert forall|i: int| 0 <= i < after.len() - 1 implies after[i].0 != key by {
        assert(after[i] == w[i]);
    }
}

/// Within an era, the phase is Commit for the first `commit_duration`
/// milliseconds, Valiadation for the `validation_duration` milliseconds
/// after that, and Payout from then on, whatever the era's interval.
pub proof fn lemma_phases(cfg: EraConfig, elapsed: int)
    ensures
        phase_at(cfg, elapsed) == Phase::Commit <==> elapsed < cfg.commit_duration,
        phase_at(cfg, elapsed) == Phase::Valiadation <==> cfg.commit_duration <= elapsed < cfg.commit_duration
            + cfg.validation_duration,
        phase_at(cfg, elapsed) == Phase::Payout <==> elapsed >= cfg.commit_duration + cfg.validation_duration,
        forall|c: EraConfig| c.commit_duration == cfg.commit_duration && c.validation_duration == cfg.validation_duration
            ==> #[trigger] phase_at(c, elapsed) == phase_at(cfg, elapsed),
{
}

} // verus!
