//! The public interface to commits and eras.

use vstd::prelude::*;
use crate::{AccountId, DdcBucket, Error, Part, Result};
use crate::cdn_node::entity::CdnNodeKey;
use super::store::{Commit, EraAndTimestamp, EraConfig, EraStatus, Phase, phase_at, without_key};

verus! {

impl DdcBucket {
    /// Records the latest commit of a CDN node for its owner.
    pub fn message_set_commit(&mut self, cdn_owner: AccountId, cdn_node_key: CdnNodeKey, commit: Commit) -> (r: Result<()>)
        ensures
            r == Ok::<(), Error>(()),
            forall|o: AccountId| #[trigger] final(self).committer.commits_of(o) == if o == cdn_owner {
                without_key(old(self).committer.commits_of(cdn_owner), cdn_node_key).push((cdn_node_key, commit))
            } else {
                old(self).committer.commits_of(o)
            },
            final(self).committer.operator_id == old(self).committer.operator_id,
            final(self).committer.validated_commits@ == old(self).committer.validated_commits@,
            final(self).committer.era_settings == old(self).committer.era_settings,
            final(self).only_changed(old(self), set![Part::Committer]),
    {
        self.committer.set_commit(cdn_owner, cdn_node_key, commit);
        Ok(())
    }

    pub fn message_get_commit(&self, cdn_owner: AccountId) -> (r: Vec<(CdnNodeKey, Commit)>)
        ensures
            r@ == self.committer.commits_of(cdn_owner),
    {
        self.committer.get_commit(cdn_owner)
    }

    pub fn message_get_validated_commit(&self, cdn_node_key: CdnNodeKey) -> (r: EraAndTimestamp)
        ensures
            r == if self.committer.validated_commits@.contains_key(cdn_node_key) {
                self.committer.validated_commits@[cdn_node_key]
            } else {
                (0u64, 0u64)
            },
    {
        self.committer.get_validate_commit(cdn_node_key)
    }

    /// Sets the era configuration; only the era operator may.
    pub fn message_set_era(&mut self, era_config: EraConfig) -> (r: Result<()>)
        ensures
            old(self).caller() == old(self).committer.operator_id ==> r == Ok::<(), Error>(())
                && final(self).committer.era_settings == era_config,
            old(self).caller() != old(self).committer.operator_id ==> r == Err::<(), Error>(Error::EraSettingFailed)
                && final(self).committer.era_settings == old(self).committer.era_settings,
            final(self).committer.operator_id == old(self).committer.operator_id,
            final(self).committer.commits@ == old(self).committer.commits@,
            final(self).committer.validated_commits@ == old(self).committer.validated_commits@,
            final(self).only_changed(old(self), set![Part::Committer]),
    {
        let caller = self.env.caller;
        match self.committer.set_era(caller, era_config) {
            Err(_e) => Err(Error::EraSettingFailed),
            Ok(_v) => Ok(()),
        }
    }

    /// The era at the current block time.
    pub fn message_get_era(&self) -> (s: EraStatus)
        requires
            self.committer.era_settings.interval > 0,
            self.env.block_timestamp >= self.committer.era_settings.start + self.committer.era_settings.interval,
            (self.env.block_timestamp - self.committer.era_settings.start) % (self.committer.era_settings.interval as int) >= self.committer.era_settings.commit_duration
                ==> self.committer.era_settings.validation_duration + self.committer.era_settings.commit_duration <= u64::MAX,
            self.committer.era_settings.start + self.committer.era_settings.interval * ((self.env.block_timestamp
                - self.committer.era_settings.start) / (self.committer.era_settings.interval as int)) <= u64::MAX,
        ensures
            ({
                let cfg = self.committer.era_settings;
                let elapsed = self.env.block_timestamp - cfg.start;
                let era = elapsed / (cfg.interval as int);
                &&& s.current_era == era
                &&& s.current_phase == phase_at(cfg, elapsed % (cfg.interval as int))
                &&& elapsed % (cfg.interval as int) < cfg.commit_duration ==> s.current_phase == Phase::Commit
                &&& cfg.commit_duration <= elapsed % (cfg.interval as int) < cfg.commit_duration + cfg.validation_duration
                    ==> s.current_phase == Phase::Valiadation
                &&& elapsed % (cfg.interval as int) >= cfg.commit_duration + cfg.validation_duration
                    ==> s.current_phase == Phase::Payout
                &&& s.previous_era == era - 1
                &&& s.prev_era_from_timestamp == cfg.start + cfg.interval * (era - 1)
                &&& s.prev_era_to_timestamp == cfg.start + cfg.interval * era
            }),
    {
        let timestamp = self.env.block_timestamp;
        self.committer.get_era(timestamp)
    }

    pub fn message_get_era_settings(&self) -> (r: EraConfig)
        ensures
            r == self.committer.era_settings,
    {
        self.committer.get_era_settings()
    }
}

} // verus!
