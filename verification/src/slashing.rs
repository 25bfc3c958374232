//! Offline reporting and forced slashing: the proof-of-liveness hit test,
//! the forced kick that frees a worker at once while deferring its
//! aggregate effect, and the Fire transfers that punish and reward.
use vstd::prelude::*;
use crate::error::Error;
use crate::events::Event;
use crate::hashing::{blake2_256, blake2_256_of};
use crate::messaging::HeartbeatChallenge;
use crate::state::{
    fire_value, is_online, lemma_online_power_le_registered, lemma_online_set_finite,
    lemma_power_member_bound, lemma_update_to_offline, worker_state_of, Phala, PhalaView,
};
use crate::types::{MinerStatsDelta, StashInfo, StashWorkerStats, WorkerInfo, WorkerStateEnum};
use crate::u256::{spec_from_be_bytes, U256};

verus! {

broadcast use vstd::std_specs::hash::group_hash_axioms, vstd::set::group_set_axioms;

/// Whether a worker's key "hits" a challenge: its Blake2 digest, masked
/// with the challenge seed, falls under the online target. A pure function
/// of the key and the challenge.
pub open spec fn hit(pubkey: Seq<u8>, ch: HeartbeatChallenge) -> bool {
    spec_from_be_bytes(blake2_256_of(pubkey)).spec_xor(ch.seed).as_nat()
        <= ch.online_target.as_nat()
}

/// Stateless proof-of-liveness predicate over a worker's raw public key.
pub fn check_pubkey_hit_target(raw_pubkey: &[u8], reward_info: &HeartbeatChallenge) -> (r: bool)
    ensures
        r == hit(raw_pubkey@, *reward_info),
{
    let pkh = blake2_256(raw_pubkey);
    let id = U256::from_be_bytes(&pkh);
    let x = id.xor(reward_info.seed);
    x.le(reward_info.online_target)
}

/// The stash-level record, or the all-zero default when none is stored.
pub open spec fn stash_info_of(m: Map<u64, StashInfo>, k: u64) -> StashInfo {
    if m.contains_key(k) {
        m[k]
    } else {
        StashInfo {
            controller: 0,
            payout_prefs: crate::types::PayoutPrefs { commission: 0, target: 0 },
        }
    }
}

/// This round's per-worker statistics, or zeroes when none are stored.
pub open spec fn stats_of(m: Map<u64, StashWorkerStats>, k: u64) -> StashWorkerStats {
    if m.contains_key(k) {
        m[k]
    } else {
        StashWorkerStats { slash: 0, compute_received: 0, online_received: 0 }
    }
}

/// The retained challenge of a block, or the zero challenge when none is
/// stored.
pub open spec fn challenge_of(s: PhalaView, b: u64) -> HeartbeatChallenge {
    if s.block_reward_seeds.contains_key(b) {
        s.block_reward_seeds[b]
    } else {
        HeartbeatChallenge {
            seed: U256 { w0: 0, w1: 0, w2: 0, w3: 0 },
            online_target: U256 { w0: 0, w1: 0, w2: 0, w3: 0 },
        }
    }
}

/// The last block with on-chain activity of a worker, zero when unknown.
pub open spec fn activity_of(s: PhalaView, k: u64) -> u64 {
    if s.last_worker_activity.contains_key(k) {
        s.last_worker_activity[k]
    } else {
        0
    }
}

/// The state after a kick: the worker's message counter is dropped; an
/// online worker is freed at once, its exit recorded in the pending
/// stat-delta accumulator rather than in the live aggregates.
pub open spec fn kick_worker_state(s: PhalaView, stash: u64, now_ms: u64) -> PhalaView {
    if is_online(worker_state_of(s.worker_state, stash)) {
        let w = s.worker_state[stash];
        PhalaView {
            worker_ingress: s.worker_ingress.remove(stash),
            worker_state: s.worker_state.insert(
                stash,
                WorkerInfo { last_updated: now_ms, state: WorkerStateEnum::Free, ..w },
            ),
            pending_exiting: MinerStatsDelta {
                num_worker: (s.pending_exiting.num_worker - 1) as i32,
                num_power: (s.pending_exiting.num_power - w.power()) as i32,
            },
            events: s.events.push(Event::MinerStopped(s.round.round, stash)),
            ..s
        }
    } else {
        PhalaView { worker_ingress: s.worker_ingress.remove(stash), ..s }
    }
}

/// The state after a verified offline slash: the worker is kicked, its
/// payout target loses up to `OfflineOffenseSlash` of Fire, the reporter
/// gains the flat `OfflineReportReward`, the debit is added to the round's
/// slash statistic, and a slash record is emitted.
pub open spec fn slash_offline_state(s: PhalaView, stash: u64, reporter: u64, now_ms: u64)
    -> PhalaView {
    let s1 = kick_worker_state(s, stash, now_ms);
    let payout = stash_info_of(s1.stash_state, stash).payout_prefs.target;
    let avail = fire_value(s1.fire2, payout);
    let to_sub = if s.offline_offense_slash <= avail {
        s.offline_offense_slash
    } else {
        avail
    };
    let s2 = PhalaView {
        fire2: s1.fire2.insert(payout, (avail - to_sub) as u128),
        accumulated_fire2: (s1.accumulated_fire2 - to_sub) as u128,
        ..s1
    };
    let s3 = PhalaView {
        fire2: s2.fire2.insert(
            reporter,
            (fire_value(s2.fire2, reporter) + s.offline_report_reward) as u128,
        ),
        accumulated_fire2: (s2.accumulated_fire2 + s.offline_report_reward) as u128,
        ..s2
    };
    let prev = stats_of(s3.round_worker_stats, stash);
    PhalaView {
        round_worker_stats: s3.round_worker_stats.insert(
            stash,
            StashWorkerStats { slash: (prev.slash + to_sub) as u128, ..prev },
        ),
        events: s3.events.push(
            Event::Slash(stash, payout, to_sub, reporter, s.offline_report_reward),
        ),
        ..s3
    }
}

/// The guard chain of `report_offline`: which error a report draws, and on
/// exactly which states it is accepted.
pub open spec fn report_offline_outcome(s: PhalaView, stash: u64, block_num: u64, now: u64)
    -> Result<(), Error> {
    if !(block_num + s.slash_window > now) {
        Err(Error::TooAncientReport)
    } else if block_num < s.round.start_block {
        Err(Error::TooAncientReport)
    } else if !s.worker_state.contains_key(stash) {
        Err(Error::StashNotFound)
    } else if !is_online(s.worker_state[stash].state) {
        Err(Error::ReportedWorkerNotMining)
    } else if !(activity_of(s, stash) < block_num) {
        Err(Error::ReportedWorkerStillAlive)
    } else if !hit(s.worker_state[stash].pubkey@, challenge_of(s, block_num)) {
        Err(Error::InvalidProof)
    } else {
        Ok(())
    }
}

/// A rejected report leaves the state untouched; an accepted one slashes.
pub open spec fn report_offline_state(
    s: PhalaView,
    reporter: u64,
    stash: u64,
    block_num: u64,
    now: u64,
    now_ms: u64,
) -> PhalaView {
    if report_offline_outcome(s, stash, block_num, now) is Ok {
        slash_offline_state(s, stash, reporter, now_ms)
    } else {
        s
    }
}

impl Phala {
    /// Kicks a worker if it is online, freeing it immediately and recording
    /// the exit in the pending stat delta; returns whether it was online.
    pub fn kick_worker(&mut self, stash: u64, now_ms: u64) -> (r: bool)
        requires
            old(self)@.wf(),
        ensures
            r == is_online(worker_state_of(old(self)@.worker_state, stash)),
            final(self)@ == kick_worker_state(old(self)@, stash, now_ms),
            final(self)@.wf(),
    {
        self.worker_ingress.remove(&stash);
        let state = match self.worker_state.get(&stash) {
            Some(w) => w.state,
            None => WorkerStateEnum::Empty,
        };
        match state {
            WorkerStateEnum::Mining(_) | WorkerStateEnum::MiningStopping => {
                let mut w = self.worker_state.remove(&stash).unwrap();
                let score_power: u32 = match &w.score {
                    Some(sc) => sc.overall_score,
                    None => 0,
                };
                proof {
                    let m0 = old(self)@.worker_state;
                    lemma_power_member_bound(m0, stash);
                    lemma_online_set_finite(m0);
                    lemma_online_power_le_registered(m0);
                    let w2 = WorkerInfo {
                        last_updated: now_ms,
                        state: WorkerStateEnum::Free,
                        ..m0[stash]
                    };
                    lemma_update_to_offline(m0, stash, w2);
                    crate::sums::lemma_sum_nonneg(
                        crate::state::online_set(m0.insert(stash, w2)),
                        crate::state::power_of(m0.insert(stash, w2)),
                    );
                    lemma_online_set_finite(m0.insert(stash, w2));
                }
                self.pending_exiting.num_worker = self.pending_exiting.num_worker - 1;
                self.pending_exiting.num_power = self.pending_exiting.num_power - (
                score_power as i32);
                w.last_updated = now_ms;
                w.state = WorkerStateEnum::Free;
                self.worker_state.insert(stash, w);
                let round = self.round.round;
                self.events.push(Event::MinerStopped(round, stash));
                proof {
                    let m0 = old(self)@.worker_state;
                    let w2 = WorkerInfo {
                        last_updated: now_ms,
                        state: WorkerStateEnum::Free,
                        ..m0[stash]
                    };
                    assert(self@.worker_state =~= m0.insert(stash, w2));
                    assert(self@ =~= kick_worker_state(old(self)@, stash, now_ms));
                }
                true
            },
            _ => {
                proof {
                    assert(self@ =~= kick_worker_state(old(self)@, stash, now_ms));
                }
                false
            },
        }
    }

    /// Slashes a worker and puts it offline by force. The worker is kicked
    /// first, so a worker can never be slashed twice for one offence: after
    /// the kick it is no longer mining. The payout target is debited up to
    /// the configured offence amount, clamped to its balance; the reporter
    /// earns the flat report reward.
    pub fn slash_offline(&mut self, stash: u64, reporter: u64, now_ms: u64) -> (r: Result<
        (),
        Error,
    >)
        requires
            old(self)@.wf(),
            old(self)@.accumulated_fire2 + old(self)@.offline_report_reward <= u128::MAX,
            stats_of(old(self)@.round_worker_stats, stash).slash
                + old(self)@.offline_offense_slash <= u128::MAX,
        ensures
            r == Result::<(), Error>::Ok(()),
            final(self)@ == slash_offline_state(old(self)@, stash, reporter, now_ms),
            final(self)@.wf(),
    {
        self.kick_worker(stash, now_ms);
        let payout = match self.stash_state.get(&stash) {
            Some(si) => si.payout_prefs.target,
            None => 0,
        };
        let lost_amount = self.offline_offense_slash;
        let win_amount = self.offline_report_reward;
        let to_sub = self.try_sub_fire(payout, lost_amount);
        self.add_fire(reporter, win_amount);
        let prev = match self.round_worker_stats.get(&stash) {
            Some(st) => *st,
            None => StashWorkerStats { slash: 0, compute_received: 0, online_received: 0 },
        };
        self.round_worker_stats.insert(
            stash,
            StashWorkerStats {
                slash: prev.slash + to_sub,
                compute_received: prev.compute_received,
                online_received: prev.online_received,
            },
        );
        self.events.push(Event::Slash(stash, payout, to_sub, reporter, win_amount));
        proof {
            assert(self@ =~= slash_offline_state(old(self)@, stash, reporter, now_ms));
        }
        Ok(())
    }

    /// Any account may report a worker offline. The report must concern a
    /// block of the current round within the slash window, name a worker
    /// that is mining and has shown no activity since that block, and carry
    /// a valid hit against the block's retained challenge; each failed
    /// guard draws its own error and changes nothing. On success the worker
    /// is slashed immediately.
    pub fn report_offline(
        &mut self,
        reporter: u64,
        stash: u64,
        block_num: u64,
        now: u64,
        now_ms: u64,
    ) -> (r: Result<(), Error>)
        requires
            old(self)@.wf(),
            old(self)@.accumulated_fire2 + old(self)@.offline_report_reward <= u128::MAX,
            stats_of(old(self)@.round_worker_stats, stash).slash
                + old(self)@.offline_offense_slash <= u128::MAX,
        ensures
            r == report_offline_outcome(old(self)@, stash, block_num, now),
            final(self)@ == report_offline_state(old(self)@, reporter, stash, block_num, now,
                now_ms),
            final(self)@.wf(),
    {
        if !(block_num as u128 + self.slash_window as u128 > now as u128) {
            return Err(Error::TooAncientReport);
        }
        if block_num < self.round.start_block {
            return Err(Error::TooAncientReport);
        }
        let hit_ok: bool;
        match self.worker_state.get(&stash) {
            None => {
                return Err(Error::StashNotFound);
            },
            Some(w) => {
                let is_mining = match w.state {
                    WorkerStateEnum::Mining(_) | WorkerStateEnum::MiningStopping => true,
                    _ => false,
                };
                if !is_mining {
                    return Err(Error::ReportedWorkerNotMining);
                }
                let last_activity = match self.last_worker_activity.get(&stash) {
                    Some(v) => *v,
                    None => 0,
                };
                if !(last_activity < block_num) {
                    return Err(Error::ReportedWorkerStillAlive);
                }
                let reward_info = match self.block_reward_seeds.get(&block_num) {
                    Some(c) => *c,
                    None => HeartbeatChallenge {
                        seed: U256 { w0: 0, w1: 0, w2: 0, w3: 0 },
                        online_target: U256 { w0: 0, w1: 0, w2: 0, w3: 0 },
                    },
                };
                hit_ok = check_pubkey_hit_target(w.pubkey.as_slice(), &reward_info);
            },
        }
        if !hit_ok {
            return Err(Error::InvalidProof);
        }
        self.slash_offline(stash, reporter, now_ms)
    }
}

} // verus!
