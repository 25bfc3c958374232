//! Storage-level data types: worker records, rounds, statistics and the
//! deferred stat-delta accumulator.
use vstd::prelude::*;

verus! {

broadcast use vstd::array::group_array_axioms;

/// The custodial identity under which a worker's stake and state live.
pub type AccountId = u64;

/// Monotonically increasing chain block height.
pub type BlockNumber = u64;

/// A reward or stake amount on the Fire ledger.
pub type Balance = u128;

/// The life cycle of a worker. Only `Mining` carries a payload: the block
/// at which mining began.
#[derive(Clone, Copy, Debug, PartialEq, Eq, Structural)]
pub enum WorkerStateEnum {
    Empty,
    Free,
    Gatekeeper,
    MiningPending,
    Mining(BlockNumber),
    MiningStopping,
}

impl Default for WorkerStateEnum {
    fn default() -> (r: Self)
        ensures
            r == WorkerStateEnum::Empty,
    {
        WorkerStateEnum::Empty
    }
}

/// A worker's benchmarked performance; `overall_score` is its "power".
#[derive(Clone, Debug)]
pub struct Score {
    pub overall_score: u32,
    pub features: Vec<u32>,
}

/// Everything the registry keeps about one worker, keyed by stash account.
#[derive(Clone, Debug)]
pub struct WorkerInfo {
    pub machine_id: Vec<u8>,
    pub pubkey: Vec<u8>,
    pub last_updated: u64,
    pub state: WorkerStateEnum,
    pub score: Option<Score>,
    pub confidence_level: u8,
    pub runtime_version: u32,
}

impl WorkerInfo {
    /// The worker's power weight: its overall score, or zero if it was
    /// never benchmarked.
    pub open spec fn power(self) -> int {
        match self.score {
            Some(s) => s.overall_score as int,
            None => 0,
        }
    }
}

/// Where a stash's rewards go and who controls it.
#[derive(Clone, Copy, Debug, PartialEq, Eq, Structural)]
pub struct PayoutPrefs {
    pub commission: u32,
    pub target: AccountId,
}

/// The stash-level record: controller binding and payout preferences.
#[derive(Clone, Copy, Debug, PartialEq, Eq, Structural)]
pub struct StashInfo {
    pub controller: AccountId,
    pub payout_prefs: PayoutPrefs,
}

impl Default for StashInfo {
    fn default() -> (r: Self)
        ensures
            r == (StashInfo {
                controller: 0,
                payout_prefs: PayoutPrefs { commission: 0, target: 0 },
            }),
    {
        StashInfo { controller: 0, payout_prefs: PayoutPrefs { commission: 0, target: 0 } }
    }
}

/// The single live mining round.
#[derive(Clone, Copy, Debug, PartialEq, Eq, Structural)]
pub struct RoundInfo {
    pub round: u32,
    pub start_block: BlockNumber,
}

/// Per-worker slash and reward totals within one round.
#[derive(Clone, Copy, Debug, PartialEq, Eq, Structural)]
pub struct StashWorkerStats {
    pub slash: Balance,
    pub compute_received: Balance,
    pub online_received: Balance,
}

/// Archived statistics of one round; the fractions are scaled by
/// `PERCENTAGE_BASE`.
#[derive(Clone, Copy, Debug, PartialEq, Eq, Structural)]
pub struct RoundStats {
    pub round: u32,
    pub online_workers: u32,
    pub compute_workers: u32,
    pub frac_target_online_reward: u32,
    pub total_power: u32,
    pub frac_target_compute_reward: u32,
}

impl Default for RoundStats {
    fn default() -> (r: Self)
        ensures
            r == (RoundStats {
                round: 0,
                online_workers: 0,
                compute_workers: 0,
                frac_target_online_reward: 0,
                total_power: 0,
                frac_target_compute_reward: 0,
            }),
    {
        RoundStats {
            round: 0,
            online_workers: 0,
            compute_workers: 0,
            frac_target_online_reward: 0,
            total_power: 0,
            frac_target_compute_reward: 0,
        }
    }
}

/// Pending changes to the global worker and power aggregates, recorded by
/// out-of-band kicks and merged in only at the next round boundary.
#[derive(Clone, Copy, Debug, PartialEq, Eq, Structural)]
pub struct MinerStatsDelta {
    pub num_worker: i32,
    pub num_power: i32,
}

/// A raw uncompressed P-256 ECDH public key.
#[derive(Clone, Copy, Debug, PartialEq, Eq)]
pub struct EcdhP256PublicKey(pub [u8; 65]);

impl Default for EcdhP256PublicKey {
    fn default() -> (r: Self)
        ensures
            forall|i: int| 0 <= i < 65 ==> r.0@[i] == 0,
    {
        EcdhP256PublicKey([0; 65])
    }
}

impl EcdhP256PublicKey {
    /// Reads a key from its raw 65-byte encoding, rejecting every other
    /// length.
    pub fn try_from(raw: &[u8]) -> (r: Result<EcdhP256PublicKey, ()>)
        ensures
            raw@.len() == 65 ==> (r matches Ok(k) && k.0@ == raw@),
            raw@.len() != 65 ==> r is Err,
    {
        if raw.len() != 65 {
            return Err(());
        }
        let mut key: [u8; 65] = [0; 65];
        let mut i: usize = 0;
        while i < 65
            invariant
                i <= 65,
                raw@.len() == 65,
                forall|j: int| 0 <= j < i ==> key@[j] == raw@[j],
            decreases 65 - i,
        {
            key[i] = raw[i];
            i = i + 1;
        }
        proof {
            assert(key@ =~= raw@);
        }
        Ok(EcdhP256PublicKey(key))
    }
}

/// Why a payout was made.
#[derive(Clone, Copy, Debug, PartialEq, Eq, Structural)]
pub enum PayoutReason {
    OnlineReward,
    ComputeReward,
}

impl Default for PayoutReason {
    fn default() -> (r: Self)
        ensures
            r == PayoutReason::OnlineReward,
    {
        PayoutReason::OnlineReward
    }
}

} // verus!
