//! The world state of the mining engine: every storage item of the pallet
//! as a field of one owned struct, with the invariants that tie the global
//! aggregates to the per-worker records.
use vstd::prelude::*;
use std::collections::HashMap;
use crate::events::Event;
use crate::messaging::HeartbeatChallenge;
use crate::sums::{
    lemma_sum_congruence, lemma_sum_empty, lemma_sum_insert, lemma_sum_remove, lemma_sum_subset_le,
};
use crate::types::{MinerStatsDelta, RoundInfo, RoundStats, StashInfo, StashWorkerStats, WorkerInfo,
    WorkerStateEnum};
use crate::PERCENTAGE_BASE;

verus! {

broadcast use vstd::std_specs::hash::group_hash_axioms, vstd::set::group_set_axioms;

/// The mathematical model of the world state: the view of every field.
#[verifier::ext_equal]
pub struct PhalaView {
    pub worker_state: Map<u64, WorkerInfo>,
    pub stash_state: Map<u64, StashInfo>,
    pub stash: Map<u64, u64>,
    pub worker_ingress: Map<u64, u64>,
    pub fire2: Map<u64, u128>,
    pub accumulated_fire2: u128,
    pub heartbeats: Map<u64, u32>,
    pub online_workers: u32,
    pub compute_workers: u32,
    pub total_power: u32,
    pub round_worker_stats: Map<u64, StashWorkerStats>,
    pub round: RoundInfo,
    pub force_next_round: bool,
    pub pending_update: Seq<u64>,
    pub pending_exiting: MinerStatsDelta,
    pub round_stats_history: Map<u32, RoundStats>,
    pub block_reward_seeds: Map<u64, HeartbeatChallenge>,
    pub last_worker_activity: Map<u64, u64>,
    pub contract_key: Map<u32, Seq<u8>>,
    pub mr_enclave_whitelist: Seq<Seq<u8>>,
    pub target_online_reward_count: u32,
    pub target_compute_reward_count: u32,
    pub target_virtual_task_count: u32,
    pub reward_window: u64,
    pub slash_window: u64,
    pub round_interval: u64,
    pub max_heartbeat_per_worker_per_hour: u32,
    pub offline_offense_slash: u128,
    pub offline_report_reward: u128,
    pub events: Seq<Event>,
}

/// The mining engine's whole state. External collaborators (randomness,
/// clock, currency, message transport) enter only as arguments of the
/// methods that need them.
pub struct Phala {
    pub worker_state: HashMap<u64, WorkerInfo>,
    pub stash_state: HashMap<u64, StashInfo>,
    pub stash: HashMap<u64, u64>,
    pub worker_ingress: HashMap<u64, u64>,
    pub fire2: HashMap<u64, u128>,
    pub accumulated_fire2: u128,
    pub heartbeats: HashMap<u64, u32>,
    pub online_workers: u32,
    pub compute_workers: u32,
    pub total_power: u32,
    pub round_worker_stats: HashMap<u64, StashWorkerStats>,
    pub round: RoundInfo,
    pub force_next_round: bool,
    pub pending_update: Vec<u64>,
    pub pending_exiting: MinerStatsDelta,
    pub round_stats_history: HashMap<u32, RoundStats>,
    pub block_reward_seeds: HashMap<u64, HeartbeatChallenge>,
    pub last_worker_activity: HashMap<u64, u64>,
    pub contract_key: HashMap<u32, Vec<u8>>,
    pub mr_enclave_whitelist: Vec<Vec<u8>>,
    pub target_online_reward_count: u32,
    pub target_compute_reward_count: u32,
    pub target_virtual_task_count: u32,
    pub reward_window: u64,
    pub slash_window: u64,
    pub round_interval: u64,
    pub max_heartbeat_per_worker_per_hour: u32,
    pub offline_offense_slash: u128,
    pub offline_report_reward: u128,
    pub events: Vec<Event>,
}

impl View for Phala {
    type V = PhalaView;

    open spec fn view(&self) -> PhalaView {
        PhalaView {
            worker_state: self.worker_state@,
            stash_state: self.stash_state@,
            stash: self.stash@,
            worker_ingress: self.worker_ingress@,
            fire2: self.fire2@,
            accumulated_fire2: self.accumulated_fire2,
            heartbeats: self.heartbeats@,
            online_workers: self.online_workers,
            compute_workers: self.compute_workers,
            total_power: self.total_power,
            round_worker_stats: self.round_worker_stats@,
            round: self.round,
            force_next_round: self.force_next_round,
            pending_update: self.pending_update@,
            pending_exiting: self.pending_exiting,
            round_stats_history: self.round_stats_history@,
            block_reward_seeds: self.block_reward_seeds@,
            last_worker_activity: self.last_worker_activity@,
            contract_key: self.contract_key@.map_values(|v: Vec<u8>| v@),
            mr_enclave_whitelist: self.mr_enclave_whitelist@.map(|i: int, v: Vec<u8>| v@),
            target_online_reward_count: self.target_online_reward_count,
            target_compute_reward_count: self.target_compute_reward_count,
            target_virtual_task_count: self.target_virtual_task_count,
            reward_window: self.reward_window,
            slash_window: self.slash_window,
            round_interval: self.round_interval,
            max_heartbeat_per_worker_per_hour: self.max_heartbeat_per_worker_per_hour,
            offline_offense_slash: self.offline_offense_slash,
            offline_report_reward: self.offline_report_reward,
            events: self.events@,
        }
    }
}

/// Whether a worker in this state counts towards `OnlineWorkers`.
pub open spec fn is_online(s: WorkerStateEnum) -> bool {
    s is Mining || s is MiningStopping
}

/// The stash accounts whose workers are currently online.
pub open spec fn online_set(m: Map<u64, WorkerInfo>) -> Set<u64> {
    m.dom().filter(|k: u64| is_online(m[k].state))
}

/// The power contribution of each registered worker.
pub open spec fn power_of(m: Map<u64, WorkerInfo>) -> spec_fn(u64) -> int {
    |k: u64| m[k].power()
}

/// Total power of the online workers.
pub open spec fn online_power(m: Map<u64, WorkerInfo>) -> int {
    crate::sums::sum_over(online_set(m), power_of(m))
}

/// Total power of every registered worker, online or not.
pub open spec fn registered_power(m: Map<u64, WorkerInfo>) -> int {
    crate::sums::sum_over(m.dom(), power_of(m))
}

/// The sum of all Fire balances.
pub open spec fn fire_total(f: Map<u64, u128>) -> int {
    crate::sums::sum_over(f.dom(), |k: u64| f[k] as int)
}

/// A worker's state, `Empty` when the stash is unknown, as the storage map
/// defaults.
pub open spec fn worker_state_of(m: Map<u64, WorkerInfo>, k: u64) -> WorkerStateEnum {
    if m.contains_key(k) {
        m[k].state
    } else {
        WorkerStateEnum::Empty
    }
}

/// A Fire balance, zero when the account has no entry.
pub open spec fn fire_value(f: Map<u64, u128>, k: u64) -> u128 {
    if f.contains_key(k) {
        f[k]
    } else {
        0
    }
}

/// Archived round statistics keep their target fraction within the whole:
/// at most one expected heartbeat per online worker per block.
pub open spec fn frac_bounded(rs: RoundStats) -> bool {
    rs.frac_target_online_reward <= rs.online_workers * (PERCENTAGE_BASE as int)
}

impl PhalaView {
    /// Well-formedness: the global aggregates agree with the per-worker
    /// records (kicks deferred through `pending_exiting`), the Fire
    /// accumulator equals the sum of all balances, the registry stays within
    /// the 32-bit aggregate counters, and the configuration is usable.
    pub open spec fn wf(self) -> bool {
        &&& self.worker_state.dom().finite()
        &&& self.fire2.dom().finite()
        &&& self.worker_state.dom().len() <= 0x7fffffff
        &&& registered_power(self.worker_state) <= 0x7fffffff
        &&& self.accumulated_fire2 as int == fire_total(self.fire2)
        &&& self.online_workers <= 0x7fffffff
        &&& self.total_power <= 0x7fffffff
        &&& self.pending_exiting.num_worker <= 0
        &&& self.pending_exiting.num_power <= 0
        &&& self.online_workers + self.pending_exiting.num_worker == online_set(
            self.worker_state,
        ).len()
        &&& self.total_power + self.pending_exiting.num_power == online_power(self.worker_state)
        &&& forall|r: u32|
            self.round_stats_history.contains_key(r) ==> frac_bounded(
                #[trigger] self.round_stats_history[r],
            )
        &&& 1 <= self.round_interval <= 0xffffffff
        &&& self.max_heartbeat_per_worker_per_hour <= self.round_interval
    }
}

/// Updating a worker without changing whether it is online, nor its power,
/// leaves every aggregate-relevant quantity unchanged.
pub proof fn lemma_update_same_liveness(m: Map<u64, WorkerInfo>, k: u64, w: WorkerInfo)
    requires
        m.dom().finite(),
        m.contains_key(k),
        is_online(w.state) == is_online(m[k].state),
        w.power() == m[k].power(),
    ensures
        m.insert(k, w).dom() == m.dom(),
        online_set(m.insert(k, w)) == online_set(m),
        online_power(m.insert(k, w)) == online_power(m),
        registered_power(m.insert(k, w)) == registered_power(m),
{
    let m2 = m.insert(k, w);
    assert(m2.dom() =~= m.dom());
    assert(online_set(m2) =~= online_set(m));
    assert forall|j: u64| online_set(m).contains(j) implies power_of(m2)(j) == power_of(m)(j) by {}
    lemma_online_set_finite(m);
    lemma_sum_congruence(online_set(m), power_of(m2), power_of(m));
    lemma_sum_congruence(m.dom(), power_of(m2), power_of(m));
}

/// Forcing an online worker offline shrinks the online set by exactly that
/// worker and its power.
pub proof fn lemma_update_to_offline(m: Map<u64, WorkerInfo>, k: u64, w: WorkerInfo)
    requires
        m.dom().finite(),
        m.contains_key(k),
        is_online(m[k].state),
        !is_online(w.state),
        w.power() == m[k].power(),
    ensures
        m.insert(k, w).dom() == m.dom(),
        online_set(m.insert(k, w)) == online_set(m).remove(k),
        online_set(m.insert(k, w)).len() == online_set(m).len() - 1,
        online_power(m.insert(k, w)) == online_power(m) - m[k].power(),
        registered_power(m.insert(k, w)) == registered_power(m),
{
    let m2 = m.insert(k, w);
    assert(m2.dom() =~= m.dom());
    assert(online_set(m2) =~= online_set(m).remove(k));
    lemma_online_set_finite(m);
    assert(online_set(m).contains(k));
    lemma_sum_remove(online_set(m), power_of(m), k);
    assert forall|j: u64| online_set(m2).contains(j) implies power_of(m2)(j) == power_of(m)(j) by {}
    lemma_sum_congruence(online_set(m2), power_of(m2), power_of(m));
    lemma_sum_congruence(m.dom(), power_of(m2), power_of(m));
}

/// Bringing a registered offline worker online grows the online set by
/// exactly that worker and its power.
pub proof fn lemma_update_to_online(m: Map<u64, WorkerInfo>, k: u64, w: WorkerInfo)
    requires
        m.dom().finite(),
        m.contains_key(k),
        !is_online(m[k].state),
        is_online(w.state),
        w.power() == m[k].power(),
    ensures
        m.insert(k, w).dom() == m.dom(),
        online_set(m.insert(k, w)) == online_set(m).insert(k),
        online_set(m.insert(k, w)).len() == online_set(m).len() + 1,
        online_power(m.insert(k, w)) == online_power(m) + m[k].power(),
        registered_power(m.insert(k, w)) == registered_power(m),
{
    let m2 = m.insert(k, w);
    assert(m2.dom() =~= m.dom());
    assert(online_set(m2) =~= online_set(m).insert(k));
    lemma_online_set_finite(m);
    assert(!online_set(m).contains(k));
    lemma_sum_insert(online_set(m), power_of(m2), k);
    assert forall|j: u64| online_set(m).contains(j) implies power_of(m2)(j) == power_of(m)(j) by {}
    lemma_sum_congruence(online_set(m), power_of(m2), power_of(m));
    lemma_sum_congruence(m.dom(), power_of(m2), power_of(m));
    assert(power_of(m2)(k) == m[k].power());
}

/// The online set is a finite subset of the registered workers.
pub proof fn lemma_online_set_finite(m: Map<u64, WorkerInfo>)
    requires
        m.dom().finite(),
    ensures
        online_set(m).finite(),
        online_set(m).subset_of(m.dom()),
        online_set(m).len() <= m.dom().len(),
{
    assert(online_set(m).subset_of(m.dom()));
    vstd::set_lib::lemma_set_subset_finite(m.dom(), online_set(m));
    vstd::set_lib::lemma_len_subset(online_set(m), m.dom());
}

/// Online power is at most the power of all registered workers.
pub proof fn lemma_online_power_le_registered(m: Map<u64, WorkerInfo>)
    requires
        m.dom().finite(),
    ensures
        0 <= online_power(m) <= registered_power(m),
{
    lemma_online_set_finite(m);
    assert forall|j: u64| m.dom().contains(j) implies power_of(m)(j) >= 0 by {}
    lemma_sum_subset_le(online_set(m), m.dom(), power_of(m));
    crate::sums::lemma_sum_nonneg(online_set(m), power_of(m));
}

/// A single worker's power is at most the registered total.
pub proof fn lemma_power_member_bound(m: Map<u64, WorkerInfo>, k: u64)
    requires
        m.dom().finite(),
        m.contains_key(k),
    ensures
        0 <= m[k].power() <= registered_power(m),
{
    assert forall|j: u64| m.dom().contains(j) implies power_of(m)(j) >= 0 by {}
    crate::sums::lemma_sum_member_bound(m.dom(), power_of(m), k);
}

/// Updating one Fire balance moves the total by the difference.
pub proof fn lemma_fire_update(f: Map<u64, u128>, k: u64, v: u128)
    requires
        f.dom().finite(),
    ensures
        fire_total(f.insert(k, v)) == fire_total(f) - fire_value(f, k) + v,
{
    let f2 = f.insert(k, v);
    let g = |j: u64| f[j] as int;
    let g2 = |j: u64| f2[j] as int;
    if f.contains_key(k) {
        assert(f2.dom() =~= f.dom());
        lemma_sum_remove(f.dom(), g, k);
        lemma_sum_remove(f.dom(), g2, k);
        assert forall|j: u64| f.dom().remove(k).contains(j) implies g2(j) == g(j) by {}
        lemma_sum_congruence(f.dom().remove(k), g2, g);
    } else {
        assert(f2.dom() =~= f.dom().insert(k));
        lemma_sum_insert(f.dom(), g2, k);
        assert forall|j: u64| f.dom().contains(j) implies g2(j) == g(j) by {}
        lemma_sum_congruence(f.dom(), g2, g);
    }
}

/// One Fire balance never exceeds the accumulator.
pub proof fn lemma_fire_member_bound(f: Map<u64, u128>, k: u64)
    requires
        f.dom().finite(),
    ensures
        fire_value(f, k) <= fire_total(f),
        fire_total(f) >= 0,
{
    let g = |j: u64| f[j] as int;
    assert forall|j: u64| f.dom().contains(j) implies g(j) >= 0 by {}
    crate::sums::lemma_sum_nonneg(f.dom(), g);
    if f.contains_key(k) {
        crate::sums::lemma_sum_member_bound(f.dom(), g, k);
    }
}

impl Phala {
    /// A fresh engine with the genesis configuration: reporting windows of
    /// 8 and 40 blocks and the default reward target counts.
    pub fn new(
        round_interval: u64,
        max_heartbeat_per_worker_per_hour: u32,
        offline_offense_slash: u128,
        offline_report_reward: u128,
    ) -> (r: Phala)
        requires
            1 <= round_interval <= 0xffffffff,
            max_heartbeat_per_worker_per_hour <= round_interval,
        ensures
            r@.wf(),
            r@.worker_state == Map::<u64, WorkerInfo>::empty(),
            r@.stash_state == Map::<u64, StashInfo>::empty(),
            r@.stash == Map::<u64, u64>::empty(),
            r@.fire2 == Map::<u64, u128>::empty(),
            r@.accumulated_fire2 == 0,
            r@.online_workers == 0,
            r@.compute_workers == 0,
            r@.total_power == 0,
            r@.round == (RoundInfo { round: 0, start_block: 0 }),
            r@.force_next_round == false,
            r@.pending_update == Seq::<u64>::empty(),
            r@.pending_exiting == (MinerStatsDelta { num_worker: 0, num_power: 0 }),
            r@.round_stats_history == Map::<u32, RoundStats>::empty(),
            r@.block_reward_seeds == Map::<u64, HeartbeatChallenge>::empty(),
            r@.last_worker_activity == Map::<u64, u64>::empty(),
            r@.events == Seq::<Event>::empty(),
            r@.worker_ingress == Map::<u64, u64>::empty(),
            r@.heartbeats == Map::<u64, u32>::empty(),
            r@.round_worker_stats == Map::<u64, StashWorkerStats>::empty(),
            r@.contract_key == Map::<u32, Seq<u8>>::empty(),
            r@.mr_enclave_whitelist == Seq::<Seq<u8>>::empty(),
            r@.reward_window == 8,
            r@.slash_window == 40,
            r@.target_online_reward_count == 20,
            r@.target_compute_reward_count == 10,
            r@.target_virtual_task_count == 5,
            r@.round_interval == round_interval,
            r@.max_heartbeat_per_worker_per_hour == max_heartbeat_per_worker_per_hour,
            r@.offline_offense_slash == offline_offense_slash,
            r@.offline_report_reward == offline_report_reward,
    {
        let r = Phala {
            worker_state: HashMap::new(),
            stash_state: HashMap::new(),
            stash: HashMap::new(),
            worker_ingress: HashMap::new(),
            fire2: HashMap::new(),
            accumulated_fire2: 0,
            heartbeats: HashMap::new(),
            online_workers: 0,
            compute_workers: 0,
            total_power: 0,
            round_worker_stats: HashMap::new(),
            round: RoundInfo { round: 0, start_block: 0 },
            force_next_round: false,
            pending_update: Vec::new(),
            pending_exiting: MinerStatsDelta { num_worker: 0, num_power: 0 },
            round_stats_history: HashMap::new(),
            block_reward_seeds: HashMap::new(),
            last_worker_activity: HashMap::new(),
            contract_key: HashMap::new(),
            mr_enclave_whitelist: Vec::new(),
            target_online_reward_count: 20,
            target_compute_reward_count: 10,
            target_virtual_task_count: 5,
            reward_window: 8,
            slash_window: 40,
            round_interval,
            max_heartbeat_per_worker_per_hour,
            offline_offense_slash,
            offline_report_reward,
            events: Vec::new(),
        };
        proof {
            lemma_empty_state_aggregates();
        }
        r
    }
}

/// On an empty registry and ledger, every aggregate is zero.
pub proof fn lemma_empty_state_aggregates()
    ensures
        online_set(Map::<u64, WorkerInfo>::empty()).len() == 0,
        online_power(Map::<u64, WorkerInfo>::empty()) == 0,
        registered_power(Map::<u64, WorkerInfo>::empty()) == 0,
        fire_total(Map::<u64, u128>::empty()) == 0,
{
    let m = Map::<u64, WorkerInfo>::empty();
    assert(online_set(m) =~= Set::<u64>::empty());
    assert(m.dom() =~= Set::<u64>::empty());
    lemma_sum_empty(power_of(m));
    let f = Map::<u64, u128>::empty();
    assert(f.dom() =~= Set::<u64>::empty());
    lemma_sum_empty(|j: u64| f[j] as int);
}

} // verus!
