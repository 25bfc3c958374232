//! The round scheduler: per-block challenge generation, the round-boundary
//! settlement that commits pending worker transitions and merges deferred
//! stat deltas, and the retained round statistics.
use vstd::prelude::*;
use vstd::map::*;
use crate::error::Error;
use crate::events::Event;
use crate::messaging::HeartbeatChallenge;
use crate::state::{
    frac_bounded, lemma_online_power_le_registered, lemma_online_set_finite,
    lemma_power_member_bound, lemma_update_to_offline, lemma_update_to_online, online_power,
    online_set, registered_power, Phala, PhalaView,
};
use crate::types::{MinerStatsDelta, RoundInfo, RoundStats, WorkerInfo, WorkerStateEnum};
use crate::u256::{max_u256, spec_from_be_bytes, u256_target, U256};
use crate::PERCENTAGE_BASE;

verus! {

broadcast use vstd::std_specs::hash::group_hash_axioms, vstd::set::group_set_axioms;

/// How many rounds of statistics are retained: the current and the last.
pub const ROUND_STATS_TO_KEEP: u32 = 2;

/// The round-end hook that dependent subsystems implement to be notified.
pub trait OnRoundEnd {
    fn on_round_end(round: u32);
}

impl OnRoundEnd for () {
    fn on_round_end(_round: u32) {
    }
}

/// The clipped target count, in fractions of `PERCENTAGE_BASE`: the
/// configured target, capped so that the implied per-worker heartbeat rate
/// stays within `MaxHeartbeatPerWorkerPerHour`, reduced to the stored
/// 32-bit field.
pub open spec fn clipped_target_spec(
    num_target: u32,
    num_workers: u32,
    maxhb: u32,
    interval: u64,
) -> int {
    let rate_cap = maxhb * num_workers * (PERCENTAGE_BASE as int) / (interval as int);
    let upper = if num_target * (PERCENTAGE_BASE as int) <= rate_cap {
        num_target * (PERCENTAGE_BASE as int)
    } else {
        rate_cap
    };
    upper % 0x100000000
}

/// The clipped fraction never exceeds one expected heartbeat per online
/// worker per block, as long as the hourly cap is within the round length.
pub proof fn lemma_clipped_bounded(num_target: u32, num_workers: u32, maxhb: u32, interval: u64)
    requires
        1 <= interval,
        maxhb <= interval,
    ensures
        0 <= clipped_target_spec(num_target, num_workers, maxhb, interval) <= num_workers
            * (PERCENTAGE_BASE as int),
        clipped_target_spec(num_target, num_workers, maxhb, interval) < 0x100000000,
{
    let base = PERCENTAGE_BASE as int;
    let prod = maxhb * num_workers * base;
    let cap = num_workers * base;
    assert(prod <= interval * cap) by (nonlinear_arith)
        requires
            maxhb <= interval,
            0 <= num_workers,
            prod == maxhb * num_workers * base,
            cap == num_workers * base,
            base == 100000,
    ;
    assert(prod >= 0) by (nonlinear_arith)
        requires
            0 <= maxhb,
            0 <= num_workers,
            prod == maxhb * num_workers * base,
            base == 100000,
    ;
    vstd::arithmetic::div_mod::lemma_div_is_ordered(prod, interval * cap, interval as int);
    vstd::arithmetic::div_mod::lemma_div_multiples_vanish(cap, interval as int);
    vstd::arithmetic::div_mod::lemma_div_pos_is_pos(prod, interval as int);
    let rate_cap = prod / (interval as int);
    let upper = if num_target * base <= rate_cap {
        num_target * base
    } else {
        rate_cap
    };
    assert(0 <= upper <= cap);
    vstd::arithmetic::div_mod::lemma_mod_decreases(upper as nat, 0x100000000nat);
    vstd::arithmetic::div_mod::lemma_mod_division_less_than_divisor(upper, 0x100000000);
}

/// The statistics entry that a new round archives.
pub open spec fn new_round_stats(
    s: PhalaView,
    round: u32,
    online_workers: u32,
    compute_workers: u32,
    total_power: u32,
) -> RoundStats {
    RoundStats {
        round,
        online_workers,
        compute_workers,
        frac_target_online_reward: clipped_target_spec(
            s.target_online_reward_count,
            online_workers,
            s.max_heartbeat_per_worker_per_hour,
            s.round_interval,
        ) as u32,
        total_power,
        frac_target_compute_reward: clipped_target_spec(
            s.target_compute_reward_count,
            compute_workers,
            s.max_heartbeat_per_worker_per_hour,
            s.round_interval,
        ) as u32,
    }
}

/// The state after archiving a round's statistics: the entry beyond the
/// retention window goes, the new entry comes.
pub open spec fn update_round_stats_state(
    s: PhalaView,
    round: u32,
    online_workers: u32,
    compute_workers: u32,
    total_power: u32,
) -> PhalaView {
    let pruned = if round >= ROUND_STATS_TO_KEEP {
        s.round_stats_history.remove((round - ROUND_STATS_TO_KEEP) as u32)
    } else {
        s.round_stats_history
    };
    PhalaView {
        round_stats_history: pruned.insert(
            round,
            new_round_stats(s, round, online_workers, compute_workers, total_power),
        ),
        ..s
    }
}

/// The round-boundary transition of one dirty account: a pending worker
/// starts mining from the new block, a stopping worker returns to free;
/// its contribution to the worker-count and power deltas, and the events
/// it emits.
pub open spec fn settle_one(m: Map<u64, WorkerInfo>, k: u64, new_round: u32, new_block: u64) -> (
    Map<u64, WorkerInfo>,
    int,
    int,
    Seq<Event>,
) {
    if m.contains_key(k) {
        let w = m[k];
        match w.state {
            WorkerStateEnum::MiningPending => (
                m.insert(k, WorkerInfo { state: WorkerStateEnum::Mining(new_block), ..w }),
                1,
                w.power(),
                seq![Event::MinerStarted(new_round, k), Event::WorkerStateUpdated(k)],
            ),
            WorkerStateEnum::MiningStopping => (
                m.insert(k, WorkerInfo { state: WorkerStateEnum::Free, ..w }),
                -1,
                -w.power(),
                seq![Event::MinerStopped(new_round, k), Event::WorkerStateUpdated(k)],
            ),
            _ => (m, 0, 0, Seq::empty()),
        }
    } else {
        (m, 0, 0, Seq::empty())
    }
}

/// Settling the whole dirty list, account by account in order: the final
/// registry, the summed worker-count and power deltas, and the events.
pub open spec fn settle_dirty(
    m: Map<u64, WorkerInfo>,
    dirty: Seq<u64>,
    new_round: u32,
    new_block: u64,
) -> (Map<u64, WorkerInfo>, int, int, Seq<Event>)
    decreases dirty.len(),
{
    if dirty.len() == 0 {
        (m, 0, 0, Seq::empty())
    } else {
        let step = settle_one(m, dirty[0], new_round, new_block);
        let rest = settle_dirty(step.0, dirty.drop_first(), new_round, new_block);
        (rest.0, step.1 + rest.1, step.2 + rest.2, step.3 + rest.3)
    }
}

/// The whole round-boundary settlement: dirty workers transition, the
/// deferred exit delta merges into the aggregates, the dirty set and
/// accumulator drain, the round advances with no gap, and a statistics
/// entry is archived.
pub open spec fn round_end_state(s: PhalaView, now: u64) -> PhalaView {
    let new_round = (s.round.round + 1) as u32;
    let new_block = (now + 1) as u64;
    let settled = settle_dirty(s.worker_state, s.pending_update, new_round, new_block);
    let new_online = (s.online_workers + settled.1 + s.pending_exiting.num_worker) as u32;
    let new_power = (s.total_power + settled.2 + s.pending_exiting.num_power) as u32;
    let compute = if new_online <= s.target_virtual_task_count {
        new_online
    } else {
        s.target_virtual_task_count
    };
    let s1 = PhalaView {
        heartbeats: Map::empty(),
        worker_state: settled.0,
        online_workers: new_online,
        total_power: new_power,
        compute_workers: compute,
        pending_update: Seq::empty(),
        pending_exiting: MinerStatsDelta { num_worker: 0, num_power: 0 },
        round: RoundInfo { round: new_round, start_block: new_block },
        round_worker_stats: Map::empty(),
        events: s.events + settled.3,
        ..s
    };
    let s2 = update_round_stats_state(s1, new_round, new_online, compute, new_power);
    PhalaView { events: s2.events.push(Event::NewMiningRound(new_round)), ..s2 }
}

/// The archived statistics of a round, or all zeroes when none are kept.
pub open spec fn round_stats_of(s: PhalaView, r: u32) -> RoundStats {
    if s.round_stats_history.contains_key(r) {
        s.round_stats_history[r]
    } else {
        RoundStats {
            round: 0,
            online_workers: 0,
            compute_workers: 0,
            frac_target_online_reward: 0,
            total_power: 0,
            frac_target_compute_reward: 0,
        }
    }
}

/// The threshold stored in a block's challenge: zero when nobody was
/// online, else `floor(MAX / (online_workers * PERCENTAGE_BASE)) * frac`,
/// so a uniformly random 256-bit value falls under it with probability
/// about `frac / (online_workers * PERCENTAGE_BASE)`.
pub open spec fn online_target_nat(stats: RoundStats) -> int {
    if stats.online_workers == 0 {
        0
    } else {
        (max_u256() / (stats.online_workers * (PERCENTAGE_BASE as int)))
            * stats.frac_target_online_reward
    }
}

/// The retained challenges after shrinking the slash window to `slash`:
/// the blocks between the old window's floor and the new one go.
pub open spec fn pruned_window_seeds(s: PhalaView, slash: u64, now: u64) -> Map<
    u64,
    HeartbeatChallenge,
> {
    if slash < s.slash_window && now > slash {
        let last_empty_idx: u64 = if now >= s.slash_window {
            (now - s.slash_window) as u64
        } else {
            0
        };
        s.block_reward_seeds.remove_keys(Set::new(|k: u64| last_empty_idx < k <= now - slash))
    } else {
        s.block_reward_seeds
    }
}

/// Whether this block ends the round: the fixed interval elapsed, or the
/// next round was forced.
pub open spec fn is_round_boundary(s: PhalaView, now: u64) -> bool {
    s.force_next_round || now % s.round_interval == s.round_interval - 1
}

impl Phala {
    /// Drops all per-round heartbeat counters.
    pub fn clear_heartbeats(&mut self)
        ensures
            final(self)@ == (PhalaView { heartbeats: Map::<u64, u32>::empty(), ..old(self)@ }),
            old(self)@.wf() ==> final(self)@.wf(),
    {
        self.heartbeats = std::collections::HashMap::new();
        proof {
            assert(self@ =~= (PhalaView { heartbeats: Map::<u64, u32>::empty(), ..old(self)@ }));
        }
    }

    /// Calculates the clipped target transaction count for a round, as a
    /// fraction scaled by `PERCENTAGE_BASE`.
    pub fn clipped_target_number(&self, num_target: u32, num_workers: u32) -> (r: u32)
        requires
            1 <= self@.round_interval,
        ensures
            r == clipped_target_spec(
                num_target,
                num_workers,
                self@.max_heartbeat_per_worker_per_hour,
                self@.round_interval,
            ),
    {
        let round_blocks: u128 = self.round_interval as u128;
        let target_cap: u128 = num_target as u128 * PERCENTAGE_BASE as u128;
        proof {
            vstd::arithmetic::mul::lemma_mul_upper_bound(
                self@.max_heartbeat_per_worker_per_hour as int,
                0xffffffff,
                num_workers as int,
                0xffffffff,
            );
        }
        let rate_cap: u128 = self.max_heartbeat_per_worker_per_hour as u128 * num_workers as u128
            * PERCENTAGE_BASE as u128 / round_blocks;
        let upper: u128 = if target_cap <= rate_cap {
            target_cap
        } else {
            rate_cap
        };
        (upper % 0x100000000) as u32
    }

    /// Archives the statistics of a newly started round, keeping only the
    /// `ROUND_STATS_TO_KEEP` most recent entries.
    pub fn update_round_stats(
        &mut self,
        round: u32,
        online_workers: u32,
        compute_workers: u32,
        total_power: u32,
    )
        requires
            1 <= old(self)@.round_interval,
            old(self)@.max_heartbeat_per_worker_per_hour <= old(self)@.round_interval,
        ensures
            final(self)@ == update_round_stats_state(
                old(self)@,
                round,
                online_workers,
                compute_workers,
                total_power,
            ),
            frac_bounded(new_round_stats(old(self)@, round, online_workers, compute_workers,
                total_power)),
    {
        if round >= ROUND_STATS_TO_KEEP {
            self.round_stats_history.remove(&(round - ROUND_STATS_TO_KEEP));
        }
        let frac_target_online_reward = self.clipped_target_number(
            self.target_online_reward_count,
            online_workers,
        );
        let frac_target_compute_reward = self.clipped_target_number(
            self.target_compute_reward_count,
            compute_workers,
        );
        self.round_stats_history.insert(
            round,
            RoundStats {
                round,
                online_workers,
                compute_workers,
                frac_target_online_reward,
                total_power,
                frac_target_compute_reward,
            },
        );
        proof {
            lemma_clipped_bounded(
                old(self)@.target_online_reward_count,
                online_workers,
                old(self)@.max_heartbeat_per_worker_per_hour,
                old(self)@.round_interval,
            );
            lemma_clipped_bounded(
                old(self)@.target_compute_reward_count,
                compute_workers,
                old(self)@.max_heartbeat_per_worker_per_hour,
                old(self)@.round_interval,
            );
            assert(self@ =~= update_round_stats_state(
                old(self)@,
                round,
                online_workers,
                compute_workers,
                total_power,
            ));
        }
    }

    /// Generates this block's heartbeat challenge from fresh chain
    /// randomness and the current round's archived statistics, pruning the
    /// challenge that left the slash window. When nobody is online the
    /// target is zero.
    pub fn handle_block_reward(&mut self, now: u64, random_value: &[u8; 32])
        requires
            old(self)@.wf(),
        ensures
            ({
                let pruned = if now > old(self)@.slash_window {
                    old(self)@.block_reward_seeds.remove((now - old(self)@.slash_window) as u64)
                } else {
                    old(self)@.block_reward_seeds
                };
                let ch = final(self)@.block_reward_seeds[now];
                &&& final(self)@ == (PhalaView {
                    block_reward_seeds: pruned.insert(now, ch),
                    ..old(self)@
                })
                &&& ch.seed == spec_from_be_bytes(random_value@)
                &&& ch.online_target.as_nat() == online_target_nat(
                    round_stats_of(old(self)@, old(self)@.round.round),
                )
            }),
            final(self)@.wf(),
    {
        if now > self.slash_window {
            self.block_reward_seeds.remove(&(now - self.slash_window));
        }
        let seed = U256::from_be_bytes(random_value);
        let stats = match self.round_stats_history.get(&self.round.round) {
            Some(s) => *s,
            None => RoundStats {
                round: 0,
                online_workers: 0,
                compute_workers: 0,
                frac_target_online_reward: 0,
                total_power: 0,
                frac_target_compute_reward: 0,
            },
        };
        let online_target = if stats.online_workers == 0 {
            U256::zero()
        } else {
            u256_target(
                stats.frac_target_online_reward as u64,
                (stats.online_workers as u64) * (PERCENTAGE_BASE as u64),
            )
        };
        let seed_info = HeartbeatChallenge { seed, online_target };
        self.block_reward_seeds.insert(now, seed_info);
        proof {
            let pruned = if now > old(self)@.slash_window {
                old(self)@.block_reward_seeds.remove((now - old(self)@.slash_window) as u64)
            } else {
                old(self)@.block_reward_seeds
            };
            assert(self@ =~= (PhalaView {
                block_reward_seeds: pruned.insert(now, seed_info),
                ..old(self)@
            }));
        }
    }

    /// Ends the round: every dirty worker takes its boundary transition,
    /// the deferred exit delta merges exactly once into the aggregates and
    /// the accumulator drains, the dirty set clears, and round `round + 1`
    /// starts at the next block with fresh statistics. `OnlineWorkers`
    /// conservation is stated literally: the new value is the old one plus
    /// the summed boundary deltas plus the pending exit delta.
    pub fn handle_round_ends(&mut self, now: u64)
        requires
            old(self)@.wf(),
            old(self)@.round.round < u32::MAX,
            now < u64::MAX,
        ensures
            final(self)@ == round_end_state(old(self)@, now),
            final(self)@.online_workers == old(self)@.online_workers + settle_dirty(
                old(self)@.worker_state,
                old(self)@.pending_update,
                (old(self)@.round.round + 1) as u32,
                (now + 1) as u64,
            ).1 + old(self)@.pending_exiting.num_worker,
            final(self)@.total_power == old(self)@.total_power + settle_dirty(
                old(self)@.worker_state,
                old(self)@.pending_update,
                (old(self)@.round.round + 1) as u32,
                (now + 1) as u64,
            ).2 + old(self)@.pending_exiting.num_power,
            final(self)@.pending_exiting == (MinerStatsDelta { num_worker: 0, num_power: 0 }),
            final(self)@.pending_update == Seq::<u64>::empty(),
            final(self)@.round == (RoundInfo {
                round: (old(self)@.round.round + 1) as u32,
                start_block: (now + 1) as u64,
            }),
            final(self)@.wf(),
    {
        self.clear_heartbeats();
        let new_round = self.round.round + 1;
        let new_block = now + 1;
        let ghost s_start = self@;
        let ghost m0 = self@.worker_state;
        let ghost d = self@.pending_update;
        let ghost full = settle_dirty(m0, d, new_round, new_block);
        let mut delta: i64 = 0;
        let mut power_delta: i64 = 0;
        let n = self.pending_update.len();
        let mut i: usize = 0;
        proof {
            assert(d.skip(0) =~= d);
            lemma_online_set_finite(m0);
            lemma_online_power_le_registered(m0);
        }
        while i < n
            invariant
                i <= n,
                n == self.pending_update@.len(),
                self.pending_update@ == d,
                self@ == (PhalaView {
                    worker_state: self@.worker_state,
                    events: self@.events,
                    ..s_start
                }),
                s_start.worker_state == m0,
                s_start.wf(),
                full == settle_dirty(m0, d, new_round as u32, new_block as u64),
                ({
                    let rem = settle_dirty(
                        self@.worker_state,
                        d.skip(i as int),
                        new_round as u32,
                        new_block as u64,
                    );
                    &&& full.0 == rem.0
                    &&& full.1 == delta + rem.1
                    &&& full.2 == power_delta + rem.2
                    &&& s_start.events + full.3 == self@.events + rem.3
                }),
                self@.worker_state.dom() == m0.dom(),
                online_set(self@.worker_state).len() == online_set(m0).len() + delta,
                online_power(self@.worker_state) == online_power(m0) + power_delta,
                registered_power(self@.worker_state) == registered_power(m0),
            decreases n - i,
        {
            let account = self.pending_update[i];
            proof {
                assert(d.skip(i as int)[0] == account);
                assert(d.skip(i as int).drop_first() =~= d.skip(i as int + 1));
                lemma_online_set_finite(self@.worker_state);
                lemma_online_power_le_registered(self@.worker_state);
            }
            let state = match self.worker_state.get(&account) {
                Some(w) => w.state,
                None => WorkerStateEnum::Empty,
            };
            let ghost m_cur = self@.worker_state;
            match state {
                WorkerStateEnum::MiningPending => {
                    let mut w = self.worker_state.remove(&account).unwrap();
                    let p: u32 = match &w.score {
                        Some(sc) => sc.overall_score,
                        None => 0,
                    };
                    proof {
                        lemma_power_member_bound(m_cur, account);
                    }
                    w.state = WorkerStateEnum::Mining(new_block);
                    self.events.push(Event::MinerStarted(new_round, account));
                    self.worker_state.insert(account, w);
                    self.events.push(Event::WorkerStateUpdated(account));
                    delta = delta + 1;
                    power_delta = power_delta + p as i64;
                    proof {
                        let w2 = WorkerInfo {
                            state: WorkerStateEnum::Mining(new_block),
                            ..m_cur[account]
                        };
                        assert(self@.worker_state =~= m_cur.insert(account, w2));
                        lemma_update_to_online(m_cur, account, w2);
                    }
                },
                WorkerStateEnum::MiningStopping => {
                    let mut w = self.worker_state.remove(&account).unwrap();
                    let p: u32 = match &w.score {
                        Some(sc) => sc.overall_score,
                        None => 0,
                    };
                    proof {
                        lemma_power_member_bound(m_cur, account);
                    }
                    w.state = WorkerStateEnum::Free;
                    self.events.push(Event::MinerStopped(new_round, account));
                    self.worker_state.insert(account, w);
                    self.events.push(Event::WorkerStateUpdated(account));
                    delta = delta - 1;
                    power_delta = power_delta - p as i64;
                    proof {
                        let w2 = WorkerInfo { state: WorkerStateEnum::Free, ..m_cur[account] };
                        assert(self@.worker_state =~= m_cur.insert(account, w2));
                        lemma_update_to_offline(m_cur, account, w2);
                    }
                },
                _ => {},
            }
            i = i + 1;
        }
        proof {
            assert(d.skip(n as int) =~= Seq::<u64>::empty());
            assert(full.0 == self@.worker_state);
            assert(full.1 == delta);
            assert(full.2 == power_delta);
            assert(s_start.events + full.3 =~= self@.events);
            lemma_online_set_finite(self@.worker_state);
            lemma_online_power_le_registered(self@.worker_state);
        }
        let exit_delta = self.pending_exiting;
        self.pending_exiting = MinerStatsDelta { num_worker: 0, num_power: 0 };
        let new_online: u32 = ((self.online_workers as i64) + delta + (exit_delta.num_worker
            as i64)) as u32;
        self.online_workers = new_online;
        let new_total_power: u32 = ((self.total_power as i64) + power_delta
            + (exit_delta.num_power as i64)) as u32;
        self.total_power = new_total_power;
        let compute_workers: u32 = if new_online <= self.target_virtual_task_count {
            new_online
        } else {
            self.target_virtual_task_count
        };
        self.compute_workers = compute_workers;
        self.clear_dirty();
        self.round = RoundInfo { round: new_round, start_block: new_block };
        self.update_round_stats(new_round, new_online, compute_workers, new_total_power);
        self.round_worker_stats = std::collections::HashMap::new();
        self.events.push(Event::NewMiningRound(new_round));
        proof {
            assert(self@ =~= round_end_state(old(self)@, now));
        }
    }

    /// Runs every block: generates the challenge first, then settles the
    /// round if the interval elapsed or the next round was forced, clearing
    /// the force flag as it is consumed.
    pub fn on_finalize(&mut self, now: u64, random_value: &[u8; 32])
        requires
            old(self)@.wf(),
            old(self)@.round.round < u32::MAX,
            now < u64::MAX,
        ensures
            ({
                let pruned = if now > old(self)@.slash_window {
                    old(self)@.block_reward_seeds.remove((now - old(self)@.slash_window) as u64)
                } else {
                    old(self)@.block_reward_seeds
                };
                let ch = final(self)@.block_reward_seeds[now];
                &&& final(self)@.block_reward_seeds == pruned.insert(now, ch)
                &&& ch.seed == spec_from_be_bytes(random_value@)
                &&& ch.online_target.as_nat() == online_target_nat(
                    round_stats_of(old(self)@, old(self)@.round.round),
                )
                &&& if is_round_boundary(old(self)@, now) {
                    final(self)@ == (PhalaView {
                        block_reward_seeds: pruned.insert(now, ch),
                        force_next_round: false,
                        ..round_end_state(old(self)@, now)
                    })
                } else {
                    final(self)@ == (PhalaView {
                        block_reward_seeds: pruned.insert(now, ch),
                        ..old(self)@
                    })
                }
            }),
            final(self)@.wf(),
    {
        self.handle_block_reward(now, random_value);
        let ghost mid = self@;
        let interval = self.round_interval;
        if self.force_next_round || now % interval == interval - 1 {
            self.force_next_round = false;
            self.handle_round_ends(now);
            proof {
                assert(round_end_state(mid, now).block_reward_seeds
                    == mid.block_reward_seeds);
                assert(self@ =~= (PhalaView {
                    block_reward_seeds: mid.block_reward_seeds,
                    force_next_round: false,
                    ..round_end_state(old(self)@, now)
                }));
            }
        }
    }

    /// Root call: forces the next block to end the round.
    pub fn force_next_round(&mut self)
        ensures
            final(self)@ == (PhalaView { force_next_round: true, ..old(self)@ }),
            old(self)@.wf() ==> final(self)@.wf(),
    {
        self.force_next_round = true;
        proof {
            assert(self@ =~= (PhalaView { force_next_round: true, ..old(self)@ }));
        }
    }

    /// Root call: adjusts the reward and slash windows. When the slash
    /// window shrinks, the challenges that fall out of the new window are
    /// pruned; a slash window below the reward window is rejected
    /// untouched.
    pub fn force_set_window(
        &mut self,
        reward_window: Option<u64>,
        slash_window: Option<u64>,
        now: u64,
    ) -> (r: Result<(), Error>)
        requires
            old(self)@.wf(),
        ensures
            ({
                let reward = match reward_window {
                    Some(r) => r,
                    None => old(self)@.reward_window,
                };
                let slash = match slash_window {
                    Some(s) => s,
                    None => old(self)@.slash_window,
                };
                if slash >= reward {
                    &&& r == Result::<(), Error>::Ok(())
                    &&& final(self)@ == (PhalaView {
                        reward_window: reward,
                        slash_window: slash,
                        block_reward_seeds: pruned_window_seeds(old(self)@, slash, now),
                        ..old(self)@
                    })
                } else {
                    &&& r == Result::<(), Error>::Err(Error::InvalidInput)
                    &&& final(self)@ == old(self)@
                }
            }),
            final(self)@.wf(),
    {
        let old_reward = self.reward_window;
        let old_slash = self.slash_window;
        let reward = match reward_window {
            Some(r) => r,
            None => old_reward,
        };
        let slash = match slash_window {
            Some(s) => s,
            None => old_slash,
        };
        if slash < reward {
            return Err(Error::InvalidInput);
        }
        // Clean up (now - old, now - new] when the new slash window is
        // shorter.
        if slash < old_slash && now > slash {
            let last_empty_idx: u64 = if now >= old_slash {
                now - old_slash
            } else {
                0
            };
            let hi: u64 = now - slash;
            let mut i: u64 = hi;
            proof {
                assert(self@.block_reward_seeds =~= old(self)@.block_reward_seeds.remove_keys(
                    Set::new(|k: u64| hi < k <= hi),
                ));
            }
            while i > last_empty_idx
                invariant
                    last_empty_idx <= i <= hi,
                    self@ == (PhalaView {
                        block_reward_seeds: self@.block_reward_seeds,
                        ..old(self)@
                    }),
                    self@.block_reward_seeds == old(self)@.block_reward_seeds.remove_keys(
                        Set::new(|k: u64| i < k <= hi),
                    ),
                decreases i,
            {
                self.block_reward_seeds.remove(&i);
                proof {
                    let lo = (i - 1) as u64;
                    assert(old(self)@.block_reward_seeds.remove_keys(
                        Set::new(|k: u64| i < k <= hi),
                    ).remove(i) =~= old(self)@.block_reward_seeds.remove_keys(
                        Set::new(|k: u64| lo < k <= hi),
                    ));
                }
                i = i - 1;
            }
        }
        self.reward_window = reward;
        self.slash_window = slash;
        proof {
            assert(self@ =~= (PhalaView {
                reward_window: reward,
                slash_window: slash,
                block_reward_seeds: pruned_window_seeds(old(self)@, slash, now),
                ..old(self)@
            }));
        }
        Ok(())
    }

    /// Root call: sets the virtual computation task target.
    pub fn force_set_virtual_tasks(&mut self, target: u32)
        ensures
            final(self)@ == (PhalaView { target_virtual_task_count: target, ..old(self)@ }),
            old(self)@.wf() ==> final(self)@.wf(),
    {
        self.target_virtual_task_count = target;
        proof {
            assert(self@ =~= (PhalaView { target_virtual_task_count: target, ..old(self)@ }));
        }
    }
}

} // verus!
