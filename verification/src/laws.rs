//! Laws of the engine, stated and proved over the same specification
//! functions that the operations' contracts use.
use vstd::prelude::*;
use crate::error::Error;
use crate::events::Event;
use crate::messaging::HeartbeatChallenge;
use crate::mining::{mark_dirty_spec, start_mining_outcome, start_mining_state,
    stop_mining_outcome, stop_mining_state};
use crate::round::{round_end_state, settle_dirty, settle_one};
use crate::slashing::{hit, kick_worker_state, report_offline_outcome, report_offline_state};
use crate::state::{fire_total, fire_value, is_online, lemma_fire_member_bound, worker_state_of,
    PhalaView};
use crate::types::{WorkerInfo, WorkerStateEnum};
use crate::u256::{lemma_xor_zero, spec_from_be_bytes, U256};
use crate::hashing::blake2_256_of;

verus! {

/// Marking an account dirty guarantees it is in the dirty list.
pub proof fn lemma_mark_dirty_contains(d: Seq<u64>, a: u64)
    ensures
        mark_dirty_spec(d, a).contains(a),
{
    if !d.contains(a) {
        assert(d.push(a)[d.len() as int] == a);
    }
}

/// A worker already mining keeps its record through a whole settlement.
proof fn lemma_settle_preserves_mining(
    m: Map<u64, WorkerInfo>,
    dirty: Seq<u64>,
    new_round: u32,
    new_block: u64,
    k: u64,
)
    requires
        m.contains_key(k),
        m[k].state is Mining,
    ensures
        ({
            let r = settle_dirty(m, dirty, new_round, new_block).0;
            r.contains_key(k) && r[k] == m[k]
        }),
    decreases dirty.len(),
{
    if dirty.len() > 0 {
        let step = settle_one(m, dirty[0], new_round, new_block);
        lemma_settle_preserves_mining(step.0, dirty.drop_first(), new_round, new_block, k);
    }
}

/// A pending worker in the dirty list is mining from the new block after
/// the settlement.
pub proof fn lemma_settle_pending_starts(
    m: Map<u64, WorkerInfo>,
    dirty: Seq<u64>,
    new_round: u32,
    new_block: u64,
    k: u64,
)
    requires
        m.contains_key(k),
        m[k].state is MiningPending,
        dirty.contains(k),
    ensures
        ({
            let r = settle_dirty(m, dirty, new_round, new_block).0;
            r.contains_key(k) && r[k].state == WorkerStateEnum::Mining(new_block)
        }),
    decreases dirty.len(),
{
    let step = settle_one(m, dirty[0], new_round, new_block);
    if dirty[0] == k {
        lemma_settle_preserves_mining(step.0, dirty.drop_first(), new_round, new_block, k);
    } else {
        assert(dirty.drop_first().contains(k)) by {
            let i = choose|i: int| 0 <= i < dirty.len() && dirty[i] == k;
            assert(dirty.drop_first()[i - 1] == k);
        }
        lemma_settle_pending_starts(step.0, dirty.drop_first(), new_round, new_block, k);
    }
}

/// A round-boundary settlement commits only the two boundary transitions:
/// every worker either keeps its record, moves from `MiningPending` to
/// `Mining(new_block)`, or moves from `MiningStopping` to `Free`; no
/// record appears or disappears and nothing else about a worker changes.
pub proof fn lemma_settle_transitions(
    m: Map<u64, WorkerInfo>,
    dirty: Seq<u64>,
    new_round: u32,
    new_block: u64,
)
    ensures
        settle_dirty(m, dirty, new_round, new_block).0.dom() == m.dom(),
        forall|k: u64|
            m.contains_key(k) ==> {
                let w0 = m[k];
                let w1 = #[trigger] settle_dirty(m, dirty, new_round, new_block).0[k];
                ||| w1 == w0
                ||| (w0.state is MiningPending && w1 == WorkerInfo {
                    state: WorkerStateEnum::Mining(new_block),
                    ..w0
                })
                ||| (w0.state is MiningStopping && w1 == WorkerInfo {
                    state: WorkerStateEnum::Free,
                    ..w0
                })
            },
    decreases dirty.len(),
{
    if dirty.len() > 0 {
        let step = settle_one(m, dirty[0], new_round, new_block);
        assert(step.0.dom() =~= m.dom());
        lemma_settle_transitions(step.0, dirty.drop_first(), new_round, new_block);
    }
}

/// Idempotence of start-mining: from `Free`, the request makes the worker
/// pending; the round boundary commits it to `Mining`; and repeating the
/// request then succeeds while changing nothing at all, so the worker-count
/// delta of the start is applied exactly once.
pub proof fn lemma_start_mining_idempotent(s: PhalaView, who: u64, now: u64)
    requires
        s.stash.contains_key(who),
        worker_state_of(s.worker_state, s.stash[who]) is Free,
    ensures
        ({
            let stash = s.stash[who];
            let s1 = start_mining_state(s, who);
            let s2 = round_end_state(s1, now);
            &&& worker_state_of(s1.worker_state, stash) is MiningPending
            &&& worker_state_of(s2.worker_state, stash) == WorkerStateEnum::Mining(
                (now + 1) as u64,
            )
            &&& start_mining_outcome(s2, who) == Result::<(), Error>::Ok(())
            &&& start_mining_state(s2, who) == s2
        }),
{
    let stash = s.stash[who];
    let s1 = start_mining_state(s, who);
    lemma_mark_dirty_contains(s.pending_update, stash);
    lemma_settle_pending_starts(
        s1.worker_state,
        s1.pending_update,
        (s1.round.round + 1) as u32,
        (now + 1) as u64,
        stash,
    );
}

/// Idempotence of stop-mining: stopping a worker that is already free, or
/// already winding down, succeeds and changes nothing.
pub proof fn lemma_stop_mining_idempotent(s: PhalaView, stash: u64)
    requires
        worker_state_of(s.worker_state, stash) is Free || worker_state_of(s.worker_state, stash)
            is MiningStopping,
    ensures
        stop_mining_outcome(s, stash) == Result::<(), Error>::Ok(()),
        stop_mining_state(s, stash) == s,
{
}

/// No double slash: after an accepted offline report, a second report
/// against the same worker for the same block fails with
/// `ReportedWorkerNotMining` and changes nothing, and the first report
/// appended exactly one `Slash` record (preceded by the kick's
/// `MinerStopped`).
pub proof fn lemma_no_double_slash(
    s: PhalaView,
    reporter: u64,
    second_reporter: u64,
    stash: u64,
    block_num: u64,
    now: u64,
    now_ms: u64,
)
    requires
        report_offline_outcome(s, stash, block_num, now) is Ok,
    ensures
        ({
            let s1 = report_offline_state(s, reporter, stash, block_num, now, now_ms);
            &&& report_offline_outcome(s1, stash, block_num, now) == Result::<(), Error>::Err(
                Error::ReportedWorkerNotMining,
            )
            &&& report_offline_state(s1, second_reporter, stash, block_num, now, now_ms) == s1
            &&& s1.events.len() == s.events.len() + 2
            &&& s1.events.take(s.events.len() as int) == s.events
            &&& s1.events[s.events.len() as int] == Event::MinerStopped(s.round.round, stash)
            &&& s1.events.last() matches Event::Slash(slashed, _payout, _lost, rep, _win)
                && slashed == stash && rep == reporter
        }),
{
    let s1 = report_offline_state(s, reporter, stash, block_num, now, now_ms);
    let sk = kick_worker_state(s, stash, now_ms);
    assert(is_online(worker_state_of(s.worker_state, stash)));
    assert(sk.worker_state[stash].state == WorkerStateEnum::Free);
    assert(s1.worker_state == sk.worker_state);
    assert(s1.slash_window == s.slash_window);
    assert(s1.round == s.round);
    assert(s1.events.take(s.events.len() as int) =~= s.events);
}

/// Hit-test monotonicity: a key that hits a challenge also hits any
/// challenge with the same seed and a larger target.
pub proof fn lemma_hit_monotonic(pubkey: Seq<u8>, seed: U256, t1: U256, t2: U256)
    requires
        t1.as_nat() <= t2.as_nat(),
        hit(pubkey, HeartbeatChallenge { seed, online_target: t1 }),
    ensures
        hit(pubkey, HeartbeatChallenge { seed, online_target: t2 }),
{
}

/// With a zero online target, no key whose masked identity differs from
/// zero can hit: nobody can be reported offline via the hit test. The one
/// exception is a key whose digest equals the seed exactly.
pub proof fn lemma_zero_target_no_hit(pubkey: Seq<u8>, ch: HeartbeatChallenge)
    requires
        ch.online_target.as_nat() == 0,
        spec_from_be_bytes(blake2_256_of(pubkey)) != ch.seed,
    ensures
        !hit(pubkey, ch),
{
    lemma_xor_zero(spec_from_be_bytes(blake2_256_of(pubkey)), ch.seed);
}

/// Fire conservation: under well-formedness the accumulator always equals
/// the sum of all balances, so no single balance can exceed it.
pub proof fn lemma_fire_conservation(s: PhalaView, k: u64)
    requires
        s.wf(),
    ensures
        s.accumulated_fire2 as int == fire_total(s.fire2),
        fire_value(s.fire2, k) <= s.accumulated_fire2,
{
    lemma_fire_member_bound(s.fire2, k);
}

} // verus!
