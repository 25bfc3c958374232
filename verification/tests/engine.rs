//! End-to-end tests of the mining engine: the worker state machine, round
//! boundaries, offline reporting and the Fire ledger.
use phala_mining::error::Error;
use phala_mining::events::Event;
use phala_mining::messaging::{BalanceTransfer, HeartbeatChallenge, MessageOrigin};
use phala_mining::state::Phala;
use phala_mining::types::WorkerStateEnum;
use phala_mining::u256::U256;

const INTERVAL: u64 = 100;
const OFFENSE: u128 = 100;
const REWARD: u128 = 50;

fn engine() -> Phala {
    let mut p = Phala::new(INTERVAL, 2, OFFENSE, REWARD);
    // stash 1 controlled by 11, stash 2 controlled by 12
    p.add_genesis_staker(1, 11, b"worker-one-key".to_vec(), b"machine-1".to_vec());
    p.add_genesis_staker(2, 12, b"worker-two-key".to_vec(), b"machine-2".to_vec());
    p
}

fn worker_state(p: &Phala, stash: u64) -> WorkerStateEnum {
    p.worker_state.get(&stash).unwrap().state
}

fn slash_count(p: &Phala) -> usize {
    p.events.iter().filter(|e| matches!(e, Event::Slash(..))).count()
}

/// Puts a challenge for `block` that the worker's key is guaranteed to hit.
fn plant_sure_challenge(p: &mut Phala, block: u64, pubkey: &[u8]) {
    let digest = sp_core_hashing::blake2_256(pubkey);
    let seed = U256::from_be_bytes(&digest);
    p.block_reward_seeds
        .insert(block, HeartbeatChallenge { seed, online_target: U256::zero() });
}

#[test]
fn registry_set_stash_and_errors() {
    let mut p = Phala::new(INTERVAL, 2, OFFENSE, REWARD);
    assert_eq!(p.set_stash(5, 50), Ok(()));
    assert!(p.is_controller(50));
    assert_eq!(p.stash_state.get(&5).unwrap().payout_prefs.target, 5);
    // the controller is already paired
    assert_eq!(p.set_stash(6, 50), Err(Error::AlreadyPaired));
    // a stash account cannot become a controller
    assert_eq!(p.set_stash(7, 5), Err(Error::AlreadyBonded));
    // rebinding moves the index and keeps the payout preferences
    assert_eq!(p.set_stash(5, 51), Ok(()));
    assert!(!p.is_controller(50));
    assert!(p.is_controller(51));
}

#[test]
fn registry_set_payout_prefs() {
    let mut p = engine();
    assert_eq!(p.set_payout_prefs(99, Some(10), None), Err(Error::NotController));
    assert_eq!(p.set_payout_prefs(11, Some(101), None), Err(Error::InvalidCommission));
    assert_eq!(p.set_payout_prefs(11, Some(25), Some(77)), Ok(()));
    let si = p.stash_state.get(&1).unwrap();
    assert_eq!(si.payout_prefs.commission, 25);
    assert_eq!(si.payout_prefs.target, 77);
}

#[test]
fn start_mining_walks_the_state_machine() {
    let mut p = engine();
    assert_eq!(p.start_mining_intention(99), Err(Error::ControllerNotFound));
    assert_eq!(worker_state(&p, 1), WorkerStateEnum::Free);
    assert_eq!(p.start_mining_intention(11), Ok(()));
    assert_eq!(worker_state(&p, 1), WorkerStateEnum::MiningPending);
    assert_eq!(p.pending_update, vec![1]);
    // repeating the request is an accepted no-op and marks nothing twice
    assert_eq!(p.start_mining_intention(11), Ok(()));
    assert_eq!(worker_state(&p, 1), WorkerStateEnum::MiningPending);
    assert_eq!(p.pending_update, vec![1]);
}

#[test]
fn stop_mining_walks_the_state_machine() {
    let mut p = engine();
    // stopping a free worker is an accepted no-op
    assert_eq!(p.stop_mining_intention(11), Ok(()));
    assert_eq!(worker_state(&p, 1), WorkerStateEnum::Free);
    // cancelling a pending start goes straight back to free
    assert_eq!(p.start_mining_intention(11), Ok(()));
    assert_eq!(p.stop_mining_intention(11), Ok(()));
    assert_eq!(worker_state(&p, 1), WorkerStateEnum::Free);
    // a mining worker winds down through MiningStopping
    assert_eq!(p.start_mining_intention(11), Ok(()));
    p.handle_round_ends(INTERVAL - 1);
    assert_eq!(worker_state(&p, 1), WorkerStateEnum::Mining(INTERVAL));
    assert_eq!(p.stop_mining_intention(11), Ok(()));
    assert_eq!(worker_state(&p, 1), WorkerStateEnum::MiningStopping);
    // stopping twice stays put
    assert_eq!(p.stop_mining_intention(11), Ok(()));
    assert_eq!(worker_state(&p, 1), WorkerStateEnum::MiningStopping);
}

#[test]
fn invalid_transitions_are_rejected_unchanged() {
    let mut p = engine();
    p.worker_state.get_mut(&1).unwrap().state = WorkerStateEnum::Gatekeeper;
    assert_eq!(p.start_mining_intention(11), Err(Error::InvalidState));
    assert_eq!(p.stop_mining_intention(11), Err(Error::InvalidState));
    assert_eq!(worker_state(&p, 1), WorkerStateEnum::Gatekeeper);
    assert!(p.pending_update.is_empty());
}

#[test]
fn round_boundary_commits_a_pending_start() {
    let mut p = engine();
    assert_eq!(p.start_mining_intention(11), Ok(()));
    assert_eq!(p.online_workers, 0);
    let events_before = p.events.len();
    p.handle_round_ends(INTERVAL - 1);
    // the worker mines from the new round's start block
    assert_eq!(worker_state(&p, 1), WorkerStateEnum::Mining(INTERVAL));
    assert_eq!(p.online_workers, 1);
    assert_eq!(p.total_power, 100);
    assert_eq!(p.compute_workers, 1);
    assert_eq!(p.round.round, 1);
    assert_eq!(p.round.start_block, INTERVAL);
    assert!(p.pending_update.is_empty());
    let new_events = &p.events[events_before..];
    assert!(new_events.contains(&Event::MinerStarted(1, 1)));
    assert!(new_events.contains(&Event::NewMiningRound(1)));
    // the new round's statistics were archived with the clipped fraction:
    // min(20 * 100000, 2 * 1 * 100000 / 100) = 2000
    let stats = p.round_stats_history.get(&1).unwrap();
    assert_eq!(stats.online_workers, 1);
    assert_eq!(stats.total_power, 100);
    assert_eq!(stats.frac_target_online_reward, 2000);
}

#[test]
fn start_mining_is_idempotent_across_the_boundary() {
    let mut p = engine();
    assert_eq!(p.start_mining_intention(11), Ok(()));
    p.handle_round_ends(INTERVAL - 1);
    assert_eq!(p.online_workers, 1);
    // a second start after the boundary changes nothing
    assert_eq!(p.start_mining_intention(11), Ok(()));
    assert_eq!(worker_state(&p, 1), WorkerStateEnum::Mining(INTERVAL));
    assert!(p.pending_update.is_empty());
    // so the next boundary applies no second delta
    p.handle_round_ends(2 * INTERVAL - 1);
    assert_eq!(p.online_workers, 1);
    assert_eq!(p.total_power, 100);
}

#[test]
fn online_workers_are_conserved_at_the_boundary() {
    let mut p = engine();
    p.start_mining_intention(11).unwrap();
    p.start_mining_intention(12).unwrap();
    p.handle_round_ends(INTERVAL - 1);
    assert_eq!(p.online_workers, 2);
    assert_eq!(p.total_power, 200);
    // worker 1 asks to stop; worker 2 is kicked by a verified report
    p.stop_mining_intention(11).unwrap();
    p.add_fire(2, 60);
    let block = INTERVAL + 1;
    plant_sure_challenge(&mut p, block, b"worker-two-key");
    assert_eq!(p.report_offline(42, 2, block, block, 1_000), Ok(()));
    // the kick freed the worker at once but deferred the aggregate change
    assert_eq!(worker_state(&p, 2), WorkerStateEnum::Free);
    assert_eq!(p.online_workers, 2);
    assert_eq!(p.pending_exiting.num_worker, -1);
    assert_eq!(p.pending_exiting.num_power, -100);
    // the boundary merges the stop (-1) and the pending exit (-1)
    p.handle_round_ends(2 * INTERVAL - 1);
    assert_eq!(p.online_workers, 0);
    assert_eq!(p.total_power, 0);
    assert_eq!(p.pending_exiting.num_worker, 0);
    assert_eq!(p.pending_exiting.num_power, 0);
}

#[test]
fn a_verified_report_slashes_once() {
    let mut p = engine();
    p.start_mining_intention(11).unwrap();
    p.handle_round_ends(INTERVAL - 1);
    // the payout target (the stash itself) holds less than the offence
    p.add_fire(1, 30);
    p.add_fire(42, 5);
    let block = INTERVAL + 2;
    plant_sure_challenge(&mut p, block, b"worker-one-key");
    assert_eq!(p.report_offline(42, 1, block, block + 1, 777), Ok(()));
    // the worker is free immediately, in the same block
    assert_eq!(worker_state(&p, 1), WorkerStateEnum::Free);
    assert_eq!(p.worker_state.get(&1).unwrap().last_updated, 777);
    // the payout target lost min(offence, balance); the reporter earned the
    // flat reward
    assert_eq!(*p.fire2.get(&1).unwrap(), 0);
    assert_eq!(*p.fire2.get(&42).unwrap(), 5 + REWARD);
    assert_eq!(p.accumulated_fire2, 5 + REWARD);
    assert_eq!(p.round_worker_stats.get(&1).unwrap().slash, 30);
    assert_eq!(slash_count(&p), 1);
    assert!(p.events.contains(&Event::Slash(1, 1, 30, 42, REWARD)));
    // a second report for the same block fails and slashes nothing more
    assert_eq!(p.report_offline(43, 1, block, block + 1, 778), Err(Error::ReportedWorkerNotMining));
    assert_eq!(slash_count(&p), 1);
    assert_eq!(p.accumulated_fire2, 5 + REWARD);
}

#[test]
fn reports_outside_the_window_are_too_ancient() {
    let mut p = engine();
    p.start_mining_intention(11).unwrap();
    p.handle_round_ends(INTERVAL - 1);
    let block = INTERVAL;
    plant_sure_challenge(&mut p, block, b"worker-one-key");
    // the slash window is 40 blocks; a report 40 blocks late is rejected
    assert_eq!(
        p.report_offline(42, 1, block, block + 40, 0),
        Err(Error::TooAncientReport)
    );
    // a report about a block before the current round is rejected too
    assert_eq!(p.report_offline(42, 1, INTERVAL - 1, INTERVAL + 1, 0), Err(Error::TooAncientReport));
    assert_eq!(worker_state(&p, 1), WorkerStateEnum::Mining(INTERVAL));
    assert_eq!(slash_count(&p), 0);
}

#[test]
fn report_guard_errors() {
    let mut p = engine();
    p.start_mining_intention(11).unwrap();
    p.handle_round_ends(INTERVAL - 1);
    let block = INTERVAL + 1;
    // unknown stash
    assert_eq!(p.report_offline(42, 999, block, block, 0), Err(Error::StashNotFound));
    // known but not mining
    assert_eq!(p.report_offline(42, 2, block, block, 0), Err(Error::ReportedWorkerNotMining));
    // mining but alive since the challenged block
    p.last_worker_activity.insert(1, block);
    plant_sure_challenge(&mut p, block, b"worker-one-key");
    assert_eq!(p.report_offline(42, 1, block, block, 0), Err(Error::ReportedWorkerStillAlive));
    p.last_worker_activity.insert(1, 0);
    // no retained challenge: the default zero challenge cannot be hit
    let other = block + 1;
    assert_eq!(p.report_offline(42, 1, other, other, 0), Err(Error::InvalidProof));
    assert_eq!(slash_count(&p), 0);
}

#[test]
fn zero_online_target_when_nobody_is_online() {
    let mut p = engine();
    // round 0 has no archived statistics, so the target is zero
    p.handle_block_reward(5, &[0x11; 32]);
    let ch = p.block_reward_seeds.get(&5).unwrap();
    assert_eq!(ch.online_target, U256::zero());
    assert_eq!(ch.seed, U256::from_be_bytes(&[0x11; 32]));
    // and a zero target can never be hit by a worker's real key
    assert_eq!(p.report_offline(42, 1, 5, 6, 0), Err(Error::ReportedWorkerNotMining));
}

#[test]
fn challenge_target_matches_the_round_statistics() {
    let mut p = engine();
    p.start_mining_intention(11).unwrap();
    p.handle_round_ends(INTERVAL - 1);
    // frac 2000 of one worker: target = MAX / 100000 * 2000
    p.handle_block_reward(INTERVAL + 1, &[0x22; 32]);
    let ch = *p.block_reward_seeds.get(&(INTERVAL + 1)).unwrap();
    let expected = phala_mining::u256::u256_target(2000, 100_000);
    assert_eq!(ch.online_target, expected);
    // challenges older than the slash window are pruned lazily
    p.handle_block_reward(2, &[0x33; 32]);
    assert!(p.block_reward_seeds.contains_key(&2));
    p.handle_block_reward(42, &[0x44; 32]);
    assert!(!p.block_reward_seeds.contains_key(&2));
}

#[test]
fn on_finalize_drives_rounds_and_the_force_flag() {
    let mut p = engine();
    p.start_mining_intention(11).unwrap();
    // an ordinary block only stores a challenge
    p.on_finalize(3, &[1; 32]);
    assert_eq!(p.round.round, 0);
    assert!(p.block_reward_seeds.contains_key(&3));
    // the boundary block settles the round
    p.on_finalize(INTERVAL - 1, &[2; 32]);
    assert_eq!(p.round.round, 1);
    assert_eq!(p.online_workers, 1);
    // forcing ends the round early, and the flag is consumed
    p.force_next_round();
    p.on_finalize(INTERVAL + 3, &[3; 32]);
    assert_eq!(p.round.round, 2);
    assert!(!p.force_next_round);
    p.on_finalize(INTERVAL + 4, &[4; 32]);
    assert_eq!(p.round.round, 2);
}

#[test]
fn round_numbers_advance_without_gaps_and_stats_are_pruned() {
    let mut p = engine();
    p.handle_round_ends(INTERVAL - 1);
    p.handle_round_ends(2 * INTERVAL - 1);
    p.handle_round_ends(3 * INTERVAL - 1);
    assert_eq!(p.round.round, 3);
    assert_eq!(p.round.start_block, 3 * INTERVAL);
    // only the two most recent rounds keep their statistics
    assert!(!p.round_stats_history.contains_key(&1));
    assert!(p.round_stats_history.contains_key(&2));
    assert!(p.round_stats_history.contains_key(&3));
}

#[test]
fn fire_ledger_clamps_debits_and_conserves_the_total() {
    let mut p = Phala::new(INTERVAL, 2, OFFENSE, REWARD);
    p.add_fire(7, 40);
    p.add_fire(8, 10);
    assert_eq!(p.accumulated_fire2, 50);
    // a debit larger than the balance takes only what is there
    assert_eq!(p.try_sub_fire(7, 100), 40);
    assert_eq!(*p.fire2.get(&7).unwrap(), 0);
    assert_eq!(p.accumulated_fire2, 10);
    // the accumulator always equals the sum of the balances
    let total: u128 = p.fire2.values().sum();
    assert_eq!(p.accumulated_fire2, total);
    // debiting an absent account takes nothing
    assert_eq!(p.try_sub_fire(9, 5), 0);
    assert_eq!(p.accumulated_fire2, 10);
}

#[test]
fn force_fire_calls() {
    let mut p = Phala::new(INTERVAL, 2, OFFENSE, REWARD);
    assert_eq!(p.force_add_fire(vec![1, 2], vec![10]), Err(Error::InvalidInput));
    assert_eq!(p.force_add_fire(vec![1, 2], vec![10, 20]), Ok(()));
    assert_eq!(*p.fire2.get(&2).unwrap(), 20);
    assert_eq!(p.accumulated_fire2, 30);
    p.force_reset_fire();
    assert_eq!(p.accumulated_fire2, 0);
    assert!(p.fire2.is_empty());
}

#[test]
fn whitelist_add_and_remove() {
    let mut p = Phala::new(INTERVAL, 2, OFFENSE, REWARD);
    let enclave = [1u8; 32];
    let signer = [2u8; 32];
    let prod = [3u8; 2];
    let svn = [4u8; 2];
    assert_eq!(p.add_mrenclave(&enclave, &signer, &prod, &svn), Ok(()));
    assert_eq!(p.mr_enclave_whitelist.len(), 1);
    assert_eq!(
        p.add_mrenclave(&enclave, &signer, &prod, &svn),
        Err(Error::MREnclaveAlreadyExist)
    );
    assert_eq!(p.add_mrenclave(&[1; 31], &signer, &prod, &svn), Err(Error::InvalidInputBadLength));
    assert_eq!(
        p.remove_mrenclave_by_raw_data(&[9; 32], &signer, &prod, &svn),
        Err(Error::MREnclaveNotFound)
    );
    assert_eq!(p.remove_mrenclave_by_raw_data(&enclave, &signer, &prod, &svn), Ok(()));
    assert!(p.mr_enclave_whitelist.is_empty());
    assert_eq!(p.remove_mrenclave_by_index(0), Err(Error::WrongWhitelistIndex));
    assert_eq!(p.add_mrenclave(&enclave, &signer, &prod, &svn), Ok(()));
    assert_eq!(p.remove_mrenclave_by_index(0), Ok(()));
    assert!(p.mr_enclave_whitelist.is_empty());
    assert!(p.events.iter().any(|e| matches!(e, Event::WhitelistAdded(_))));
    assert!(p.events.iter().any(|e| matches!(e, Event::WhitelistRemoved(_))));
}

#[test]
fn force_set_window_prunes_shrunk_window() {
    let mut p = Phala::new(INTERVAL, 2, OFFENSE, REWARD);
    let now = 50;
    for b in 10..=49u64 {
        p.block_reward_seeds.insert(
            b,
            HeartbeatChallenge { seed: U256::zero(), online_target: U256::zero() },
        );
    }
    assert_eq!(p.force_set_window(Some(20), Some(10), now), Err(Error::InvalidInput));
    // shrinking the slash window from 40 to 20 clears (now-40, now-20]
    assert_eq!(p.force_set_window(None, Some(20), now), Ok(()));
    assert_eq!(p.slash_window, 20);
    for b in 11..=30u64 {
        assert!(!p.block_reward_seeds.contains_key(&b), "block {} should be pruned", b);
    }
    assert!(p.block_reward_seeds.contains_key(&10));
    assert!(p.block_reward_seeds.contains_key(&31));
}

#[test]
fn custody_release_requires_the_token_contract() {
    let payload = BalanceTransfer { dest: 5, amount: 70 };
    assert_eq!(
        Phala::on_transfer_message_received(MessageOrigin::NativeContract(2), payload),
        Ok(payload)
    );
    assert_eq!(
        Phala::on_transfer_message_received(MessageOrigin::NativeContract(3), payload),
        Err(Error::NotAllowed)
    );
    assert_eq!(
        Phala::on_transfer_message_received(MessageOrigin::AccountId(2), payload),
        Err(Error::NotAllowed)
    );
}

#[test]
fn set_payout_prefs_without_a_stash_record() {
    let mut p = Phala::new(INTERVAL, 2, OFFENSE, REWARD);
    // a dangling controller entry without stash data draws StashNotFound
    p.stash.insert(60, 6);
    assert_eq!(p.set_payout_prefs(60, Some(1), None), Err(Error::StashNotFound));
}

#[test]
fn force_set_contract_key_stores_the_key() {
    let mut p = Phala::new(INTERVAL, 2, OFFENSE, REWARD);
    p.force_set_contract_key(3, vec![9, 9, 9]);
    assert_eq!(p.contract_key.get(&3).unwrap(), &vec![9, 9, 9]);
}

#[test]
fn state_changes_announce_worker_updates() {
    let mut p = engine();
    p.start_mining_intention(11).unwrap();
    assert!(p.events.contains(&Event::WorkerStateUpdated(1)));
    let n = p.events.len();
    // the idempotent repeat announces nothing new
    p.start_mining_intention(11).unwrap();
    assert_eq!(p.events.len(), n);
}

#[test]
fn kicks_emit_miner_stopped_with_the_current_round() {
    let mut p = engine();
    p.start_mining_intention(11).unwrap();
    p.handle_round_ends(INTERVAL - 1);
    let block = INTERVAL + 1;
    plant_sure_challenge(&mut p, block, b"worker-one-key");
    p.report_offline(42, 1, block, block, 0).unwrap();
    assert!(p.events.contains(&Event::MinerStopped(1, 1)));
    // the kick also drops the worker's ingress counter
    assert!(!p.worker_ingress.contains_key(&1));
}

#[test]
fn force_set_virtual_tasks_caps_compute_workers() {
    let mut p = engine();
    p.force_set_virtual_tasks(0);
    p.start_mining_intention(11).unwrap();
    p.handle_round_ends(INTERVAL - 1);
    assert_eq!(p.online_workers, 1);
    assert_eq!(p.compute_workers, 0);
}
