//! Message payloads exchanged with workers over the message queue. The
//! engine only builds them; binding and transport stay outside.
use vstd::prelude::*;
use crate::types::{AccountId, Balance};
use crate::u256::U256;

verus! {

/// A worker's raw public key bytes.
pub type WorkerPublicKey = Vec<u8>;

/// Per-block liveness challenge: a pseudorandom seed and the threshold a
/// worker's masked identity must fall under to be expected to respond.
#[derive(Clone, Copy, Debug, PartialEq, Eq, Structural)]
pub struct HeartbeatChallenge {
    pub seed: U256,
    pub online_target: U256,
}

impl Default for HeartbeatChallenge {
    fn default() -> (r: Self)
        ensures
            r == (HeartbeatChallenge {
                seed: U256 { w0: 0, w1: 0, w2: 0, w3: 0 },
                online_target: U256 { w0: 0, w1: 0, w2: 0, w3: 0 },
            }),
    {
        HeartbeatChallenge {
            seed: U256 { w0: 0, w1: 0, w2: 0, w3: 0 },
            online_target: U256 { w0: 0, w1: 0, w2: 0, w3: 0 },
        }
    }
}

/// A worker's report that it answered the challenge of a given block.
#[derive(Clone, Debug)]
pub enum MiningReportEvent {
    Heartbeat { challenge_block: u32, challenge_time: u64, iterations: u64 },
}

/// Per-worker registry data carried in worker events.
#[derive(Clone, Copy, Debug, PartialEq, Eq, Structural)]
pub struct WorkerInfo {
    pub confidence_level: u8,
}

/// Commands and notifications sent to one worker.
#[derive(Clone, Copy, Debug, PartialEq, Eq, Structural)]
pub enum WorkerEvent {
    Registered(WorkerInfo),
    BenchStart,
    BenchScore(u32),
    MiningStart { init_v: u64 },
    MiningStop,
    MiningEnterUnresponsive,
    MiningExitUnresponsive,
}

#[derive(Clone, Debug)]
pub struct WorkerEventWithKey {
    pub pubkey: WorkerPublicKey,
    pub event: WorkerEvent,
}

/// System-wide broadcast: either one worker's event or this block's
/// heartbeat challenge.
#[derive(Clone, Debug)]
pub enum SystemEvent {
    WorkerEvent(WorkerEventWithKey),
    HeartbeatChallenge(HeartbeatChallenge),
}

impl SystemEvent {
    pub fn new_worker_event(pubkey: WorkerPublicKey, event: WorkerEvent) -> (r: SystemEvent)
        ensures
            r == SystemEvent::WorkerEvent(WorkerEventWithKey { pubkey, event }),
    {
        SystemEvent::WorkerEvent(WorkerEventWithKey { pubkey, event })
    }
}

/// Settlement data for one worker at a payout.
#[derive(Clone, Debug)]
pub struct SettleInfo {
    pub pubkey: WorkerPublicKey,
    pub v: u64,
    pub payout: u64,
}

/// Per-block mining update: workers found offline and settlement info.
#[derive(Clone, Debug)]
pub struct MiningInfoUpdateEvent {
    pub timestamp_ms: u64,
    pub offline: Vec<WorkerPublicKey>,
    pub settle: Vec<SettleInfo>,
}

impl MiningInfoUpdateEvent {
    pub fn new(timestamp_ms: u64) -> (r: Self)
        ensures
            r.timestamp_ms == timestamp_ms,
            r.offline@.len() == 0,
            r.settle@.len() == 0,
    {
        Self { timestamp_ms, offline: Vec::new(), settle: Vec::new() }
    }

    pub fn is_empty(&self) -> (r: bool)
        ensures
            r == (self.offline@.len() == 0 && self.settle@.len() == 0),
    {
        self.offline.is_empty() && self.settle.is_empty()
    }
}

/// Where a queue message came from.
#[derive(Clone, Copy, Debug, PartialEq, Eq, Structural)]
pub enum MessageOrigin {
    /// An ordinary chain account.
    AccountId(AccountId),
    /// A built-in contract, by its contract number.
    NativeContract(u32),
    /// The gatekeeper role.
    Gatekeeper,
}

/// Notice that value moved into the custody account.
#[derive(Clone, Copy, Debug, PartialEq, Eq, Structural)]
pub enum BalanceEvent {
    TransferToTee(AccountId, Balance),
}

/// Request to release custody funds back to a chain account.
#[derive(Clone, Copy, Debug, PartialEq, Eq, Structural)]
pub struct BalanceTransfer {
    pub dest: AccountId,
    pub amount: Balance,
}

} // verus!
