//! Chain events. The engine appends them to an explicit output list held in
//! the world state, so every emission is part of a function's contract.
use vstd::prelude::*;
use crate::types::{AccountId, Balance, PayoutReason};

verus! {

#[derive(Clone, Debug, PartialEq, Eq)]
pub enum Event {
    /// A worker was slashed: `[stash, payout_addr, lost_amount, reporter, win_amount]`.
    Slash(AccountId, AccountId, Balance, AccountId, Balance),
    WorkerStateUpdated(AccountId),
    WhitelistAdded(Vec<u8>),
    WhitelistRemoved(Vec<u8>),
    /// `[round, stash]`
    MinerStarted(u32, AccountId),
    /// `[round, stash]`
    MinerStopped(u32, AccountId),
    /// `[round]`
    NewMiningRound(u32),
    /// `[stash, dest]`
    PayoutMissed(AccountId, AccountId),
    /// `[dest, reward, treasury, reason]`
    PayoutReward(AccountId, Balance, Balance, PayoutReason),
    /// A lottery contract message was received. `[sequence]`
    LotteryMessageReceived(u64),
}

} // verus!
