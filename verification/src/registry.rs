//! The worker registry: stash records, the controller index, payout
//! preferences, contract keys, and the validation of custody releases.
use vstd::prelude::*;
use crate::error::Error;
use crate::messaging::{BalanceTransfer, MessageOrigin};
use crate::state::{online_power, online_set, registered_power, Phala, PhalaView};
use crate::sums::{lemma_sum_congruence, lemma_sum_insert};
use crate::types::{PayoutPrefs, Score, StashInfo, WorkerInfo, WorkerStateEnum};

verus! {

broadcast use vstd::std_specs::hash::group_hash_axioms, vstd::set::group_set_axioms;

/// The account that holds this subsystem's custody funds.
pub const PALLET_ACCOUNT: u64 = 0x5068616c61213432;

/// The native contract allowed to release custody funds.
pub const CONTRACT_ID: u32 = 2;

/// Which requests to bind a stash succeed: the controller must be neither
/// paired already nor itself a stash.
pub open spec fn set_stash_outcome(s: PhalaView, who: u64, controller: u64) -> Result<(), Error> {
    if s.stash.contains_key(controller) {
        Err(Error::AlreadyPaired)
    } else if s.stash_state.contains_key(controller) {
        Err(Error::AlreadyBonded)
    } else {
        Ok(())
    }
}

/// The state after binding `controller` to the stash `who`: a fresh stash
/// pays out to itself; re-binding keeps the payout preferences and drops
/// the old controller from the index.
pub open spec fn set_stash_state(s: PhalaView, who: u64, controller: u64) -> PhalaView {
    if set_stash_outcome(s, who, controller) is Ok {
        if s.stash_state.contains_key(who) {
            let prev = s.stash_state[who];
            PhalaView {
                stash: s.stash.remove(prev.controller).insert(controller, who),
                stash_state: s.stash_state.insert(
                    who,
                    StashInfo { controller, payout_prefs: prev.payout_prefs },
                ),
                ..s
            }
        } else {
            PhalaView {
                stash: s.stash.insert(controller, who),
                stash_state: s.stash_state.insert(
                    who,
                    StashInfo {
                        controller,
                        payout_prefs: PayoutPrefs { commission: 0, target: who },
                    },
                ),
                ..s
            }
        }
    } else {
        s
    }
}

/// Which payout-preference updates succeed: the caller must be a known
/// controller of a known stash, and a commission must stay within 100.
pub open spec fn set_payout_prefs_outcome(
    s: PhalaView,
    who: u64,
    payout_commission: Option<u32>,
    payout_target: Option<u64>,
) -> Result<(), Error> {
    if !s.stash.contains_key(who) {
        Err(Error::NotController)
    } else if !s.stash_state.contains_key(s.stash[who]) {
        Err(Error::StashNotFound)
    } else if payout_commission matches Some(c) && c > 100 {
        Err(Error::InvalidCommission)
    } else {
        Ok(())
    }
}

/// The state after a payout-preference update: each given field replaces
/// the stored one.
pub open spec fn set_payout_prefs_state(
    s: PhalaView,
    who: u64,
    payout_commission: Option<u32>,
    payout_target: Option<u64>,
) -> PhalaView {
    if set_payout_prefs_outcome(s, who, payout_commission, payout_target) is Ok {
        let stash = s.stash[who];
        let prev = s.stash_state[stash];
        let commission = match payout_commission {
            Some(c) => c,
            None => prev.payout_prefs.commission,
        };
        let target = match payout_target {
            Some(t) => t,
            None => prev.payout_prefs.target,
        };
        PhalaView {
            stash_state: s.stash_state.insert(
                stash,
                StashInfo {
                    controller: prev.controller,
                    payout_prefs: PayoutPrefs { commission, target },
                },
            ),
            ..s
        }
    } else {
        s
    }
}

impl Phala {
    /// The custody account of this subsystem.
    pub fn account_id() -> (r: u64)
        ensures
            r == PALLET_ACCOUNT,
    {
        PALLET_ACCOUNT
    }

    /// Whether an account is a registered controller.
    pub fn is_controller(&self, controller: u64) -> (r: bool)
        ensures
            r == self@.stash.contains_key(controller),
    {
        self.stash.contains_key(&controller)
    }

    /// Creates a new stash bound to `controller`, or rebinds an existing
    /// one, keeping the stash-to-controller index consistent.
    pub fn set_stash(&mut self, who: u64, controller: u64) -> (r: Result<(), Error>)
        requires
            old(self)@.wf(),
        ensures
            r == set_stash_outcome(old(self)@, who, controller),
            final(self)@ == set_stash_state(old(self)@, who, controller),
            final(self)@.wf(),
    {
        if self.stash.contains_key(&controller) {
            return Err(Error::AlreadyPaired);
        }
        if self.stash_state.contains_key(&controller) {
            return Err(Error::AlreadyBonded);
        }
        let stash_info = match self.stash_state.get(&who) {
            Some(prev) => {
                let prev = *prev;
                self.stash.remove(&prev.controller);
                StashInfo { controller, payout_prefs: prev.payout_prefs }
            },
            None => StashInfo {
                controller,
                payout_prefs: PayoutPrefs { commission: 0, target: who },
            },
        };
        self.stash_state.insert(who, stash_info);
        self.stash.insert(controller, who);
        proof {
            assert(self@ =~= set_stash_state(old(self)@, who, controller));
        }
        Ok(())
    }

    /// Updates the payout preferences of the caller's stash.
    pub fn set_payout_prefs(
        &mut self,
        who: u64,
        payout_commission: Option<u32>,
        payout_target: Option<u64>,
    ) -> (r: Result<(), Error>)
        requires
            old(self)@.wf(),
        ensures
            r == set_payout_prefs_outcome(old(self)@, who, payout_commission, payout_target),
            final(self)@ == set_payout_prefs_state(old(self)@, who, payout_commission,
                payout_target),
            final(self)@.wf(),
    {
        let stash = match self.stash.get(&who) {
            Some(s) => *s,
            None => {
                return Err(Error::NotController);
            },
        };
        let mut stash_info = match self.stash_state.get(&stash) {
            Some(si) => *si,
            None => {
                return Err(Error::StashNotFound);
            },
        };
        if let Some(val) = payout_commission {
            if val > 100 {
                return Err(Error::InvalidCommission);
            }
            stash_info.payout_prefs.commission = val;
        }
        if let Some(val) = payout_target {
            stash_info.payout_prefs.target = val;
        }
        self.stash_state.insert(stash, stash_info);
        proof {
            assert(self@ =~= set_payout_prefs_state(old(self)@, who, payout_commission,
                payout_target));
        }
        Ok(())
    }

    /// Root call: stores a contract's public key.
    pub fn force_set_contract_key(&mut self, id: u32, pubkey: Vec<u8>)
        ensures
            final(self)@ == (PhalaView {
                contract_key: old(self)@.contract_key.insert(id, pubkey@),
                ..old(self)@
            }),
            old(self)@.wf() ==> final(self)@.wf(),
    {
        self.contract_key.insert(id, pubkey);
        proof {
            assert(self@ =~= (PhalaView {
                contract_key: old(self)@.contract_key.insert(id, pubkey@),
                ..old(self)@
            }));
        }
    }

    /// Seeds the registry with one staker, as the chain's genesis build
    /// does: a `Free` worker with the mock benchmark score, paying out to
    /// its own stash.
    pub fn add_genesis_staker(
        &mut self,
        stash: u64,
        controller: u64,
        pubkey: Vec<u8>,
        machine_id: Vec<u8>,
    )
        requires
            old(self)@.wf(),
            !old(self)@.worker_state.contains_key(stash),
            old(self)@.worker_state.dom().len() < 0x7fffffff,
            registered_power(old(self)@.worker_state) + 100 <= 0x7fffffff,
        ensures
            final(self)@.worker_state.contains_key(stash),
            ({
                let w = final(self)@.worker_state[stash];
                &&& w.machine_id == machine_id
                &&& w.pubkey == pubkey
                &&& w.last_updated == 0
                &&& w.state == WorkerStateEnum::Free
                &&& w.score matches Some(sc) && sc.overall_score == 100 && sc.features@ =~= seq![
                    1u32,
                    4u32,
                ]
                &&& w.confidence_level == 128
                &&& w.runtime_version == 0
            }),
            final(self)@.worker_state.dom() == old(self)@.worker_state.dom().insert(stash),
            forall|k: u64|
                k != stash ==> final(self)@.worker_state.contains_key(k)
                    == old(self)@.worker_state.contains_key(k) && (
                old(self)@.worker_state.contains_key(k)
                    ==> #[trigger] final(self)@.worker_state[k] == old(self)@.worker_state[k]),
            final(self)@.stash_state == old(self)@.stash_state.insert(
                stash,
                StashInfo { controller, payout_prefs: PayoutPrefs { commission: 0, target: stash } },
            ),
            final(self)@.stash == old(self)@.stash.insert(controller, stash),
            final(self)@ == (PhalaView {
                worker_state: final(self)@.worker_state,
                stash_state: final(self)@.stash_state,
                stash: final(self)@.stash,
                ..old(self)@
            }),
            final(self)@.wf(),
    {
        let mut features: Vec<u32> = Vec::new();
        features.push(1);
        features.push(4);
        let worker_info = WorkerInfo {
            machine_id,
            pubkey,
            last_updated: 0,
            state: WorkerStateEnum::Free,
            score: Some(Score { overall_score: 100, features }),
            confidence_level: 128,
            runtime_version: 0,
        };
        let ghost w = worker_info;
        self.worker_state.insert(stash, worker_info);
        self.stash_state.insert(
            stash,
            StashInfo { controller, payout_prefs: PayoutPrefs { commission: 0, target: stash } },
        );
        self.stash.insert(controller, stash);
        proof {
            let m0 = old(self)@.worker_state;
            let m2 = m0.insert(stash, w);
            assert(m2.dom() =~= m0.dom().insert(stash));
            assert(online_set(m2) =~= online_set(m0));
            crate::state::lemma_online_set_finite(m0);
            assert forall|j: u64| online_set(m0).contains(j) implies crate::state::power_of(m2)(j)
                == crate::state::power_of(m0)(j) by {}
            lemma_sum_congruence(
                online_set(m0),
                crate::state::power_of(m2),
                crate::state::power_of(m0),
            );
            lemma_sum_insert(m0.dom(), crate::state::power_of(m2), stash);
            assert forall|j: u64| m0.dom().contains(j) implies crate::state::power_of(m2)(j)
                == crate::state::power_of(m0)(j) by {}
            lemma_sum_congruence(m0.dom(), crate::state::power_of(m2), crate::state::power_of(m0));
            assert(crate::state::power_of(m2)(stash) == 100);
            assert(online_power(m2) == online_power(m0));
            assert(registered_power(m2) == registered_power(m0) + 100);
        }
    }

    /// Validates a balance-transfer message from the queue: only the
    /// native token contract may release custody funds. The caller then
    /// performs the returned transfer from the custody account on the
    /// currency ledger.
    pub fn on_transfer_message_received(sender: MessageOrigin, payload: BalanceTransfer) -> (r:
        Result<BalanceTransfer, Error>)
        ensures
            sender == MessageOrigin::NativeContract(CONTRACT_ID) ==> r
                == Result::<BalanceTransfer, Error>::Ok(payload),
            sender != MessageOrigin::NativeContract(CONTRACT_ID) ==> r
                == Result::<BalanceTransfer, Error>::Err(Error::NotAllowed),
    {
        match sender {
            MessageOrigin::NativeContract(id) => {
                if id == CONTRACT_ID {
                    Ok(payload)
                } else {
                    Err(Error::NotAllowed)
                }
            },
            _ => Err(Error::NotAllowed),
        }
    }
}

} // verus!
