//! User-driven worker transitions: start-mining and stop-mining requests,
//! and the dirty set that defers their aggregate effects to the round
//! boundary.
use vstd::prelude::*;
use crate::error::Error;
use crate::events::Event;
use crate::state::{lemma_update_same_liveness, worker_state_of, Phala, PhalaView};
use crate::types::{WorkerInfo, WorkerStateEnum};

verus! {

broadcast use vstd::std_specs::hash::group_hash_axioms, vstd::set::group_set_axioms;

/// The dirty list after marking `account`: appended once, never twice.
pub open spec fn mark_dirty_spec(d: Seq<u64>, account: u64) -> Seq<u64> {
    if d.contains(account) {
        d
    } else {
        d.push(account)
    }
}

/// Which start-mining requests succeed: idempotently those from `Free`,
/// `MiningPending` or `Mining`; an unknown controller and any other worker
/// state are rejected.
pub open spec fn start_mining_outcome(s: PhalaView, who: u64) -> Result<(), Error> {
    if !s.stash.contains_key(who) {
        Err(Error::ControllerNotFound)
    } else {
        match worker_state_of(s.worker_state, s.stash[who]) {
            WorkerStateEnum::Free => Ok(()),
            WorkerStateEnum::Mining(_) => Ok(()),
            WorkerStateEnum::MiningPending => Ok(()),
            _ => Err(Error::InvalidState),
        }
    }
}

/// The state after a start-mining request: `Free` becomes `MiningPending`
/// and is marked dirty; every other request changes nothing.
pub open spec fn start_mining_state(s: PhalaView, who: u64) -> PhalaView {
    if s.stash.contains_key(who) && worker_state_of(s.worker_state, s.stash[who])
        is Free {
        let stash = s.stash[who];
        PhalaView {
            worker_state: s.worker_state.insert(
                stash,
                WorkerInfo { state: WorkerStateEnum::MiningPending, ..s.worker_state[stash] },
            ),
            pending_update: mark_dirty_spec(s.pending_update, stash),
            events: s.events.push(Event::WorkerStateUpdated(stash)),
            ..s
        }
    } else {
        s
    }
}

/// Which stop-mining requests succeed: idempotently those from `Mining`,
/// `MiningPending`, `Free` or `MiningStopping`; the rest are rejected.
pub open spec fn stop_mining_outcome(s: PhalaView, stash: u64) -> Result<(), Error> {
    match worker_state_of(s.worker_state, stash) {
        WorkerStateEnum::Mining(_) => Ok(()),
        WorkerStateEnum::MiningPending => Ok(()),
        WorkerStateEnum::Free => Ok(()),
        WorkerStateEnum::MiningStopping => Ok(()),
        _ => Err(Error::InvalidState),
    }
}

/// The state after a stop-mining request: `Mining` becomes `MiningStopping`
/// and `MiningPending` is cancelled back to `Free`, both marked dirty;
/// every other request changes nothing.
pub open spec fn stop_mining_state(s: PhalaView, stash: u64) -> PhalaView {
    match worker_state_of(s.worker_state, stash) {
        WorkerStateEnum::Mining(_) => PhalaView {
            worker_state: s.worker_state.insert(
                stash,
                WorkerInfo { state: WorkerStateEnum::MiningStopping, ..s.worker_state[stash] },
            ),
            pending_update: mark_dirty_spec(s.pending_update, stash),
            events: s.events.push(Event::WorkerStateUpdated(stash)),
            ..s
        },
        WorkerStateEnum::MiningPending => PhalaView {
            worker_state: s.worker_state.insert(
                stash,
                WorkerInfo { state: WorkerStateEnum::Free, ..s.worker_state[stash] },
            ),
            pending_update: mark_dirty_spec(s.pending_update, stash),
            events: s.events.push(Event::WorkerStateUpdated(stash)),
            ..s
        },
        _ => s,
    }
}

impl Phala {
    /// Adds `account` to the set of workers with a pending round-boundary
    /// update, without ever adding it twice.
    pub fn mark_dirty(&mut self, account: u64)
        ensures
            final(self)@ == (PhalaView {
                pending_update: mark_dirty_spec(old(self)@.pending_update, account),
                ..old(self)@
            }),
            old(self)@.wf() ==> final(self)@.wf(),
    {
        let n = self.pending_update.len();
        let mut i: usize = 0;
        let mut found = false;
        while i < n
            invariant
                n == self.pending_update@.len(),
                i <= n,
                found == exists|j: int| 0 <= j < i && self.pending_update@[j] == account,
                self == old(self),
            decreases n - i,
        {
            if self.pending_update[i] == account {
                found = true;
            }
            i = i + 1;
        }
        if !found {
            assert(!self.pending_update@.contains(account));
            self.pending_update.push(account);
        }
        proof {
            assert(self@ =~= (PhalaView {
                pending_update: mark_dirty_spec(old(self)@.pending_update, account),
                ..old(self)@
            }));
        }
    }

    /// Empties the dirty set; the round boundary calls this after settling.
    pub fn clear_dirty(&mut self)
        ensures
            final(self)@ == (PhalaView { pending_update: Seq::<u64>::empty(), ..old(self)@ }),
            old(self)@.wf() ==> final(self)@.wf(),
    {
        self.pending_update = Vec::new();
        proof {
            assert(self@ =~= (PhalaView { pending_update: Seq::<u64>::empty(), ..old(self)@ }));
        }
    }

    /// A controller's request to start mining: its stash moves from `Free`
    /// to `MiningPending`, to become `Mining` at the next round boundary.
    /// Repeating the request while pending or mining is accepted and does
    /// nothing.
    pub fn start_mining_intention(&mut self, who: u64) -> (r: Result<(), Error>)
        requires
            old(self)@.wf(),
        ensures
            r == start_mining_outcome(old(self)@, who),
            final(self)@ == start_mining_state(old(self)@, who),
            final(self)@.wf(),
    {
        let stash = match self.stash.get(&who) {
            Some(s) => *s,
            None => {
                return Err(Error::ControllerNotFound);
            },
        };
        let state = match self.worker_state.get(&stash) {
            Some(w) => w.state,
            None => WorkerStateEnum::Empty,
        };
        match state {
            WorkerStateEnum::Free => {},
            WorkerStateEnum::Mining(_) | WorkerStateEnum::MiningPending => {
                return Ok(());
            },
            _ => {
                return Err(Error::InvalidState);
            },
        }
        let mut w = self.worker_state.remove(&stash).unwrap();
        w.state = WorkerStateEnum::MiningPending;
        self.events.push(Event::WorkerStateUpdated(stash));
        self.worker_state.insert(stash, w);
        self.mark_dirty(stash);
        proof {
            let m0 = old(self)@.worker_state;
            let w2 = WorkerInfo { state: WorkerStateEnum::MiningPending, ..m0[stash] };
            assert(self@.worker_state =~= m0.insert(stash, w2));
            lemma_update_same_liveness(m0, stash, w2);
            assert(self@ =~= start_mining_state(old(self)@, who));
        }
        Ok(())
    }

    /// A controller's request to stop mining, resolved through the
    /// stash index.
    pub fn stop_mining_intention(&mut self, who: u64) -> (r: Result<(), Error>)
        requires
            old(self)@.wf(),
        ensures
            !old(self)@.stash.contains_key(who) ==> r == Result::<(), Error>::Err(
                Error::ControllerNotFound,
            ) && final(self)@ == old(self)@,
            old(self)@.stash.contains_key(who) ==> {
                &&& r == stop_mining_outcome(old(self)@, old(self)@.stash[who])
                &&& final(self)@ == stop_mining_state(old(self)@, old(self)@.stash[who])
            },
            final(self)@.wf(),
    {
        let stash = match self.stash.get(&who) {
            Some(s) => *s,
            None => {
                return Err(Error::ControllerNotFound);
            },
        };
        self.stop_mining_internal(stash)
    }

    /// Applies a stop-mining request directly to a stash: `Mining` workers
    /// wind down through `MiningStopping`, a pending start is cancelled,
    /// and stopping an already free or stopping worker does nothing.
    pub fn stop_mining_internal(&mut self, stash: u64) -> (r: Result<(), Error>)
        requires
            old(self)@.wf(),
        ensures
            r == stop_mining_outcome(old(self)@, stash),
            final(self)@ == stop_mining_state(old(self)@, stash),
            final(self)@.wf(),
    {
        let state = match self.worker_state.get(&stash) {
            Some(w) => w.state,
            None => WorkerStateEnum::Empty,
        };
        let new_state = match state {
            WorkerStateEnum::Mining(_) => WorkerStateEnum::MiningStopping,
            WorkerStateEnum::MiningPending => WorkerStateEnum::Free,
            WorkerStateEnum::Free | WorkerStateEnum::MiningStopping => {
                return Ok(());
            },
            _ => {
                return Err(Error::InvalidState);
            },
        };
        let mut w = self.worker_state.remove(&stash).unwrap();
        w.state = new_state;
        self.events.push(Event::WorkerStateUpdated(stash));
        self.worker_state.insert(stash, w);
        self.mark_dirty(stash);
        proof {
            let m0 = old(self)@.worker_state;
            let w2 = WorkerInfo { state: new_state, ..m0[stash] };
            assert(self@.worker_state =~= m0.insert(stash, w2));
            lemma_update_same_liveness(m0, stash, w2);
            assert(self@ =~= stop_mining_state(old(self)@, stash));
        }
        Ok(())
    }
}

} // verus!
