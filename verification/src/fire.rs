//! The Fire reward ledger: per-worker balances and the global accumulator,
//! with credits and floor-clamped debits.
use vstd::prelude::*;
use crate::error::Error;
use crate::state::{fire_value, lemma_fire_member_bound, lemma_fire_update, Phala, PhalaView};
use crate::types::Balance;

verus! {

broadcast use vstd::std_specs::hash::group_hash_axioms, vstd::set::group_set_axioms;

/// The sum of a list of amounts.
pub open spec fn amounts_total(amounts: Seq<u128>) -> int
    decreases amounts.len(),
{
    if amounts.len() == 0 {
        0
    } else {
        amounts[0] + amounts_total(amounts.drop_first())
    }
}

pub proof fn lemma_amounts_total_nonneg(amounts: Seq<u128>)
    ensures
        amounts_total(amounts) >= 0,
    decreases amounts.len(),
{
    if amounts.len() > 0 {
        lemma_amounts_total_nonneg(amounts.drop_first());
    }
}

/// The ledger after crediting each target with the matching amount, and the
/// accumulator that goes with it.
pub open spec fn fire_credit_all(
    f: Map<u64, u128>,
    acc: int,
    targets: Seq<u64>,
    amounts: Seq<u128>,
) -> (Map<u64, u128>, int)
    decreases targets.len(),
{
    if targets.len() == 0 || amounts.len() == 0 {
        (f, acc)
    } else {
        let f2 = f.insert(targets[0], (fire_value(f, targets[0]) + amounts[0]) as u128);
        fire_credit_all(f2, acc + amounts[0], targets.drop_first(), amounts.drop_first())
    }
}

impl Phala {
    /// Credits `amount` to `dest`'s Fire balance and the accumulator.
    pub fn add_fire(&mut self, dest: u64, amount: Balance)
        requires
            old(self)@.wf(),
            old(self)@.accumulated_fire2 + amount <= u128::MAX,
        ensures
            final(self)@ == (PhalaView {
                fire2: old(self)@.fire2.insert(
                    dest,
                    (fire_value(old(self)@.fire2, dest) + amount) as u128,
                ),
                accumulated_fire2: (old(self)@.accumulated_fire2 + amount) as u128,
                ..old(self)@
            }),
            final(self)@.wf(),
    {
        proof {
            lemma_fire_member_bound(self@.fire2, dest);
        }
        let cur: u128 = match self.fire2.get(&dest) {
            Some(v) => *v,
            None => 0,
        };
        self.fire2.insert(dest, cur + amount);
        self.accumulated_fire2 = self.accumulated_fire2 + amount;
        proof {
            lemma_fire_update(old(self)@.fire2, dest, (cur + amount) as u128);
            assert(self@ =~= (PhalaView {
                fire2: old(self)@.fire2.insert(
                    dest,
                    (fire_value(old(self)@.fire2, dest) + amount) as u128,
                ),
                accumulated_fire2: (old(self)@.accumulated_fire2 + amount) as u128,
                ..old(self)@
            }));
        }
    }

    /// Debits up to `amount` from `dest`'s Fire balance, clamped to what is
    /// there, and returns the amount actually debited. The balance never
    /// goes negative.
    pub fn try_sub_fire(&mut self, dest: u64, amount: Balance) -> (r: Balance)
        requires
            old(self)@.wf(),
        ensures
            r == if amount <= fire_value(old(self)@.fire2, dest) {
                amount
            } else {
                fire_value(old(self)@.fire2, dest)
            },
            r <= old(self)@.accumulated_fire2,
            final(self)@ == (PhalaView {
                fire2: old(self)@.fire2.insert(
                    dest,
                    (fire_value(old(self)@.fire2, dest) - r) as u128,
                ),
                accumulated_fire2: (old(self)@.accumulated_fire2 - r) as u128,
                ..old(self)@
            }),
            final(self)@.wf(),
    {
        proof {
            lemma_fire_member_bound(self@.fire2, dest);
        }
        let cur: u128 = match self.fire2.get(&dest) {
            Some(v) => *v,
            None => 0,
        };
        let to_sub: u128 = if amount < cur {
            amount
        } else {
            cur
        };
        self.fire2.insert(dest, cur - to_sub);
        self.accumulated_fire2 = self.accumulated_fire2 - to_sub;
        proof {
            lemma_fire_update(old(self)@.fire2, dest, (cur - to_sub) as u128);
            assert(self@ =~= (PhalaView {
                fire2: old(self)@.fire2.insert(
                    dest,
                    (fire_value(old(self)@.fire2, dest) - to_sub) as u128,
                ),
                accumulated_fire2: (old(self)@.accumulated_fire2 - to_sub) as u128,
                ..old(self)@
            }));
        }
        to_sub
    }

    /// Root call: credits a batch of accounts, or rejects mismatched input
    /// lists untouched.
    pub fn force_add_fire(&mut self, targets: Vec<u64>, amounts: Vec<Balance>) -> (r: Result<
        (),
        Error,
    >)
        requires
            old(self)@.wf(),
            old(self)@.accumulated_fire2 + amounts_total(amounts@) <= u128::MAX,
        ensures
            r == if targets@.len() == amounts@.len() {
                Result::<(), Error>::Ok(())
            } else {
                Result::<(), Error>::Err(Error::InvalidInput)
            },
            r is Ok ==> {
                let credited = fire_credit_all(
                    old(self)@.fire2,
                    old(self)@.accumulated_fire2 as int,
                    targets@,
                    amounts@,
                );
                final(self)@ == (PhalaView {
                    fire2: credited.0,
                    accumulated_fire2: credited.1 as u128,
                    ..old(self)@
                })
            },
            r is Err ==> final(self)@ == old(self)@,
            final(self)@.wf(),
    {
        if targets.len() != amounts.len() {
            return Err(Error::InvalidInput);
        }
        let ghost full = fire_credit_all(
            self@.fire2,
            self@.accumulated_fire2 as int,
            targets@,
            amounts@,
        );
        proof {
            assert(targets@.skip(0) =~= targets@);
            assert(amounts@.skip(0) =~= amounts@);
        }
        let mut i: usize = 0;
        while i < targets.len()
            invariant
                self@.wf(),
                i <= targets@.len(),
                targets@.len() == amounts@.len(),
                self@.accumulated_fire2 + amounts_total(amounts@.skip(i as int)) <= u128::MAX,
                fire_credit_all(
                    self@.fire2,
                    self@.accumulated_fire2 as int,
                    targets@.skip(i as int),
                    amounts@.skip(i as int),
                ) == full,
                self@ == (PhalaView {
                    fire2: self@.fire2,
                    accumulated_fire2: self@.accumulated_fire2,
                    ..old(self)@
                }),
            decreases targets@.len() - i,
        {
            let target = targets[i];
            let amount = amounts[i];
            proof {
                assert(amounts@.skip(i as int).drop_first() =~= amounts@.skip(i as int + 1));
                assert(targets@.skip(i as int).drop_first() =~= targets@.skip(i as int + 1));
                assert(amounts@.skip(i as int)[0] == amount);
                assert(targets@.skip(i as int)[0] == target);
                lemma_amounts_total_nonneg(amounts@.skip(i as int + 1));
            }
            self.add_fire(target, amount);
            i = i + 1;
        }
        proof {
            assert(targets@.skip(targets@.len() as int) =~= Seq::<u64>::empty());
            assert(self@ =~= (PhalaView {
                fire2: full.0,
                accumulated_fire2: full.1 as u128,
                ..old(self)@
            }));
        }
        Ok(())
    }

    /// Root call: wipes every Fire balance and the accumulator.
    pub fn force_reset_fire(&mut self)
        requires
            old(self)@.wf(),
        ensures
            final(self)@ == (PhalaView {
                fire2: Map::<u64, u128>::empty(),
                accumulated_fire2: 0,
                ..old(self)@
            }),
            final(self)@.wf(),
    {
        self.fire2 = std::collections::HashMap::new();
        self.accumulated_fire2 = 0;
        proof {
            crate::state::lemma_empty_state_aggregates();
            assert(self@ =~= (PhalaView {
                fire2: Map::<u64, u128>::empty(),
                accumulated_fire2: 0,
                ..old(self)@
            }));
        }
    }
}

} // verus!
