//! The gas budget of one execution.

use vstd::prelude::*;
use crate::error::VmError;

verus! {

/// The budget of one execution: the limit it started with and what is left
/// of it. What is left never exceeds the limit.
pub struct GasState {
    limit: u32,
    remaining: u32,
}

/// What a charge of `amount` leaves of `remaining`, or `None` where the
/// charge asks for more than is left.
pub open spec fn charged(remaining: nat, amount: nat) -> Option<nat> {
    if amount <= remaining {
        Some((remaining - amount) as nat)
    } else {
        None
    }
}

/// What paying `charges` one after the other leaves of `remaining`, or
/// `None` where one of them could not be paid.
pub open spec fn charged_all(remaining: nat, charges: Seq<u32>) -> Option<nat>
    decreases charges.len(),
{
    if charges.len() == 0 {
        Some(remaining)
    } else {
        match charged(remaining, charges[0] as nat) {
            Some(left) => charged_all(left, charges.drop_first()),
            None => None,
        }
    }
}

/// The sum of `charges`.
pub open spec fn total(charges: Seq<u32>) -> nat
    decreases charges.len(),
{
    if charges.len() == 0 {
        0
    } else {
        charges[0] as nat + total(charges.drop_first())
    }
}

impl GasState {
    #[verifier::type_invariant]
    spec fn within_limit(self) -> bool {
        self.remaining <= self.limit
    }

    /// The limit the execution started with.
    pub closed spec fn limit(self) -> nat {
        self.limit as nat
    }

    /// What is left of the limit.
    pub closed spec fn remaining(self) -> nat {
        self.remaining as nat
    }

    /// A fresh budget: all of `limit` is left.
    pub fn new(limit: u32) -> (gas: Self)
        ensures
            gas.limit() == limit,
            gas.remaining() == limit,
    {
        GasState { limit, remaining: limit }
    }

    /// Takes `amount` out of what is left. A charge that asks for more than
    /// is left is refused with `GasLimitExceeded` and takes nothing.
    pub fn consume(&mut self, amount: u32) -> (r: Result<(), VmError>)
        ensures
            final(self).limit() == old(self).limit(),
            final(self).remaining() <= final(self).limit(),
            match charged(old(self).remaining(), amount as nat) {
                Some(left) => r is Ok && final(self).remaining() == left,
                None => r == Err::<(), VmError>(VmError::GasLimitExceeded)
                    && final(self).remaining() == old(self).remaining(),
            },
    {
        proof {
            use_type_invariant(&*self);
        }
        if amount > self.remaining {
            return Err(VmError::GasLimitExceeded);
        }
        self.remaining = self.remaining - amount;
        Ok(())
    }

    /// The limit the execution started with.
    pub fn get_limit(&self) -> (limit: u32)
        ensures
            limit == self.limit(),
    {
        self.limit
    }

    /// What is left of the limit.
    pub fn get_remaining(&self) -> (remaining: u32)
        ensures
            remaining == self.remaining(),
            remaining <= self.limit(),
    {
        proof {
            use_type_invariant(self);
        }
        self.remaining
    }
}

/// Paying for a run of charges succeeds exactly when their sum fits in what
/// is left, and then leaves what is left less that sum.
pub proof fn lemma_charged_all_is_total(remaining: nat, charges: Seq<u32>)
    ensures
        charged_all(remaining, charges) == charged(remaining, total(charges)),
    decreases charges.len(),
{
    if charges.len() > 0 {
        match charged(remaining, charges[0] as nat) {
            Some(left) => {
                lemma_charged_all_is_total(left, charges.drop_first());
            },
            None => {},
        }
    }
}

/// An execution whose charges add up to more than the limit runs out of
/// gas, and does so at a charge that was not paid: there is a first charge
/// that is refused, every charge before it was paid in full, and the
/// refused one took nothing.
pub proof fn lemma_exhaustion(limit: nat, charges: Seq<u32>) -> (k: int)
    requires
        total(charges) > limit,
    ensures
        0 <= k < charges.len(),
        charged_all(limit, charges) is None,
        charged_all(limit, charges.take(k)) == Some((limit - total(charges.take(k))) as nat),
        total(charges.take(k)) <= limit,
        charged((limit - total(charges.take(k))) as nat, charges[k] as nat) is None,
    decreases charges.len(),
{
    lemma_charged_all_is_total(limit, charges);
    if charges[0] > limit {
        assert(charges.take(0).len() == 0);
        0
    } else {
        let rest = charges.drop_first();
        let j = lemma_exhaustion((limit - charges[0]) as nat, rest);
        let k = j + 1;
        assert(charges.take(k).drop_first() == rest.take(j));
        assert(charges.take(k)[0] == charges[0]);
        lemma_charged_all_is_total(limit, charges.take(k));
        k
    }
}

/// An execution whose charges fit in the limit never runs out of gas.
pub proof fn lemma_sufficient_gas(limit: nat, charges: Seq<u32>)
    requires
        total(charges) <= limit,
    ensures
        charged_all(limit, charges) == Some((limit - total(charges)) as nat),
{
    lemma_charged_all_is_total(limit, charges);
}

} // verus!
