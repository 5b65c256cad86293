//! The insurance-policy ledger.
//!
//! Policies are kept under ids issued by a monotonically increasing
//! sequence starting at 1. A policy is created active; deactivation flips
//! it to inactive exactly once. Paying a premium pushes the next payment
//! date one month past the supplied clock reading and changes nothing
//! else. The ledger carries an active-policy count and a running premium
//! total that are proved equal to the figures derived from the record
//! store after every operation.

use crate::aggregate::{
    keep_by, lemma_keep_by_push, lemma_sum_by_elem_bound, lemma_sum_by_le_len,
    lemma_sum_by_nonneg, lemma_sum_by_push, lemma_sum_by_update, sum_by,
};
use crate::errors::LedgerError;
use vstd::prelude::*;

verus! {

pub const SECONDS_PER_DAY: u64 = 86400;

pub const DAYS_PER_MONTH: u64 = 30;

pub const MONTH_IN_SECONDS: u64 = DAYS_PER_MONTH * SECONDS_PER_DAY;

/// One insurance policy.
#[derive(Debug)]
pub struct InsurancePolicy {
    pub monthly_premium: i128,
    pub coverage_amount: i128,
    /// Next premium due, as seconds since the Unix epoch.
    pub next_payment_date: u64,
    pub id: u64,
    pub active: bool,
    pub name: String,
    pub coverage_type: String,
}

impl Clone for InsurancePolicy {
    fn clone(&self) -> (r: Self)
        ensures
            r == *self,
    {
        InsurancePolicy {
            monthly_premium: self.monthly_premium,
            coverage_amount: self.coverage_amount,
            next_payment_date: self.next_payment_date,
            id: self.id,
            active: self.active,
            name: self.name.clone(),
            coverage_type: self.coverage_type.clone(),
        }
    }
}

/// What an active policy contributes to the running premium total.
pub open spec fn active_premium(p: InsurancePolicy) -> int {
    if p.active {
        p.monthly_premium as int
    } else {
        0
    }
}

/// What an active policy contributes to the active count.
pub open spec fn active_one(p: InsurancePolicy) -> int {
    if p.active {
        1int
    } else {
        0int
    }
}

pub open spec fn is_active(p: InsurancePolicy) -> bool {
    p.active
}

/// The sum of the monthly premiums of the active policies in `s`.
pub open spec fn active_total_of(s: Seq<InsurancePolicy>) -> int {
    sum_by(s, |p: InsurancePolicy| active_premium(p))
}

/// The number of active policies in `s`.
pub open spec fn active_count_of(s: Seq<InsurancePolicy>) -> int {
    sum_by(s, |p: InsurancePolicy| active_one(p))
}

/// The active policies of `s`, in store order.
pub open spec fn active_policies_of(s: Seq<InsurancePolicy>) -> Seq<InsurancePolicy> {
    keep_by(s, |p: InsurancePolicy| is_active(p))
}

/// `p` with its state flipped to inactive and every other field kept.
pub open spec fn deactivated_policy(p: InsurancePolicy) -> InsurancePolicy {
    InsurancePolicy {
        monthly_premium: p.monthly_premium,
        coverage_amount: p.coverage_amount,
        next_payment_date: p.next_payment_date,
        id: p.id,
        active: false,
        name: p.name,
        coverage_type: p.coverage_type,
    }
}

/// `p` with its next payment date pushed one month past `now` and every
/// other field kept.
pub open spec fn repriced_policy(p: InsurancePolicy, now: u64) -> InsurancePolicy {
    InsurancePolicy {
        monthly_premium: p.monthly_premium,
        coverage_amount: p.coverage_amount,
        next_payment_date: (now + MONTH_IN_SECONDS) as u64,
        id: p.id,
        active: p.active,
        name: p.name,
        coverage_type: p.coverage_type,
    }
}

/// The insurance ledger: the record store, the id sequence, and the
/// incrementally cached aggregates.
pub struct Insurance {
    pub policies: Vec<InsurancePolicy>,
    pub next_id: u64,
    pub active_count: u64,
    pub total_premium: i128,
}

impl Insurance {
    /// Ids are dense and ascending, premiums and coverages are positive,
    /// and the cached count and total equal the figures derived from the
    /// record store.
    pub open spec fn wf(self) -> bool {
        &&& self.next_id == self.policies@.len()
        &&& forall|i: int|
            0 <= i < self.policies@.len() ==> (#[trigger] self.policies@[i]).id == i + 1
        &&& forall|i: int|
            0 <= i < self.policies@.len() ==> (#[trigger] self.policies@[i]).monthly_premium > 0
        &&& forall|i: int|
            0 <= i < self.policies@.len() ==> (#[trigger] self.policies@[i]).coverage_amount > 0
        &&& self.active_count == active_count_of(self.policies@)
        &&& self.total_premium == active_total_of(self.policies@)
    }

    /// Whether a policy exists under `id`.
    pub open spec fn valid_id(self, id: u64) -> bool {
        1 <= id <= self.policies@.len()
    }

    /// Everything `deactivate_policy` promises, as a relation between the
    /// ledger before the call, the ledger after it, and the result.
    pub open spec fn deactivate_post(
        pre: Insurance,
        post: Insurance,
        id: u64,
        r: Result<bool, LedgerError>,
    ) -> bool {
        if !pre.valid_id(id) {
            &&& r == Err::<bool, LedgerError>(LedgerError::NotFound)
            &&& post == pre
        } else {
            let p = pre.policies@[id - 1];
            if !p.active {
                &&& r == Ok::<bool, LedgerError>(false)
                &&& post == pre
            } else {
                &&& r == Ok::<bool, LedgerError>(true)
                &&& post.policies@ == pre.policies@.update(id - 1, deactivated_policy(p))
                &&& post.next_id == pre.next_id
                &&& post.active_count == pre.active_count - 1
                &&& post.total_premium == pre.total_premium - p.monthly_premium
            }
        }
    }

    /// An empty ledger: no policies, the id sequence at zero, both cached
    /// aggregates at zero. Whether such a state already sits in a host's
    /// persistent store is the host's concern, checked before this call.
    pub fn initialize() -> (r: Self)
        ensures
            r.wf(),
            r.policies@.len() == 0,
            r.next_id == 0,
            r.active_count == 0,
            r.total_premium == 0,
    {
        Insurance { policies: Vec::new(), next_id: 0, active_count: 0, total_premium: 0 }
    }

    /// Create a policy and return its fresh id; `now` is the caller's
    /// clock reading, and the first premium falls due one month later.
    ///
    /// A non-positive premium or coverage is refused and leaves the ledger
    /// untouched. On success the policy is appended active under id
    /// `next_id + 1`, and the active count and premium total grow by one
    /// and by `monthly_premium`.
    pub fn create_policy(
        &mut self,
        name: String,
        coverage_type: String,
        monthly_premium: i128,
        coverage_amount: i128,
        now: u64,
    ) -> (r: Result<u64, LedgerError>)
        requires
            old(self).wf(),
            old(self).next_id < u64::MAX,
            old(self).total_premium + monthly_premium <= i128::MAX,
            now + MONTH_IN_SECONDS <= u64::MAX,
        ensures
            final(self).wf(),
            monthly_premium <= 0 || coverage_amount <= 0 ==> r == Err::<u64, LedgerError>(
                LedgerError::InvalidAmount,
            ) && *final(self) == *old(self),
            monthly_premium > 0 && coverage_amount > 0 ==> r == Ok::<u64, LedgerError>(
                (old(self).next_id + 1) as u64,
            )
                && final(self).policies@ == old(self).policies@.push(
                    (InsurancePolicy {
                        monthly_premium,
                        coverage_amount,
                        next_payment_date: (now + MONTH_IN_SECONDS) as u64,
                        id: (old(self).next_id + 1) as u64,
                        active: true,
                        name,
                        coverage_type,
                    }),
                )
                && final(self).next_id == old(self).next_id + 1
                && final(self).active_count == old(self).active_count + 1
                && final(self).total_premium == old(self).total_premium + monthly_premium,
    {
        if monthly_premium <= 0 || coverage_amount <= 0 {
            return Err(LedgerError::InvalidAmount);
        }
        let new_id: u64 = self.next_id + 1;
        let next_payment_date: u64 = now + MONTH_IN_SECONDS;
        let policy = InsurancePolicy {
            monthly_premium,
            coverage_amount,
            next_payment_date,
            id: new_id,
            active: true,
            name,
            coverage_type,
        };
        let ghost gpolicy = policy;
        proof {
            lemma_sum_by_push(old(self).policies@, |p: InsurancePolicy| active_premium(p), gpolicy);
            lemma_sum_by_push(old(self).policies@, |p: InsurancePolicy| active_one(p), gpolicy);
            lemma_sum_by_le_len(old(self).policies@, |p: InsurancePolicy| active_one(p));
        }
        self.policies.push(policy);
        self.next_id = new_id;
        self.active_count = self.active_count + 1;
        self.total_premium = self.total_premium + monthly_premium;
        Ok(new_id)
    }

    /// Record a premium payment: push the policy's next payment date one
    /// month past `now`.
    ///
    /// Reports `false`, leaving the ledger untouched, when the id is
    /// unknown or the policy is inactive; neither aggregate moves in any
    /// case, because the premium and the active state are unchanged.
    pub fn pay_premium(&mut self, policy_id: u64, now: u64) -> (r: bool)
        requires
            old(self).wf(),
            now + MONTH_IN_SECONDS <= u64::MAX,
        ensures
            final(self).wf(),
            !old(self).valid_id(policy_id) ==> r == false && *final(self) == *old(self),
            old(self).valid_id(policy_id) && !old(self).policies@[policy_id - 1].active ==> r
                == false && *final(self) == *old(self),
            old(self).valid_id(policy_id) && old(self).policies@[policy_id - 1].active ==> r == true
                && final(self).policies@ == old(self).policies@.update(
                    policy_id - 1,
                    repriced_policy(old(self).policies@[policy_id - 1], now),
                )
                && final(self).next_id == old(self).next_id
                && final(self).active_count == old(self).active_count
                && final(self).total_premium == old(self).total_premium,
    {
        let n = self.policies.len();
        if policy_id < 1 || policy_id > n as u64 {
            return false;
        }
        let idx: usize = (policy_id - 1) as usize;
        if !self.policies[idx].active {
            return false;
        }
        let ghost p = self.policies@[idx as int];
        let mut updated = self.policies[idx].clone();
        updated.next_payment_date = now + MONTH_IN_SECONDS;
        proof {
            assert(updated == repriced_policy(p, now));
            lemma_sum_by_update(
                old(self).policies@,
                |x: InsurancePolicy| active_premium(x),
                idx as int,
                updated,
            );
            lemma_sum_by_update(
                old(self).policies@,
                |x: InsurancePolicy| active_one(x),
                idx as int,
                updated,
            );
        }
        self.policies[idx] = updated;
        true
    }

    /// The policy stored under `policy_id`, if any.
    pub fn get_policy(&self, policy_id: u64) -> (r: Option<InsurancePolicy>)
        ensures
            self.valid_id(policy_id) ==> r == Some(self.policies@[policy_id - 1]),
            !self.valid_id(policy_id) ==> r is None,
    {
        let n = self.policies.len();
        if 1 <= policy_id && policy_id <= n as u64 {
            Some(self.policies[(policy_id - 1) as usize].clone())
        } else {
            None
        }
    }

    /// Every active policy, in ascending id order.
    pub fn get_active_policies(&self) -> (r: Vec<InsurancePolicy>)
        ensures
            r@ == active_policies_of(self.policies@),
    {
        let mut result: Vec<InsurancePolicy> = Vec::new();
        let n = self.policies.len();
        let mut i: usize = 0;
        while i < n
            invariant
                n == self.policies@.len(),
                i <= n,
                result@ == active_policies_of(self.policies@.take(i as int)),
            decreases n - i,
        {
            if self.policies[i].active {
                result.push(self.policies[i].clone());
            }
            proof {
                assert(self.policies@.take(i + 1) =~= self.policies@.take(i as int).push(
                    self.policies@[i as int],
                ));
                lemma_keep_by_push(
                    self.policies@.take(i as int),
                    |x: InsurancePolicy| is_active(x),
                    self.policies@[i as int],
                );
            }
            i = i + 1;
        }
        proof {
            assert(self.policies@.take(n as int) =~= self.policies@);
        }
        result
    }

    /// The premium total, read from the cache in constant time; it always
    /// equals the sum of the monthly premiums of the active policies.
    pub fn get_total_monthly_premium(&self) -> (r: i128)
        requires
            self.wf(),
        ensures
            r == active_total_of(self.policies@),
    {
        self.total_premium
    }

    /// Deactivate a policy: flip it from active to inactive, exactly once.
    ///
    /// An unknown id is refused and an already-inactive policy reports
    /// `false`; both leave the ledger untouched. Deactivating an active
    /// policy drops the active count by one and the premium total by its
    /// monthly premium.
    pub fn deactivate_policy(&mut self, policy_id: u64) -> (r: Result<bool, LedgerError>)
        requires
            old(self).wf(),
        ensures
            final(self).wf(),
            Self::deactivate_post(*old(self), *final(self), policy_id, r),
    {
        let n = self.policies.len();
        if policy_id < 1 || policy_id > n as u64 {
            return Err(LedgerError::NotFound);
        }
        let idx: usize = (policy_id - 1) as usize;
        if !self.policies[idx].active {
            return Ok(false);
        }
        let ghost p = self.policies@[idx as int];
        let premium = self.policies[idx].monthly_premium;
        let mut updated = self.policies[idx].clone();
        updated.active = false;
        proof {
            assert(updated == deactivated_policy(p));
            lemma_sum_by_update(
                old(self).policies@,
                |x: InsurancePolicy| active_premium(x),
                idx as int,
                updated,
            );
            lemma_sum_by_update(
                old(self).policies@,
                |x: InsurancePolicy| active_one(x),
                idx as int,
                updated,
            );
            lemma_sum_by_elem_bound(old(self).policies@, |x: InsurancePolicy| active_one(x), idx as int);
        }
        self.policies[idx] = updated;
        proof {
            lemma_sum_by_nonneg(self.policies@, |x: InsurancePolicy| active_premium(x));
        }
        self.active_count = self.active_count - 1;
        self.total_premium = self.total_premium - premium;
        Ok(true)
    }

    /// Deactivation is exactly once: after an active policy is
    /// deactivated, a second deactivation of the same id reports `false`
    /// and changes nothing — the record store and both cached aggregates
    /// stay exactly as the first deactivation left them.
    pub proof fn lemma_deactivate_exactly_once(
        pre: Insurance,
        mid: Insurance,
        post: Insurance,
        id: u64,
        r1: Result<bool, LedgerError>,
        r2: Result<bool, LedgerError>,
    )
        requires
            pre.valid_id(id),
            pre.policies@[id - 1].active,
            Self::deactivate_post(pre, mid, id, r1),
            Self::deactivate_post(mid, post, id, r2),
        ensures
            r1 == Ok::<bool, LedgerError>(true),
            r2 == Ok::<bool, LedgerError>(false),
            post == mid,
    {
        assert(mid.policies@[id - 1] == deactivated_policy(pre.policies@[id - 1]));
        assert(mid.valid_id(id));
        assert(!mid.policies@[id - 1].active);
    }
}

} // verus!
