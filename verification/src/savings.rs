//! The savings-goals ledger.
//!
//! Goals are kept under ids issued by a monotonically increasing sequence
//! starting at 1. A goal starts locked with nothing saved; deposits only
//! ever grow its saved amount, and a goal counts as completed once the
//! saved amount reaches its target. The ledger carries a running total of
//! everything saved and counts of active and completed goals, proved
//! equal to the figures derived from the record store after every
//! operation.

use crate::aggregate::{
    lemma_sum_by_complement, lemma_sum_by_elem_bound, lemma_sum_by_le_len, lemma_sum_by_nonneg,
    lemma_sum_by_push, lemma_sum_by_update, sum_by,
};
use vstd::prelude::*;

verus! {

/// Why a savings operation was refused.
#[derive(Clone, Copy, Debug, PartialEq, Eq, PartialOrd, Ord)]
pub enum SavingsError {
    /// A supplied amount was zero or negative.
    InvalidAmount,
    /// No goal exists under the given id.
    GoalNotFound,
    /// The goal is locked against this operation.
    GoalLocked,
    /// The goal holds less than the requested amount.
    InsufficientFunds,
    /// The target date does not lie in the future.
    InvalidDate,
}

/// One savings goal.
#[derive(Debug)]
pub struct SavingsGoal {
    pub id: u64,
    pub target_amount: i128,
    pub current_amount: i128,
    /// Target date as seconds since the Unix epoch.
    pub target_date: u64,
    pub locked: bool,
    pub name: String,
}

impl Clone for SavingsGoal {
    fn clone(&self) -> (r: Self)
        ensures
            r == *self,
    {
        SavingsGoal {
            id: self.id,
            target_amount: self.target_amount,
            current_amount: self.current_amount,
            target_date: self.target_date,
            locked: self.locked,
            name: self.name.clone(),
        }
    }
}

/// The lifecycle states a goal can be reported in.
#[derive(Clone, Copy, Debug, PartialEq, Eq)]
pub enum GoalStatus {
    Active,
    Completed,
    Expired,
    Locked,
}

/// A progress summary a caller may assemble for one goal.
#[derive(Clone, Copy, Debug, PartialEq, Eq, Structural)]
pub struct GoalProgress {
    pub goal_id: u64,
    pub progress_percentage: u32,
    pub remaining_amount: i128,
    pub is_completed: bool,
    pub days_remaining: i64,
}

/// The outcome of one entry of a batched deposit, with `error_code` zero
/// when the entry succeeded.
#[derive(Clone, Copy, Debug, PartialEq, Eq, Structural)]
pub struct BatchResult {
    pub success: bool,
    pub amount: i128,
    pub error_code: u32,
}

/// Whether a goal's saved amount has reached its target.
pub open spec fn goal_completed(g: SavingsGoal) -> bool {
    g.current_amount >= g.target_amount
}

/// What a goal contributes to the running saved total.
pub open spec fn saved_amount(g: SavingsGoal) -> int {
    g.current_amount as int
}

/// What a still-active goal contributes to the active count.
pub open spec fn active_goal_one(g: SavingsGoal) -> int {
    if !goal_completed(g) {
        1int
    } else {
        0int
    }
}

/// What a completed goal contributes to the completed count.
pub open spec fn completed_goal_one(g: SavingsGoal) -> int {
    if goal_completed(g) {
        1int
    } else {
        0int
    }
}

/// The sum of the saved amounts of the goals in `s`.
pub open spec fn total_saved_of(s: Seq<SavingsGoal>) -> int {
    sum_by(s, |g: SavingsGoal| saved_amount(g))
}

/// The number of goals in `s` still short of their target.
pub open spec fn active_count_of(s: Seq<SavingsGoal>) -> int {
    sum_by(s, |g: SavingsGoal| active_goal_one(g))
}

/// The number of goals in `s` that reached their target.
pub open spec fn completed_count_of(s: Seq<SavingsGoal>) -> int {
    sum_by(s, |g: SavingsGoal| completed_goal_one(g))
}

/// `g` with `amount` added to its saved amount and every other field kept.
pub open spec fn deposited_goal(g: SavingsGoal, amount: i128) -> SavingsGoal {
    SavingsGoal {
        id: g.id,
        target_amount: g.target_amount,
        current_amount: (g.current_amount + amount) as i128,
        target_date: g.target_date,
        locked: g.locked,
        name: g.name,
    }
}

/// The savings ledger: the record store, the id sequence, and the
/// incrementally cached aggregates.
pub struct SavingsGoals {
    pub goals: Vec<SavingsGoal>,
    pub next_id: u64,
    pub total_saved: i128,
    pub active_count: u64,
    pub completed_count: u64,
}

impl SavingsGoals {
    /// Ids are dense and ascending, targets are positive, saved amounts
    /// are never negative, and the cached total and counts equal the
    /// figures derived from the record store.
    pub open spec fn wf(self) -> bool {
        &&& self.next_id == self.goals@.len()
        &&& forall|i: int| 0 <= i < self.goals@.len() ==> (#[trigger] self.goals@[i]).id == i + 1
        &&& forall|i: int|
            0 <= i < self.goals@.len() ==> (#[trigger] self.goals@[i]).target_amount > 0
        &&& forall|i: int|
            0 <= i < self.goals@.len() ==> (#[trigger] self.goals@[i]).current_amount >= 0
        &&& self.total_saved == total_saved_of(self.goals@)
        &&& self.active_count == active_count_of(self.goals@)
        &&& self.completed_count == completed_count_of(self.goals@)
    }

    /// Whether a goal exists under `id`.
    pub open spec fn valid_id(self, id: u64) -> bool {
        1 <= id <= self.goals@.len()
    }

    /// An empty ledger: no goals, the id sequence at zero, the cached
    /// total and counts at zero. Whether such a state already sits in a
    /// host's persistent store is the host's concern, checked before this
    /// call.
    pub fn initialize() -> (r: Self)
        ensures
            r.wf(),
            r.goals@.len() == 0,
            r.next_id == 0,
            r.total_saved == 0,
            r.active_count == 0,
            r.completed_count == 0,
    {
        SavingsGoals { goals: Vec::new(), next_id: 0, total_saved: 0, active_count: 0, completed_count: 0 }
    }

    /// Create a goal and return its fresh id; `now` is the caller's clock
    /// reading, and the target date must lie strictly beyond it.
    ///
    /// A non-positive target or a target date not in the future is refused
    /// and leaves the ledger untouched. On success the goal is appended
    /// locked, with nothing saved, under id `next_id + 1`; the active
    /// count grows by one and the saved total and completed count stay.
    pub fn create_goal(
        &mut self,
        name: String,
        target_amount: i128,
        target_date: u64,
        now: u64,
    ) -> (r: Result<u64, SavingsError>)
        requires
            old(self).wf(),
            old(self).next_id < u64::MAX,
        ensures
            final(self).wf(),
            target_amount <= 0 ==> r == Err::<u64, SavingsError>(SavingsError::InvalidAmount)
                && *final(self) == *old(self),
            target_amount > 0 && target_date <= now ==> r == Err::<u64, SavingsError>(
                SavingsError::InvalidDate,
            ) && *final(self) == *old(self),
            target_amount > 0 && target_date > now ==> r == Ok::<u64, SavingsError>(
                (old(self).next_id + 1) as u64,
            )
                && final(self).goals@ == old(self).goals@.push(
                    (SavingsGoal {
                        id: (old(self).next_id + 1) as u64,
                        target_amount,
                        current_amount: 0,
                        target_date,
                        locked: true,
                        name,
                    }),
                )
                && final(self).next_id == old(self).next_id + 1
                && final(self).total_saved == old(self).total_saved
                && final(self).active_count == old(self).active_count + 1
                && final(self).completed_count == old(self).completed_count,
    {
        if target_amount <= 0 {
            return Err(SavingsError::InvalidAmount);
        }
        if target_date <= now {
            return Err(SavingsError::InvalidDate);
        }
        let new_id: u64 = self.next_id + 1;
        let goal = SavingsGoal {
            id: new_id,
            target_amount,
            current_amount: 0,
            target_date,
            locked: true,
            name,
        };
        let ghost ggoal = goal;
        proof {
            lemma_sum_by_push(old(self).goals@, |g: SavingsGoal| saved_amount(g), ggoal);
            lemma_sum_by_push(old(self).goals@, |g: SavingsGoal| active_goal_one(g), ggoal);
            lemma_sum_by_push(old(self).goals@, |g: SavingsGoal| completed_goal_one(g), ggoal);
            lemma_sum_by_le_len(old(self).goals@, |g: SavingsGoal| active_goal_one(g));
        }
        self.goals.push(goal);
        self.next_id = new_id;
        self.active_count = self.active_count + 1;
        Ok(new_id)
    }

    /// Deposit `amount` into a goal and return the new saved amount.
    ///
    /// A non-positive amount and an unknown id are refused and leave the
    /// ledger untouched. On success the saved total grows by `amount`, and
    /// the moment a deposit carries the goal across its target, one goal
    /// moves from the active count to the completed count.
    pub fn add_to_goal(&mut self, goal_id: u64, amount: i128) -> (r: Result<i128, SavingsError>)
        requires
            old(self).wf(),
            old(self).total_saved + amount <= i128::MAX,
        ensures
            final(self).wf(),
            amount <= 0 ==> r == Err::<i128, SavingsError>(SavingsError::InvalidAmount)
                && *final(self) == *old(self),
            amount > 0 && !old(self).valid_id(goal_id) ==> r == Err::<i128, SavingsError>(
                SavingsError::GoalNotFound,
            ) && *final(self) == *old(self),
            amount > 0 && old(self).valid_id(goal_id) ==> r == Ok::<i128, SavingsError>(
                (old(self).goals@[goal_id - 1].current_amount + amount) as i128,
            )
                && final(self).goals@ == old(self).goals@.update(
                    goal_id - 1,
                    deposited_goal(old(self).goals@[goal_id - 1], amount),
                )
                && final(self).next_id == old(self).next_id
                && final(self).total_saved == old(self).total_saved + amount
                && final(self).completed_count == old(self).completed_count + (
                if !goal_completed(old(self).goals@[goal_id - 1]) && goal_completed(
                    deposited_goal(old(self).goals@[goal_id - 1], amount),
                ) {
                    1int
                } else {
                    0int
                })
                && final(self).active_count == old(self).active_count - (
                if !goal_completed(old(self).goals@[goal_id - 1]) && goal_completed(
                    deposited_goal(old(self).goals@[goal_id - 1], amount),
                ) {
                    1int
                } else {
                    0int
                }),
    {
        if amount <= 0 {
            return Err(SavingsError::InvalidAmount);
        }
        let n = self.goals.len();
        if goal_id < 1 || goal_id > n as u64 {
            return Err(SavingsError::GoalNotFound);
        }
        let idx: usize = (goal_id - 1) as usize;
        let ghost g = self.goals@[idx as int];
        proof {
            lemma_sum_by_nonneg(old(self).goals@, |x: SavingsGoal| saved_amount(x));
            lemma_sum_by_elem_bound(old(self).goals@, |x: SavingsGoal| saved_amount(x), idx as int);
        }
        let was_completed = self.goals[idx].current_amount >= self.goals[idx].target_amount;
        let mut updated = self.goals[idx].clone();
        updated.current_amount = updated.current_amount + amount;
        let new_amount = updated.current_amount;
        proof {
            assert(updated == deposited_goal(g, amount));
            lemma_sum_by_update(old(self).goals@, |x: SavingsGoal| saved_amount(x), idx as int, updated);
            lemma_sum_by_update(
                old(self).goals@,
                |x: SavingsGoal| active_goal_one(x),
                idx as int,
                updated,
            );
            lemma_sum_by_update(
                old(self).goals@,
                |x: SavingsGoal| completed_goal_one(x),
                idx as int,
                updated,
            );
            lemma_sum_by_elem_bound(old(self).goals@, |x: SavingsGoal| active_goal_one(x), idx as int);
            lemma_sum_by_complement(
                old(self).goals@,
                |x: SavingsGoal| active_goal_one(x),
                |x: SavingsGoal| completed_goal_one(x),
            );
        }
        self.goals[idx] = updated;
        let is_completed = new_amount >= self.goals[idx].target_amount;
        if !was_completed && is_completed {
            self.completed_count = self.completed_count + 1;
            self.active_count = self.active_count - 1;
        }
        self.total_saved = self.total_saved + amount;
        Ok(new_amount)
    }

    /// The goal stored under `goal_id`, if any.
    pub fn get_goal(&self, goal_id: u64) -> (r: Option<SavingsGoal>)
        ensures
            self.valid_id(goal_id) ==> r == Some(self.goals@[goal_id - 1]),
            !self.valid_id(goal_id) ==> r is None,
    {
        let n = self.goals.len();
        if 1 <= goal_id && goal_id <= n as u64 {
            Some(self.goals[(goal_id - 1) as usize].clone())
        } else {
            None
        }
    }

    /// Every goal, in ascending id order.
    pub fn get_all_goals(&self) -> (r: Vec<SavingsGoal>)
        ensures
            r@ == self.goals@,
    {
        let mut result: Vec<SavingsGoal> = Vec::new();
        let n = self.goals.len();
        let mut i: usize = 0;
        while i < n
            invariant
                n == self.goals@.len(),
                i <= n,
                result@ == self.goals@.take(i as int),
            decreases n - i,
        {
            result.push(self.goals[i].clone());
            proof {
                assert(self.goals@.take(i + 1) =~= self.goals@.take(i as int).push(
                    self.goals@[i as int],
                ));
            }
            i = i + 1;
        }
        proof {
            assert(self.goals@.take(n as int) =~= self.goals@);
        }
        result
    }

    /// Whether the goal under `goal_id` has reached its target; an unknown
    /// id reports `false`.
    pub fn is_goal_completed(&self, goal_id: u64) -> (r: bool)
        ensures
            r == (self.valid_id(goal_id) && goal_completed(self.goals@[goal_id - 1])),
    {
        let n = self.goals.len();
        if 1 <= goal_id && goal_id <= n as u64 {
            let idx: usize = (goal_id - 1) as usize;
            self.goals[idx].current_amount >= self.goals[idx].target_amount
        } else {
            false
        }
    }
}

} // verus!
