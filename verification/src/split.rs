//! The deterministic percentage allocator.
//!
//! A remittance is divided into four category amounts — spending, savings,
//! bills, insurance — according to a configured percentage split. The first
//! three amounts are the floor of `total * percent / 100`; the insurance
//! amount is the exact remainder, so the four parts always sum to the
//! input, whatever the rounding discarded.

use crate::errors::LedgerError;
use vstd::arithmetic::div_mod::{lemma_fundamental_div_mod, lemma_mod_bound};
use vstd::arithmetic::mul::lemma_mul_inequality;
use vstd::prelude::*;

verus! {

/// One computed category amount, labelled with its category.
#[derive(Debug)]
pub struct Allocation {
    pub category: String,
    pub amount: i128,
}

/// The accounts a caller routes the four computed amounts to.
#[derive(Debug)]
pub struct AccountGroup {
    pub spending: String,
    pub savings: String,
    pub bills: String,
    pub insurance: String,
}

/// A percentage split with its recorded owner.
///
/// The four percentages always sum to exactly 100 once stored; the sum is
/// checked when the configuration is written, never when it is read.
#[derive(Debug)]
pub struct SplitConfig {
    pub owner: String,
    pub spending_percent: u32,
    pub savings_percent: u32,
    pub bills_percent: u32,
    pub insurance_percent: u32,
    pub initialized: bool,
}

/// The audit events a caller may emit for allocator operations.
#[derive(Clone, Copy, Debug, PartialEq, Eq)]
pub enum SplitEvent {
    Initialized,
    Updated,
    Calculated,
}

/// The allocator: at most one stored configuration.
pub struct RemittanceSplit {
    pub config: Option<SplitConfig>,
}

impl Clone for SplitConfig {
    fn clone(&self) -> (r: Self)
        ensures
            r == *self,
    {
        SplitConfig {
            owner: self.owner.clone(),
            spending_percent: self.spending_percent,
            savings_percent: self.savings_percent,
            bills_percent: self.bills_percent,
            insurance_percent: self.insurance_percent,
            initialized: self.initialized,
        }
    }
}

/// The sum of the four percentages of a configuration.
pub open spec fn pct_sum(c: SplitConfig) -> int {
    c.spending_percent + c.savings_percent + c.bills_percent + c.insurance_percent
}

impl RemittanceSplit {
    /// A stored configuration is marked initialized and sums to 100.
    pub open spec fn wf(self) -> bool {
        match self.config {
            Some(c) => c.initialized && pct_sum(c) == 100,
            None => true,
        }
    }

    /// The percentages a split is computed with: the stored configuration,
    /// or the default split when none was ever stored.
    pub open spec fn spec_split(self) -> (u32, u32, u32, u32) {
        match self.config {
            Some(c) => (c.spending_percent, c.savings_percent, c.bills_percent, c.insurance_percent),
            None => (50u32, 30u32, 15u32, 5u32),
        }
    }

    /// What a successful split of `total` must look like: the first three
    /// parts are floors of `total * percent / 100`, the last is the exact
    /// remainder, the four sum to `total`, and each lies in `[0, total]`.
    pub open spec fn split_parts_ok(self, total: int, v: Seq<i128>) -> bool {
        let p = self.spec_split();
        &&& v.len() == 4
        &&& v[0] == total * (p.0 as int) / 100
        &&& v[1] == total * (p.1 as int) / 100
        &&& v[2] == total * (p.2 as int) / 100
        &&& v[3] == total - v[0] - v[1] - v[2]
        &&& v[0] + v[1] + v[2] + v[3] == total
        &&& forall|i: int| 0 <= i < 4 ==> 0 <= #[trigger] v[i] <= total
    }

    /// A fresh allocator with no stored configuration.
    pub fn new() -> (r: Self)
        ensures
            r.config is None,
            r.wf(),
    {
        RemittanceSplit { config: None }
    }

    /// Store the first configuration.
    ///
    /// Refused when a configuration already exists, or when the four
    /// percentages do not sum to exactly 100; a refused call leaves the
    /// allocator untouched.
    pub fn initialize_split(
        &mut self,
        owner: String,
        spending_percent: u32,
        savings_percent: u32,
        bills_percent: u32,
        insurance_percent: u32,
    ) -> (r: Result<(), LedgerError>)
        requires
            old(self).wf(),
        ensures
            final(self).wf(),
            old(self).config is Some ==> r == Err::<(), LedgerError>(LedgerError::AlreadyInitialized)
                && *final(self) == *old(self),
            old(self).config is None
                && spending_percent + savings_percent + bills_percent + insurance_percent != 100
                ==> r == Err::<(), LedgerError>(LedgerError::InvalidSplit)
                    && *final(self) == *old(self),
            old(self).config is None
                && spending_percent + savings_percent + bills_percent + insurance_percent == 100
                ==> r == Ok::<(), LedgerError>(())
                    && final(self).config == Some(SplitConfig {
                        owner,
                        spending_percent,
                        savings_percent,
                        bills_percent,
                        insurance_percent,
                        initialized: true,
                    }),
    {
        if self.config.is_some() {
            return Err(LedgerError::AlreadyInitialized);
        }
        let sum: u64 = spending_percent as u64 + savings_percent as u64 + bills_percent as u64
            + insurance_percent as u64;
        if sum != 100 {
            return Err(LedgerError::InvalidSplit);
        }
        self.config = Some(SplitConfig {
            owner,
            spending_percent,
            savings_percent,
            bills_percent,
            insurance_percent,
            initialized: true,
        });
        Ok(())
    }

    /// Replace the stored configuration.
    ///
    /// Refused when nothing was ever stored, when the caller is not the
    /// recorded owner, or when the percentages do not sum to exactly 100;
    /// a refused call leaves the allocator untouched.
    pub fn update_split(
        &mut self,
        owner: String,
        spending_percent: u32,
        savings_percent: u32,
        bills_percent: u32,
        insurance_percent: u32,
    ) -> (r: Result<(), LedgerError>)
        requires
            old(self).wf(),
        ensures
            final(self).wf(),
            old(self).config is None ==> r == Err::<(), LedgerError>(LedgerError::NotInitialized)
                && *final(self) == *old(self),
            old(self).config is Some && old(self).config->Some_0.owner@ != owner@
                ==> r == Err::<(), LedgerError>(LedgerError::NotOwner)
                    && *final(self) == *old(self),
            old(self).config is Some && old(self).config->Some_0.owner@ == owner@
                && spending_percent + savings_percent + bills_percent + insurance_percent != 100
                ==> r == Err::<(), LedgerError>(LedgerError::InvalidSplit)
                    && *final(self) == *old(self),
            old(self).config is Some && old(self).config->Some_0.owner@ == owner@
                && spending_percent + savings_percent + bills_percent + insurance_percent == 100
                ==> r == Ok::<(), LedgerError>(())
                    && final(self).config == Some(SplitConfig {
                        owner,
                        spending_percent,
                        savings_percent,
                        bills_percent,
                        insurance_percent,
                        initialized: true,
                    }),
    {
        match &self.config {
            None => {
                return Err(LedgerError::NotInitialized);
            },
            Some(c) => {
                if c.owner != owner {
                    return Err(LedgerError::NotOwner);
                }
            },
        }
        let sum: u64 = spending_percent as u64 + savings_percent as u64 + bills_percent as u64
            + insurance_percent as u64;
        if sum != 100 {
            return Err(LedgerError::InvalidSplit);
        }
        self.config = Some(SplitConfig {
            owner,
            spending_percent,
            savings_percent,
            bills_percent,
            insurance_percent,
            initialized: true,
        });
        Ok(())
    }

    /// The four percentages a split is computed with, defaulting to
    /// (50, 30, 15, 5) when nothing was configured.
    pub fn get_split(&self) -> (r: (u32, u32, u32, u32))
        ensures
            r == self.spec_split(),
    {
        match &self.config {
            Some(c) => (c.spending_percent, c.savings_percent, c.bills_percent, c.insurance_percent),
            None => (50, 30, 15, 5),
        }
    }

    /// The stored configuration, owner included, if any.
    pub fn get_config(&self) -> (r: Option<SplitConfig>)
        ensures
            r == self.config,
    {
        match &self.config {
            Some(c) => Some(c.clone()),
            None => None,
        }
    }

    /// Split `total_amount` into the four category amounts.
    ///
    /// A non-positive amount is refused. The spending, savings and bills
    /// amounts are `total * percent / 100` rounded down; insurance takes
    /// the exact remainder, so the parts always sum to `total_amount`.
    pub fn calculate_split(&self, total_amount: i128) -> (r: Result<Vec<i128>, LedgerError>)
        requires
            self.wf(),
            total_amount <= i128::MAX / 100,
        ensures
            total_amount <= 0 ==> r == Err::<Vec<i128>, LedgerError>(LedgerError::InvalidAmount),
            total_amount > 0 ==> r is Ok
                && self.split_parts_ok(total_amount as int, r->Ok_0@),
    {
        if total_amount <= 0 {
            return Err(LedgerError::InvalidAmount);
        }
        let pcts = self.get_split();
        proof {
            lemma_pct_in_range(*self);
        }
        let t: u128 = total_amount as u128;
        proof {
            lemma_mul_fits(t as int, pcts.0 as int);
            lemma_mul_fits(t as int, pcts.1 as int);
            lemma_mul_fits(t as int, pcts.2 as int);
            lemma_split_part_bounds(t as int, pcts.0 as int);
            lemma_split_part_bounds(t as int, pcts.1 as int);
            lemma_split_part_bounds(t as int, pcts.2 as int);
            lemma_split_sum_le(t as int, pcts.0 as int, pcts.1 as int, pcts.2 as int);
        }
        let spending: i128 = (t * (pcts.0 as u128) / 100) as i128;
        let savings: i128 = (t * (pcts.1 as u128) / 100) as i128;
        let bills: i128 = (t * (pcts.2 as u128) / 100) as i128;
        let insurance: i128 = total_amount - spending - savings - bills;
        let mut parts: Vec<i128> = Vec::new();
        parts.push(spending);
        parts.push(savings);
        parts.push(bills);
        parts.push(insurance);
        Ok(parts)
    }
}

/// Whatever percentages a well-formed allocator reads, each lies in [0, 100]
/// and the first three sum to at most 100.
proof fn lemma_pct_in_range(s: RemittanceSplit)
    requires
        s.wf(),
    ensures
        0 <= s.spec_split().0 <= 100,
        0 <= s.spec_split().1 <= 100,
        0 <= s.spec_split().2 <= 100,
        s.spec_split().0 + s.spec_split().1 + s.spec_split().2 <= 100,
{
}

/// For `0 <= t <= i128::MAX / 100` and `0 <= p <= 100`, the product `t * p`
/// stays below `u128::MAX`.
proof fn lemma_mul_fits(t: int, p: int)
    requires
        0 <= t <= i128::MAX / 100,
        0 <= p <= 100,
    ensures
        t * p <= u128::MAX,
{
    lemma_mul_inequality(p, 100, t);
    lemma_mul_inequality(t, i128::MAX as int / 100, 100);
    lemma_fundamental_div_mod(i128::MAX as int, 100);
    lemma_mod_bound(i128::MAX as int, 100);
}

/// A single floored part is between 0 and the whole.
proof fn lemma_split_part_bounds(total: int, p: int)
    requires
        total >= 0,
        0 <= p <= 100,
    ensures
        0 <= total * p / 100 <= total,
{
    lemma_fundamental_div_mod(total * p, 100);
    lemma_mod_bound(total * p, 100);
    lemma_mul_inequality(0, p, total);
    lemma_mul_inequality(p, 100, total);
}

/// The three floored parts never exceed the whole when their percentages
/// sum to at most 100.
proof fn lemma_split_sum_le(total: int, p1: int, p2: int, p3: int)
    requires
        total >= 0,
        0 <= p1,
        0 <= p2,
        0 <= p3,
        p1 + p2 + p3 <= 100,
    ensures
        total * p1 / 100 + total * p2 / 100 + total * p3 / 100 <= total,
{
    lemma_fundamental_div_mod(total * p1, 100);
    lemma_mod_bound(total * p1, 100);
    lemma_fundamental_div_mod(total * p2, 100);
    lemma_mod_bound(total * p2, 100);
    lemma_fundamental_div_mod(total * p3, 100);
    lemma_mod_bound(total * p3, 100);
    lemma_mul_inequality(p1 + p2 + p3, 100, total);
    assert(total * p1 + total * p2 + total * p3 == total * (p1 + p2 + p3)) by (nonlinear_arith);
}

} // verus!
