//! The bill-payments ledger.
//!
//! Bills are kept under ids issued by a monotonically increasing sequence
//! starting at 1; ids are never reused, and the store never deletes, so the
//! record at index `i` always carries id `i + 1`. Settling a bill flips it
//! from open to paid exactly once; settling a recurring bill also spawns a
//! fresh open bill one period later under a fresh id. The ledger carries an
//! open-bill count and a running open total that are proved equal to the
//! figures derived from the record store after every operation.

use crate::aggregate::{
    keep_by, lemma_keep_by_push, lemma_sum_by_elem_bound, lemma_sum_by_le_len,
    lemma_sum_by_nonneg, lemma_sum_by_push, lemma_sum_by_update, sum_by,
};
use crate::errors::LedgerError;
use vstd::prelude::*;

verus! {

/// One bill obligation.
#[derive(Debug)]
pub struct Bill {
    pub id: u64,
    pub amount: i128,
    /// Due date as seconds since the Unix epoch.
    pub due_date: u64,
    /// Renewal period for recurring bills, in days.
    pub frequency_days: u32,
    pub paid: bool,
    pub recurring: bool,
    pub name: String,
}

impl Clone for Bill {
    fn clone(&self) -> (r: Self)
        ensures
            r == *self,
    {
        Bill {
            id: self.id,
            amount: self.amount,
            due_date: self.due_date,
            frequency_days: self.frequency_days,
            paid: self.paid,
            recurring: self.recurring,
            name: self.name.clone(),
        }
    }
}

/// What an open bill contributes to the running open total.
pub open spec fn unpaid_amount(b: Bill) -> int {
    if !b.paid {
        b.amount as int
    } else {
        0
    }
}

/// What an open bill contributes to the open count.
pub open spec fn unpaid_one(b: Bill) -> int {
    if !b.paid {
        1int
    } else {
        0int
    }
}

pub open spec fn is_unpaid(b: Bill) -> bool {
    !b.paid
}

/// The sum of the amounts of the open bills in `s`.
pub open spec fn unpaid_total_of(s: Seq<Bill>) -> int {
    sum_by(s, |b: Bill| unpaid_amount(b))
}

/// The number of open bills in `s`.
pub open spec fn unpaid_count_of(s: Seq<Bill>) -> int {
    sum_by(s, |b: Bill| unpaid_one(b))
}

/// The open bills of `s`, in store order.
pub open spec fn unpaid_bills_of(s: Seq<Bill>) -> Seq<Bill> {
    keep_by(s, |b: Bill| is_unpaid(b))
}

/// `b` with its state flipped to paid and every other field kept.
pub open spec fn settled_bill(b: Bill) -> Bill {
    Bill {
        id: b.id,
        amount: b.amount,
        due_date: b.due_date,
        frequency_days: b.frequency_days,
        paid: true,
        recurring: b.recurring,
        name: b.name,
    }
}

/// The successor bill a recurring bill spawns on settlement: a fresh id,
/// the due date pushed one period later, everything else kept, and open.
pub open spec fn renewal_bill(b: Bill, new_id: u64) -> Bill {
    Bill {
        id: new_id,
        amount: b.amount,
        due_date: (b.due_date + b.frequency_days * 86400) as u64,
        frequency_days: b.frequency_days,
        paid: false,
        recurring: true,
        name: b.name,
    }
}

/// The bill-payments ledger: the record store, the id sequence, and the
/// incrementally cached aggregates.
pub struct BillPayments {
    pub bills: Vec<Bill>,
    pub next_id: u64,
    pub unpaid_count: u64,
    pub total_unpaid: i128,
}

impl BillPayments {
    /// Ids are dense and ascending, amounts are positive, and the cached
    /// count and total equal the figures derived from the record store.
    pub open spec fn wf(self) -> bool {
        &&& self.next_id == self.bills@.len()
        &&& forall|i: int| 0 <= i < self.bills@.len() ==> (#[trigger] self.bills@[i]).id == i + 1
        &&& forall|i: int| 0 <= i < self.bills@.len() ==> (#[trigger] self.bills@[i]).amount > 0
        &&& self.unpaid_count == unpaid_count_of(self.bills@)
        &&& self.total_unpaid == unpaid_total_of(self.bills@)
    }

    /// Whether a bill exists under `id`.
    pub open spec fn valid_id(self, id: u64) -> bool {
        1 <= id <= self.bills@.len()
    }

    /// Everything `pay_bill` promises, as a relation between the ledger
    /// before the call, the ledger after it, and the result.
    pub open spec fn settle_post(
        pre: BillPayments,
        post: BillPayments,
        id: u64,
        r: Result<bool, LedgerError>,
    ) -> bool {
        if !pre.valid_id(id) {
            &&& r == Err::<bool, LedgerError>(LedgerError::NotFound)
            &&& post == pre
        } else {
            let b = pre.bills@[id - 1];
            if b.paid {
                &&& r == Ok::<bool, LedgerError>(false)
                &&& post == pre
            } else if b.recurring {
                &&& r == Ok::<bool, LedgerError>(true)
                &&& post.bills@ == pre.bills@.update(id - 1, settled_bill(b)).push(
                    renewal_bill(b, (pre.next_id + 1) as u64),
                )
                &&& post.next_id == pre.next_id + 1
                &&& post.unpaid_count == pre.unpaid_count
                &&& post.total_unpaid == pre.total_unpaid
            } else {
                &&& r == Ok::<bool, LedgerError>(true)
                &&& post.bills@ == pre.bills@.update(id - 1, settled_bill(b))
                &&& post.next_id == pre.next_id
                &&& post.unpaid_count == pre.unpaid_count - 1
                &&& post.total_unpaid == pre.total_unpaid - b.amount
            }
        }
    }

    /// An empty ledger: no bills, the id sequence at zero, both cached
    /// aggregates at zero. Whether such a state already sits in a host's
    /// persistent store is the host's concern, checked before this call.
    pub fn initialize() -> (r: Self)
        ensures
            r.wf(),
            r.bills@.len() == 0,
            r.next_id == 0,
            r.unpaid_count == 0,
            r.total_unpaid == 0,
    {
        BillPayments { bills: Vec::new(), next_id: 0, unpaid_count: 0, total_unpaid: 0 }
    }

    /// Create a bill and return its fresh id.
    ///
    /// A non-positive amount is refused and leaves the ledger untouched.
    /// On success the bill is appended open under id `next_id + 1`, and the
    /// open count and open total grow by one and by `amount`.
    pub fn create_bill(
        &mut self,
        name: String,
        amount: i128,
        due_date: u64,
        recurring: bool,
        frequency_days: u32,
    ) -> (r: Result<u64, LedgerError>)
        requires
            old(self).wf(),
            old(self).next_id < u64::MAX,
            old(self).total_unpaid + amount <= i128::MAX,
        ensures
            final(self).wf(),
            amount <= 0 ==> r == Err::<u64, LedgerError>(LedgerError::InvalidAmount)
                && *final(self) == *old(self),
            amount > 0 ==> r == Ok::<u64, LedgerError>((old(self).next_id + 1) as u64)
                && final(self).bills@ == old(self).bills@.push(
                    (Bill {
                        id: (old(self).next_id + 1) as u64,
                        amount,
                        due_date,
                        frequency_days,
                        paid: false,
                        recurring,
                        name,
                    }),
                )
                && final(self).next_id == old(self).next_id + 1
                && final(self).unpaid_count == old(self).unpaid_count + 1
                && final(self).total_unpaid == old(self).total_unpaid + amount,
    {
        if amount <= 0 {
            return Err(LedgerError::InvalidAmount);
        }
        let new_id: u64 = self.next_id + 1;
        let bill = Bill {
            id: new_id,
            amount,
            due_date,
            frequency_days,
            paid: false,
            recurring,
            name,
        };
        let ghost gbill = bill;
        proof {
            lemma_sum_by_push(old(self).bills@, |b: Bill| unpaid_amount(b), gbill);
            lemma_sum_by_push(old(self).bills@, |b: Bill| unpaid_one(b), gbill);
            lemma_sum_by_le_len(old(self).bills@, |b: Bill| unpaid_one(b));
        }
        self.bills.push(bill);
        self.next_id = new_id;
        self.unpaid_count = self.unpaid_count + 1;
        self.total_unpaid = self.total_unpaid + amount;
        Ok(new_id)
    }

    /// The renewal policy: the successor a recurring bill spawns on
    /// settlement, or nothing for a one-off bill.
    pub fn renew(bill: &Bill, new_id: u64) -> (r: Option<Bill>)
        requires
            bill.recurring ==> bill.due_date + bill.frequency_days * 86400 <= u64::MAX,
        ensures
            bill.recurring ==> r == Some(renewal_bill(*bill, new_id)),
            !bill.recurring ==> r is None,
    {
        if bill.recurring {
            Some(Bill {
                id: new_id,
                amount: bill.amount,
                due_date: bill.due_date + (bill.frequency_days as u64) * 86400,
                frequency_days: bill.frequency_days,
                paid: false,
                recurring: true,
                name: bill.name.clone(),
            })
        } else {
            None
        }
    }

    /// Settle a bill: flip it from open to paid, exactly once.
    ///
    /// An unknown id is refused and an already-paid bill reports `false`;
    /// both leave the ledger untouched. Settling an open one-off bill drops
    /// the open count by one and the open total by its amount; settling an
    /// open recurring bill also spawns its successor, so both aggregates
    /// come back to where they stood.
    pub fn pay_bill(&mut self, bill_id: u64) -> (r: Result<bool, LedgerError>)
        requires
            old(self).wf(),
            old(self).valid_id(bill_id) && !old(self).bills@[bill_id - 1].paid
                && old(self).bills@[bill_id - 1].recurring ==> old(self).next_id < u64::MAX
                && old(self).bills@[bill_id - 1].due_date
                    + old(self).bills@[bill_id - 1].frequency_days * 86400 <= u64::MAX,
        ensures
            final(self).wf(),
            Self::settle_post(*old(self), *final(self), bill_id, r),
    {
        let n = self.bills.len();
        if bill_id < 1 || bill_id > n as u64 {
            return Err(LedgerError::NotFound);
        }
        let idx: usize = (bill_id - 1) as usize;
        if self.bills[idx].paid {
            return Ok(false);
        }
        let ghost b = self.bills@[idx as int];
        let amount = self.bills[idx].amount;
        let recurring = self.bills[idx].recurring;
        let mut updated = self.bills[idx].clone();
        updated.paid = true;
        proof {
            assert(updated == settled_bill(b));
            lemma_sum_by_update(old(self).bills@, |x: Bill| unpaid_amount(x), idx as int, updated);
            lemma_sum_by_update(old(self).bills@, |x: Bill| unpaid_one(x), idx as int, updated);
            lemma_sum_by_elem_bound(old(self).bills@, |x: Bill| unpaid_one(x), idx as int);
        }
        self.bills[idx] = updated;
        if recurring {
            let new_id: u64 = self.next_id + 1;
            match Self::renew(&self.bills[idx], new_id) {
                Some(next_bill) => {
                    let ghost gnext = next_bill;
                    proof {
                        lemma_sum_by_push(self.bills@, |x: Bill| unpaid_amount(x), gnext);
                        lemma_sum_by_push(self.bills@, |x: Bill| unpaid_one(x), gnext);
                    }
                    self.bills.push(next_bill);
                    self.next_id = new_id;
                },
                None => {
                    proof {
                        assert(false);
                    }
                },
            }
        } else {
            proof {
                lemma_sum_by_nonneg(self.bills@, |x: Bill| unpaid_amount(x));
            }
            self.unpaid_count = self.unpaid_count - 1;
            self.total_unpaid = self.total_unpaid - amount;
        }
        Ok(true)
    }

    /// The bill stored under `bill_id`, if any.
    pub fn get_bill(&self, bill_id: u64) -> (r: Option<Bill>)
        ensures
            self.valid_id(bill_id) ==> r == Some(self.bills@[bill_id - 1]),
            !self.valid_id(bill_id) ==> r is None,
    {
        let n = self.bills.len();
        if 1 <= bill_id && bill_id <= n as u64 {
            Some(self.bills[(bill_id - 1) as usize].clone())
        } else {
            None
        }
    }

    /// Every open bill, in ascending id order.
    pub fn get_unpaid_bills(&self) -> (r: Vec<Bill>)
        ensures
            r@ == unpaid_bills_of(self.bills@),
    {
        let mut result: Vec<Bill> = Vec::new();
        let n = self.bills.len();
        let mut i: usize = 0;
        while i < n
            invariant
                n == self.bills@.len(),
                i <= n,
                result@ == unpaid_bills_of(self.bills@.take(i as int)),
            decreases n - i,
        {
            if !self.bills[i].paid {
                result.push(self.bills[i].clone());
            }
            proof {
                assert(self.bills@.take(i + 1) =~= self.bills@.take(i as int).push(
                    self.bills@[i as int],
                ));
                lemma_keep_by_push(
                    self.bills@.take(i as int),
                    |x: Bill| is_unpaid(x),
                    self.bills@[i as int],
                );
            }
            i = i + 1;
        }
        proof {
            assert(self.bills@.take(n as int) =~= self.bills@);
        }
        result
    }

    /// The open total, read from the cache in constant time; it always
    /// equals the sum of the amounts of the open bills.
    pub fn get_total_unpaid(&self) -> (r: i128)
        requires
            self.wf(),
        ensures
            r == unpaid_total_of(self.bills@),
    {
        self.total_unpaid
    }

    /// Settlement is exactly once: after an open bill is settled, a second
    /// settlement of the same id reports `false` and changes nothing — the
    /// record store and both cached aggregates stay exactly as the first
    /// settlement left them.
    pub proof fn lemma_settle_exactly_once(
        pre: BillPayments,
        mid: BillPayments,
        post: BillPayments,
        id: u64,
        r1: Result<bool, LedgerError>,
        r2: Result<bool, LedgerError>,
    )
        requires
            pre.valid_id(id),
            !pre.bills@[id - 1].paid,
            Self::settle_post(pre, mid, id, r1),
            Self::settle_post(mid, post, id, r2),
        ensures
            r1 == Ok::<bool, LedgerError>(true),
            r2 == Ok::<bool, LedgerError>(false),
            post == mid,
    {
        assert(mid.bills@[id - 1] == settled_bill(pre.bills@[id - 1]));
        assert(mid.valid_id(id));
        assert(mid.bills@[id - 1].paid);
    }
}

} // verus!
