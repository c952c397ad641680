use std::collections::HashMap;
use vstd::prelude::*;

use crate::types::{empty_record, Address, ContributionRecord};

verus! {

broadcast use vstd::std_specs::hash::group_hash_axioms;

/// Largest pooled total the ledger accepts, `i128::MAX`: every amount it
/// reports then fits the `i128` of the contract's interface.
pub const MAX_TOTAL: u128 = 170141183460469231731687303715884105727;

/// Sum of `f` over the records of `m`.
pub open spec fn sum_of(
    m: Map<u64, ContributionRecord>,
    f: spec_fn(ContributionRecord) -> int,
) -> int
    decreases m.dom().len(),
{
    if m.dom().finite() && m.dom().len() > 0 {
        let k = m.dom().choose();
        f(m[k]) + sum_of(m.remove(k), f)
    } else {
        0
    }
}

/// Sum of the contributions recorded in `m`.
pub open spec fn amount_sum(m: Map<u64, ContributionRecord>) -> int {
    sum_of(m, |r: ContributionRecord| r.amount_contributed as int)
}

/// Sum of the shares recorded in `m`.
pub open spec fn share_sum(m: Map<u64, ContributionRecord>) -> int {
    sum_of(m, |r: ContributionRecord| r.share_balance as int)
}

/// The record of `c`, or an empty one where `c` never contributed.
pub open spec fn record_of(m: Map<u64, ContributionRecord>, c: Address) -> ContributionRecord {
    if m.contains_key(c.id) {
        m[c.id]
    } else {
        empty_record()
    }
}

/// Taking out one record takes its share of the sum.
pub proof fn lemma_sum_remove(
    m: Map<u64, ContributionRecord>,
    f: spec_fn(ContributionRecord) -> int,
    k: u64,
)
    requires
        m.dom().finite(),
        m.contains_key(k),
    ensures
        sum_of(m, f) == f(m[k]) + sum_of(m.remove(k), f),
    decreases m.dom().len(),
{
    let j = m.dom().choose();
    if j != k {
        lemma_sum_remove(m.remove(j), f, k);
        lemma_sum_remove(m.remove(k), f, j);
        assert(m.remove(j).remove(k) =~= m.remove(k).remove(j));
    }
}

/// Writing `v` at `k` replaces the share of the record that stood there, if any.
pub proof fn lemma_sum_insert(
    m: Map<u64, ContributionRecord>,
    f: spec_fn(ContributionRecord) -> int,
    k: u64,
    v: ContributionRecord,
)
    requires
        m.dom().finite(),
    ensures
        sum_of(m.insert(k, v), f) == sum_of(m, f) - (if m.contains_key(k) {
            f(m[k])
        } else {
            0
        }) + f(v),
{
    lemma_sum_remove(m.insert(k, v), f, k);
    assert(m.insert(k, v).remove(k) =~= m.remove(k));
    if m.contains_key(k) {
        lemma_sum_remove(m, f, k);
    } else {
        assert(m.remove(k) =~= m);
    }
}

/// The ledger in mathematical form.
pub struct LedgerView {
    pub records: Map<u64, ContributionRecord>,
    pub total_contributed: int,
    pub total_shares_issued: int,
}

impl LedgerView {
    pub open spec fn empty() -> LedgerView {
        LedgerView { records: Map::empty(), total_contributed: 0, total_shares_issued: 0 }
    }

    /// The totals are the sums over the records, shares are issued one for one,
    /// and the pooled total fits an `i128`.
    pub open spec fn valid(self) -> bool {
        &&& self.records.dom().finite()
        &&& self.total_contributed == amount_sum(self.records)
        &&& self.total_shares_issued == share_sum(self.records)
        &&& self.total_shares_issued == self.total_contributed
        &&& 0 <= self.total_contributed <= MAX_TOTAL
        &&& forall|k: u64| #[trigger]
            self.records.contains_key(k) ==> {
                &&& self.records[k].share_balance == self.records[k].amount_contributed
                &&& self.records[k].amount_contributed <= self.total_contributed
            }
    }

    pub open spec fn record(self, c: Address) -> ContributionRecord {
        record_of(self.records, c)
    }

    /// The ledger after `c` contributed `amount`, receiving as many shares.
    pub open spec fn credited(self, c: Address, amount: int) -> LedgerView {
        let r = self.record(c);
        LedgerView {
            records: self.records.insert(
                c.id,
                ContributionRecord {
                    amount_contributed: (r.amount_contributed + amount) as u128,
                    share_balance: (r.share_balance + amount) as u128,
                    repaid: r.repaid,
                },
            ),
            total_contributed: self.total_contributed + amount,
            total_shares_issued: self.total_shares_issued + amount,
        }
    }

    /// The ledger after the record of `c` was marked repaid.
    pub open spec fn marked_repaid(self, c: Address) -> LedgerView {
        let r = self.record(c);
        LedgerView {
            records: self.records.insert(
                c.id,
                ContributionRecord {
                    amount_contributed: r.amount_contributed,
                    share_balance: r.share_balance,
                    repaid: true,
                },
            ),
            ..self
        }
    }
}

/// Per-contributor records with the pooled totals. Records are never removed.
pub struct Ledger {
    records: HashMap<u64, ContributionRecord>,
    total_contributed: u128,
    total_shares_issued: u128,
}

impl View for Ledger {
    type V = LedgerView;

    closed spec fn view(&self) -> LedgerView {
        LedgerView {
            records: self.records@,
            total_contributed: self.total_contributed as int,
            total_shares_issued: self.total_shares_issued as int,
        }
    }
}

impl Ledger {
    pub fn new() -> (l: Ledger)
        ensures
            l@ == LedgerView::empty(),
            l@.valid(),
    {
        let l = Ledger { records: HashMap::new(), total_contributed: 0, total_shares_issued: 0 };
        proof {
            assert(l@.records.dom() =~= Set::empty());
        }
        l
    }

    pub fn record(&self, c: Address) -> (r: ContributionRecord)
        ensures
            r == self@.record(c),
    {
        match self.records.get(&c.id) {
            Some(r) => *r,
            None => ContributionRecord { amount_contributed: 0, share_balance: 0, repaid: false },
        }
    }

    pub fn has_record(&self, c: Address) -> (b: bool)
        ensures
            b == self@.records.contains_key(c.id),
    {
        self.records.contains_key(&c.id)
    }

    pub fn total_contributed(&self) -> (t: u128)
        ensures
            t == self@.total_contributed,
    {
        self.total_contributed
    }

    pub fn total_shares_issued(&self) -> (t: u128)
        ensures
            t == self@.total_shares_issued,
    {
        self.total_shares_issued
    }

    /// Adds `amount` to the contribution of `c` and issues as many shares.
    pub fn credit(&mut self, c: Address, amount: u128)
        requires
            old(self)@.valid(),
            old(self)@.total_contributed + amount <= MAX_TOTAL,
        ensures
            final(self)@ == old(self)@.credited(c, amount as int),
            final(self)@.valid(),
    {
        let r = self.record(c);
        let updated = ContributionRecord {
            amount_contributed: r.amount_contributed + amount,
            share_balance: r.share_balance + amount,
            repaid: r.repaid,
        };
        self.records.insert(c.id, updated);
        self.total_contributed = self.total_contributed + amount;
        self.total_shares_issued = self.total_shares_issued + amount;
        proof {
            let m = old(self)@.records;
            lemma_sum_insert(m, |r: ContributionRecord| r.amount_contributed as int, c.id, updated);
            lemma_sum_insert(m, |r: ContributionRecord| r.share_balance as int, c.id, updated);
        }
    }

    /// Marks the record of `c` repaid; its amounts stay as they were.
    pub fn mark_repaid(&mut self, c: Address)
        requires
            old(self)@.valid(),
            old(self)@.records.contains_key(c.id),
        ensures
            final(self)@ == old(self)@.marked_repaid(c),
            final(self)@.valid(),
    {
        let r = self.record(c);
        let updated = ContributionRecord {
            amount_contributed: r.amount_contributed,
            share_balance: r.share_balance,
            repaid: true,
        };
        self.records.insert(c.id, updated);
        proof {
            let m = old(self)@.records;
            lemma_sum_insert(m, |r: ContributionRecord| r.amount_contributed as int, c.id, updated);
            lemma_sum_insert(m, |r: ContributionRecord| r.share_balance as int, c.id, updated);
        }
    }
}

} // verus!
