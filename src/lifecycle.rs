//! The month lifecycle: a month is created for a calendar period with its
//! allocations copied from the templates, summarized, and closed for good
//! with its report archived.

use vstd::prelude::*;
use crate::error::PaymeError;
use crate::ledger::{categories_in, same_allocation, same_period, Ledger};
use crate::model::{BudgetCategory, Month, MonthSnapshot, MonthSummary, MonthlyBudget};

verus! {

proof fn lemma_filter_prefix_len(s: Seq<BudgetCategory>, user: i64, j: int)
    requires
        0 <= j <= s.len(),
    ensures
        categories_in(s.subrange(0, j), user).len() <= categories_in(s, user).len(),
    decreases s.len() - j,
{
    if j < s.len() {
        lemma_filter_prefix_len(s, user, j + 1);
        reveal(Seq::filter);
        assert(s.subrange(0, j + 1).drop_last() =~= s.subrange(0, j));
    } else {
        assert(s.subrange(0, j) =~= s);
    }
}

/// What opening the period (`year`, `month`) for `user` did, as `r` reports
/// it: an existing month of that period is summarized and nothing changes;
/// otherwise the month is created under a fresh id with one allocation per
/// category template of `user`, at its default amount and under the next
/// fresh ids, and the new month is summarized.
pub open spec fn month_opened(
    before: &Ledger,
    after: &Ledger,
    user: i64,
    year: i32,
    month: i32,
    r: Result<MonthSummary, PaymeError>,
) -> bool {
    let cats = categories_in(before.categories@, user);
    let start = before.budgets@.len();
    let m = Month { id: before.next_id, user_id: user, year, month, is_closed: false, closed_at: None };
    if before.holds_period(user, year, month) {
        &&& after.same_as(before)
        &&& r is Ok
        &&& before.months@.contains(r->Ok_0.month)
        &&& same_period(r->Ok_0.month, m)
        &&& before.summarizes(r->Ok_0.month, r->Ok_0)
    } else if before.next_id + cats.len() >= i64::MAX {
        &&& after.same_as(before)
        &&& r is Err
        &&& r->Err_0.is_internal()
    } else {
        &&& r is Ok
        &&& after.summarizes(m, r->Ok_0)
        &&& after.months@ == before.months@.push(m)
        &&& after.categories@ == before.categories@
        &&& after.fixed_expenses@ == before.fixed_expenses@
        &&& after.income@ == before.income@
        &&& after.items@ == before.items@
        &&& after.snapshots@ == before.snapshots@
        &&& after.budgets@.len() == start + cats.len()
        &&& after.budgets@.subrange(0, start as int) == before.budgets@
        &&& forall|k: int|
            0 <= k < cats.len() ==> #[trigger] after.budgets@[start + k] == (MonthlyBudget {
                id: (m.id + 1 + k) as i64,
                month_id: m.id,
                category_id: cats[k].id,
                allocated_amount: cats[k].default_amount,
            })
        &&& after.next_id == before.next_id + 1 + cats.len()
    }
}

/// What closing `user`'s month `month_id` did, ending with the month as `m`:
/// the open month was summarized, the summary rendered, the report archived
/// as the month's one snapshot, and the month marked closed; nothing else
/// changed.
pub open spec fn month_closed<F: Fn(&MonthSummary) -> Result<Vec<u8>, String>>(
    before: &Ledger,
    after: &Ledger,
    user: i64,
    month_id: i64,
    render: F,
    m: Month,
) -> bool {
    let report = after.snapshots@.last().pdf_data;
    exists|k: int, s: MonthSummary|
        #![trigger before.summarizes(before.months@[k], s)]
        {
            &&& 0 <= k < before.months@.len()
            &&& before.months@[k].id == month_id
            &&& before.months@[k].user_id == user
            &&& !before.months@[k].is_closed
            &&& before.summarizes(before.months@[k], s)
            &&& render.ensures((&s,), Ok::<Vec<u8>, String>(report))
            &&& m == (Month { is_closed: true, closed_at: m.closed_at, ..before.months@[k] })
            &&& m.closed_at is Some
            &&& after.months@ == before.months@.update(k, m)
            &&& after.snapshots@ == before.snapshots@.push(MonthSnapshot { month_id, pdf_data: report })
        } && after.same_but_months_and_snapshots(before)
}

/// Closing is terminal: once a month has been closed, its owner holds it as
/// a closed month (so every later close, and every change to its income,
/// items or allocations, is refused), and it has exactly one snapshot.
pub proof fn lemma_close_is_terminal<F: Fn(&MonthSummary) -> Result<Vec<u8>, String>>(
    before: &Ledger,
    after: &Ledger,
    user: i64,
    month_id: i64,
    render: F,
    m: Month,
)
    requires
        before.wf(),
        after.wf(),
        month_closed(before, after, user, month_id, render, m),
    ensures
        after.owns_closed_month(user, month_id),
        after.has_snapshot(month_id),
        forall|i: int, j: int|
            0 <= i < after.snapshots@.len() && 0 <= j < after.snapshots@.len()
                && #[trigger] after.snapshots@[i].month_id == month_id
                && #[trigger] after.snapshots@[j].month_id == month_id ==> i == j,
{
    let (k, s) = choose|k: int, s: MonthSummary|
        #![trigger before.summarizes(before.months@[k], s)]
        {
            &&& 0 <= k < before.months@.len()
            &&& before.months@[k].id == month_id
            &&& before.months@[k].user_id == user
            &&& !before.months@[k].is_closed
            &&& before.summarizes(before.months@[k], s)
            &&& render.ensures((&s,), Ok::<Vec<u8>, String>(after.snapshots@.last().pdf_data))
            &&& m == (Month { is_closed: true, closed_at: m.closed_at, ..before.months@[k] })
            &&& m.closed_at is Some
            &&& after.months@ == before.months@.update(k, m)
            &&& after.snapshots@ == before.snapshots@.push(
                MonthSnapshot { month_id, pdf_data: after.snapshots@.last().pdf_data },
            )
        };
    assert(after.months@[k] == m);
    let last = after.snapshots@.len() - 1;
    assert(after.snapshots@[last].month_id == month_id);
}

impl Ledger {
    /// The month has an archived report.
    pub open spec fn has_snapshot(&self, month_id: i64) -> bool {
        exists|k: int| 0 <= k < self.snapshots@.len() && (#[trigger] self.snapshots@[k]).month_id == month_id
    }

    /// `user` has a month for this calendar period.
    pub open spec fn holds_period(&self, user: i64, year: i32, month: i32) -> bool {
        exists|k: int|
            0 <= k < self.months@.len() && same_period(
                #[trigger] self.months@[k],
                Month { id: 0, user_id: user, year, month, is_closed: false, closed_at: None },
            )
    }

    fn find_period(&self, user: i64, year: i32, month: i32) -> (r: Option<usize>)
        ensures
            r is Some <==> self.holds_period(user, year, month),
            r is Some ==> r->Some_0 < self.months@.len() && self.months@[r->Some_0 as int].user_id == user
                && self.months@[r->Some_0 as int].year == year && self.months@[r->Some_0 as int].month == month,
    {
        let mut i: usize = 0;
        while i < self.months.len()
            invariant
                i <= self.months@.len(),
                forall|k: int|
                    0 <= k < i ==> !same_period(
                        #[trigger] self.months@[k],
                        Month { id: 0, user_id: user, year, month, is_closed: false, closed_at: None },
                    ),
            decreases self.months.len() - i,
        {
            let m = self.months[i];
            if m.user_id == user && m.year == year && m.month == month {
                return Some(i);
            }
            i = i + 1;
        }
        None
    }

    fn count_categories(&self, user: i64) -> (r: usize)
        ensures
            r == categories_in(self.categories@, user).len(),
    {
        let mut n: usize = 0;
        let mut i: usize = 0;
        while i < self.categories.len()
            invariant
                i <= self.categories@.len(),
                n == categories_in(self.categories@.subrange(0, i as int), user).len(),
                n <= i,
            decreases self.categories.len() - i,
        {
            proof {
                reveal(Seq::filter);
            }
            assert(self.categories@.subrange(0, i + 1).drop_last() =~= self.categories@.subrange(0, i as int));
            if self.categories[i].user_id == user {
                n = n + 1;
            }
            i = i + 1;
        }
        assert(self.categories@.subrange(0, i as int) =~= self.categories@);
        n
    }

    /// The summary of `user`'s month for the calendar period, creating the
    /// month (with its allocations copied from the category templates) when
    /// there is none yet.
    pub fn open_month(&mut self, user: i64, year: i32, month: i32) -> (r: Result<MonthSummary, PaymeError>)
        requires
            old(self).wf(),
        ensures
            final(self).wf(),
            month_opened(old(self), final(self), user, year, month, r),
    {
        match self.find_period(user, year, month) {
            Some(k) => {
                let m = self.months[k];
                assert(self.months@.contains(m));
                return Ok(self.month_summary(m));
            },
            None => {},
        }
        let ncats = self.count_categories(user);
        if self.next_id as i128 + ncats as i128 >= i64::MAX as i128 {
            return Err(PaymeError::Internal(String::from_str("record ids exhausted")));
        }
        let ghost cats = categories_in(self.categories@, user);
        let ghost start = self.budgets@.len();
        let id = self.next_id;
        let m = Month { id, user_id: user, year, month, is_closed: false, closed_at: None };
        self.months.push(m);
        self.next_id = id + 1;
        assert(self.months_unique()) by {
            assert forall|i: int, j: int|
                0 <= i < self.months@.len() && 0 <= j < self.months@.len() && i != j implies {
                &&& #[trigger] self.months@[i].id != #[trigger] self.months@[j].id
                &&& !same_period(self.months@[i], self.months@[j])
            } by {
                if i < old(self).months@.len() && j < old(self).months@.len() {
                    assert(old(self).months@[i] == self.months@[i]);
                    assert(old(self).months@[j] == self.months@[j]);
                } else if i < old(self).months@.len() {
                    assert(old(self).months@[i] == self.months@[i]);
                    assert(!same_period(
                        old(self).months@[i],
                        Month { id: 0, user_id: user, year, month, is_closed: false, closed_at: None },
                    ));
                } else {
                    assert(old(self).months@[j] == self.months@[j]);
                    assert(!same_period(
                        old(self).months@[j],
                        Month { id: 0, user_id: user, year, month, is_closed: false, closed_at: None },
                    ));
                }
            }
        }
        assert(self.snapshots_valid()) by {
            assert forall|k: int| 0 <= k < self.snapshots@.len() implies self.month_is_closed(
                #[trigger] self.snapshots@[k].month_id,
            ) by {
                assert(old(self).month_is_closed(old(self).snapshots@[k].month_id));
                let j = choose|j: int|
                    0 <= j < old(self).months@.len() && (#[trigger] old(self).months@[j]).id == old(self).snapshots@[k].month_id
                        && old(self).months@[j].is_closed;
                assert(self.months@[j] == old(self).months@[j]);
            }
        }
        let mut i: usize = 0;
        while i < self.categories.len()
            invariant
                self.wf(),
                old(self).wf(),
                i <= self.categories@.len(),
                self.categories@ == old(self).categories@,
                self.months@ == old(self).months@.push(m),
                self.fixed_expenses@ == old(self).fixed_expenses@,
                self.income@ == old(self).income@,
                self.items@ == old(self).items@,
                self.snapshots@ == old(self).snapshots@,
                m.id == id,
                m.user_id == user,
                id == old(self).next_id,
                start == old(self).budgets@.len(),
                cats == categories_in(old(self).categories@, user),
                old(self).next_id + cats.len() < i64::MAX,
                categories_in(self.categories@.subrange(0, i as int), user).len() <= cats.len(),
                self.budgets@.len() == start + categories_in(self.categories@.subrange(0, i as int), user).len(),
                self.budgets@.subrange(0, start as int) == old(self).budgets@,
                self.next_id == id + 1 + categories_in(self.categories@.subrange(0, i as int), user).len(),
                forall|k: int|
                    0 <= k < categories_in(self.categories@.subrange(0, i as int), user).len() ==> #[trigger] self.budgets@[start + k]
                        == (MonthlyBudget {
                            id: (id + 1 + k) as i64,
                            month_id: id,
                            category_id: categories_in(self.categories@.subrange(0, i as int), user)[k].id,
                            allocated_amount: categories_in(self.categories@.subrange(0, i as int), user)[k].default_amount,
                        }),
                forall|k: int|
                    start <= k < self.budgets@.len() ==> exists|j: int|
                        0 <= j < i && #[trigger] self.budgets@[k].category_id == self.categories@[j].id,
            decreases self.categories.len() - i,
        {
            proof {
                reveal(Seq::filter);
            }
            let ghost prefix = categories_in(self.categories@.subrange(0, i as int), user);
            assert(self.categories@.subrange(0, i + 1).drop_last() =~= self.categories@.subrange(0, i as int));
            proof {
                lemma_filter_prefix_len(self.categories@, user, i + 1);
                assert(self.categories@.subrange(0, self.categories@.len() as int) =~= self.categories@);
            }
            let c = &self.categories[i];
            if c.user_id == user {
                let row = MonthlyBudget {
                    id: self.next_id,
                    month_id: id,
                    category_id: c.id,
                    allocated_amount: c.default_amount,
                };
                let ghost next = categories_in(self.categories@.subrange(0, i + 1), user);
                assert(next == prefix.push(self.categories@[i as int]));
                let ghost before = self.budgets@;
                proof {
                    assert forall|k: int| 0 <= k < before.len() implies !same_allocation(
                        #[trigger] before[k],
                        row,
                    ) by {
                        if k < start {
                            assert(before[k] == old(self).budgets@[k]);
                            assert(old(self).budgets@[k].month_id < old(self).next_id);
                        } else {
                            let j = choose|j: int| 0 <= j < i && #[trigger] before[k].category_id == self.categories@[j].id;
                            assert(self.categories@[j].id != self.categories@[i as int].id);
                        }
                    }
                }
                self.budgets.push(row);
                proof {
                    assert forall|a: int, b: int|
                        0 <= a < self.budgets@.len() && 0 <= b < self.budgets@.len() && a != b implies !same_allocation(
                        #[trigger] self.budgets@[a],
                        #[trigger] self.budgets@[b],
                    ) by {
                        if a < before.len() && b < before.len() {
                            assert(self.budgets@[a] == before[a] && self.budgets@[b] == before[b]);
                        } else if a < before.len() {
                            assert(self.budgets@[a] == before[a]);
                        } else {
                            assert(self.budgets@[b] == before[b]);
                        }
                    }
                    let last = self.budgets@.len() - 1;
                    assert(self.budgets@[last] == row);
                    assert(self.categories@[i as int].user_id == user);
                    assert(row.category_id == self.categories@[i as int].id);
                    assert forall|k: int, q: int|
                        0 <= k < self.months@.len() && 0 <= q < self.categories@.len()
                            && self.budgets@[last].month_id == #[trigger] self.months@[k].id
                            && self.budgets@[last].category_id == #[trigger] self.categories@[q].id
                            implies self.categories@[q].user_id == self.months@[k].user_id by {
                        let n = self.months@.len() - 1;
                        assert(self.months@[n] == m);
                        if k != n {
                            assert(self.months@[k].id != self.months@[n].id);
                        }
                        if q != i {
                            assert(self.categories@[q].id != self.categories@[i as int].id);
                        }
                    }
                }
                self.next_id = self.next_id + 1;
                assert(self.budgets@.subrange(0, start as int) =~= old(self).budgets@);
                assert forall|k: int| 0 <= k < next.len() implies #[trigger] self.budgets@[start + k]
                    == (MonthlyBudget {
                        id: (id + 1 + k) as i64,
                        month_id: id,
                        category_id: next[k].id,
                        allocated_amount: next[k].default_amount,
                    }) by {
                    if k < prefix.len() {
                        assert(next[k] == prefix[k]);
                    }
                }
            }
            i = i + 1;
        }
        assert(self.categories@.subrange(0, i as int) =~= self.categories@);
        Ok(self.month_summary(m))
    }

    /// The summary of the month of the present calendar period (UTC) for
    /// `user`, created as `open_month` creates it when there is none.
    pub fn get_or_create_current_month(&mut self, user: i64) -> (r: Result<MonthSummary, PaymeError>)
        requires
            old(self).wf(),
        ensures
            final(self).wf(),
            exists|year: i32, month: i32|
                1 <= month <= 12 && month_opened(old(self), final(self), user, year, month, r),
    {
        let (year, month) = crate::clock::current_period();
        self.open_month(user, year, month)
    }

    /// The summary of the month, where `user` owns it.
    pub fn get_month(&self, user: i64, month_id: i64) -> (r: Result<MonthSummary, PaymeError>)
        requires
            self.wf(),
        ensures
            !self.owns_month(user, month_id) ==> r == Err::<MonthSummary, PaymeError>(PaymeError::NotFound),
            self.owns_month(user, month_id) ==> r is Ok && self.months@.contains(r->Ok_0.month)
                && r->Ok_0.month.id == month_id && r->Ok_0.month.user_id == user && self.summarizes(
                r->Ok_0.month,
                r->Ok_0,
            ),
    {
        match self.lookup_month(user, month_id) {
            Some(m) => Ok(self.month_summary(m)),
            None => Err(PaymeError::NotFound),
        }
    }

    /// Closes `user`'s month: its summary is rendered by `render` into a
    /// report, the report is kept as the month's snapshot, and the month is
    /// marked closed at the present moment. A month that is missing or owned
    /// by someone else is `NotFound`; a closed month fails as already closed;
    /// a failed rendering is `Internal`. On any error nothing changes.
    pub fn close_month<F: Fn(&MonthSummary) -> Result<Vec<u8>, String>>(
        &mut self,
        user: i64,
        month_id: i64,
        render: F,
    ) -> (r: Result<Month, PaymeError>)
        requires
            old(self).wf(),
            forall|s: &MonthSummary| render.requires((s,)),
        ensures
            final(self).wf(),
            r is Err ==> final(self).same_as(old(self)),
            !old(self).owns_month(user, month_id) ==> r == Err::<Month, PaymeError>(PaymeError::NotFound),
            old(self).owns_closed_month(user, month_id) ==> r is Err && r->Err_0.is_bad_request(
                crate::error::already_closed_message(),
            ),
            r is Ok ==> month_closed(old(self), final(self), user, month_id, render, r->Ok_0),
            old(self).owns_open_month(user, month_id) ==> r is Ok || r->Err_0.is_internal(),
            old(self).owns_open_month(user, month_id) && (forall|s: &MonthSummary, o: Result<Vec<u8>, String>|
                #[trigger] render.ensures((s,), o) ==> o is Ok) ==> r is Ok,
    {
        let k = match self.find_owned_month(user, month_id) {
            Some(k) => k,
            None => {
                return Err(PaymeError::NotFound);
            },
        };
        let m = match crate::guard::close_guard(Some(self.months[k])) {
            Ok(m) => m,
            Err(e) => {
                proof {
                    assert forall|j: int|
                        0 <= j < self.months@.len() && #[trigger] self.months@[j].id == month_id
                            && self.months@[j].user_id == user implies self.months@[j].is_closed by {
                        if j != k {
                            assert(self.months@[j].id != self.months@[k as int].id);
                        }
                    }
                }
                return Err(e);
            },
        };
        let summary = self.month_summary(m);
        let pdf_data = match render(&summary) {
            Ok(bytes) => bytes,
            Err(e) => {
                return Err(PaymeError::Internal(e));
            },
        };
        let closed_at = crate::clock::now_timestamp();
        let updated = crate::guard::closed(m, closed_at);
        proof {
            assert forall|j: int| 0 <= j < self.snapshots@.len() implies (#[trigger] self.snapshots@[j]).month_id
                != month_id by {
                assert(self.month_is_closed(self.snapshots@[j].month_id));
                let i = choose|i: int|
                    0 <= i < self.months@.len() && (#[trigger] self.months@[i]).id == self.snapshots@[j].month_id
                        && self.months@[i].is_closed;
                if i != k {
                    assert(self.months@[i].id != self.months@[k as int].id);
                }
            }
        }
        let ghost before = *self;
        self.snapshots.push(MonthSnapshot { month_id, pdf_data });
        self.months.set(k, updated);
        proof {
            assert forall|i: int, j: int|
                0 <= i < self.months@.len() && 0 <= j < self.months@.len() && i != j implies {
                &&& #[trigger] self.months@[i].id != #[trigger] self.months@[j].id
                &&& !same_period(self.months@[i], self.months@[j])
            } by {
                assert(before.months@[i].id != before.months@[j].id);
                assert(!same_period(before.months@[i], before.months@[j]));
            }
            assert forall|j: int| 0 <= j < self.snapshots@.len() implies self.month_is_closed(
                #[trigger] self.snapshots@[j].month_id,
            ) by {
                if j < before.snapshots@.len() {
                    assert(before.month_is_closed(before.snapshots@[j].month_id));
                    let i = choose|i: int|
                        0 <= i < before.months@.len() && (#[trigger] before.months@[i]).id
                            == before.snapshots@[j].month_id && before.months@[i].is_closed;
                    if i != k {
                        assert(self.months@[i] == before.months@[i]);
                    } else {
                        assert(self.months@[k as int].is_closed);
                    }
                } else {
                    assert(self.months@[k as int].id == month_id && self.months@[k as int].is_closed);
                }
            }
            assert(self.months_unique());
            assert(self.snapshots_valid());
        }
        Ok(updated)
    }

    /// The archived report of `user`'s month: `NotFound` if the month is
    /// missing, owned by someone else, or not closed (only a close archives one).
    pub fn get_month_pdf(&self, user: i64, month_id: i64) -> (r: Result<Vec<u8>, PaymeError>)
        requires
            self.wf(),
        ensures
            !self.owns_month(user, month_id) ==> r == Err::<Vec<u8>, PaymeError>(PaymeError::NotFound),
            self.owns_month(user, month_id) && !self.has_snapshot(month_id) ==> r == Err::<
                Vec<u8>,
                PaymeError,
            >(PaymeError::NotFound),
            r is Ok ==> exists|k: int|
                0 <= k < self.snapshots@.len() && (#[trigger] self.snapshots@[k]).month_id == month_id
                    && self.snapshots@[k].pdf_data@ == r->Ok_0@,
            self.owns_month(user, month_id) && self.has_snapshot(month_id) ==> r is Ok,
    {
        if self.find_owned_month(user, month_id).is_none() {
            return Err(PaymeError::NotFound);
        }
        let mut i: usize = 0;
        while i < self.snapshots.len()
            invariant
                self.owns_month(user, month_id),
                i <= self.snapshots@.len(),
                forall|k: int| 0 <= k < i ==> (#[trigger] self.snapshots@[k]).month_id != month_id,
            decreases self.snapshots.len() - i,
        {
            if self.snapshots[i].month_id == month_id {
                let data = self.snapshots[i].pdf_data.clone();
                assert(data@ == self.snapshots@[i as int].pdf_data@);
                return Ok(data);
            }
            i = i + 1;
        }
        Err(PaymeError::NotFound)
    }
}

} // verus!
