//! Income, items and allocations of a month: every change passes the guard
//! that keeps closed months frozen and other users' months out of reach.

use vstd::prelude::*;
use crate::error::{closed_message, invalid_category_message, PaymeError};
use crate::ledger::{budgets_in, income_in, labelled, Ledger};
use crate::summary::newest_first;
use crate::model::{IncomeEntry, Item, ItemWithCategory, MonthlyBudget};
use crate::payload::{CreateIncome, CreateItem, UpdateIncome, UpdateItem, UpdateMonthlyBudget};

verus! {

impl Ledger {
    /// The same records, but for the income entries and the id counter.
    pub open spec fn same_but_income(&self, other: &Ledger) -> bool {
        &&& self.categories@ == other.categories@
        &&& self.fixed_expenses@ == other.fixed_expenses@
        &&& self.months@ == other.months@
        &&& self.budgets@ == other.budgets@
        &&& self.items@ == other.items@
        &&& self.snapshots@ == other.snapshots@
    }

    /// The same records, but for the items and the id counter.
    pub open spec fn same_but_items(&self, other: &Ledger) -> bool {
        &&& self.categories@ == other.categories@
        &&& self.fixed_expenses@ == other.fixed_expenses@
        &&& self.months@ == other.months@
        &&& self.budgets@ == other.budgets@
        &&& self.income@ == other.income@
        &&& self.snapshots@ == other.snapshots@
    }

    /// How a mutation under `user`'s month `month_id` is refused by the
    /// guard: `NotFound` unless `user` owns the month, the closed-month
    /// error if it is closed, and in both cases nothing changes.
    pub open spec fn guarded(&self, before: &Ledger, user: i64, month_id: i64, e: Option<PaymeError>) -> bool {
        &&& !before.owns_month(user, month_id) ==> e == Some(PaymeError::NotFound)
        &&& before.owns_closed_month(user, month_id) ==> e is Some && e->Some_0.is_bad_request(closed_message())
        &&& e is Some ==> self.same_as(before)
    }

    /// `user` owns a category with this id.
    pub open spec fn owns_category(&self, user: i64, category_id: i64) -> bool {
        exists|k: int|
            0 <= k < self.categories@.len() && (#[trigger] self.categories@[k]).id == category_id
                && self.categories@[k].user_id == user
    }

    /// The owner of the month with this id owns a category with `category_id`.
    pub open spec fn category_fits(&self, month_id: i64, category_id: i64) -> bool {
        exists|k: int|
            0 <= k < self.months@.len() && (#[trigger] self.months@[k]).id == month_id && self.owns_category(
                self.months@[k].user_id,
                category_id,
            )
    }

    pub open spec fn has_income(&self, month_id: i64, income_id: i64) -> bool {
        exists|k: int|
            0 <= k < self.income@.len() && (#[trigger] self.income@[k]).id == income_id
                && self.income@[k].month_id == month_id
    }

    pub open spec fn has_item(&self, month_id: i64, item_id: i64) -> bool {
        exists|k: int|
            0 <= k < self.items@.len() && (#[trigger] self.items@[k]).id == item_id && self.items@[k].month_id
                == month_id
    }

    pub open spec fn has_budget(&self, month_id: i64, budget_id: i64) -> bool {
        exists|k: int|
            0 <= k < self.budgets@.len() && (#[trigger] self.budgets@[k]).id == budget_id
                && self.budgets@[k].month_id == month_id
    }

    pub(crate) fn find_category(&self, user: i64, category_id: i64) -> (r: bool)
        ensures
            r == self.owns_category(user, category_id),
    {
        let mut i: usize = 0;
        while i < self.categories.len()
            invariant
                i <= self.categories@.len(),
                forall|k: int|
                    0 <= k < i ==> !((#[trigger] self.categories@[k]).id == category_id
                        && self.categories@[k].user_id == user),
            decreases self.categories.len() - i,
        {
            if self.categories[i].id == category_id && self.categories[i].user_id == user {
                return true;
            }
            i = i + 1;
        }
        false
    }

    fn find_income(&self, month_id: i64, income_id: i64) -> (r: Option<usize>)
        ensures
            r is Some ==> r->Some_0 < self.income@.len() && self.income@[r->Some_0 as int].id == income_id
                && self.income@[r->Some_0 as int].month_id == month_id,
            r is None ==> !self.has_income(month_id, income_id),
    {
        let mut i: usize = 0;
        while i < self.income.len()
            invariant
                i <= self.income@.len(),
                forall|k: int|
                    0 <= k < i ==> !((#[trigger] self.income@[k]).id == income_id && self.income@[k].month_id
                        == month_id),
            decreases self.income.len() - i,
        {
            if self.income[i].id == income_id && self.income[i].month_id == month_id {
                return Some(i);
            }
            i = i + 1;
        }
        None
    }

    fn find_item(&self, month_id: i64, item_id: i64) -> (r: Option<usize>)
        ensures
            r is Some ==> r->Some_0 < self.items@.len() && self.items@[r->Some_0 as int].id == item_id
                && self.items@[r->Some_0 as int].month_id == month_id,
            r is None ==> !self.has_item(month_id, item_id),
    {
        let mut i: usize = 0;
        while i < self.items.len()
            invariant
                i <= self.items@.len(),
                forall|k: int|
                    0 <= k < i ==> !((#[trigger] self.items@[k]).id == item_id && self.items@[k].month_id
                        == month_id),
            decreases self.items.len() - i,
        {
            if self.items[i].id == item_id && self.items[i].month_id == month_id {
                return Some(i);
            }
            i = i + 1;
        }
        None
    }

    fn find_budget(&self, month_id: i64, budget_id: i64) -> (r: Option<usize>)
        ensures
            r is Some ==> r->Some_0 < self.budgets@.len() && self.budgets@[r->Some_0 as int].id == budget_id
                && self.budgets@[r->Some_0 as int].month_id == month_id,
            r is None ==> !self.has_budget(month_id, budget_id),
    {
        let mut i: usize = 0;
        while i < self.budgets.len()
            invariant
                i <= self.budgets@.len(),
                forall|k: int|
                    0 <= k < i ==> !((#[trigger] self.budgets@[k]).id == budget_id
                        && self.budgets@[k].month_id == month_id),
            decreases self.budgets.len() - i,
        {
            if self.budgets[i].id == budget_id && self.budgets[i].month_id == month_id {
                return Some(i);
            }
            i = i + 1;
        }
        None
    }

    /// The income entries of `user`'s month, in stored order.
    pub fn list_income(&self, user: i64, month_id: i64) -> (r: Result<Vec<IncomeEntry>, PaymeError>)
        requires
            self.wf(),
        ensures
            !self.owns_month(user, month_id) ==> r is Err && r->Err_0 == PaymeError::NotFound,
            self.owns_month(user, month_id) ==> r is Ok && r->Ok_0@ == self.income_of(month_id),
    {
        self.verify_month_access(user, month_id)?;
        let mut out: Vec<IncomeEntry> = Vec::new();
        let mut i: usize = 0;
        while i < self.income.len()
            invariant
                i <= self.income@.len(),
                out@ == income_in(self.income@.subrange(0, i as int), month_id),
            decreases self.income.len() - i,
        {
            proof {
                reveal(Seq::filter);
            }
            assert(self.income@.subrange(0, i + 1).drop_last() =~= self.income@.subrange(0, i as int));
            if self.income[i].month_id == month_id {
                out.push(self.income[i].copy());
            }
            i = i + 1;
        }
        assert(self.income@.subrange(0, i as int) =~= self.income@);
        Ok(out)
    }

    /// The items of `user`'s month with their categories' labels, from the
    /// latest day to the earliest.
    pub fn list_items(&self, user: i64, month_id: i64) -> (r: Result<Vec<ItemWithCategory>, PaymeError>)
        requires
            self.wf(),
        ensures
            !self.owns_month(user, month_id) ==> r is Err && r->Err_0 == PaymeError::NotFound,
            self.owns_month(user, month_id) ==> r is Ok && r->Ok_0@ == newest_first(
                labelled(self.items_of(month_id), self.categories@),
            ),
    {
        self.verify_month_access(user, month_id)?;
        Ok(self.labelled_items(month_id))
    }

    /// The allocations of `user`'s month, in stored order.
    pub fn list_monthly_budgets(&self, user: i64, month_id: i64) -> (r: Result<Vec<MonthlyBudget>, PaymeError>)
        requires
            self.wf(),
        ensures
            !self.owns_month(user, month_id) ==> r is Err && r->Err_0 == PaymeError::NotFound,
            self.owns_month(user, month_id) ==> r is Ok && r->Ok_0@ == self.budgets_of(month_id),
    {
        self.verify_month_access(user, month_id)?;
        let mut out: Vec<MonthlyBudget> = Vec::new();
        let mut i: usize = 0;
        while i < self.budgets.len()
            invariant
                i <= self.budgets@.len(),
                out@ == budgets_in(self.budgets@.subrange(0, i as int), month_id),
            decreases self.budgets.len() - i,
        {
            proof {
                reveal(Seq::filter);
            }
            assert(self.budgets@.subrange(0, i + 1).drop_last() =~= self.budgets@.subrange(0, i as int));
            if self.budgets[i].month_id == month_id {
                out.push(self.budgets[i]);
            }
            i = i + 1;
        }
        assert(self.budgets@.subrange(0, i as int) =~= self.budgets@);
        Ok(out)
    }

    /// Records income in `user`'s open month.
    pub fn create_income(&mut self, user: i64, month_id: i64, payload: CreateIncome) -> (r: Result<
        IncomeEntry,
        PaymeError,
    >)
        requires
            old(self).wf(),
        ensures
            final(self).wf(),
            final(self).guarded(old(self), user, month_id, r.err()),
            old(self).owns_open_month(user, month_id) && !payload.valid() ==> r is Err && r->Err_0 is Validation
                && final(self).same_as(old(self)),
            old(self).owns_open_month(user, month_id) && payload.valid() && old(self).next_id == i64::MAX ==> r is Err
                && r->Err_0.is_internal() && final(self).same_as(old(self)),
            old(self).owns_open_month(user, month_id) && payload.valid() && old(self).next_id < i64::MAX ==> r is Ok,
            r is Ok ==> r->Ok_0 == (IncomeEntry {
                id: old(self).next_id,
                month_id,
                label: payload.label,
                amount: payload.amount,
            }) && final(self).income@ == old(self).income@.push(r->Ok_0) && final(self).same_but_income(old(self))
                && final(self).next_id == old(self).next_id + 1,
    {
        self.verify_month_not_closed(user, month_id)?;
        payload.validate()?;
        if self.next_id == i64::MAX {
            return Err(PaymeError::Internal(String::from_str("record ids exhausted")));
        }
        let entry = IncomeEntry { id: self.next_id, month_id, label: payload.label, amount: payload.amount };
        self.income.push(entry.copy());
        self.next_id = self.next_id + 1;
        Ok(entry)
    }

    /// Changes the given fields of an income entry of `user`'s open month.
    pub fn update_income(&mut self, user: i64, month_id: i64, income_id: i64, payload: UpdateIncome) -> (r:
        Result<IncomeEntry, PaymeError>)
        requires
            old(self).wf(),
        ensures
            final(self).wf(),
            final(self).guarded(old(self), user, month_id, r.err()),
            old(self).owns_open_month(user, month_id) && !payload.valid() ==> r is Err && r->Err_0 is Validation
                && final(self).same_as(old(self)),
            old(self).owns_open_month(user, month_id) && payload.valid() && !old(self).has_income(month_id, income_id)
                ==> r == Err::<IncomeEntry, PaymeError>(PaymeError::NotFound) && final(self).same_as(old(self)),
            old(self).owns_open_month(user, month_id) && payload.valid() && old(self).has_income(month_id, income_id)
                ==> r is Ok,
            r is Ok ==> exists|k: int|
                0 <= k < old(self).income@.len() && (#[trigger] old(self).income@[k]).id == income_id
                    && old(self).income@[k].month_id == month_id && r->Ok_0 == payload.applied(old(self).income@[k])
                    && final(self).income@ == old(self).income@.update(k, r->Ok_0),
            r is Ok ==> final(self).same_but_income(old(self)) && final(self).next_id == old(self).next_id,
    {
        self.verify_month_not_closed(user, month_id)?;
        payload.validate()?;
        let k = match self.find_income(month_id, income_id) {
            Some(k) => k,
            None => {
                return Err(PaymeError::NotFound);
            },
        };
        let updated = payload.apply_to(self.income[k].copy());
        self.income.set(k, updated.copy());
        Ok(updated)
    }

    /// Removes an income entry of `user`'s open month; removing one that is
    /// not there succeeds and changes nothing.
    pub fn delete_income(&mut self, user: i64, month_id: i64, income_id: i64) -> (r: Result<(), PaymeError>)
        requires
            old(self).wf(),
        ensures
            final(self).wf(),
            final(self).guarded(old(self), user, month_id, r.err()),
            old(self).owns_open_month(user, month_id) ==> r is Ok,
            r is Ok && !old(self).has_income(month_id, income_id) ==> final(self).same_as(old(self)),
            r is Ok && old(self).has_income(month_id, income_id) ==> exists|k: int|
                0 <= k < old(self).income@.len() && (#[trigger] old(self).income@[k]).id == income_id
                    && old(self).income@[k].month_id == month_id && final(self).income@ == old(self).income@.remove(k),
            r is Ok ==> final(self).same_but_income(old(self)) && final(self).next_id == old(self).next_id,
    {
        self.verify_month_not_closed(user, month_id)?;
        match self.find_income(month_id, income_id) {
            Some(k) => {
                self.income.remove(k);
            },
            None => {},
        }
        Ok(())
    }

    /// Records an item in `user`'s open month, against a category of `user`.
    pub fn create_item(&mut self, user: i64, month_id: i64, payload: CreateItem) -> (r: Result<
        Item,
        PaymeError,
    >)
        requires
            old(self).wf(),
        ensures
            final(self).wf(),
            final(self).guarded(old(self), user, month_id, r.err()),
            old(self).owns_open_month(user, month_id) && !payload.valid() ==> r is Err && r->Err_0 is Validation
                && final(self).same_as(old(self)),
            old(self).owns_open_month(user, month_id) && payload.valid() && !old(self).owns_category(
                user,
                payload.category_id,
            ) ==> r is Err && r->Err_0.is_bad_request(invalid_category_message()) && final(self).same_as(old(self)),
            old(self).owns_open_month(user, month_id) && payload.valid() && old(self).owns_category(
                user,
                payload.category_id,
            ) && old(self).next_id == i64::MAX ==> r is Err && r->Err_0.is_internal() && final(self).same_as(old(self)),
            old(self).owns_open_month(user, month_id) && payload.valid() && old(self).owns_category(
                user,
                payload.category_id,
            ) && old(self).next_id < i64::MAX ==> r is Ok,
            r is Ok ==> r->Ok_0 == (Item {
                id: old(self).next_id,
                month_id,
                category_id: payload.category_id,
                description: payload.description,
                amount: payload.amount,
                spent_on: payload.spent_on,
            }) && final(self).items@ == old(self).items@.push(r->Ok_0) && final(self).same_but_items(old(self))
                && final(self).next_id == old(self).next_id + 1,
    {
        self.verify_month_not_closed(user, month_id)?;
        payload.validate()?;
        if !self.find_category(user, payload.category_id) {
            return Err(PaymeError::invalid_category());
        }
        if self.next_id == i64::MAX {
            return Err(PaymeError::Internal(String::from_str("record ids exhausted")));
        }
        let item = Item {
            id: self.next_id,
            month_id,
            category_id: payload.category_id,
            description: payload.description,
            amount: payload.amount,
            spent_on: payload.spent_on,
        };
        self.items.push(item.copy());
        self.next_id = self.next_id + 1;
        Ok(item)
    }

    /// Changes the given fields of an item of `user`'s open month; a new
    /// category must be one of `user`'s.
    pub fn update_item(&mut self, user: i64, month_id: i64, item_id: i64, payload: UpdateItem) -> (r: Result<
        Item,
        PaymeError,
    >)
        requires
            old(self).wf(),
        ensures
            final(self).wf(),
            final(self).guarded(old(self), user, month_id, r.err()),
            old(self).owns_open_month(user, month_id) && !payload.valid() ==> r is Err && r->Err_0 is Validation
                && final(self).same_as(old(self)),
            old(self).owns_open_month(user, month_id) && payload.valid() && !old(self).has_item(month_id, item_id)
                ==> r == Err::<Item, PaymeError>(PaymeError::NotFound) && final(self).same_as(old(self)),
            old(self).owns_open_month(user, month_id) && payload.valid() && old(self).has_item(month_id, item_id)
                && payload.category_id is Some && !old(self).owns_category(user, payload.category_id->Some_0)
                ==> r is Err && r->Err_0.is_bad_request(invalid_category_message()) && final(self).same_as(old(self)),
            old(self).owns_open_month(user, month_id) && payload.valid() && old(self).has_item(month_id, item_id)
                && (payload.category_id is None || old(self).owns_category(user, payload.category_id->Some_0))
                ==> r is Ok,
            r is Ok ==> exists|k: int|
                0 <= k < old(self).items@.len() && (#[trigger] old(self).items@[k]).id == item_id
                    && old(self).items@[k].month_id == month_id && r->Ok_0 == payload.applied(old(self).items@[k])
                    && final(self).items@ == old(self).items@.update(k, r->Ok_0),
            r is Ok ==> final(self).same_but_items(old(self)) && final(self).next_id == old(self).next_id,
    {
        self.verify_month_not_closed(user, month_id)?;
        payload.validate()?;
        let k = match self.find_item(month_id, item_id) {
            Some(k) => k,
            None => {
                return Err(PaymeError::NotFound);
            },
        };
        match payload.category_id {
            Some(c) => {
                if !self.find_category(user, c) {
                    return Err(PaymeError::invalid_category());
                }
            },
            None => {},
        }
        let updated = payload.apply_to(self.items[k].copy());
        self.items.set(k, updated.copy());
        Ok(updated)
    }

    /// Removes an item of `user`'s open month; removing one that is not
    /// there succeeds and changes nothing.
    pub fn delete_item(&mut self, user: i64, month_id: i64, item_id: i64) -> (r: Result<(), PaymeError>)
        requires
            old(self).wf(),
        ensures
            final(self).wf(),
            final(self).guarded(old(self), user, month_id, r.err()),
            old(self).owns_open_month(user, month_id) ==> r is Ok,
            r is Ok && !old(self).has_item(month_id, item_id) ==> final(self).same_as(old(self)),
            r is Ok && old(self).has_item(month_id, item_id) ==> exists|k: int|
                0 <= k < old(self).items@.len() && (#[trigger] old(self).items@[k]).id == item_id
                    && old(self).items@[k].month_id == month_id && final(self).items@ == old(self).items@.remove(k),
            r is Ok ==> final(self).same_but_items(old(self)) && final(self).next_id == old(self).next_id,
    {
        self.verify_month_not_closed(user, month_id)?;
        match self.find_item(month_id, item_id) {
            Some(k) => {
                self.items.remove(k);
            },
            None => {},
        }
        Ok(())
    }

    /// Sets the amount of an allocation of `user`'s open month.
    pub fn update_monthly_budget(
        &mut self,
        user: i64,
        month_id: i64,
        budget_id: i64,
        payload: UpdateMonthlyBudget,
    ) -> (r: Result<MonthlyBudget, PaymeError>)
        requires
            old(self).wf(),
        ensures
            final(self).wf(),
            final(self).guarded(old(self), user, month_id, r.err()),
            old(self).owns_open_month(user, month_id) && !payload.valid() ==> r is Err && r->Err_0 is Validation
                && final(self).same_as(old(self)),
            old(self).owns_open_month(user, month_id) && payload.valid() && !old(self).has_budget(month_id, budget_id)
                ==> r == Err::<MonthlyBudget, PaymeError>(PaymeError::NotFound) && final(self).same_as(old(self)),
            old(self).owns_open_month(user, month_id) && payload.valid() && old(self).has_budget(month_id, budget_id)
                ==> r is Ok,
            r is Ok ==> exists|k: int|
                0 <= k < old(self).budgets@.len() && (#[trigger] old(self).budgets@[k]).id == budget_id
                    && old(self).budgets@[k].month_id == month_id && r->Ok_0 == (MonthlyBudget {
                    allocated_amount: payload.allocated_amount,
                    ..old(self).budgets@[k]
                }) && final(self).budgets@ == old(self).budgets@.update(k, r->Ok_0),
            r is Ok ==> final(self).same_but_budgets(old(self)) && final(self).next_id == old(self).next_id,
    {
        self.verify_month_not_closed(user, month_id)?;
        payload.validate()?;
        let k = match self.find_budget(month_id, budget_id) {
            Some(k) => k,
            None => {
                return Err(PaymeError::NotFound);
            },
        };
        let updated = MonthlyBudget { allocated_amount: payload.allocated_amount, ..self.budgets[k] };
        self.budgets.set(k, updated);
        Ok(updated)
    }
}

} // verus!
