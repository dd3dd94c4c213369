//! Category templates, with the propagation of a new one into the open
//! months; fixed expenses; and the list of months of a user.

use vstd::prelude::*;
use crate::error::{closed_message, invalid_category_message, PaymeError};
use crate::ledger::{categories_in, fixed_in, Ledger};
use crate::model::{BudgetCategory, FixedExpense, Month, MonthlyBudget};
use crate::payload::{CreateCategory, CreateFixedExpense, UpdateCategory, UpdateFixedExpense};

verus! {

/// The ids of the open months of `user`, in the order the months are stored.
pub open spec fn open_month_ids(months: Seq<Month>, user: i64) -> Seq<i64>
    decreases months.len(),
{
    if months.len() == 0 {
        Seq::empty()
    } else {
        let rest = open_month_ids(months.drop_last(), user);
        let m = months.last();
        if m.user_id == user && !m.is_closed {
            rest.push(m.id)
        } else {
            rest
        }
    }
}

proof fn lemma_open_ids_len(months: Seq<Month>, user: i64)
    ensures
        open_month_ids(months, user).len() <= months.len(),
    decreases months.len(),
{
    if months.len() > 0 {
        lemma_open_ids_len(months.drop_last(), user);
    }
}

proof fn lemma_open_ids_prefix_len(months: Seq<Month>, user: i64, i: int, j: int)
    requires
        0 <= i <= j <= months.len(),
    ensures
        open_month_ids(months.subrange(0, i), user).len() <= open_month_ids(
            months.subrange(0, j),
            user,
        ).len(),
    decreases j - i,
{
    if i < j {
        lemma_open_ids_prefix_len(months, user, i, j - 1);
        assert(months.subrange(0, j).drop_last() =~= months.subrange(0, j - 1));
    }
}

proof fn lemma_open_ids_members(months: Seq<Month>, user: i64)
    ensures
        forall|k: int|
            0 <= k < open_month_ids(months, user).len() ==> exists|j: int|
                0 <= j < months.len() && months[j].id == #[trigger] open_month_ids(months, user)[k]
                    && months[j].user_id == user && !months[j].is_closed,
    decreases months.len(),
{
    if months.len() > 0 {
        let prev = months.drop_last();
        lemma_open_ids_members(prev, user);
        let ids = open_month_ids(months, user);
        assert forall|k: int| 0 <= k < ids.len() implies exists|j: int|
            0 <= j < months.len() && months[j].id == #[trigger] ids[k] && months[j].user_id == user
                && !months[j].is_closed by {
            if k < open_month_ids(prev, user).len() {
                let j = choose|j: int|
                    0 <= j < prev.len() && prev[j].id == #[trigger] open_month_ids(prev, user)[k]
                        && prev[j].user_id == user && !prev[j].is_closed;
                assert(months[j] == prev[j]);
            } else {
                assert(months[months.len() - 1].id == ids[k]);
            }
        }
    }
}

/// What creating `c` for `user` from `payload` did to the store: the
/// template was added under a fresh id, and each open month of `user` got one
/// allocation of the default amount, each under the next fresh id.
pub open spec fn category_created(
    before: &Ledger,
    after: &Ledger,
    user: i64,
    payload: CreateCategory,
    c: BudgetCategory,
) -> bool {
    let ids = open_month_ids(before.months@, user);
    let start = before.budgets@.len();
    &&& c == (BudgetCategory {
        id: before.next_id,
        user_id: user,
        label: payload.label,
        default_amount: payload.default_amount,
    })
    &&& after.categories@ == before.categories@.push(c)
    &&& after.fixed_expenses@ == before.fixed_expenses@
    &&& after.months@ == before.months@
    &&& after.income@ == before.income@
    &&& after.items@ == before.items@
    &&& after.snapshots@ == before.snapshots@
    &&& after.budgets@.len() == start + ids.len()
    &&& after.budgets@.subrange(0, start as int) == before.budgets@
    &&& forall|k: int|
        0 <= k < ids.len() ==> #[trigger] after.budgets@[start + k] == (MonthlyBudget {
            id: (c.id + 1 + k) as i64,
            month_id: ids[k],
            category_id: c.id,
            allocated_amount: c.default_amount,
        })
    &&& after.next_id == before.next_id + 1 + ids.len()
}

/// Creating a category allocates its default amount once to each open month
/// of its owner and to no other month: as many new rows as open months
/// (none when no month is open), each for an open month of `user`.
pub proof fn lemma_propagation_reaches_open_months(
    before: &Ledger,
    after: &Ledger,
    user: i64,
    payload: CreateCategory,
    c: BudgetCategory,
)
    requires
        before.wf(),
        category_created(before, after, user, payload, c),
    ensures
        after.budgets@.len() - before.budgets@.len() == open_month_ids(before.months@, user).len(),
        forall|k: int|
            before.budgets@.len() <= k < after.budgets@.len() ==> {
                &&& (#[trigger] after.budgets@[k]).category_id == c.id
                &&& after.budgets@[k].allocated_amount == payload.default_amount
                &&& before.owns_month(user, after.budgets@[k].month_id)
                &&& !before.owns_closed_month(user, after.budgets@[k].month_id)
            },
{
    lemma_open_ids_members(before.months@, user);
    let start = before.budgets@.len();
    let ids = open_month_ids(before.months@, user);
    assert forall|k: int| start <= k < after.budgets@.len() implies {
        &&& (#[trigger] after.budgets@[k]).category_id == c.id
        &&& after.budgets@[k].allocated_amount == payload.default_amount
        &&& before.owns_month(user, after.budgets@[k].month_id)
        &&& !before.owns_closed_month(user, after.budgets@[k].month_id)
    } by {
        let kk = k - start;
        assert(after.budgets@[start + kk].month_id == ids[kk]);
        let j = choose|j: int|
            0 <= j < before.months@.len() && before.months@[j].id == #[trigger] ids[kk]
                && before.months@[j].user_id == user && !before.months@[j].is_closed;
        assert((before.months@[j]).id == ids[kk]);
        assert forall|i: int|
            0 <= i < before.months@.len() && (#[trigger] before.months@[i]).id == ids[kk]
                && before.months@[i].user_id == user implies !before.months@[i].is_closed by {
            if i != j {
                assert(before.months@[i].id != before.months@[j].id);
            }
        }
    }
}

pub open spec fn months_in(s: Seq<Month>, user: i64) -> Seq<Month> {
    s.filter(|m: Month| m.user_id == user)
}

impl Ledger {
    /// The month already has an allocation for the category.
    pub open spec fn has_allocation(&self, month_id: i64, category_id: i64) -> bool {
        exists|k: int|
            0 <= k < self.budgets@.len() && #[trigger] self.budgets@[k].month_id == month_id
                && self.budgets@[k].category_id == category_id
    }

    /// Whether the month already has an allocation for the category.
    fn find_allocation(&self, month_id: i64, category_id: i64) -> (r: bool)
        ensures
            r == self.has_allocation(month_id, category_id),
    {
        let mut i: usize = 0;
        while i < self.budgets.len()
            invariant
                i <= self.budgets@.len(),
                forall|k: int|
                    0 <= k < i ==> !(#[trigger] self.budgets@[k].month_id == month_id
                        && self.budgets@[k].category_id == category_id),
            decreases self.budgets.len() - i,
        {
            if self.budgets[i].month_id == month_id && self.budgets[i].category_id == category_id {
                return true;
            }
            i = i + 1;
        }
        false
    }

    /// Allocates `amount` to the category within the month, unless the month
    /// already has an allocation for it, in which case nothing changes.
    /// Answers whether a row was added. A missing month is `NotFound`; a
    /// closed month takes no new allocation and fails as closed; a category
    /// that the month's owner does not own is refused as invalid.
    pub fn add_allocation_if_absent(&mut self, month_id: i64, category_id: i64, amount: i64) -> (r:
        Result<bool, PaymeError>)
        requires
            old(self).wf(),
            amount >= 0,
            category_id < old(self).next_id,
        ensures
            final(self).wf(),
            final(self).same_but_budgets(old(self)),
            r is Err || r == Ok::<bool, PaymeError>(false) ==> final(self).same_as(old(self)),
            !old(self).has_month(month_id) ==> r == Err::<bool, PaymeError>(PaymeError::NotFound),
            old(self).month_is_closed(month_id) ==> r is Err && r->Err_0.is_bad_request(closed_message()),
            old(self).month_is_open(month_id) && !old(self).category_fits(month_id, category_id) ==> r is Err
                && r->Err_0.is_bad_request(invalid_category_message()),
            old(self).month_is_open(month_id) && old(self).category_fits(month_id, category_id)
                && old(self).has_allocation(month_id, category_id) ==> r == Ok::<bool, PaymeError>(false),
            old(self).month_is_open(month_id) && old(self).category_fits(month_id, category_id)
                && !old(self).has_allocation(month_id, category_id) && old(self).next_id < i64::MAX ==> r
                == Ok::<bool, PaymeError>(true) && final(self).budgets@
                == old(self).budgets@.push(
                MonthlyBudget { id: old(self).next_id, month_id, category_id, allocated_amount: amount },
            ) && final(self).next_id == old(self).next_id + 1,
            old(self).month_is_open(month_id) && old(self).category_fits(month_id, category_id)
                && !old(self).has_allocation(month_id, category_id) && old(self).next_id == i64::MAX ==> r is Err
                && r->Err_0.is_internal(),
    {
        match self.find_month(month_id) {
            None => {
                return Err(PaymeError::NotFound);
            },
            Some(k) => {
                if self.months[k].is_closed {
                    return Err(PaymeError::month_closed());
                }
                proof {
                    assert forall|j: int|
                        0 <= j < self.months@.len() && (#[trigger] self.months@[j]).id == month_id implies !self.months@[j].is_closed
                        && self.months@[j].user_id == self.months@[k as int].user_id by {
                        if j != k {
                            assert(self.months@[j].id != self.months@[k as int].id);
                        }
                    }
                }
                if !self.find_category(self.months[k].user_id, category_id) {
                    return Err(PaymeError::invalid_category());
                }
            },
        }
        if self.find_allocation(month_id, category_id) {
            return Ok(false);
        }
        if self.next_id == i64::MAX {
            return Err(PaymeError::Internal(String::from_str("record ids exhausted")));
        }
        let id = self.next_id;
        self.budgets.push(MonthlyBudget { id, month_id, category_id, allocated_amount: amount });
        self.next_id = id + 1;
        Ok(true)
    }

    /// How many months of `user` are open.
    fn count_open_months(&self, user: i64) -> (r: usize)
        ensures
            r == open_month_ids(self.months@, user).len(),
    {
        let mut n: usize = 0;
        let mut i: usize = 0;
        while i < self.months.len()
            invariant
                i <= self.months@.len(),
                n == open_month_ids(self.months@.subrange(0, i as int), user).len(),
            decreases self.months.len() - i,
        {
            assert(self.months@.subrange(0, i + 1).drop_last() =~= self.months@.subrange(0, i as int));
            proof {
                lemma_open_ids_len(self.months@.subrange(0, i as int), user);
            }
            if self.months[i].user_id == user && !self.months[i].is_closed {
                n = n + 1;
            }
            i = i + 1;
        }
        assert(self.months@.subrange(0, i as int) =~= self.months@);
        n
    }

    /// Creates a category template for `user` and allocates its default
    /// amount to every month of `user` that is open, in the order the months
    /// are stored. All of it happens, or (on an error) none of it.
    pub fn create_category(&mut self, user: i64, payload: CreateCategory) -> (r: Result<
        BudgetCategory,
        PaymeError,
    >)
        requires
            old(self).wf(),
        ensures
            final(self).wf(),
            !payload.valid() ==> r is Err && r->Err_0 is Validation && final(self).same_as(old(self)),
            payload.valid() && old(self).next_id + open_month_ids(old(self).months@, user).len()
                >= i64::MAX ==> r is Err && r->Err_0.is_internal() && final(self).same_as(old(self)),
            payload.valid() && old(self).next_id + open_month_ids(old(self).months@, user).len()
                < i64::MAX ==> r is Ok,
            r is Ok ==> category_created(old(self), final(self), user, payload, r->Ok_0),
    {
        match payload.validate() {
            Ok(()) => {},
            Err(e) => {
                return Err(e);
            },
        }
        let open = self.count_open_months(user);
        if self.next_id as i128 + open as i128 >= i64::MAX as i128 {
            return Err(PaymeError::Internal(String::from_str("record ids exhausted")));
        }
        let ghost ids = open_month_ids(self.months@, user);
        let ghost start = self.budgets@.len();
        let category_id = self.next_id;
        let amount = payload.default_amount;
        let category = BudgetCategory { id: category_id, user_id: user, label: payload.label, default_amount: amount };
        self.categories.push(category.copy());
        self.next_id = category_id + 1;
        proof {
            lemma_open_ids_members(self.months@, user);
        }
        let mut i: usize = 0;
        while i < self.months.len()
            invariant
                self.wf(),
                old(self).wf(),
                i <= self.months@.len(),
                self.months@ == old(self).months@,
                self.fixed_expenses@ == old(self).fixed_expenses@,
                self.income@ == old(self).income@,
                self.items@ == old(self).items@,
                self.snapshots@ == old(self).snapshots@,
                self.categories@ == old(self).categories@.push(category),
                category.id == category_id,
                category.user_id == user,
                category.default_amount == amount,
                category_id == old(self).next_id,
                amount >= 0,
                start == old(self).budgets@.len(),
                ids == open_month_ids(old(self).months@, user),
                old(self).next_id + ids.len() < i64::MAX,
                self.budgets@.len() == start + open_month_ids(self.months@.subrange(0, i as int), user).len(),
                self.budgets@.subrange(0, start as int) == old(self).budgets@,
                self.next_id == category_id + 1 + open_month_ids(self.months@.subrange(0, i as int), user).len(),
                forall|k: int|
                    0 <= k < open_month_ids(self.months@.subrange(0, i as int), user).len() ==> #[trigger] self.budgets@[start + k]
                        == (MonthlyBudget {
                            id: (category_id + 1 + k) as i64,
                            month_id: open_month_ids(self.months@.subrange(0, i as int), user)[k],
                            category_id,
                            allocated_amount: amount,
                        }),
            decreases self.months.len() - i,
        {
            let ghost prefix = self.months@.subrange(0, i as int);
            let ghost next = self.months@.subrange(0, i + 1);
            assert(next.drop_last() =~= prefix);
            proof {
                lemma_open_ids_prefix_len(self.months@, user, i + 1, self.months@.len() as int);
                assert(self.months@.subrange(0, self.months@.len() as int) =~= self.months@);
            }
            let m = self.months[i];
            if m.user_id == user && !m.is_closed {
                proof {
                    lemma_open_ids_members(prefix, user);
                    assert forall|k: int| 0 <= k < self.budgets@.len() implies !(#[trigger] self.budgets@[k].month_id == m.id
                        && self.budgets@[k].category_id == category_id) by {
                        if k >= start {
                            let kk = k - start;
                            assert(self.budgets@[start + kk].month_id == open_month_ids(prefix, user)[kk]);
                            assert(0 <= kk < open_month_ids(prefix, user).len());
                            let j = choose|j: int|
                                0 <= j < prefix.len() && prefix[j].id == #[trigger] open_month_ids(prefix, user)[kk]
                                    && prefix[j].user_id == user && !prefix[j].is_closed;
                            assert(0 <= j < i);
                            assert(prefix[j] == self.months@[j]);
                            assert(self.months@[j].id != self.months@[i as int].id);
                            assert(self.budgets@[k].month_id != m.id);
                        } else {
                            assert(self.budgets@[k] == old(self).budgets@[k]);
                            assert(old(self).budgets@[k].category_id < old(self).next_id);
                        }
                    }
                }
                proof {
                    assert(self.categories@[self.categories@.len() - 1] == category);
                    assert(self.owns_category(user, category_id));
                    assert(self.months@[i as int].id == m.id);
                    assert forall|j: int|
                        0 <= j < self.months@.len() && (#[trigger] self.months@[j]).id == m.id implies !self.months@[j].is_closed by {
                        if j != i {
                            assert(self.months@[j].id != self.months@[i as int].id);
                        }
                    }
                }
                let added = self.add_allocation_if_absent(m.id, category_id, amount);
                assert(added == Ok::<bool, PaymeError>(true));
                assert(open_month_ids(next, user) == open_month_ids(prefix, user).push(m.id));
                assert(self.budgets@.subrange(0, start as int) =~= old(self).budgets@);
            }
            i = i + 1;
        }
        assert(self.months@.subrange(0, i as int) =~= self.months@);
        Ok(category)
    }

    /// The same records, but for the category templates and the id counter.
    pub open spec fn same_but_categories(&self, other: &Ledger) -> bool {
        &&& self.fixed_expenses@ == other.fixed_expenses@
        &&& self.months@ == other.months@
        &&& self.budgets@ == other.budgets@
        &&& self.income@ == other.income@
        &&& self.items@ == other.items@
        &&& self.snapshots@ == other.snapshots@
    }

    /// The same records, but for the fixed expenses and the id counter.
    pub open spec fn same_but_fixed(&self, other: &Ledger) -> bool {
        &&& self.categories@ == other.categories@
        &&& self.months@ == other.months@
        &&& self.budgets@ == other.budgets@
        &&& self.income@ == other.income@
        &&& self.items@ == other.items@
        &&& self.snapshots@ == other.snapshots@
    }

    pub open spec fn owns_fixed(&self, user: i64, id: i64) -> bool {
        exists|k: int|
            0 <= k < self.fixed_expenses@.len() && (#[trigger] self.fixed_expenses@[k]).id == id
                && self.fixed_expenses@[k].user_id == user
    }

    fn find_owned_category(&self, user: i64, id: i64) -> (r: Option<usize>)
        ensures
            r is Some ==> r->Some_0 < self.categories@.len() && self.categories@[r->Some_0 as int].id == id
                && self.categories@[r->Some_0 as int].user_id == user,
            r is None ==> !self.owns_category(user, id),
    {
        let mut i: usize = 0;
        while i < self.categories.len()
            invariant
                i <= self.categories@.len(),
                forall|k: int|
                    0 <= k < i ==> !((#[trigger] self.categories@[k]).id == id && self.categories@[k].user_id == user),
            decreases self.categories.len() - i,
        {
            if self.categories[i].id == id && self.categories[i].user_id == user {
                return Some(i);
            }
            i = i + 1;
        }
        None
    }

    fn find_owned_fixed(&self, user: i64, id: i64) -> (r: Option<usize>)
        ensures
            r is Some ==> r->Some_0 < self.fixed_expenses@.len() && self.fixed_expenses@[r->Some_0 as int].id == id
                && self.fixed_expenses@[r->Some_0 as int].user_id == user,
            r is None ==> !self.owns_fixed(user, id),
    {
        let mut i: usize = 0;
        while i < self.fixed_expenses.len()
            invariant
                i <= self.fixed_expenses@.len(),
                forall|k: int|
                    0 <= k < i ==> !((#[trigger] self.fixed_expenses@[k]).id == id && self.fixed_expenses@[k].user_id
                        == user),
            decreases self.fixed_expenses.len() - i,
        {
            if self.fixed_expenses[i].id == id && self.fixed_expenses[i].user_id == user {
                return Some(i);
            }
            i = i + 1;
        }
        None
    }

    /// The category templates of `user`, in stored order.
    pub fn list_categories(&self, user: i64) -> (r: Vec<BudgetCategory>)
        ensures
            r@ == categories_in(self.categories@, user),
    {
        let mut out: Vec<BudgetCategory> = Vec::new();
        let mut i: usize = 0;
        while i < self.categories.len()
            invariant
                i <= self.categories@.len(),
                out@ == categories_in(self.categories@.subrange(0, i as int), user),
            decreases self.categories.len() - i,
        {
            proof {
                reveal(Seq::filter);
            }
            assert(self.categories@.subrange(0, i + 1).drop_last() =~= self.categories@.subrange(0, i as int));
            if self.categories[i].user_id == user {
                out.push(self.categories[i].copy());
            }
            i = i + 1;
        }
        assert(self.categories@.subrange(0, i as int) =~= self.categories@);
        out
    }

    /// Changes the given fields of a category template of `user`. The
    /// allocations already made from it keep their amounts.
    pub fn update_category(&mut self, user: i64, category_id: i64, payload: UpdateCategory) -> (r: Result<
        BudgetCategory,
        PaymeError,
    >)
        requires
            old(self).wf(),
        ensures
            final(self).wf(),
            r is Err ==> final(self).same_as(old(self)),
            !payload.valid() ==> r is Err && r->Err_0 is Validation,
            payload.valid() && !old(self).owns_category(user, category_id) ==> r == Err::<
                BudgetCategory,
                PaymeError,
            >(PaymeError::NotFound),
            payload.valid() && old(self).owns_category(user, category_id) ==> r is Ok,
            r is Ok ==> exists|k: int|
                0 <= k < old(self).categories@.len() && (#[trigger] old(self).categories@[k]).id == category_id
                    && old(self).categories@[k].user_id == user && r->Ok_0 == payload.applied(
                    old(self).categories@[k],
                ) && final(self).categories@ == old(self).categories@.update(k, r->Ok_0),
            r is Ok ==> final(self).same_but_categories(old(self)) && final(self).next_id == old(self).next_id,
    {
        payload.validate()?;
        let k = match self.find_owned_category(user, category_id) {
            Some(k) => k,
            None => {
                return Err(PaymeError::NotFound);
            },
        };
        let updated = payload.apply_to(self.categories[k].copy());
        self.categories.set(k, updated.copy());
        Ok(updated)
    }

    /// Removes a category template of `user`; the allocations and items that
    /// refer to it stay. One that `user` does not own is `NotFound`.
    pub fn delete_category(&mut self, user: i64, category_id: i64) -> (r: Result<(), PaymeError>)
        requires
            old(self).wf(),
        ensures
            final(self).wf(),
            !old(self).owns_category(user, category_id) ==> r == Err::<(), PaymeError>(PaymeError::NotFound) && final(self).same_as(old(self)),
            old(self).owns_category(user, category_id) ==> r is Ok && exists|k: int|
                0 <= k < old(self).categories@.len() && (#[trigger] old(self).categories@[k]).id == category_id
                    && old(self).categories@[k].user_id == user && final(self).categories@
                    == old(self).categories@.remove(k),
            final(self).same_but_categories(old(self)) && final(self).next_id == old(self).next_id,
    {
        match self.find_owned_category(user, category_id) {
            Some(k) => {
                self.categories.remove(k);
                Ok(())
            },
            None => Err(PaymeError::NotFound),
        }
    }

    /// The fixed expenses of `user`, in stored order.
    pub fn list_fixed_expenses(&self, user: i64) -> (r: Vec<FixedExpense>)
        ensures
            r@ == fixed_in(self.fixed_expenses@, user),
    {
        let mut out: Vec<FixedExpense> = Vec::new();
        let mut i: usize = 0;
        while i < self.fixed_expenses.len()
            invariant
                i <= self.fixed_expenses@.len(),
                out@ == fixed_in(self.fixed_expenses@.subrange(0, i as int), user),
            decreases self.fixed_expenses.len() - i,
        {
            proof {
                reveal(Seq::filter);
            }
            assert(self.fixed_expenses@.subrange(0, i + 1).drop_last() =~= self.fixed_expenses@.subrange(
                0,
                i as int,
            ));
            if self.fixed_expenses[i].user_id == user {
                out.push(self.fixed_expenses[i].copy());
            }
            i = i + 1;
        }
        assert(self.fixed_expenses@.subrange(0, i as int) =~= self.fixed_expenses@);
        out
    }

    /// Adds a fixed expense of `user`; it counts into every month of `user`.
    pub fn create_fixed_expense(&mut self, user: i64, payload: CreateFixedExpense) -> (r: Result<
        FixedExpense,
        PaymeError,
    >)
        requires
            old(self).wf(),
        ensures
            final(self).wf(),
            r is Err ==> final(self).same_as(old(self)),
            !payload.valid() ==> r is Err && r->Err_0 is Validation,
            payload.valid() && old(self).next_id == i64::MAX ==> r is Err && r->Err_0.is_internal(),
            payload.valid() && old(self).next_id < i64::MAX ==> r is Ok,
            r is Ok ==> r->Ok_0 == (FixedExpense {
                id: old(self).next_id,
                user_id: user,
                label: payload.label,
                amount: payload.amount,
            }) && final(self).fixed_expenses@ == old(self).fixed_expenses@.push(r->Ok_0)
                && final(self).same_but_fixed(old(self)) && final(self).next_id == old(self).next_id + 1,
    {
        payload.validate()?;
        if self.next_id == i64::MAX {
            return Err(PaymeError::Internal(String::from_str("record ids exhausted")));
        }
        let expense = FixedExpense { id: self.next_id, user_id: user, label: payload.label, amount: payload.amount };
        self.fixed_expenses.push(expense.copy());
        self.next_id = self.next_id + 1;
        Ok(expense)
    }

    /// Changes the given fields of a fixed expense of `user`; every month's
    /// totals follow, closed months included.
    pub fn update_fixed_expense(&mut self, user: i64, expense_id: i64, payload: UpdateFixedExpense) -> (r:
        Result<FixedExpense, PaymeError>)
        requires
            old(self).wf(),
        ensures
            final(self).wf(),
            r is Err ==> final(self).same_as(old(self)),
            !payload.valid() ==> r is Err && r->Err_0 is Validation,
            payload.valid() && !old(self).owns_fixed(user, expense_id) ==> r == Err::<FixedExpense, PaymeError>(
                PaymeError::NotFound,
            ),
            payload.valid() && old(self).owns_fixed(user, expense_id) ==> r is Ok,
            r is Ok ==> exists|k: int|
                0 <= k < old(self).fixed_expenses@.len() && (#[trigger] old(self).fixed_expenses@[k]).id == expense_id
                    && old(self).fixed_expenses@[k].user_id == user && r->Ok_0 == payload.applied(
                    old(self).fixed_expenses@[k],
                ) && final(self).fixed_expenses@ == old(self).fixed_expenses@.update(k, r->Ok_0),
            r is Ok ==> final(self).same_but_fixed(old(self)) && final(self).next_id == old(self).next_id,
    {
        payload.validate()?;
        let k = match self.find_owned_fixed(user, expense_id) {
            Some(k) => k,
            None => {
                return Err(PaymeError::NotFound);
            },
        };
        let updated = payload.apply_to(self.fixed_expenses[k].copy());
        self.fixed_expenses.set(k, updated.copy());
        Ok(updated)
    }

    /// Removes a fixed expense of `user`. One that `user` does not own is
    /// `NotFound`.
    pub fn delete_fixed_expense(&mut self, user: i64, expense_id: i64) -> (r: Result<(), PaymeError>)
        requires
            old(self).wf(),
        ensures
            final(self).wf(),
            !old(self).owns_fixed(user, expense_id) ==> r == Err::<(), PaymeError>(PaymeError::NotFound) && final(self).same_as(old(self)),
            old(self).owns_fixed(user, expense_id) ==> r is Ok && exists|k: int|
                0 <= k < old(self).fixed_expenses@.len() && (#[trigger] old(self).fixed_expenses@[k]).id == expense_id
                    && old(self).fixed_expenses@[k].user_id == user && final(self).fixed_expenses@
                    == old(self).fixed_expenses@.remove(k),
            final(self).same_but_fixed(old(self)) && final(self).next_id == old(self).next_id,
    {
        match self.find_owned_fixed(user, expense_id) {
            Some(k) => {
                self.fixed_expenses.remove(k);
                Ok(())
            },
            None => Err(PaymeError::NotFound),
        }
    }

    /// The months of `user`, in stored order.
    pub fn list_months(&self, user: i64) -> (r: Vec<Month>)
        ensures
            r@ == months_in(self.months@, user),
    {
        let mut out: Vec<Month> = Vec::new();
        let mut i: usize = 0;
        while i < self.months.len()
            invariant
                i <= self.months@.len(),
                out@ == months_in(self.months@.subrange(0, i as int), user),
            decreases self.months.len() - i,
        {
            proof {
                reveal(Seq::filter);
            }
            assert(self.months@.subrange(0, i + 1).drop_last() =~= self.months@.subrange(0, i as int));
            if self.months[i].user_id == user {
                out.push(self.months[i]);
            }
            i = i + 1;
        }
        assert(self.months@.subrange(0, i as int) =~= self.months@);
        out
    }
}

} // verus!
