//! The record store: its tables, their invariants, the lookups every
//! operation starts from, and the assembly of a month's summary.

use vstd::prelude::*;
use crate::error::PaymeError;
use crate::model::{
    BudgetCategory, FixedExpense, IncomeEntry, Item, ItemWithCategory, Month, MonthSnapshot,
    MonthSummary, MonthlyBudget, MonthlyBudgetWithCategory,
};
use crate::summary::{
    aggregate, budgeted_total, fixed_total, income_total, items_nonneg, lemma_newest_first_keeps,
    newest_first, sort_newest_first, spent_in, spent_total,
};

verus! {

/// The two allocations are for one category within one month.
pub open spec fn same_allocation(a: MonthlyBudget, b: MonthlyBudget) -> bool {
    a.month_id == b.month_id && a.category_id == b.category_id
}

/// The two months belong to one owner and one calendar period.
pub open spec fn same_period(a: Month, b: Month) -> bool {
    a.user_id == b.user_id && a.year == b.year && a.month == b.month
}

/// The category templates of `user`, in stored order.
pub open spec fn categories_in(s: Seq<BudgetCategory>, user: i64) -> Seq<BudgetCategory> {
    s.filter(|c: BudgetCategory| c.user_id == user)
}

/// The income entries of the month, in stored order.
pub open spec fn income_in(s: Seq<IncomeEntry>, month_id: i64) -> Seq<IncomeEntry> {
    s.filter(|e: IncomeEntry| e.month_id == month_id)
}

/// The fixed expenses of `user`, in stored order.
pub open spec fn fixed_in(s: Seq<FixedExpense>, user: i64) -> Seq<FixedExpense> {
    s.filter(|e: FixedExpense| e.user_id == user)
}

/// The allocations of the month, in stored order.
pub open spec fn budgets_in(s: Seq<MonthlyBudget>, month_id: i64) -> Seq<MonthlyBudget> {
    s.filter(|b: MonthlyBudget| b.month_id == month_id)
}

/// The items of the month, in stored order.
pub open spec fn items_in(s: Seq<Item>, month_id: i64) -> Seq<Item> {
    s.filter(|i: Item| i.month_id == month_id)
}

/// The label of the last category in `s` with this id; none if there is none.
pub open spec fn label_in(s: Seq<BudgetCategory>, category_id: i64) -> Option<String>
    decreases s.len(),
{
    if s.len() == 0 {
        None
    } else if s.last().id == category_id {
        Some(s.last().label)
    } else {
        label_in(s.drop_last(), category_id)
    }
}

/// `b` shows allocation `a` with its category's label and what `items` spent against it.
pub open spec fn shows_budget(
    a: MonthlyBudget,
    label: Option<String>,
    items: Seq<ItemWithCategory>,
    b: MonthlyBudgetWithCategory,
) -> bool {
    b == (MonthlyBudgetWithCategory {
        id: a.id,
        month_id: a.month_id,
        category_id: a.category_id,
        category_label: label,
        allocated_amount: a.allocated_amount,
        spent_amount: spent_in(items, a.category_id) as i128,
    })
}

/// Item `i` with its category's label.
pub open spec fn with_label(i: Item, label: Option<String>) -> ItemWithCategory {
    ItemWithCategory {
        id: i.id,
        month_id: i.month_id,
        category_id: i.category_id,
        category_label: label,
        description: i.description,
        amount: i.amount,
        spent_on: i.spent_on,
    }
}

/// The items, each with the label that `cats` give its category.
pub open spec fn labelled(s: Seq<Item>, cats: Seq<BudgetCategory>) -> Seq<ItemWithCategory> {
    s.map_values(|i: Item| with_label(i, label_in(cats, i.category_id)))
}

/// A month that another user owns is out of reach: the caller does not own
/// it, so every operation that names it fails with `NotFound`.
pub proof fn lemma_other_users_month(l: &Ledger, user: i64, k: int)
    requires
        l.wf(),
        0 <= k < l.months@.len(),
        l.months@[k].user_id != user,
    ensures
        !l.owns_month(user, l.months@[k].id),
        !l.owns_closed_month(user, l.months@[k].id),
        !l.owns_open_month(user, l.months@[k].id),
{
    assert forall|j: int|
        0 <= j < l.months@.len() && (#[trigger] l.months@[j]).id == l.months@[k].id implies l.months@[j].user_id
        != user by {
        if j != k {
            assert(l.months@[j].id != l.months@[k].id);
        }
    }
}

/// The whole state of the record store: one table per kind of record, and
/// the next id to hand out (ids are shared by all tables).
pub struct Ledger {
    pub categories: Vec<BudgetCategory>,
    pub fixed_expenses: Vec<FixedExpense>,
    pub months: Vec<Month>,
    pub budgets: Vec<MonthlyBudget>,
    pub income: Vec<IncomeEntry>,
    pub items: Vec<Item>,
    pub snapshots: Vec<MonthSnapshot>,
    pub next_id: i64,
}

impl Ledger {
    /// Every id in use is below `next_id`, and so is every month and
    /// category that an allocation or an item refers to.
    pub open spec fn ids_fresh(&self) -> bool {
        &&& 1 <= self.next_id
        &&& forall|k: int| 0 <= k < self.categories@.len() ==> (#[trigger] self.categories@[k]).id < self.next_id
        &&& forall|k: int| 0 <= k < self.fixed_expenses@.len() ==> (#[trigger] self.fixed_expenses@[k]).id < self.next_id
        &&& forall|k: int| 0 <= k < self.months@.len() ==> (#[trigger] self.months@[k]).id < self.next_id
        &&& forall|k: int|
            0 <= k < self.budgets@.len() ==> (#[trigger] self.budgets@[k]).id < self.next_id
                && self.budgets@[k].category_id < self.next_id && self.budgets@[k].month_id < self.next_id
        &&& forall|k: int| 0 <= k < self.income@.len() ==> (#[trigger] self.income@[k]).id < self.next_id
        &&& forall|k: int|
            0 <= k < self.items@.len() ==> (#[trigger] self.items@[k]).id < self.next_id
                && self.items@[k].category_id < self.next_id && self.items@[k].month_id < self.next_id
    }

    /// No amount is negative.
    pub open spec fn amounts_valid(&self) -> bool {
        &&& forall|k: int| 0 <= k < self.categories@.len() ==> (#[trigger] self.categories@[k]).default_amount >= 0
        &&& forall|k: int| 0 <= k < self.fixed_expenses@.len() ==> (#[trigger] self.fixed_expenses@[k]).amount >= 0
        &&& forall|k: int| 0 <= k < self.budgets@.len() ==> (#[trigger] self.budgets@[k]).allocated_amount >= 0
        &&& forall|k: int| 0 <= k < self.income@.len() ==> (#[trigger] self.income@[k]).amount >= 0
        &&& forall|k: int| 0 <= k < self.items@.len() ==> (#[trigger] self.items@[k]).amount >= 0
    }

    /// No two months share an id, nor an owner and a calendar period.
    pub open spec fn months_unique(&self) -> bool {
        forall|i: int, j: int|
            0 <= i < self.months@.len() && 0 <= j < self.months@.len() && i != j ==> {
                &&& #[trigger] self.months@[i].id != #[trigger] self.months@[j].id
                &&& !same_period(self.months@[i], self.months@[j])
            }
    }

    /// No two category templates share an id.
    pub open spec fn categories_unique(&self) -> bool {
        forall|i: int, j: int|
            0 <= i < self.categories@.len() && 0 <= j < self.categories@.len() && i != j
                ==> #[trigger] self.categories@[i].id != #[trigger] self.categories@[j].id
    }

    /// A month has at most one allocation per category.
    pub open spec fn allocations_unique(&self) -> bool {
        forall|i: int, j: int|
            0 <= i < self.budgets@.len() && 0 <= j < self.budgets@.len() && i != j ==> !same_allocation(
                #[trigger] self.budgets@[i],
                #[trigger] self.budgets@[j],
            )
    }

    /// No allocation and no item of a month refers to a category that
    /// another user owns.
    pub open spec fn references_owned(&self) -> bool {
        &&& forall|b: int, k: int, c: int|
            #![trigger self.budgets@[b], self.months@[k], self.categories@[c]]
            0 <= b < self.budgets@.len() && 0 <= k < self.months@.len() && 0 <= c < self.categories@.len()
                && self.budgets@[b].month_id == self.months@[k].id && self.budgets@[b].category_id
                == self.categories@[c].id ==> self.categories@[c].user_id == self.months@[k].user_id
        &&& forall|t: int, k: int, c: int|
            #![trigger self.items@[t], self.months@[k], self.categories@[c]]
            0 <= t < self.items@.len() && 0 <= k < self.months@.len() && 0 <= c < self.categories@.len()
                && self.items@[t].month_id == self.months@[k].id && self.items@[t].category_id
                == self.categories@[c].id ==> self.categories@[c].user_id == self.months@[k].user_id
    }

    /// A snapshot exists only for a closed month, and at most one per month.
    pub open spec fn snapshots_valid(&self) -> bool {
        &&& forall|k: int|
            0 <= k < self.snapshots@.len() ==> self.month_is_closed(#[trigger] self.snapshots@[k].month_id)
        &&& forall|i: int, j: int|
            0 <= i < self.snapshots@.len() && 0 <= j < self.snapshots@.len() && i != j
                ==> #[trigger] self.snapshots@[i].month_id != #[trigger] self.snapshots@[j].month_id
    }

    /// The invariant of the store, which every operation keeps.
    pub open spec fn wf(&self) -> bool {
        // every fixed expense and item took an id of its own, which bounds
        // the rows that a month's summary adds up
        &&& self.fixed_expenses@.len() + self.items@.len() <= self.next_id
        &&& self.ids_fresh()
        &&& self.amounts_valid()
        &&& self.months_unique()
        &&& self.categories_unique()
        &&& self.allocations_unique()
        &&& self.references_owned()
        &&& self.snapshots_valid()
    }

    /// A month with this id exists.
    pub open spec fn has_month(&self, id: i64) -> bool {
        exists|k: int| 0 <= k < self.months@.len() && (#[trigger] self.months@[k]).id == id
    }

    /// A month with this id exists, and it is open.
    pub open spec fn month_is_open(&self, id: i64) -> bool {
        self.has_month(id) && !self.month_is_closed(id)
    }

    pub open spec fn month_is_closed(&self, id: i64) -> bool {
        exists|k: int| 0 <= k < self.months@.len() && (#[trigger] self.months@[k]).id == id && self.months@[k].is_closed
    }

    /// `user` owns a month with this id.
    pub open spec fn owns_month(&self, user: i64, id: i64) -> bool {
        exists|k: int|
            0 <= k < self.months@.len() && (#[trigger] self.months@[k]).id == id && self.months@[k].user_id == user
    }

    /// `user` owns a month with this id, and it is closed.
    pub open spec fn owns_closed_month(&self, user: i64, id: i64) -> bool {
        exists|k: int|
            0 <= k < self.months@.len() && (#[trigger] self.months@[k]).id == id && self.months@[k].user_id == user
                && self.months@[k].is_closed
    }

    /// `user` owns a month with this id, and it is open.
    pub open spec fn owns_open_month(&self, user: i64, id: i64) -> bool {
        self.owns_month(user, id) && !self.owns_closed_month(user, id)
    }

    /// The same records, but for the allocations and the id counter.
    pub open spec fn same_but_budgets(&self, other: &Ledger) -> bool {
        &&& self.categories@ == other.categories@
        &&& self.fixed_expenses@ == other.fixed_expenses@
        &&& self.months@ == other.months@
        &&& self.income@ == other.income@
        &&& self.items@ == other.items@
        &&& self.snapshots@ == other.snapshots@
    }

    /// The same records and id counter, but for the months and snapshots.
    pub open spec fn same_but_months_and_snapshots(&self, other: &Ledger) -> bool {
        &&& self.categories@ == other.categories@
        &&& self.fixed_expenses@ == other.fixed_expenses@
        &&& self.budgets@ == other.budgets@
        &&& self.income@ == other.income@
        &&& self.items@ == other.items@
        &&& self.next_id == other.next_id
    }

    /// Every record and the id counter are as in `other`.
    pub open spec fn same_as(&self, other: &Ledger) -> bool {
        &&& self.same_but_budgets(other)
        &&& self.budgets@ == other.budgets@
        &&& self.next_id == other.next_id
    }

    pub open spec fn income_of(&self, month_id: i64) -> Seq<IncomeEntry> {
        income_in(self.income@, month_id)
    }

    pub open spec fn fixed_of(&self, user: i64) -> Seq<FixedExpense> {
        fixed_in(self.fixed_expenses@, user)
    }

    pub open spec fn budgets_of(&self, month_id: i64) -> Seq<MonthlyBudget> {
        budgets_in(self.budgets@, month_id)
    }

    pub open spec fn items_of(&self, month_id: i64) -> Seq<Item> {
        items_in(self.items@, month_id)
    }

    pub open spec fn label_of(&self, category_id: i64) -> Option<String> {
        label_in(self.categories@, category_id)
    }

    /// `s` is the summary of month `m` as the store holds it: its income, all
    /// fixed expenses of its owner, its allocations with their labels, its
    /// items with their labels from the latest day to the earliest, each
    /// allocation's spend, and the totals.
    pub open spec fn summarizes(&self, m: Month, s: MonthSummary) -> bool {
        let budgets = self.budgets_of(m.id);
        let items = self.items_of(m.id);
        &&& s.month == m
        &&& s.income_entries@ == self.income_of(m.id)
        &&& s.fixed_expenses@ == self.fixed_of(m.user_id)
        &&& s.items@ == newest_first(labelled(items, self.categories@))
        &&& s.budgets@.len() == budgets.len()
        &&& forall|k: int|
            0 <= k < budgets.len() ==> shows_budget(
                budgets[k],
                self.label_of(budgets[k].category_id),
                s.items@,
                #[trigger] s.budgets@[k],
            )
        &&& s.total_income == income_total(s.income_entries@)
        &&& s.total_fixed == fixed_total(s.fixed_expenses@)
        &&& s.total_budgeted == budgeted_total(s.budgets@)
        &&& s.total_spent == spent_total(s.items@)
        &&& s.remaining == s.total_income - s.total_fixed - s.total_spent
    }

    fn category_label(&self, category_id: i64) -> (r: Option<String>)
        ensures
            r == self.label_of(category_id),
    {
        let mut found: Option<String> = None;
        let mut i: usize = 0;
        while i < self.categories.len()
            invariant
                i <= self.categories@.len(),
                found == label_in(self.categories@.subrange(0, i as int), category_id),
            decreases self.categories.len() - i,
        {
            assert(self.categories@.subrange(0, i + 1).drop_last() =~= self.categories@.subrange(0, i as int));
            if self.categories[i].id == category_id {
                found = Some(self.categories[i].label.clone());
            }
            i = i + 1;
        }
        assert(self.categories@.subrange(0, i as int) =~= self.categories@);
        found
    }

    /// The items of the month with their categories' labels, from the latest
    /// day to the earliest.
    pub fn labelled_items(&self, month_id: i64) -> (r: Vec<ItemWithCategory>)
        requires
            self.wf(),
        ensures
            r@ == newest_first(labelled(self.items_of(month_id), self.categories@)),
            r@.len() <= self.items@.len(),
            items_nonneg(r@),
    {
        let mut items: Vec<ItemWithCategory> = Vec::new();
        let mut i: usize = 0;
        while i < self.items.len()
            invariant
                self.wf(),
                i <= self.items@.len(),
                items@.len() <= i,
                items@ == labelled(items_in(self.items@.subrange(0, i as int), month_id), self.categories@),
                items_nonneg(items@),
            decreases self.items.len() - i,
        {
            let ghost prev = items_in(self.items@.subrange(0, i as int), month_id);
            proof {
                reveal(Seq::filter);
            }
            assert(self.items@.subrange(0, i + 1).drop_last() =~= self.items@.subrange(0, i as int));
            let t = &self.items[i];
            if t.month_id == month_id {
                let label = self.category_label(t.category_id);
                let w = ItemWithCategory {
                    id: t.id,
                    month_id: t.month_id,
                    category_id: t.category_id,
                    category_label: label,
                    description: t.description.clone(),
                    amount: t.amount,
                    spent_on: t.spent_on,
                };
                items.push(w);
                let ghost next = items_in(self.items@.subrange(0, i + 1), month_id);
                assert(next == prev.push(self.items@[i as int]));
                assert(items@ =~= labelled(next, self.categories@));
            }
            i = i + 1;
        }
        assert(self.items@.subrange(0, i as int) =~= self.items@);
        proof {
            lemma_newest_first_keeps(items@);
        }
        sort_newest_first(items)
    }

    /// Assembles the summary of month `m` from the records.
    pub fn month_summary(&self, m: Month) -> (r: MonthSummary)
        requires
            self.wf(),
        ensures
            self.summarizes(m, r),
    {
        let mut income: Vec<IncomeEntry> = Vec::new();
        let mut i: usize = 0;
        while i < self.income.len()
            invariant
                self.wf(),
                i <= self.income@.len(),
                income@ == income_in(self.income@.subrange(0, i as int), m.id),
                forall|k: int| 0 <= k < income@.len() ==> (#[trigger] income@[k]).amount >= 0,
            decreases self.income.len() - i,
        {
            proof {
                reveal(Seq::filter);
            }
            assert(self.income@.subrange(0, i + 1).drop_last() =~= self.income@.subrange(0, i as int));
            if self.income[i].month_id == m.id {
                income.push(self.income[i].copy());
            }
            i = i + 1;
        }
        assert(self.income@.subrange(0, i as int) =~= self.income@);

        let mut fixed: Vec<FixedExpense> = Vec::new();
        let mut i: usize = 0;
        while i < self.fixed_expenses.len()
            invariant
                self.wf(),
                i <= self.fixed_expenses@.len(),
                fixed@.len() <= i,
                fixed@ == fixed_in(self.fixed_expenses@.subrange(0, i as int), m.user_id),
                forall|k: int| 0 <= k < fixed@.len() ==> (#[trigger] fixed@[k]).amount >= 0,
            decreases self.fixed_expenses.len() - i,
        {
            proof {
                reveal(Seq::filter);
            }
            assert(self.fixed_expenses@.subrange(0, i + 1).drop_last() =~= self.fixed_expenses@.subrange(
                0,
                i as int,
            ));
            if self.fixed_expenses[i].user_id == m.user_id {
                fixed.push(self.fixed_expenses[i].copy());
            }
            i = i + 1;
        }
        assert(self.fixed_expenses@.subrange(0, i as int) =~= self.fixed_expenses@);

        let items = self.labelled_items(m.id);

        let ghost month_budgets = self.budgets_of(m.id);
        let mut budgets: Vec<MonthlyBudgetWithCategory> = Vec::new();
        let mut i: usize = 0;
        while i < self.budgets.len()
            invariant
                self.wf(),
                fixed@.len() <= self.fixed_expenses@.len(),
                items@.len() <= self.items@.len(),
                i <= self.budgets@.len(),
                budgets@.len() == budgets_in(self.budgets@.subrange(0, i as int), m.id).len(),
                forall|k: int|
                    0 <= k < budgets@.len() ==> {
                        let a = budgets_in(self.budgets@.subrange(0, i as int), m.id)[k];
                        let b = #[trigger] budgets@[k];
                        &&& b.id == a.id
                        &&& b.month_id == a.month_id
                        &&& b.category_id == a.category_id
                        &&& b.category_label == self.label_of(a.category_id)
                        &&& b.allocated_amount == a.allocated_amount
                    },
                forall|k: int| 0 <= k < budgets@.len() ==> (#[trigger] budgets@[k]).allocated_amount >= 0,
            decreases self.budgets.len() - i,
        {
            let ghost prev = budgets_in(self.budgets@.subrange(0, i as int), m.id);
            proof {
                reveal(Seq::filter);
            }
            assert(self.budgets@.subrange(0, i + 1).drop_last() =~= self.budgets@.subrange(0, i as int));
            let a = self.budgets[i];
            if a.month_id == m.id {
                let label = self.category_label(a.category_id);
                budgets.push(
                    MonthlyBudgetWithCategory {
                        id: a.id,
                        month_id: a.month_id,
                        category_id: a.category_id,
                        category_label: label,
                        allocated_amount: a.allocated_amount,
                        spent_amount: 0,
                    },
                );
                let ghost next = budgets_in(self.budgets@.subrange(0, i + 1), m.id);
                assert(next == prev.push(a));
                assert forall|k: int| 0 <= k < budgets@.len() implies {
                    let a = next[k];
                    let b = #[trigger] budgets@[k];
                    &&& b.id == a.id
                    &&& b.month_id == a.month_id
                    &&& b.category_id == a.category_id
                    &&& b.category_label == self.label_of(a.category_id)
                    &&& b.allocated_amount == a.allocated_amount
                } by {
                    if k < prev.len() {
                        assert(next[k] == prev[k]);
                    }
                }
            }
            i = i + 1;
        }
        assert(self.budgets@.subrange(0, i as int) =~= self.budgets@);
        let ghost shown_items = items@;
        let r = aggregate(m, income, fixed, budgets, items);
        assert forall|k: int| 0 <= k < month_budgets.len() implies shows_budget(
            month_budgets[k],
            self.label_of(month_budgets[k].category_id),
            r.items@,
            #[trigger] r.budgets@[k],
        ) by {
            assert(crate::summary::with_spend(budgets@[k], shown_items, r.budgets@[k]));
        }
        r
    }

    /// An empty store.
    pub fn new() -> (r: Ledger)
        ensures
            r.wf(),
            r.categories@.len() == 0,
            r.fixed_expenses@.len() == 0,
            r.months@.len() == 0,
            r.budgets@.len() == 0,
            r.income@.len() == 0,
            r.items@.len() == 0,
            r.snapshots@.len() == 0,
            r.next_id == 1,
    {
        Ledger {
            categories: Vec::new(),
            fixed_expenses: Vec::new(),
            months: Vec::new(),
            budgets: Vec::new(),
            income: Vec::new(),
            items: Vec::new(),
            snapshots: Vec::new(),
            next_id: 1,
        }
    }

    /// The position of the month with this id.
    pub(crate) fn find_month(&self, id: i64) -> (r: Option<usize>)
        ensures
            r is Some ==> r->Some_0 < self.months@.len() && self.months@[r->Some_0 as int].id == id,
            r is None ==> forall|k: int| 0 <= k < self.months@.len() ==> (#[trigger] self.months@[k]).id != id,
    {
        let mut i: usize = 0;
        while i < self.months.len()
            invariant
                i <= self.months@.len(),
                forall|k: int| 0 <= k < i ==> (#[trigger] self.months@[k]).id != id,
            decreases self.months.len() - i,
        {
            if self.months[i].id == id {
                return Some(i);
            }
            i = i + 1;
        }
        None
    }

    /// The position of the month with this id, where `user` owns it.
    pub(crate) fn find_owned_month(&self, user: i64, id: i64) -> (r: Option<usize>)
        requires
            self.months_unique(),
        ensures
            r is Some <==> self.owns_month(user, id),
            r is Some ==> r->Some_0 < self.months@.len() && self.months@[r->Some_0 as int].id == id
                && self.months@[r->Some_0 as int].user_id == user,
    {
        match self.find_month(id) {
            Some(k) => {
                if self.months[k].user_id == user {
                    Some(k)
                } else {
                    proof {
                        assert forall|j: int| 0 <= j < self.months@.len() && #[trigger] self.months@[j].id == id
                            implies self.months@[j].user_id != user by {
                            if j != k {
                                assert(self.months@[j].id != self.months@[k as int].id);
                            }
                        }
                    }
                    None
                }
            },
            None => None,
        }
    }

    /// The month with this id, where `user` owns it.
    pub fn lookup_month(&self, user: i64, id: i64) -> (r: Option<Month>)
        requires
            self.wf(),
        ensures
            r is Some <==> self.owns_month(user, id),
            r is Some ==> self.months@.contains(r->Some_0) && r->Some_0.id == id && r->Some_0.user_id == user,
    {
        match self.find_owned_month(user, id) {
            Some(k) => Some(self.months[k]),
            None => None,
        }
    }

    /// Fails with `NotFound` unless `user` owns the month.
    pub fn verify_month_access(&self, user: i64, month_id: i64) -> (r: Result<(), PaymeError>)
        requires
            self.wf(),
        ensures
            r is Ok <==> self.owns_month(user, month_id),
            r is Err ==> r == Err::<(), PaymeError>(PaymeError::NotFound),
    {
        match self.find_owned_month(user, month_id) {
            Some(_) => Ok(()),
            None => Err(PaymeError::NotFound),
        }
    }

    /// Fails with `NotFound` unless `user` owns the month, and with the
    /// closed-month error if it is closed.
    pub fn verify_month_not_closed(&self, user: i64, month_id: i64) -> (r: Result<(), PaymeError>)
        requires
            self.wf(),
        ensures
            r is Ok <==> self.owns_open_month(user, month_id),
            !self.owns_month(user, month_id) ==> r == Err::<(), PaymeError>(PaymeError::NotFound),
            self.owns_closed_month(user, month_id) ==> r is Err && r->Err_0.is_bad_request(
                crate::error::closed_message(),
            ),
    {
        let lookup = match self.find_owned_month(user, month_id) {
            Some(k) => {
                proof {
                    if !self.months@[k as int].is_closed {
                        assert forall|j: int|
                            0 <= j < self.months@.len() && #[trigger] self.months@[j].id == month_id
                                && self.months@[j].user_id == user implies !self.months@[j].is_closed by {
                            if j != k {
                                assert(self.months@[j].id != self.months@[k as int].id);
                            }
                        }
                    }
                }
                Some(self.months[k].is_closed)
            },
            None => None,
        };
        crate::guard::open_month_guard(lookup)
    }
}

} // verus!
