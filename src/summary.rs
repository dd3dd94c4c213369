//! The month aggregator: per-category spend and the month's totals.

use vstd::prelude::*;
use crate::model::{
    Date, FixedExpense, IncomeEntry, ItemWithCategory, Month, MonthSummary, MonthlyBudgetWithCategory,
};

verus! {

/// Largest amount a single record can carry, as an integer.
pub open spec fn amount_max() -> int {
    i64::MAX as int
}

pub open spec fn income_total(s: Seq<IncomeEntry>) -> int
    decreases s.len(),
{
    if s.len() == 0 {
        0
    } else {
        income_total(s.drop_last()) + s.last().amount
    }
}

pub open spec fn fixed_total(s: Seq<FixedExpense>) -> int
    decreases s.len(),
{
    if s.len() == 0 {
        0
    } else {
        fixed_total(s.drop_last()) + s.last().amount
    }
}

pub open spec fn budgeted_total(s: Seq<MonthlyBudgetWithCategory>) -> int
    decreases s.len(),
{
    if s.len() == 0 {
        0
    } else {
        budgeted_total(s.drop_last()) + s.last().allocated_amount
    }
}

/// The sum of all item amounts.
pub open spec fn spent_total(s: Seq<ItemWithCategory>) -> int
    decreases s.len(),
{
    if s.len() == 0 {
        0
    } else {
        spent_total(s.drop_last()) + s.last().amount
    }
}

/// The sum of the amounts of the items whose category is `category_id`.
pub open spec fn spent_in(s: Seq<ItemWithCategory>, category_id: i64) -> int
    decreases s.len(),
{
    if s.len() == 0 {
        0
    } else {
        spent_in(s.drop_last(), category_id) + if s.last().category_id == category_id {
            s.last().amount as int
        } else {
            0
        }
    }
}

pub open spec fn income_nonneg(s: Seq<IncomeEntry>) -> bool {
    forall|k: int| 0 <= k < s.len() ==> s[k].amount >= 0
}

pub open spec fn fixed_nonneg(s: Seq<FixedExpense>) -> bool {
    forall|k: int| 0 <= k < s.len() ==> s[k].amount >= 0
}

pub open spec fn budgets_nonneg(s: Seq<MonthlyBudgetWithCategory>) -> bool {
    forall|k: int| 0 <= k < s.len() ==> s[k].allocated_amount >= 0
}

pub open spec fn items_nonneg(s: Seq<ItemWithCategory>) -> bool {
    forall|k: int| 0 <= k < s.len() ==> s[k].amount >= 0
}

/// `b` is `a` with its spend replaced by what `items` record against its category.
pub open spec fn with_spend(
    a: MonthlyBudgetWithCategory,
    items: Seq<ItemWithCategory>,
    b: MonthlyBudgetWithCategory,
) -> bool {
    &&& b.id == a.id
    &&& b.month_id == a.month_id
    &&& b.category_id == a.category_id
    &&& b.category_label == a.category_label
    &&& b.allocated_amount == a.allocated_amount
    &&& b.spent_amount == spent_in(items, a.category_id)
}

pub fn total_income(s: &Vec<IncomeEntry>) -> (r: i128)
    requires
        income_nonneg(s@),
    ensures
        r == income_total(s@),
        0 <= r <= s@.len() * amount_max(),
{
    let mut acc: i128 = 0;
    let mut i: usize = 0;
    while i < s.len()
        invariant
            i <= s.len(),
            income_nonneg(s@),
            acc == income_total(s@.subrange(0, i as int)),
            0 <= acc <= i * amount_max(),
        decreases s.len() - i,
    {
        assert(s@.subrange(0, i + 1).drop_last() =~= s@.subrange(0, i as int));
        acc = acc + s[i].amount as i128;
        i = i + 1;
    }
    assert(s@.subrange(0, i as int) =~= s@);
    acc
}

pub fn total_fixed(s: &Vec<FixedExpense>) -> (r: i128)
    requires
        fixed_nonneg(s@),
    ensures
        r == fixed_total(s@),
        0 <= r <= s@.len() * amount_max(),
{
    let mut acc: i128 = 0;
    let mut i: usize = 0;
    while i < s.len()
        invariant
            i <= s.len(),
            fixed_nonneg(s@),
            acc == fixed_total(s@.subrange(0, i as int)),
            0 <= acc <= i * amount_max(),
        decreases s.len() - i,
    {
        assert(s@.subrange(0, i + 1).drop_last() =~= s@.subrange(0, i as int));
        acc = acc + s[i].amount as i128;
        i = i + 1;
    }
    assert(s@.subrange(0, i as int) =~= s@);
    acc
}

pub fn total_budgeted(s: &Vec<MonthlyBudgetWithCategory>) -> (r: i128)
    requires
        budgets_nonneg(s@),
    ensures
        r == budgeted_total(s@),
        0 <= r <= s@.len() * amount_max(),
{
    let mut acc: i128 = 0;
    let mut i: usize = 0;
    while i < s.len()
        invariant
            i <= s.len(),
            budgets_nonneg(s@),
            acc == budgeted_total(s@.subrange(0, i as int)),
            0 <= acc <= i * amount_max(),
        decreases s.len() - i,
    {
        assert(s@.subrange(0, i + 1).drop_last() =~= s@.subrange(0, i as int));
        acc = acc + s[i].allocated_amount as i128;
        i = i + 1;
    }
    assert(s@.subrange(0, i as int) =~= s@);
    acc
}

pub fn total_spent(s: &Vec<ItemWithCategory>) -> (r: i128)
    requires
        items_nonneg(s@),
    ensures
        r == spent_total(s@),
        0 <= r <= s@.len() * amount_max(),
{
    let mut acc: i128 = 0;
    let mut i: usize = 0;
    while i < s.len()
        invariant
            i <= s.len(),
            items_nonneg(s@),
            acc == spent_total(s@.subrange(0, i as int)),
            0 <= acc <= i * amount_max(),
        decreases s.len() - i,
    {
        assert(s@.subrange(0, i + 1).drop_last() =~= s@.subrange(0, i as int));
        acc = acc + s[i].amount as i128;
        i = i + 1;
    }
    assert(s@.subrange(0, i as int) =~= s@);
    acc
}

/// What the items record against one category.
pub fn spent_for_category(items: &Vec<ItemWithCategory>, category_id: i64) -> (r: i128)
    requires
        items_nonneg(items@),
    ensures
        r == spent_in(items@, category_id),
        0 <= r <= items@.len() * amount_max(),
{
    let mut acc: i128 = 0;
    let mut i: usize = 0;
    while i < items.len()
        invariant
            i <= items.len(),
            items_nonneg(items@),
            acc == spent_in(items@.subrange(0, i as int), category_id),
            0 <= acc <= i * amount_max(),
        decreases items.len() - i,
    {
        assert(items@.subrange(0, i + 1).drop_last() =~= items@.subrange(0, i as int));
        if items[i].category_id == category_id {
            acc = acc + items[i].amount as i128;
        }
        i = i + 1;
    }
    assert(items@.subrange(0, i as int) =~= items@);
    acc
}

/// Assembles a month's summary from its rows. Each allocation's spend is
/// recomputed from the items (whatever spend it came with is replaced), and
/// the totals are exact sums; `remaining` is income less fixed expenses less
/// everything spent, whether or not an item's category has an allocation.
/// The rows must number no more than any record store can hold.
pub fn aggregate(
    month: Month,
    income_entries: Vec<IncomeEntry>,
    fixed_expenses: Vec<FixedExpense>,
    budgets: Vec<MonthlyBudgetWithCategory>,
    items: Vec<ItemWithCategory>,
) -> (r: MonthSummary)
    requires
        income_nonneg(income_entries@),
        fixed_nonneg(fixed_expenses@),
        budgets_nonneg(budgets@),
        items_nonneg(items@),
        fixed_expenses@.len() + items@.len() <= i64::MAX,
    ensures
        r.month == month,
        r.income_entries@ == income_entries@,
        r.fixed_expenses@ == fixed_expenses@,
        r.items@ == items@,
        r.budgets@.len() == budgets@.len(),
        forall|k: int| 0 <= k < budgets@.len() ==> with_spend(budgets@[k], items@, #[trigger] r.budgets@[k]),
        r.total_income == income_total(income_entries@),
        r.total_fixed == fixed_total(fixed_expenses@),
        r.total_budgeted == budgeted_total(r.budgets@),
        r.total_spent == spent_total(items@),
        r.remaining == r.total_income - r.total_fixed - r.total_spent,
{
    let ghost given = budgets@;
    let mut budgets = budgets;
    let mut k: usize = 0;
    while k < budgets.len()
        invariant
            k <= budgets@.len(),
            budgets@.len() == given.len(),
            items_nonneg(items@),
            forall|j: int| 0 <= j < k ==> with_spend(given[j], items@, #[trigger] budgets@[j]),
            forall|j: int| k <= j < budgets@.len() ==> #[trigger] budgets@[j] == given[j],
        decreases budgets.len() - k,
    {
        let spent = spent_for_category(&items, budgets[k].category_id);
        budgets[k].spent_amount = spent;
        k = k + 1;
    }
    assert forall|j: int| 0 <= j < budgets@.len() implies (#[trigger] budgets@[j]).allocated_amount >= 0 by {
        if j < k {
            assert(with_spend(given[j], items@, budgets@[j]));
        }
    }
    let total_budgeted = total_budgeted(&budgets);
    let total_income = total_income(&income_entries);
    let total_fixed = total_fixed(&fixed_expenses);
    let total_spent = total_spent(&items);
    let remaining = total_income - total_fixed - total_spent;
    MonthSummary {
        month,
        income_entries,
        fixed_expenses,
        budgets,
        items,
        total_income,
        total_fixed,
        total_budgeted,
        total_spent,
        remaining,
    }
}

/// `a` is a later day than `b`.
pub open spec fn later(a: Date, b: Date) -> bool {
    a.year > b.year || (a.year == b.year && (a.month > b.month || (a.month == b.month && a.day > b.day)))
}

/// `s` with `x` placed right after the last entry whose day is not earlier than `x`'s.
pub open spec fn insert_by_date(s: Seq<ItemWithCategory>, x: ItemWithCategory) -> Seq<ItemWithCategory>
    decreases s.len(),
{
    if s.len() == 0 {
        seq![x]
    } else if later(x.spent_on, s.last().spent_on) {
        insert_by_date(s.drop_last(), x).push(s.last())
    } else {
        s.push(x)
    }
}

/// `s` ordered from the latest day to the earliest; items of one day keep
/// their order.
pub open spec fn newest_first(s: Seq<ItemWithCategory>) -> Seq<ItemWithCategory>
    decreases s.len(),
{
    if s.len() == 0 {
        s
    } else {
        insert_by_date(newest_first(s.drop_last()), s.last())
    }
}

proof fn lemma_insert_at(s: Seq<ItemWithCategory>, x: ItemWithCategory, p: int)
    requires
        0 <= p <= s.len(),
        forall|j: int| p <= j < s.len() ==> later(x.spent_on, (#[trigger] s[j]).spent_on),
        p > 0 ==> !later(x.spent_on, s[p - 1].spent_on),
    ensures
        insert_by_date(s, x) == s.insert(p, x),
    decreases s.len(),
{
    if s.len() == p {
        assert(s.push(x) =~= s.insert(p, x));
    } else {
        let t = s.drop_last();
        assert forall|j: int| p <= j < t.len() implies later(x.spent_on, (#[trigger] t[j]).spent_on) by {
            assert(t[j] == s[j]);
        }
        lemma_insert_at(t, x, p);
        assert(t.insert(p, x).push(s.last()) =~= s.insert(p, x));
    }
}

proof fn lemma_insert_keeps(s: Seq<ItemWithCategory>, x: ItemWithCategory)
    ensures
        insert_by_date(s, x).len() == s.len() + 1,
        items_nonneg(s) && x.amount >= 0 ==> items_nonneg(insert_by_date(s, x)),
    decreases s.len(),
{
    if s.len() > 0 && later(x.spent_on, s.last().spent_on) {
        lemma_insert_keeps(s.drop_last(), x);
        if items_nonneg(s) && x.amount >= 0 {
            let r = insert_by_date(s, x);
            let t = insert_by_date(s.drop_last(), x);
            assert(items_nonneg(s.drop_last()));
            assert forall|k: int| 0 <= k < r.len() implies r[k].amount >= 0 by {
                if k < t.len() {
                    assert(r[k] == t[k]);
                }
            }
        }
    }
}

/// Ordering by day keeps the items and their number.
pub proof fn lemma_newest_first_keeps(s: Seq<ItemWithCategory>)
    ensures
        newest_first(s).len() == s.len(),
        items_nonneg(s) ==> items_nonneg(newest_first(s)),
    decreases s.len(),
{
    if s.len() > 0 {
        lemma_newest_first_keeps(s.drop_last());
        lemma_insert_keeps(newest_first(s.drop_last()), s.last());
        if items_nonneg(s) {
            assert(items_nonneg(s.drop_last()));
        }
    }
}

/// The items from the latest day to the earliest, items of one day in their
/// given order.
pub fn sort_newest_first(items: Vec<ItemWithCategory>) -> (r: Vec<ItemWithCategory>)
    ensures
        r@ == newest_first(items@),
{
    let ghost given = items@;
    assert(given.len() == items.len());
    let mut rest = items;
    let mut out: Vec<ItemWithCategory> = Vec::new();
    let mut i: usize = 0;
    while rest.len() > 0
        invariant
            i <= given.len() <= usize::MAX,
            rest@ == given.subrange(i as int, given.len() as int),
            out@ == newest_first(given.subrange(0, i as int)),
        decreases rest.len(),
    {
        let x = rest.remove(0);
        assert(x == given[i as int]);
        let mut p: usize = out.len();
        while p > 0 && later_day(x.spent_on, out[p - 1].spent_on)
            invariant
                p <= out@.len(),
                forall|j: int| p <= j < out@.len() ==> later(x.spent_on, (#[trigger] out@[j]).spent_on),
            decreases p,
        {
            p = p - 1;
        }
        proof {
            lemma_insert_at(out@, x, p as int);
            assert(given.subrange(0, i + 1).drop_last() =~= given.subrange(0, i as int));
        }
        out.insert(p, x);
        i = i + 1;
        assert(rest@ =~= given.subrange(i as int, given.len() as int));
    }
    assert(given.subrange(0, i as int) =~= given);
    out
}

pub fn later_day(a: Date, b: Date) -> (r: bool)
    ensures
        r == later(a, b),
{
    a.year > b.year || (a.year == b.year && (a.month > b.month || (a.month == b.month && a.day > b.day)))
}

} // verus!
