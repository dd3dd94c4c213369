use payme::model::{
    Date, FixedExpense, IncomeEntry, ItemWithCategory, Month, MonthlyBudgetWithCategory,
};
use payme::summary::{aggregate, sort_newest_first, spent_for_category, total_income};

fn month() -> Month {
    Month { id: 1, user_id: 7, year: 2024, month: 5, is_closed: false, closed_at: None }
}

fn item(id: i64, category_id: i64, amount: i64) -> ItemWithCategory {
    ItemWithCategory {
        id,
        month_id: 1,
        category_id,
        category_label: Some("c".to_string()),
        description: "thing".to_string(),
        amount,
        spent_on: Date { year: 2024, month: 5, day: 3 },
    }
}

fn budget(id: i64, category_id: i64, allocated: i64) -> MonthlyBudgetWithCategory {
    MonthlyBudgetWithCategory {
        id,
        month_id: 1,
        category_id,
        category_label: None,
        allocated_amount: allocated,
        spent_amount: 999,
    }
}

#[test]
fn empty_month_has_zero_remaining() {
    let s = aggregate(month(), vec![], vec![], vec![], vec![]);
    assert_eq!(s.total_income, 0);
    assert_eq!(s.total_fixed, 0);
    assert_eq!(s.total_budgeted, 0);
    assert_eq!(s.total_spent, 0);
    assert_eq!(s.remaining, 0);
    assert!(s.budgets.is_empty());
}

#[test]
fn spend_is_summed_per_category() {
    let items = vec![item(10, 2, 4550), item(11, 3, 100), item(12, 2, 50)];
    let budgets = vec![budget(20, 2, 30000), budget(21, 3, 500), budget(22, 4, 700)];
    let s = aggregate(month(), vec![], vec![], budgets, items);
    assert_eq!(s.budgets[0].spent_amount, 4600);
    assert_eq!(s.budgets[1].spent_amount, 100);
    assert_eq!(s.budgets[2].spent_amount, 0);
    assert_eq!(s.budgets[0].allocated_amount, 30000);
    assert_eq!(s.total_budgeted, 31200);
    assert_eq!(s.total_spent, 4700);
}

#[test]
fn remaining_is_income_less_fixed_less_spent() {
    let income = vec![
        IncomeEntry { id: 1, month_id: 1, label: "pay".to_string(), amount: 500000 },
        IncomeEntry { id: 2, month_id: 1, label: "gift".to_string(), amount: 2500 },
    ];
    let fixed = vec![FixedExpense { id: 3, user_id: 7, label: "rent".to_string(), amount: 150000 }];
    let items = vec![item(10, 2, 4550), item(11, 9, 1000)];
    let s = aggregate(month(), income, fixed, vec![budget(20, 2, 30000)], items);
    assert_eq!(s.total_income, 502500);
    assert_eq!(s.total_fixed, 150000);
    assert_eq!(s.total_spent, 5550);
    assert_eq!(s.remaining, 502500 - 150000 - 5550);
    assert_eq!(s.budgets[0].spent_amount, 4550);
}

#[test]
fn remaining_can_go_negative() {
    let fixed = vec![FixedExpense { id: 3, user_id: 7, label: "rent".to_string(), amount: 1000 }];
    let s = aggregate(month(), vec![], fixed, vec![], vec![item(1, 1, 250)]);
    assert_eq!(s.remaining, -1250);
}

#[test]
fn large_amounts_do_not_overflow() {
    let items = vec![item(1, 1, i64::MAX), item(2, 1, i64::MAX)];
    let s = aggregate(month(), vec![], vec![], vec![budget(3, 1, i64::MAX)], items);
    assert_eq!(s.total_spent, 2 * (i64::MAX as i128));
    assert_eq!(s.budgets[0].spent_amount, 2 * (i64::MAX as i128));
    assert_eq!(s.remaining, -2 * (i64::MAX as i128));
}

#[test]
fn single_category_spend_and_income_total() {
    let items = vec![item(1, 5, 10), item(2, 6, 20), item(3, 5, 30)];
    assert_eq!(spent_for_category(&items, 5), 40);
    assert_eq!(spent_for_category(&items, 7), 0);
    let income = vec![IncomeEntry { id: 1, month_id: 1, label: "a".to_string(), amount: 12 }];
    assert_eq!(total_income(&income), 12);
}

#[test]
fn sorting_puts_later_days_first_and_keeps_ties() {
    let mut a = item(1, 1, 10);
    a.spent_on = Date { year: 2023, month: 12, day: 31 };
    let mut b = item(2, 1, 20);
    b.spent_on = Date { year: 2024, month: 1, day: 1 };
    let mut c = item(3, 1, 30);
    c.spent_on = Date { year: 2023, month: 12, day: 31 };
    let sorted = sort_newest_first(vec![a, b, c]);
    let ids: Vec<i64> = sorted.iter().map(|i| i.id).collect();
    assert_eq!(ids, vec![2, 1, 3]);
    assert!(sort_newest_first(vec![]).is_empty());
}
