use payme::error::PaymeError;
use payme::ledger::Ledger;
use payme::model::{BudgetCategory, Date, MonthSummary};
use payme::payload::{
    CreateCategory, CreateFixedExpense, CreateIncome, CreateItem, UpdateCategory, UpdateFixedExpense,
    UpdateIncome, UpdateItem, UpdateMonthlyBudget,
};

const ALICE: i64 = 1;
const BOB: i64 = 2;

fn render(s: &MonthSummary) -> Result<Vec<u8>, String> {
    Ok(format!("report {} {}", s.month.id, s.total_spent).into_bytes())
}

fn category(label: &str, amount: i64) -> CreateCategory {
    CreateCategory { label: label.to_string(), default_amount: amount }
}

fn item(category_id: i64, amount: i64) -> CreateItem {
    CreateItem {
        category_id,
        description: "groceries run".to_string(),
        amount,
        spent_on: Date { year: 2024, month: 3, day: 14 },
    }
}

fn closed_error() -> PaymeError {
    PaymeError::BadRequest("Month is closed".to_string())
}

#[test]
fn groceries_scenario() {
    let mut l = Ledger::new();
    let groceries = l.create_category(ALICE, category("Groceries", 30000)).unwrap();
    let s = l.open_month(ALICE, 2024, 3).unwrap();
    assert_eq!(s.budgets.len(), 1);
    assert_eq!(s.budgets[0].category_id, groceries.id);
    assert_eq!(s.budgets[0].allocated_amount, 30000);
    assert_eq!(s.budgets[0].category_label, Some("Groceries".to_string()));
    let month_id = s.month.id;

    l.create_item(ALICE, month_id, item(groceries.id, 4550)).unwrap();
    let s = l.get_month(ALICE, month_id).unwrap();
    assert_eq!(s.budgets[0].spent_amount, 4550);
    assert_eq!(s.total_spent, 4550);

    let closed = l.close_month(ALICE, month_id, render).unwrap();
    assert!(closed.is_closed);
    assert!(closed.closed_at.unwrap() > 1_600_000_000);
    assert_eq!(l.snapshots.len(), 1);
    assert_eq!(l.get_month_pdf(ALICE, month_id).unwrap(), format!("report {} 4550", month_id).into_bytes());
    assert_eq!(l.create_item(ALICE, month_id, item(groceries.id, 100)), Err(closed_error()));
}

#[test]
fn closed_month_refuses_every_change_but_reads() {
    let mut l = Ledger::new();
    let c = l.create_category(ALICE, category("Fun", 1000)).unwrap();
    let month_id = l.open_month(ALICE, 2024, 1).unwrap().month.id;
    let income = l.create_income(ALICE, month_id, CreateIncome { label: "pay".to_string(), amount: 900 }).unwrap();
    let it = l.create_item(ALICE, month_id, item(c.id, 50)).unwrap();
    let budget_id = l.list_monthly_budgets(ALICE, month_id).unwrap()[0].id;
    l.close_month(ALICE, month_id, render).unwrap();

    let income_before = l.income.clone();
    let items_before = l.items.clone();
    let budgets_before = l.budgets.clone();
    assert_eq!(l.create_income(ALICE, month_id, CreateIncome { label: "x".to_string(), amount: 1 }), Err(closed_error()));
    assert_eq!(
        l.update_income(ALICE, month_id, income.id, UpdateIncome { label: None, amount: Some(5) }),
        Err(closed_error())
    );
    assert_eq!(l.delete_income(ALICE, month_id, income.id), Err(closed_error()));
    assert_eq!(l.create_item(ALICE, month_id, item(c.id, 1)), Err(closed_error()));
    let upd = UpdateItem { category_id: None, description: None, amount: Some(2), spent_on: None };
    assert_eq!(l.update_item(ALICE, month_id, it.id, upd), Err(closed_error()));
    assert_eq!(l.delete_item(ALICE, month_id, it.id), Err(closed_error()));
    assert_eq!(
        l.update_monthly_budget(ALICE, month_id, budget_id, UpdateMonthlyBudget { allocated_amount: 3 }),
        Err(closed_error())
    );
    // an invalid payload on a closed month is refused as closed too
    assert_eq!(l.create_income(ALICE, month_id, CreateIncome { label: String::new(), amount: -1 }), Err(closed_error()));
    assert_eq!(l.income, income_before);
    assert_eq!(l.items, items_before);
    assert_eq!(l.budgets, budgets_before);

    assert_eq!(l.get_month(ALICE, month_id).unwrap().total_income, 900);
    assert_eq!(l.list_income(ALICE, month_id).unwrap().len(), 1);
    assert_eq!(l.list_items(ALICE, month_id).unwrap().len(), 1);
}

#[test]
fn new_category_reaches_every_open_month_once() {
    let mut l = Ledger::new();
    let m1 = l.open_month(ALICE, 2024, 1).unwrap().month.id;
    let m2 = l.open_month(ALICE, 2024, 2).unwrap().month.id;
    let m3 = l.open_month(ALICE, 2024, 3).unwrap().month.id;
    l.open_month(BOB, 2024, 1).unwrap();
    l.close_month(ALICE, m2, render).unwrap();
    let before = l.budgets.len();
    let c = l.create_category(ALICE, category("Books", 2000)).unwrap();
    assert_eq!(l.budgets.len(), before + 2);
    let rows: Vec<_> = l.budgets[before..].to_vec();
    assert_eq!(rows[0].month_id, m1);
    assert_eq!(rows[1].month_id, m3);
    assert!(rows.iter().all(|b| b.category_id == c.id && b.allocated_amount == 2000));
    // doing it again for a pair already present changes nothing
    assert_eq!(l.add_allocation_if_absent(m1, c.id, 999), Ok(false));
    assert_eq!(l.budgets.len(), before + 2);
    // a closed month takes no new allocation, a missing one is not found
    assert_eq!(l.add_allocation_if_absent(m2, c.id, 999), Err(closed_error()));
    assert_eq!(l.add_allocation_if_absent(987654, c.id, 999), Err(PaymeError::NotFound));
    assert_eq!(l.budgets.len(), before + 2);
    // a category of another user is refused
    let golf = l.create_category(BOB, category("Golf", 5)).unwrap();
    let n = l.budgets.len();
    assert_eq!(n, before + 3);
    assert_eq!(
        l.add_allocation_if_absent(m3, golf.id, 999),
        Err(PaymeError::BadRequest("Invalid category".to_string()))
    );
    // a template stored without its allocations gets one when asked
    let id = l.next_id;
    l.categories.push(BudgetCategory { id, user_id: ALICE, label: "Late".to_string(), default_amount: 1 });
    l.next_id += 1;
    assert_eq!(l.add_allocation_if_absent(m3, id, 999), Ok(true));
    assert_eq!(l.budgets.len(), n + 1);
    assert_eq!(l.budgets[n].month_id, m3);
    assert_eq!(l.budgets[n].category_id, id);
    assert_eq!(l.budgets[n].allocated_amount, 999);
    assert_eq!(l.add_allocation_if_absent(m3, id, 5), Ok(false));
    assert_eq!(l.budgets.len(), n + 1);
}

#[test]
fn new_category_without_open_months_adds_no_rows() {
    let mut l = Ledger::new();
    let m = l.open_month(ALICE, 2024, 1).unwrap().month.id;
    l.close_month(ALICE, m, render).unwrap();
    l.create_category(ALICE, category("Books", 2000)).unwrap();
    assert_eq!(l.budgets.len(), 0);
    assert_eq!(l.categories.len(), 1);
}

#[test]
fn opening_a_month_copies_templates_once() {
    let mut l = Ledger::new();
    l.create_category(ALICE, category("Rent", 100000)).unwrap();
    l.create_category(ALICE, category("Food", 40000)).unwrap();
    l.create_category(BOB, category("Golf", 5000)).unwrap();
    let s = l.open_month(ALICE, 2024, 7).unwrap();
    assert_eq!(s.budgets.len(), 2);
    assert_eq!(s.total_budgeted, 140000);
    let again = l.open_month(ALICE, 2024, 7).unwrap();
    assert_eq!(again.month.id, s.month.id);
    assert_eq!(l.months.len(), 1);
    assert_eq!(l.budgets.len(), 2);
}

#[test]
fn current_month_is_a_real_calendar_month() {
    let mut l = Ledger::new();
    let s = l.get_or_create_current_month(ALICE).unwrap();
    assert!(s.month.month >= 1 && s.month.month <= 12);
    assert!(s.month.year >= 2024);
    let again = l.get_or_create_current_month(ALICE).unwrap();
    assert_eq!(again.month.id, s.month.id);
}

#[test]
fn close_is_terminal() {
    let mut l = Ledger::new();
    let m = l.open_month(ALICE, 2024, 4).unwrap().month.id;
    assert!(l.close_month(ALICE, m, render).is_ok());
    assert_eq!(
        l.close_month(ALICE, m, render),
        Err(PaymeError::BadRequest("Month is already closed".to_string()))
    );
    assert_eq!(l.snapshots.len(), 1);
    assert!(l.months[0].is_closed);
}

#[test]
fn failed_rendering_leaves_the_month_open() {
    let mut l = Ledger::new();
    let m = l.open_month(ALICE, 2024, 4).unwrap().month.id;
    let failing = |_: &MonthSummary| -> Result<Vec<u8>, String> { Err("no fonts".to_string()) };
    assert_eq!(l.close_month(ALICE, m, failing), Err(PaymeError::Internal("no fonts".to_string())));
    assert!(!l.months[0].is_closed);
    assert!(l.snapshots.is_empty());
    assert_eq!(l.get_month_pdf(ALICE, m), Err(PaymeError::NotFound));
}

#[test]
fn other_users_records_are_not_found() {
    let mut l = Ledger::new();
    let c = l.create_category(ALICE, category("Food", 100)).unwrap();
    let f = l.create_fixed_expense(ALICE, CreateFixedExpense { label: "rent".to_string(), amount: 5000 }).unwrap();
    let m = l.open_month(ALICE, 2024, 8).unwrap().month.id;
    assert_eq!(l.get_month(BOB, m).unwrap_err(), PaymeError::NotFound);
    assert_eq!(l.verify_month_access(BOB, m), Err(PaymeError::NotFound));
    assert_eq!(l.list_income(BOB, m).unwrap_err(), PaymeError::NotFound);
    assert_eq!(l.create_income(BOB, m, CreateIncome { label: "x".to_string(), amount: 1 }).unwrap_err(), PaymeError::NotFound);
    assert_eq!(l.close_month(BOB, m, render).unwrap_err(), PaymeError::NotFound);
    assert_eq!(l.get_month_pdf(BOB, m).unwrap_err(), PaymeError::NotFound);
    let upd = UpdateCategory { label: Some("Mine".to_string()), default_amount: None };
    assert_eq!(l.update_category(BOB, c.id, upd).unwrap_err(), PaymeError::NotFound);
    assert_eq!(l.delete_category(BOB, c.id), Err(PaymeError::NotFound));
    let upd = UpdateFixedExpense { label: None, amount: Some(1) };
    assert_eq!(l.update_fixed_expense(BOB, f.id, upd).unwrap_err(), PaymeError::NotFound);
    assert_eq!(l.delete_fixed_expense(BOB, f.id), Err(PaymeError::NotFound));
    assert!(l.list_categories(BOB).is_empty());
    assert!(l.list_fixed_expenses(BOB).is_empty());
    assert!(l.list_months(BOB).is_empty());
    assert_eq!(l.categories[0].label, "Food");
    assert_eq!(l.fixed_expenses[0].amount, 5000);
    // a category of another user cannot be spent against
    let bob_cat = l.create_category(BOB, category("Golf", 1)).unwrap();
    assert_eq!(
        l.create_item(ALICE, m, item(bob_cat.id, 10)),
        Err(PaymeError::BadRequest("Invalid category".to_string()))
    );
}

#[test]
fn fixed_expenses_count_into_every_month() {
    let mut l = Ledger::new();
    let m1 = l.open_month(ALICE, 2024, 1).unwrap().month.id;
    let m2 = l.open_month(ALICE, 2024, 2).unwrap().month.id;
    l.close_month(ALICE, m1, render).unwrap();
    let f = l.create_fixed_expense(ALICE, CreateFixedExpense { label: "rent".to_string(), amount: 5000 }).unwrap();
    l.create_income(ALICE, m2, CreateIncome { label: "pay".to_string(), amount: 8000 }).unwrap();
    assert_eq!(l.get_month(ALICE, m1).unwrap().remaining, -5000);
    assert_eq!(l.get_month(ALICE, m2).unwrap().remaining, 3000);
    l.update_fixed_expense(ALICE, f.id, UpdateFixedExpense { label: None, amount: Some(6000) }).unwrap();
    assert_eq!(l.get_month(ALICE, m1).unwrap().total_fixed, 6000);
    assert_eq!(l.get_month(ALICE, m2).unwrap().remaining, 2000);
    assert_eq!(l.list_fixed_expenses(ALICE)[0].amount, 6000);
    assert_eq!(l.delete_fixed_expense(ALICE, f.id), Ok(()));
    assert_eq!(l.get_month(ALICE, m2).unwrap().remaining, 8000);
}

#[test]
fn open_month_entries_can_change() {
    let mut l = Ledger::new();
    let food = l.create_category(ALICE, category("Food", 100)).unwrap();
    let fun = l.create_category(ALICE, category("Fun", 100)).unwrap();
    let m = l.open_month(ALICE, 2024, 9).unwrap().month.id;
    let inc = l.create_income(ALICE, m, CreateIncome { label: "pay".to_string(), amount: 1000 }).unwrap();
    let upd = UpdateIncome { label: None, amount: Some(1200) };
    assert_eq!(l.update_income(ALICE, m, inc.id, upd).unwrap().amount, 1200);
    let it = l.create_item(ALICE, m, item(food.id, 300)).unwrap();
    let upd = UpdateItem { category_id: Some(fun.id), description: None, amount: None, spent_on: None };
    let moved = l.update_item(ALICE, m, it.id, upd).unwrap();
    assert_eq!(moved.category_id, fun.id);
    let s = l.get_month(ALICE, m).unwrap();
    assert_eq!(s.budgets[0].spent_amount, 0);
    assert_eq!(s.budgets[1].spent_amount, 300);
    assert_eq!(s.remaining, 900);
    let bid = s.budgets[0].id;
    let b = l.update_monthly_budget(ALICE, m, bid, UpdateMonthlyBudget { allocated_amount: 777 }).unwrap();
    assert_eq!(b.allocated_amount, 777);
    assert_eq!(
        l.update_monthly_budget(ALICE, m, 424242, UpdateMonthlyBudget { allocated_amount: 1 }),
        Err(PaymeError::NotFound)
    );
    assert_eq!(
        l.update_income(ALICE, m, 424242, UpdateIncome { label: None, amount: None }),
        Err(PaymeError::NotFound)
    );
    assert_eq!(l.delete_item(ALICE, m, it.id), Ok(()));
    assert_eq!(l.delete_income(ALICE, m, inc.id), Ok(()));
    let s = l.get_month(ALICE, m).unwrap();
    assert_eq!(s.total_spent, 0);
    assert_eq!(s.total_income, 0);
    assert_eq!(s.remaining, 0);
}

#[test]
fn deleted_category_keeps_its_allocations_and_spend() {
    let mut l = Ledger::new();
    let c = l.create_category(ALICE, category("Old", 500)).unwrap();
    let m = l.open_month(ALICE, 2024, 10).unwrap().month.id;
    l.create_item(ALICE, m, item(c.id, 120)).unwrap();
    assert_eq!(l.delete_category(ALICE, c.id), Ok(()));
    let s = l.get_month(ALICE, m).unwrap();
    assert_eq!(s.budgets.len(), 1);
    assert_eq!(s.budgets[0].category_label, None);
    assert_eq!(s.budgets[0].spent_amount, 120);
    assert_eq!(s.items[0].category_label, None);
    assert_eq!(s.total_spent, 120);
    let upd = UpdateCategory { label: Some("New".to_string()), default_amount: None };
    assert_eq!(l.update_category(ALICE, c.id, upd), Err(PaymeError::NotFound));
}

#[test]
fn items_are_listed_newest_first() {
    let mut l = Ledger::new();
    let c = l.create_category(ALICE, category("Food", 100)).unwrap();
    let m = l.open_month(ALICE, 2024, 3).unwrap().month.id;
    let on = |day: u32, amount: i64| CreateItem {
        category_id: c.id,
        description: format!("day {}", day),
        amount,
        spent_on: Date { year: 2024, month: 3, day },
    };
    l.create_item(ALICE, m, on(5, 1)).unwrap();
    l.create_item(ALICE, m, on(20, 2)).unwrap();
    l.create_item(ALICE, m, on(5, 3)).unwrap();
    l.create_item(ALICE, m, on(11, 4)).unwrap();
    let listed = l.list_items(ALICE, m).unwrap();
    let amounts: Vec<i64> = listed.iter().map(|i| i.amount).collect();
    assert_eq!(amounts, vec![2, 4, 1, 3]);
    let s = l.get_month(ALICE, m).unwrap();
    let amounts: Vec<i64> = s.items.iter().map(|i| i.amount).collect();
    assert_eq!(amounts, vec![2, 4, 1, 3]);
    assert_eq!(s.budgets[0].spent_amount, 10);
}
