use payme::error::PaymeError;
use payme::guard::{access_guard, close_guard, closed, open_month_guard};
use payme::model::{BudgetCategory, Date, IncomeEntry, Item, Month};
use payme::payload::{
    AuthRequest, CreateCategory, CreateFixedExpense, CreateIncome, CreateItem, HealthResponse,
    UpdateCategory, UpdateIncome, UpdateItem, UpdateMonthlyBudget, UpdateRetirementSavings,
    UpdateSavings,
};

fn field(e: PaymeError) -> String {
    match e {
        PaymeError::Validation(f) => f,
        other => panic!("expected a validation error, got {:?}", other),
    }
}

#[test]
fn category_label_length_is_checked() {
    let ok = CreateCategory { label: "Groceries".to_string(), default_amount: 30000 };
    assert!(ok.validate().is_ok());
    let empty = CreateCategory { label: String::new(), default_amount: 0 };
    assert_eq!(field(empty.validate().unwrap_err()), "label");
    let long = CreateCategory { label: "x".repeat(101), default_amount: 0 };
    assert_eq!(field(long.validate().unwrap_err()), "label");
    let max = CreateCategory { label: "é".repeat(100), default_amount: 0 };
    assert!(max.validate().is_ok());
    let negative = CreateCategory { label: "a".to_string(), default_amount: -1 };
    assert_eq!(field(negative.validate().unwrap_err()), "default_amount");
}

#[test]
fn partial_updates_are_checked_only_where_given() {
    assert!(UpdateCategory { label: None, default_amount: None }.validate().is_ok());
    let bad = UpdateCategory { label: Some(String::new()), default_amount: None };
    assert_eq!(field(bad.validate().unwrap_err()), "label");
    let bad = UpdateIncome { label: None, amount: Some(-5) };
    assert_eq!(field(bad.validate().unwrap_err()), "amount");
    let bad = UpdateItem { category_id: None, description: Some("d".repeat(201)), amount: None, spent_on: None };
    assert_eq!(field(bad.validate().unwrap_err()), "description");
    let bad = UpdateMonthlyBudget { allocated_amount: -1 };
    assert_eq!(field(bad.validate().unwrap_err()), "allocated_amount");
}

#[test]
fn other_payloads_are_checked() {
    assert!(CreateIncome { label: "pay".to_string(), amount: 0 }.validate().is_ok());
    let bad = CreateIncome { label: "pay".to_string(), amount: -1 };
    assert_eq!(field(bad.validate().unwrap_err()), "amount");
    let item = CreateItem {
        category_id: 1,
        description: String::new(),
        amount: 5,
        spent_on: Date { year: 2024, month: 1, day: 1 },
    };
    assert_eq!(field(item.validate().unwrap_err()), "description");
    let bad = CreateFixedExpense { label: "rent".to_string(), amount: -3 };
    assert_eq!(field(bad.validate().unwrap_err()), "amount");
    assert_eq!(field(UpdateSavings { savings: -1 }.validate().unwrap_err()), "savings");
    assert!(UpdateSavings { savings: 0 }.validate().is_ok());
    let bad = UpdateRetirementSavings { retirement_savings: -1 };
    assert_eq!(field(bad.validate().unwrap_err()), "retirement_savings");
}

#[test]
fn credentials_are_checked() {
    let ok = AuthRequest { username: "bob".to_string(), password: "secret".to_string() };
    assert!(ok.validate().is_ok());
    let short = AuthRequest { username: "bo".to_string(), password: "secret".to_string() };
    assert_eq!(field(short.validate().unwrap_err()), "username");
    let weak = AuthRequest { username: "bob".to_string(), password: "12345".to_string() };
    assert_eq!(field(weak.validate().unwrap_err()), "password");
    let long = AuthRequest { username: "b".repeat(33), password: "secret".to_string() };
    assert_eq!(field(long.validate().unwrap_err()), "username");
}

#[test]
fn updates_replace_only_given_fields() {
    let c = BudgetCategory { id: 1, user_id: 2, label: "Food".to_string(), default_amount: 10 };
    let u = UpdateCategory { label: None, default_amount: Some(20) }.apply_to(c);
    assert_eq!(u.label, "Food");
    assert_eq!(u.default_amount, 20);
    let e = IncomeEntry { id: 1, month_id: 2, label: "pay".to_string(), amount: 10 };
    let u = UpdateIncome { label: Some("bonus".to_string()), amount: None }.apply_to(e);
    assert_eq!(u.label, "bonus");
    assert_eq!(u.amount, 10);
    let i = Item {
        id: 1,
        month_id: 2,
        category_id: 3,
        description: "milk".to_string(),
        amount: 250,
        spent_on: Date { year: 2024, month: 2, day: 2 },
    };
    let u = UpdateItem { category_id: Some(4), description: None, amount: None, spent_on: None }.apply_to(i);
    assert_eq!(u.category_id, 4);
    assert_eq!(u.description, "milk");
    assert_eq!(u.id, 1);
}

#[test]
fn errors_map_to_statuses_and_texts() {
    assert_eq!(PaymeError::Database("x".to_string()).status_code(), 500);
    assert_eq!(PaymeError::Validation("x".to_string()).status_code(), 400);
    assert_eq!(PaymeError::NotFound.status_code(), 404);
    assert_eq!(PaymeError::Unauthorized.status_code(), 401);
    assert_eq!(PaymeError::BadRequest("x".to_string()).status_code(), 400);
    assert_eq!(PaymeError::Internal("x".to_string()).status_code(), 500);
    assert_eq!(PaymeError::month_closed().describe(), "Bad request: Month is closed");
    assert_eq!(PaymeError::NotFound.describe(), "Not found");
    assert_eq!(PaymeError::Internal("boom".to_string()).describe(), "Internal error: boom");
}

#[test]
fn guards_decide_from_lookups() {
    assert_eq!(open_month_guard(None), Err(PaymeError::NotFound));
    assert_eq!(open_month_guard(Some(true)), Err(PaymeError::BadRequest("Month is closed".to_string())));
    assert_eq!(open_month_guard(Some(false)), Ok(()));
    let m = Month { id: 3, user_id: 1, year: 2024, month: 6, is_closed: false, closed_at: None };
    assert_eq!(access_guard(None), Err(PaymeError::NotFound));
    assert_eq!(access_guard(Some(m)), Ok(m));
    assert_eq!(close_guard(Some(m)), Ok(m));
    let c = closed(m, 1_700_000_000);
    assert!(c.is_closed);
    assert_eq!(c.closed_at, Some(1_700_000_000));
    assert_eq!(close_guard(Some(c)), Err(PaymeError::BadRequest("Month is already closed".to_string())));
}

#[test]
fn health_follows_the_probe() {
    let h = HealthResponse::from_probe(true).unwrap();
    assert_eq!(h.status, "healthy");
    assert_eq!(h.database, "connected");
    assert_eq!(HealthResponse::from_probe(false), Err(503));
}

#[test]
fn item_dates_must_be_calendar_days() {
    let mut create = CreateItem {
        category_id: 1,
        description: "milk".to_string(),
        amount: 5,
        spent_on: Date { year: 2023, month: 2, day: 29 },
    };
    assert_eq!(field(create.validate().unwrap_err()), "spent_on");
    create.spent_on = Date { year: 2024, month: 2, day: 29 };
    assert!(create.validate().is_ok());
    create.spent_on = Date { year: 1900, month: 2, day: 29 };
    assert_eq!(field(create.validate().unwrap_err()), "spent_on");
    create.spent_on = Date { year: 2000, month: 2, day: 29 };
    assert!(create.validate().is_ok());
    create.spent_on = Date { year: 2024, month: 4, day: 31 };
    assert_eq!(field(create.validate().unwrap_err()), "spent_on");
    create.spent_on = Date { year: 2024, month: 13, day: 1 };
    assert_eq!(field(create.validate().unwrap_err()), "spent_on");
    let upd = UpdateItem { category_id: None, description: None, amount: None, spent_on: Some(Date { year: 2024, month: 6, day: 0 }) };
    assert_eq!(field(upd.validate().unwrap_err()), "spent_on");
    assert!(Date { year: 2024, month: 12, day: 31 }.is_valid());
}
