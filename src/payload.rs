//! What clients send, with the rules each request must meet.

use vstd::prelude::*;
use vstd::string::StrSliceExecFns;
use crate::error::PaymeError;
use crate::model::{BudgetCategory, Date, FixedExpense, IncomeEntry, Item};

verus! {

/// `s` has between `min` and `max` characters.
pub open spec fn length_within(s: Seq<char>, min: nat, max: nat) -> bool {
    min <= s.len() <= max
}

pub open spec fn optional_length_within(s: Option<String>, min: nat, max: nat) -> bool {
    match s {
        Some(t) => length_within(t@, min, max),
        None => true,
    }
}

pub open spec fn optional_nonneg(a: Option<i64>) -> bool {
    match a {
        Some(x) => x >= 0,
        None => true,
    }
}

/// Checks the number of characters of `s`, failing on `field`.
pub fn check_length(s: &String, min: usize, max: usize, field: &str) -> (r: Result<(), PaymeError>)
    ensures
        r is Ok <==> length_within(s@, min as nat, max as nat),
        r is Err ==> r->Err_0.is_validation(field@),
{
    let n = s.as_str().unicode_len();
    if min <= n && n <= max {
        Ok(())
    } else {
        Err(PaymeError::validation(field))
    }
}

pub fn check_optional_length(s: &Option<String>, min: usize, max: usize, field: &str) -> (r: Result<
    (),
    PaymeError,
>)
    ensures
        r is Ok <==> optional_length_within(*s, min as nat, max as nat),
        r is Err ==> r->Err_0.is_validation(field@),
{
    match s {
        Some(t) => check_length(t, min, max, field),
        None => Ok(()),
    }
}

/// Checks that an amount is not negative, failing on `field`.
pub fn check_nonneg(a: i64, field: &str) -> (r: Result<(), PaymeError>)
    ensures
        r is Ok <==> a >= 0,
        r is Err ==> r->Err_0.is_validation(field@),
{
    if a >= 0 {
        Ok(())
    } else {
        Err(PaymeError::validation(field))
    }
}

pub fn check_optional_nonneg(a: Option<i64>, field: &str) -> (r: Result<(), PaymeError>)
    ensures
        r is Ok <==> optional_nonneg(a),
        r is Err ==> r->Err_0.is_validation(field@),
{
    match a {
        Some(x) => check_nonneg(x, field),
        None => Ok(()),
    }
}

pub open spec fn optional_date(d: Option<Date>) -> bool {
    match d {
        Some(x) => x.valid(),
        None => true,
    }
}

/// Checks that a date names a day of the calendar, failing on `field`.
pub fn check_date(d: Date, field: &str) -> (r: Result<(), PaymeError>)
    ensures
        r is Ok <==> d.valid(),
        r is Err ==> r->Err_0.is_validation(field@),
{
    if d.is_valid() {
        Ok(())
    } else {
        Err(PaymeError::validation(field))
    }
}

/// Credentials sent to register or log in.
#[derive(Debug, Clone, PartialEq, Eq)]
pub struct AuthRequest {
    pub username: String,
    pub password: String,
}

impl AuthRequest {
    pub open spec fn valid(&self) -> bool {
        length_within(self.username@, 3, 32) && length_within(self.password@, 6, 128)
    }

    pub fn validate(&self) -> (r: Result<(), PaymeError>)
        ensures
            r is Ok <==> self.valid(),
            r is Err ==> if !length_within(self.username@, 3, 32) {
                r->Err_0.is_validation("username"@)
            } else {
                r->Err_0.is_validation("password"@)
            },
    {
        check_length(&self.username, 3, 32, "username")?;
        check_length(&self.password, 6, 128, "password")
    }
}

/// The identity of a registered or logged-in user.
#[derive(Debug, Clone, PartialEq, Eq)]
pub struct AuthResponse {
    pub id: i64,
    pub username: String,
}

/// The answer of the health probe.
#[derive(Debug, Clone, Copy, PartialEq, Eq)]
pub struct HealthResponse {
    pub status: &'static str,
    pub database: &'static str,
}

impl HealthResponse {
    /// Healthy when the record store answered the probe; otherwise the
    /// service is unavailable (status 503).
    pub fn from_probe(connected: bool) -> (r: Result<HealthResponse, u16>)
        ensures
            connected ==> r is Ok && r->Ok_0.status@ == "healthy"@ && r->Ok_0.database@ == "connected"@,
            !connected ==> r == Err::<HealthResponse, u16>(503),
    {
        if connected {
            Ok(HealthResponse { status: "healthy", database: "connected" })
        } else {
            Err(503)
        }
    }
}

#[derive(Debug, Clone, PartialEq, Eq)]
pub struct CreateCategory {
    pub label: String,
    pub default_amount: i64,
}

impl CreateCategory {
    pub open spec fn valid(&self) -> bool {
        length_within(self.label@, 1, 100) && self.default_amount >= 0
    }

    pub fn validate(&self) -> (r: Result<(), PaymeError>)
        ensures
            r is Ok <==> self.valid(),
            r is Err ==> if !length_within(self.label@, 1, 100) {
                r->Err_0.is_validation("label"@)
            } else {
                r->Err_0.is_validation("default_amount"@)
            },
    {
        check_length(&self.label, 1, 100, "label")?;
        check_nonneg(self.default_amount, "default_amount")
    }
}

#[derive(Debug, Clone, PartialEq, Eq)]
pub struct UpdateCategory {
    pub label: Option<String>,
    pub default_amount: Option<i64>,
}

impl UpdateCategory {
    pub open spec fn valid(&self) -> bool {
        optional_length_within(self.label, 1, 100) && optional_nonneg(self.default_amount)
    }

    pub fn validate(&self) -> (r: Result<(), PaymeError>)
        ensures
            r is Ok <==> self.valid(),
            r is Err ==> if !optional_length_within(self.label, 1, 100) {
                r->Err_0.is_validation("label"@)
            } else {
                r->Err_0.is_validation("default_amount"@)
            },
    {
        check_optional_length(&self.label, 1, 100, "label")?;
        check_optional_nonneg(self.default_amount, "default_amount")
    }

    /// The category with each given field replaced.
    pub open spec fn applied(self, existing: BudgetCategory) -> BudgetCategory {
        BudgetCategory {
            id: existing.id,
            user_id: existing.user_id,
            label: match self.label {
                Some(l) => l,
                None => existing.label,
            },
            default_amount: match self.default_amount {
                Some(a) => a,
                None => existing.default_amount,
            },
        }
    }

    pub fn apply_to(self, existing: BudgetCategory) -> (r: BudgetCategory)
        ensures
            r == self.applied(existing),
    {
        let label = match self.label {
            Some(l) => l,
            None => existing.label,
        };
        let default_amount = match self.default_amount {
            Some(a) => a,
            None => existing.default_amount,
        };
        BudgetCategory { id: existing.id, user_id: existing.user_id, label, default_amount }
    }
}

#[derive(Debug, Clone, Copy, PartialEq, Eq)]
pub struct UpdateMonthlyBudget {
    pub allocated_amount: i64,
}

impl UpdateMonthlyBudget {
    pub open spec fn valid(&self) -> bool {
        self.allocated_amount >= 0
    }

    pub fn validate(&self) -> (r: Result<(), PaymeError>)
        ensures
            r is Ok <==> self.valid(),
            r is Err ==> r->Err_0.is_validation("allocated_amount"@),
    {
        check_nonneg(self.allocated_amount, "allocated_amount")
    }
}

#[derive(Debug, Clone, PartialEq, Eq)]
pub struct CreateFixedExpense {
    pub label: String,
    pub amount: i64,
}

impl CreateFixedExpense {
    pub open spec fn valid(&self) -> bool {
        self.amount >= 0
    }

    pub fn validate(&self) -> (r: Result<(), PaymeError>)
        ensures
            r is Ok <==> self.valid(),
            r is Err ==> r->Err_0.is_validation("amount"@),
    {
        check_nonneg(self.amount, "amount")
    }
}

#[derive(Debug, Clone, PartialEq, Eq)]
pub struct UpdateFixedExpense {
    pub label: Option<String>,
    pub amount: Option<i64>,
}

impl UpdateFixedExpense {
    pub open spec fn valid(&self) -> bool {
        optional_nonneg(self.amount)
    }

    pub fn validate(&self) -> (r: Result<(), PaymeError>)
        ensures
            r is Ok <==> self.valid(),
            r is Err ==> r->Err_0.is_validation("amount"@),
    {
        check_optional_nonneg(self.amount, "amount")
    }

    /// The expense with each given field replaced.
    pub open spec fn applied(self, existing: FixedExpense) -> FixedExpense {
        FixedExpense {
            id: existing.id,
            user_id: existing.user_id,
            label: match self.label {
                Some(l) => l,
                None => existing.label,
            },
            amount: match self.amount {
                Some(a) => a,
                None => existing.amount,
            },
        }
    }

    pub fn apply_to(self, existing: FixedExpense) -> (r: FixedExpense)
        ensures
            r == self.applied(existing),
    {
        let label = match self.label {
            Some(l) => l,
            None => existing.label,
        };
        let amount = match self.amount {
            Some(a) => a,
            None => existing.amount,
        };
        FixedExpense { id: existing.id, user_id: existing.user_id, label, amount }
    }
}

#[derive(Debug, Clone, PartialEq, Eq)]
pub struct CreateIncome {
    pub label: String,
    pub amount: i64,
}

impl CreateIncome {
    pub open spec fn valid(&self) -> bool {
        length_within(self.label@, 1, 100) && self.amount >= 0
    }

    pub fn validate(&self) -> (r: Result<(), PaymeError>)
        ensures
            r is Ok <==> self.valid(),
            r is Err ==> if !length_within(self.label@, 1, 100) {
                r->Err_0.is_validation("label"@)
            } else {
                r->Err_0.is_validation("amount"@)
            },
    {
        check_length(&self.label, 1, 100, "label")?;
        check_nonneg(self.amount, "amount")
    }
}

#[derive(Debug, Clone, PartialEq, Eq)]
pub struct UpdateIncome {
    pub label: Option<String>,
    pub amount: Option<i64>,
}

impl UpdateIncome {
    pub open spec fn valid(&self) -> bool {
        optional_length_within(self.label, 1, 100) && optional_nonneg(self.amount)
    }

    pub fn validate(&self) -> (r: Result<(), PaymeError>)
        ensures
            r is Ok <==> self.valid(),
            r is Err ==> if !optional_length_within(self.label, 1, 100) {
                r->Err_0.is_validation("label"@)
            } else {
                r->Err_0.is_validation("amount"@)
            },
    {
        check_optional_length(&self.label, 1, 100, "label")?;
        check_optional_nonneg(self.amount, "amount")
    }

    /// The entry with each given field replaced.
    pub open spec fn applied(self, existing: IncomeEntry) -> IncomeEntry {
        IncomeEntry {
            id: existing.id,
            month_id: existing.month_id,
            label: match self.label {
                Some(l) => l,
                None => existing.label,
            },
            amount: match self.amount {
                Some(a) => a,
                None => existing.amount,
            },
        }
    }

    pub fn apply_to(self, existing: IncomeEntry) -> (r: IncomeEntry)
        ensures
            r == self.applied(existing),
    {
        let label = match self.label {
            Some(l) => l,
            None => existing.label,
        };
        let amount = match self.amount {
            Some(a) => a,
            None => existing.amount,
        };
        IncomeEntry { id: existing.id, month_id: existing.month_id, label, amount }
    }
}

#[derive(Debug, Clone, PartialEq, Eq)]
pub struct CreateItem {
    pub category_id: i64,
    pub description: String,
    pub amount: i64,
    pub spent_on: Date,
}

impl CreateItem {
    pub open spec fn valid(&self) -> bool {
        length_within(self.description@, 1, 200) && self.amount >= 0 && self.spent_on.valid()
    }

    pub fn validate(&self) -> (r: Result<(), PaymeError>)
        ensures
            r is Ok <==> self.valid(),
            r is Err ==> if !length_within(self.description@, 1, 200) {
                r->Err_0.is_validation("description"@)
            } else if self.amount < 0 {
                r->Err_0.is_validation("amount"@)
            } else {
                r->Err_0.is_validation("spent_on"@)
            },
    {
        check_length(&self.description, 1, 200, "description")?;
        check_nonneg(self.amount, "amount")?;
        check_date(self.spent_on, "spent_on")
    }
}

#[derive(Debug, Clone, PartialEq, Eq)]
pub struct UpdateItem {
    pub category_id: Option<i64>,
    pub description: Option<String>,
    pub amount: Option<i64>,
    pub spent_on: Option<Date>,
}

impl UpdateItem {
    pub open spec fn valid(&self) -> bool {
        optional_length_within(self.description, 1, 200) && optional_nonneg(self.amount) && optional_date(
            self.spent_on,
        )
    }

    pub fn validate(&self) -> (r: Result<(), PaymeError>)
        ensures
            r is Ok <==> self.valid(),
            r is Err ==> if !optional_length_within(self.description, 1, 200) {
                r->Err_0.is_validation("description"@)
            } else if !optional_nonneg(self.amount) {
                r->Err_0.is_validation("amount"@)
            } else {
                r->Err_0.is_validation("spent_on"@)
            },
    {
        check_optional_length(&self.description, 1, 200, "description")?;
        check_optional_nonneg(self.amount, "amount")?;
        match self.spent_on {
            Some(d) => check_date(d, "spent_on"),
            None => Ok(()),
        }
    }

    /// The item with each given field replaced.
    pub open spec fn applied(self, existing: Item) -> Item {
        Item {
            id: existing.id,
            month_id: existing.month_id,
            category_id: match self.category_id {
                Some(c) => c,
                None => existing.category_id,
            },
            description: match self.description {
                Some(d) => d,
                None => existing.description,
            },
            amount: match self.amount {
                Some(a) => a,
                None => existing.amount,
            },
            spent_on: match self.spent_on {
                Some(d) => d,
                None => existing.spent_on,
            },
        }
    }

    pub fn apply_to(self, existing: Item) -> (r: Item)
        ensures
            r == self.applied(existing),
    {
        let category_id = match self.category_id {
            Some(c) => c,
            None => existing.category_id,
        };
        let description = match self.description {
            Some(d) => d,
            None => existing.description,
        };
        let amount = match self.amount {
            Some(a) => a,
            None => existing.amount,
        };
        let spent_on = match self.spent_on {
            Some(d) => d,
            None => existing.spent_on,
        };
        Item { id: existing.id, month_id: existing.month_id, category_id, description, amount, spent_on }
    }
}

#[derive(Debug, Clone, Copy, PartialEq, Eq)]
pub struct SavingsResponse {
    pub savings: i64,
}

#[derive(Debug, Clone, Copy, PartialEq, Eq)]
pub struct UpdateSavings {
    pub savings: i64,
}

impl UpdateSavings {
    pub fn validate(&self) -> (r: Result<(), PaymeError>)
        ensures
            r is Ok <==> self.savings >= 0,
            r is Err ==> r->Err_0.is_validation("savings"@),
    {
        check_nonneg(self.savings, "savings")
    }
}

#[derive(Debug, Clone, Copy, PartialEq, Eq)]
pub struct RetirementSavingsResponse {
    pub retirement_savings: i64,
}

#[derive(Debug, Clone, Copy, PartialEq, Eq)]
pub struct UpdateRetirementSavings {
    pub retirement_savings: i64,
}

impl UpdateRetirementSavings {
    pub fn validate(&self) -> (r: Result<(), PaymeError>)
        ensures
            r is Ok <==> self.retirement_savings >= 0,
            r is Err ==> r->Err_0.is_validation("retirement_savings"@),
    {
        check_nonneg(self.retirement_savings, "retirement_savings")
    }
}

} // verus!
