//! The records of a user's budget. Amounts are whole cents.

use vstd::prelude::*;

verus! {

/// A calendar day, as year, month (1..=12) and day of the month.
#[derive(Debug, Clone, Copy, PartialEq, Eq, Structural)]
pub struct Date {
    pub year: i32,
    pub month: u32,
    pub day: u32,
}

pub open spec fn is_leap_year(year: int) -> bool {
    (year % 4 == 0 && year % 100 != 0) || year % 400 == 0
}

/// The number of days of the month in the proleptic Gregorian calendar.
pub open spec fn days_in_month(year: int, month: int) -> int {
    if month == 2 {
        if is_leap_year(year) {
            29
        } else {
            28
        }
    } else if month == 4 || month == 6 || month == 9 || month == 11 {
        30
    } else {
        31
    }
}

impl Date {
    /// The date names a day of the calendar.
    pub open spec fn valid(&self) -> bool {
        &&& 1 <= self.month <= 12
        &&& 1 <= self.day <= days_in_month(self.year as int, self.month as int)
    }

    pub fn is_valid(&self) -> (r: bool)
        ensures
            r == self.valid(),
    {
        if self.month < 1 || self.month > 12 || self.day < 1 {
            return false;
        }
        let y = self.year as i64;
        let leap = (y % 4 == 0 && y % 100 != 0) || y % 400 == 0;
        let days: u32 = if self.month == 2 {
            if leap {
                29
            } else {
                28
            }
        } else if self.month == 4 || self.month == 6 || self.month == 9 || self.month == 11 {
            30
        } else {
            31
        };
        self.day <= days
    }
}

/// A user's spending bucket, copied into each month at its default amount.
/// Amounts throughout are whole cents.
#[derive(Debug, Clone, PartialEq, Eq)]
pub struct BudgetCategory {
    pub id: i64,
    pub user_id: i64,
    pub label: String,
    pub default_amount: i64,
}

/// A recurring expense of a user, counted into every month.
#[derive(Debug, Clone, PartialEq, Eq)]
pub struct FixedExpense {
    pub id: i64,
    pub user_id: i64,
    pub label: String,
    pub amount: i64,
}

/// One calendar month of one user; it is open until closed, and closed for good.
#[derive(Debug, Clone, Copy, PartialEq, Eq, Structural)]
pub struct Month {
    pub id: i64,
    pub user_id: i64,
    pub year: i32,
    pub month: i32,
    pub is_closed: bool,
    /// Seconds since the Unix epoch at which the month was closed.
    pub closed_at: Option<i64>,
}

/// The amount allocated to one category within one month.
#[derive(Debug, Clone, Copy, PartialEq, Eq, Structural)]
pub struct MonthlyBudget {
    pub id: i64,
    pub month_id: i64,
    pub category_id: i64,
    pub allocated_amount: i64,
}

/// An allocation together with its category's label (absent when the
/// category template was deleted) and the amount spent against it.
#[derive(Debug, Clone, PartialEq, Eq)]
pub struct MonthlyBudgetWithCategory {
    pub id: i64,
    pub month_id: i64,
    pub category_id: i64,
    pub category_label: Option<String>,
    pub allocated_amount: i64,
    pub spent_amount: i128,
}

#[derive(Debug, Clone, PartialEq, Eq)]
pub struct IncomeEntry {
    pub id: i64,
    pub month_id: i64,
    pub label: String,
    pub amount: i64,
}

/// A single recorded expense.
#[derive(Debug, Clone, PartialEq, Eq)]
pub struct Item {
    pub id: i64,
    pub month_id: i64,
    pub category_id: i64,
    pub description: String,
    pub amount: i64,
    pub spent_on: Date,
}

/// An item together with its category's label, absent when the category
/// template was deleted.
#[derive(Debug, Clone, PartialEq, Eq)]
pub struct ItemWithCategory {
    pub id: i64,
    pub month_id: i64,
    pub category_id: i64,
    pub category_label: Option<String>,
    pub description: String,
    pub amount: i64,
    pub spent_on: Date,
}

/// The archived report of a closed month.
#[derive(Debug, Clone, PartialEq, Eq)]
pub struct MonthSnapshot {
    pub month_id: i64,
    pub pdf_data: Vec<u8>,
}

/// Everything about one month, with the derived totals.
#[derive(Debug, Clone, PartialEq, Eq)]
pub struct MonthSummary {
    pub month: Month,
    pub income_entries: Vec<IncomeEntry>,
    pub fixed_expenses: Vec<FixedExpense>,
    pub budgets: Vec<MonthlyBudgetWithCategory>,
    pub items: Vec<ItemWithCategory>,
    pub total_income: i128,
    pub total_fixed: i128,
    pub total_budgeted: i128,
    pub total_spent: i128,
    pub remaining: i128,
}

impl BudgetCategory {
    pub fn copy(&self) -> (r: Self)
        ensures
            r == *self,
    {
        BudgetCategory {
            id: self.id,
            user_id: self.user_id,
            label: self.label.clone(),
            default_amount: self.default_amount,
        }
    }
}

impl FixedExpense {
    pub fn copy(&self) -> (r: Self)
        ensures
            r == *self,
    {
        FixedExpense { id: self.id, user_id: self.user_id, label: self.label.clone(), amount: self.amount }
    }
}

impl IncomeEntry {
    pub fn copy(&self) -> (r: Self)
        ensures
            r == *self,
    {
        IncomeEntry { id: self.id, month_id: self.month_id, label: self.label.clone(), amount: self.amount }
    }
}

impl Item {
    pub fn copy(&self) -> (r: Self)
        ensures
            r == *self,
    {
        Item {
            id: self.id,
            month_id: self.month_id,
            category_id: self.category_id,
            description: self.description.clone(),
            amount: self.amount,
            spent_on: self.spent_on,
        }
    }
}

} // verus!
