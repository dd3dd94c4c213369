//! The error taxonomy of the core and its mapping to transport statuses.

use vstd::prelude::*;
use vstd::string::StringExecFns;

verus! {

/// The error taxonomy of the core. Each kind maps to one transport status.
#[derive(Debug, Clone, PartialEq, Eq)]
pub enum PaymeError {
    /// The record store failed; the text is its own message.
    Database(String),
    /// Malformed or out-of-range input; the text names the offending field.
    Validation(String),
    /// The referenced record does not exist or belongs to another user.
    NotFound,
    /// The caller's identity could not be established.
    Unauthorized,
    /// The request conflicts with the state of the records.
    BadRequest(String),
    /// Anything else that went wrong inside the service.
    Internal(String),
}

pub open spec fn closed_message() -> Seq<char> {
    "Month is closed"@
}

pub open spec fn already_closed_message() -> Seq<char> {
    "Month is already closed"@
}

pub open spec fn invalid_category_message() -> Seq<char> {
    "Invalid category"@
}

impl PaymeError {
    /// The status that the transport layer answers with for this error.
    pub open spec fn spec_status(&self) -> u16 {
        match self {
            PaymeError::Database(_) => 500,
            PaymeError::Validation(_) => 400,
            PaymeError::NotFound => 404,
            PaymeError::Unauthorized => 401,
            PaymeError::BadRequest(_) => 400,
            PaymeError::Internal(_) => 500,
        }
    }

    pub fn status_code(&self) -> (r: u16)
        ensures
            r == self.spec_status(),
    {
        match self {
            PaymeError::Database(_) => 500,
            PaymeError::Validation(_) => 400,
            PaymeError::NotFound => 404,
            PaymeError::Unauthorized => 401,
            PaymeError::BadRequest(_) => 400,
            PaymeError::Internal(_) => 500,
        }
    }

    /// A bad request whose text is exactly `msg`.
    pub open spec fn is_bad_request(&self, msg: Seq<char>) -> bool {
        match self {
            PaymeError::BadRequest(m) => m@ == msg,
            _ => false,
        }
    }

    /// A validation failure on the field named `field`.
    pub open spec fn is_validation(&self, field: Seq<char>) -> bool {
        match self {
            PaymeError::Validation(f) => f@ == field,
            _ => false,
        }
    }

    pub open spec fn is_internal(&self) -> bool {
        self is Internal
    }

    /// The mutation targets a month that has been closed.
    pub fn month_closed() -> (e: PaymeError)
        ensures
            e.is_bad_request(closed_message()),
    {
        PaymeError::BadRequest(String::from_str("Month is closed"))
    }

    /// A second close of the same month.
    pub fn already_closed() -> (e: PaymeError)
        ensures
            e.is_bad_request(already_closed_message()),
    {
        PaymeError::BadRequest(String::from_str("Month is already closed"))
    }

    /// An item refers to a category that the caller does not own.
    pub fn invalid_category() -> (e: PaymeError)
        ensures
            e.is_bad_request(invalid_category_message()),
    {
        PaymeError::BadRequest(String::from_str("Invalid category"))
    }

    pub fn validation(field: &str) -> (e: PaymeError)
        ensures
            e.is_validation(field@),
    {
        PaymeError::Validation(String::from_str(field))
    }

    /// The human-readable text of the error.
    pub fn describe(&self) -> (r: String)
        ensures
            match self {
                PaymeError::Database(m) => r@ == "Database error: "@ + m@,
                PaymeError::Validation(m) => r@ == "Validation error: "@ + m@,
                PaymeError::NotFound => r@ == "Not found"@,
                PaymeError::Unauthorized => r@ == "Unauthorized"@,
                PaymeError::BadRequest(m) => r@ == "Bad request: "@ + m@,
                PaymeError::Internal(m) => r@ == "Internal error: "@ + m@,
            },
    {
        match self {
            PaymeError::Database(m) => String::from_str("Database error: ").concat(m.as_str()),
            PaymeError::Validation(m) => String::from_str("Validation error: ").concat(m.as_str()),
            PaymeError::NotFound => String::from_str("Not found"),
            PaymeError::Unauthorized => String::from_str("Unauthorized"),
            PaymeError::BadRequest(m) => String::from_str("Bad request: ").concat(m.as_str()),
            PaymeError::Internal(m) => String::from_str("Internal error: ").concat(m.as_str()),
        }
    }
}

} // verus!
