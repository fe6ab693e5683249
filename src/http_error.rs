use vstd::prelude::*;

verus! {

/// Failure of a store operation.
#[derive(Debug, PartialEq, Eq)]
pub enum HttpStatus {
    DBOperationFailed,
    /// The named kind of entity does not exist or is not the caller's.
    EntityNotFound(String),
    /// A month number outside 1..=12.
    InvalidMonth,
}

pub type DBResult<T> = Result<T, HttpStatus>;

/// The text shown for a store failure.
pub open spec fn status_message(status: HttpStatus) -> Seq<char> {
    match status {
        HttpStatus::DBOperationFailed => "Database operation failed"@,
        HttpStatus::EntityNotFound(entity) => "Such "@ + entity@ + " does not exits"@,
        HttpStatus::InvalidMonth => "Invalid month"@,
    }
}

pub fn format_message(status: &HttpStatus) -> (r: String)
    ensures
        r@ == status_message(*status),
{
    match status {
        HttpStatus::DBOperationFailed => "Database operation failed".to_string(),
        HttpStatus::EntityNotFound(entity) => {
            let mut m = "Such ".to_string();
            m.append(entity.as_str());
            m.append(" does not exits");
            m
        },
        HttpStatus::InvalidMonth => "Invalid month".to_string(),
    }
}

/// Why an expense could not be recorded or changed.
#[derive(Debug, PartialEq, Eq)]
pub enum ExpenseError {
    /// The owner has no live budget for the current month.
    NoBudgetForMonth,
    /// The amount is more than the budget has left.
    ExceedsBudget,
    /// The amount is not positive.
    InvalidAmount,
    /// The project reference is no UUID.
    InvalidProjectId,
    /// The spent-at text is not `YYYY-MM-DD HH:MM:SS`.
    InvalidSpentAt,
    /// A store failure, such as the expense not being found.
    Store(HttpStatus),
}

impl ExpenseError {
    /// The text shown for the failure.
    pub fn message(&self) -> (r: String)
        ensures
            self is NoBudgetForMonth ==> r@ == "No budget for current month found"@,
            self is ExceedsBudget ==> r@ == "This expense exceeds current budget"@,
            self is InvalidAmount ==> r@ == "Expense amount must be positive"@,
            self is InvalidProjectId ==> r@ == "Invalid project id"@,
            self is InvalidSpentAt ==> r@ == "Invalid spent at time, expected YYYY-MM-DD HH:MM:SS"@,
            self matches ExpenseError::Store(s) ==> r@ == status_message(*s),
    {
        match self {
            ExpenseError::NoBudgetForMonth => "No budget for current month found".to_string(),
            ExpenseError::ExceedsBudget => "This expense exceeds current budget".to_string(),
            ExpenseError::InvalidAmount => "Expense amount must be positive".to_string(),
            ExpenseError::InvalidProjectId => "Invalid project id".to_string(),
            ExpenseError::InvalidSpentAt => "Invalid spent at time, expected YYYY-MM-DD HH:MM:SS".to_string(),
            ExpenseError::Store(s) => format_message(s),
        }
    }
}

/// A not-found failure for the named kind of entity.
pub fn entity_not_found(entity: &str) -> (r: HttpStatus)
    ensures
        r matches HttpStatus::EntityNotFound(e) && e@ == entity@,
{
    HttpStatus::EntityNotFound(entity.to_string())
}

} // verus!
