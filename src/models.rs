use crate::date_time::DateTime;
use vstd::prelude::*;

verus! {

/// A monthly spending allowance of one user, with the amount consumed so far.
/// Amounts are integers in minor currency units.
#[derive(Debug)]
pub struct Budget {
    pub budget_id: u128,
    pub user_id: u128,
    pub amount: i64,
    pub amount_used: i64,
    pub month: i16,
    pub year: i16,
    pub title: String,
    pub comment: Option<String>,
    pub created_at: DateTime,
    pub updated_at: DateTime,
    pub deleted_at: Option<DateTime>,
}

impl Budget {
    /// Capacity left: the limit less what is used.
    pub open spec fn available(&self) -> int {
        self.amount - self.amount_used
    }

    pub fn available_amount(&self) -> (r: i128)
        ensures
            r == self.available(),
    {
        self.amount as i128 - self.amount_used as i128
    }
}

impl Clone for Budget {
    fn clone(&self) -> (r: Self)
        ensures
            r == *self,
    {
        Budget {
            budget_id: self.budget_id,
            user_id: self.user_id,
            amount: self.amount,
            amount_used: self.amount_used,
            month: self.month,
            year: self.year,
            title: self.title.clone(),
            comment: clone_text(&self.comment),
            created_at: self.created_at,
            updated_at: self.updated_at,
            deleted_at: self.deleted_at,
        }
    }
}

pub fn clone_text(t: &Option<String>) -> (r: Option<String>)
    ensures
        r == *t,
{
    match t {
        Some(s) => Some(s.clone()),
        None => None,
    }
}

pub struct BudgetForm {
    pub amount: i64,
    pub month: i16,
    pub year: i16,
    pub comment: Option<String>,
}

/// One spending record of a user, against a project and the budget that was current
/// when it was recorded.
#[derive(Debug)]
pub struct Expense {
    pub expense_id: u128,
    pub user_id: u128,
    pub project_id: u128,
    pub budget_id: u128,
    pub amount: i64,
    pub narration: String,
    pub spent_at: DateTime,
    pub created_at: DateTime,
    pub updated_at: DateTime,
    pub deleted_at: Option<DateTime>,
}

impl Clone for Expense {
    fn clone(&self) -> (r: Self)
        ensures
            r == *self,
    {
        Expense {
            expense_id: self.expense_id,
            user_id: self.user_id,
            project_id: self.project_id,
            budget_id: self.budget_id,
            amount: self.amount,
            narration: self.narration.clone(),
            spent_at: self.spent_at,
            created_at: self.created_at,
            updated_at: self.updated_at,
            deleted_at: self.deleted_at,
        }
    }
}

pub struct ExpenseForm {
    pub project_id: String,
    pub amount: i64,
    pub narration: String,
    pub spent_at: Option<String>,
}

/// Sums of expense amounts over the year, month, ISO week and day that hold a moment;
/// `None` where no expense falls in the window.
#[derive(Clone, Copy, Debug, PartialEq, Eq, Structural)]
pub struct ExpenseAggregate {
    pub year_expenses: Option<i128>,
    pub month_expenses: Option<i128>,
    pub week_expenses: Option<i128>,
    pub today_expenses: Option<i128>,
}

#[derive(Debug)]
pub struct Project {
    pub project_id: u128,
    pub user_id: u128,
    pub name: String,
    pub description: String,
    pub created_at: DateTime,
    pub updated_at: DateTime,
    pub deleted_at: Option<DateTime>,
}

impl Clone for Project {
    fn clone(&self) -> (r: Self)
        ensures
            r == *self,
    {
        Project {
            project_id: self.project_id,
            user_id: self.user_id,
            name: self.name.clone(),
            description: self.description.clone(),
            created_at: self.created_at,
            updated_at: self.updated_at,
            deleted_at: self.deleted_at,
        }
    }
}

pub struct ProjectForm {
    pub name: String,
    pub description: String,
}

#[derive(Debug)]
pub struct User {
    pub user_id: u128,
    pub first_name: String,
    pub last_name: String,
    pub email: String,
    pub password: String,
    pub status: String,
    pub created_at: DateTime,
    pub updated_at: DateTime,
    pub deleted_at: Option<DateTime>,
}

impl Clone for User {
    fn clone(&self) -> (r: Self)
        ensures
            r == *self,
    {
        User {
            user_id: self.user_id,
            first_name: self.first_name.clone(),
            last_name: self.last_name.clone(),
            email: self.email.clone(),
            password: self.password.clone(),
            status: self.status.clone(),
            created_at: self.created_at,
            updated_at: self.updated_at,
            deleted_at: self.deleted_at,
        }
    }
}

#[derive(Clone, Copy, Debug, PartialEq, Eq, Structural)]
pub enum UserStatus {
    Active,
    Inactive,
    Pending,
}

pub struct LoginForm {
    pub email: String,
    pub password: String,
}

pub struct RegisterForm {
    pub first_name: String,
    pub last_name: String,
    pub email: String,
    pub password: String,
}

pub struct Label {
    pub label_id: String,
    pub name: String,
    pub module: String,
    pub created_at: DateTime,
    pub updated_at: DateTime,
    pub deleted_at: Option<DateTime>,
}

pub struct LabelForm {
    pub name: String,
    pub module: String,
}

/// The tables of the application, each row kept in insertion order.
pub struct Database {
    pub users: Vec<User>,
    pub projects: Vec<Project>,
    pub budgets: Vec<Budget>,
    pub expenses: Vec<Expense>,
}

impl Database {
    pub fn new() -> (r: Database)
        ensures
            r.users@.len() == 0,
            r.projects@.len() == 0,
            r.budgets@.len() == 0,
            r.expenses@.len() == 0,
    {
        Database { users: Vec::new(), projects: Vec::new(), budgets: Vec::new(), expenses: Vec::new() }
    }
}

} // verus!

verus! {

/// `after` differs from `before` at most in its budgets table.
pub open spec fn only_budgets_changed(before: Database, after: Database) -> bool {
    &&& after.users == before.users
    &&& after.projects == before.projects
    &&& after.expenses == before.expenses
}

/// `after` differs from `before` at most in its expenses table.
pub open spec fn only_expenses_changed(before: Database, after: Database) -> bool {
    &&& after.users == before.users
    &&& after.projects == before.projects
    &&& after.budgets == before.budgets
}

/// `after` differs from `before` at most in its projects table.
pub open spec fn only_projects_changed(before: Database, after: Database) -> bool {
    &&& after.users == before.users
    &&& after.budgets == before.budgets
    &&& after.expenses == before.expenses
}

/// `after` differs from `before` at most in its users table.
pub open spec fn only_users_changed(before: Database, after: Database) -> bool {
    &&& after.projects == before.projects
    &&& after.budgets == before.budgets
    &&& after.expenses == before.expenses
}

} // verus!
