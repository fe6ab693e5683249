use crate::budget_repository::{current_budget, current_budget_position};
use crate::budget_service::{consume_at, consumed};
use crate::date_time::DateTime;
use crate::expense_repository::{
    expense_not_found, form_error, fresh_expense_id, made_expense, owned_expense, revised_expense, ExpenseRepository,
};
use crate::http_error::{DBResult, ExpenseError, HttpStatus};
use crate::models::{only_expenses_changed, Database, Expense, ExpenseForm};
use crate::table::first_where;
use vstd::prelude::*;

verus! {

/// Why recording `form` for `owner` at `now` fails on `db`, checked in order: no budget
/// for the month, an amount over what the budget has left, a bad field of the form.
pub open spec fn record_error(db: Database, owner: u128, form: ExpenseForm, now: DateTime) -> Option<ExpenseError> {
    match first_where(db.budgets@, current_budget(owner, now)) {
        None => Some(ExpenseError::NoBudgetForMonth),
        Some(i) => if form.amount > db.budgets@[i].available() {
            Some(ExpenseError::ExceedsBudget)
        } else {
            form_error(form, now)
        },
    }
}

/// `after` is `before` once expense `e` was recorded against the budget at position `i`:
/// the expense is added and its amount is counted as used on that budget.
pub open spec fn recorded(before: Database, after: Database, i: int, e: Expense) -> bool {
    &&& 0 <= i < before.budgets@.len()
    &&& e.budget_id == before.budgets@[i].budget_id
    &&& after.expenses@ == before.expenses@.push(e)
    &&& after.budgets@ == before.budgets@.update(i, consumed(before.budgets@[i], e.amount as int))
    &&& after.users == before.users
    &&& after.projects == before.projects
}

/// What `ExpenseService::create` guarantees of one call, from `before` to `after` with
/// result `r`: the failure `record_error` names with nothing changed, or else the expense
/// made from `form`, recorded against the current budget.
pub open spec fn record_post(
    before: Database,
    after: Database,
    owner: u128,
    form: ExpenseForm,
    now: DateTime,
    r: Result<Expense, ExpenseError>,
) -> bool {
    &&& (record_error(before, owner, form, now) matches Some(err) ==> r == Err::<Expense, ExpenseError>(err)
        && after == before)
    &&& (record_error(before, owner, form, now) is None ==> {
        &&& first_where(before.budgets@, current_budget(owner, now)) matches Some(i)
        &&& r matches Ok(e)
        &&& made_expense(e, owner, before.budgets@[i].budget_id, form, now)
        &&& fresh_expense_id(before.expenses@, e.expense_id)
        &&& recorded(before, after, i, e)
    })
}

pub struct ExpenseService;

impl ExpenseService {
    /// Records an expense of `user_id` against the budget of the current month (that of
    /// `now`) and counts its amount as used on that budget, both or neither. Fails, changing
    /// nothing, with `NoBudgetForMonth` when the owner has no live budget for the month,
    /// with `ExceedsBudget` when the amount is more than that budget has left, and on a bad
    /// field of the form.
    pub fn create(&mut self, db: &mut Database, user_id: u128, form: ExpenseForm, now: DateTime) -> (r: Result<
        Expense,
        ExpenseError,
    >)
        ensures
            record_post(*old(db), *final(db), user_id, form, now, r),
    {
        let i = match current_budget_position(db, user_id, now) {
            Some(i) => i,
            None => {
                return Err(ExpenseError::NoBudgetForMonth);
            },
        };
        if form.amount as i128 > db.budgets[i].available_amount() {
            return Err(ExpenseError::ExceedsBudget);
        }
        let budget_id = db.budgets[i].budget_id;
        let amount = form.amount;
        let ghost before = *db;
        let expense = ExpenseRepository.create(db, user_id, budget_id, form, now)?;
        if !consume_at(&mut db.budgets, i, amount) {
            // Not reached, as the row was checked above; an expense never stands without
            // the capacity it takes.
            db.expenses.pop();
            proof {
                assert(db.expenses@ =~= before.expenses@);
            }
            return Err(ExpenseError::ExceedsBudget);
        }
        Ok(expense)
    }

    /// See `ExpenseRepository::update`.
    pub fn update(&mut self, db: &mut Database, id: u128, user_id: u128, form: ExpenseForm, now: DateTime) -> (r:
        Result<Expense, ExpenseError>)
        ensures
            first_where(old(db).expenses@, owned_expense(id, user_id)) is None ==> {
                &&& r matches Err(ExpenseError::Store(s)) && expense_not_found(s)
                &&& *final(db) == *old(db)
            },
            first_where(old(db).expenses@, owned_expense(id, user_id)) matches Some(i) ==> match form_error(
                form,
                now,
            ) {
                Some(err) => r == Err::<Expense, ExpenseError>(err) && *final(db) == *old(db),
                None => r matches Ok(e) && revised_expense(old(db).expenses@[i], e, form, now)
                    && final(db).expenses@ == old(db).expenses@.update(i, e) && only_expenses_changed(
                    *old(db),
                    *final(db),
                ),
            },
    {
        ExpenseRepository.update(db, id, user_id, form, now)
    }

    /// See `ExpenseRepository::delete`.
    pub fn delete(&mut self, db: &mut Database, id: u128, user_id: u128, now: DateTime) -> (r: DBResult<Expense>)
        ensures
            first_where(old(db).expenses@, owned_expense(id, user_id)) is None ==> {
                &&& r matches Err(e) && expense_not_found(e)
                &&& *final(db) == *old(db)
            },
            first_where(old(db).expenses@, owned_expense(id, user_id)) matches Some(i) ==> {
                &&& r == Ok::<Expense, HttpStatus>(old(db).expenses@[i])
                &&& final(db).expenses@ == old(db).expenses@.update(
                    i,
                    (Expense { deleted_at: Some(now), ..old(db).expenses@[i] }),
                )
                &&& only_expenses_changed(*old(db), *final(db))
            },
    {
        ExpenseRepository.delete(db, id, user_id, now)
    }
}

} // verus!
