use crate::budget_repository::{fresh_budget_id, budget_with_id, owned_budget, budget_not_found, made_budget, revised_budget, BudgetRepository};
use crate::date_time::{is_month, DateTime};
use crate::http_error::{DBResult, HttpStatus};
use crate::models::{only_budgets_changed, Budget, BudgetForm, Database};
use crate::table::first_where;
use vstd::prelude::*;

verus! {

/// Taking `amount` more from `b` keeps what is used within its limit (and within `i64`).
pub open spec fn can_consume(b: Budget, amount: int) -> bool {
    &&& b.amount_used + amount <= b.amount
    &&& i64::MIN <= b.amount_used + amount
}

/// `b` with `amount` more counted as used.
pub open spec fn consumed(b: Budget, amount: int) -> Budget {
    Budget { amount_used: (b.amount_used + amount) as i64, ..b }
}

/// Counts `amount` more as used on the budget at position `i`, only where the result stays
/// within the budget's limit; the decision is taken on the row as it stands, not on a copy
/// read earlier. Returns whether it did.
pub fn consume_at(budgets: &mut Vec<Budget>, i: usize, amount: i64) -> (r: bool)
    requires
        i < old(budgets)@.len(),
    ensures
        r == can_consume(old(budgets)@[i as int], amount as int),
        r ==> final(budgets)@ == old(budgets)@.update(i as int, consumed(old(budgets)@[i as int], amount as int)),
        !r ==> *final(budgets) == *old(budgets),
{
    let mut b = budgets[i].clone();
    let used = b.amount_used as i128 + amount as i128;
    if used > b.amount as i128 || used < i64::MIN as i128 {
        return false;
    }
    b.amount_used = used as i64;
    budgets.set(i, b);
    true
}

pub struct BudgetService;

impl BudgetService {
    /// See `BudgetRepository::create`.
    pub fn create(&mut self, db: &mut Database, user_id: u128, form: BudgetForm, now: DateTime) -> (r: DBResult<Budget>)
        ensures
            r is Ok <==> is_month(form.month as int),
            r is Err ==> r == Err::<Budget, HttpStatus>(HttpStatus::InvalidMonth) && *final(db) == *old(db),
            r matches Ok(b) ==> {
                &&& made_budget(b, user_id, form, now)
                &&& fresh_budget_id(old(db).budgets@, b.budget_id)
                &&& final(db).budgets@ == old(db).budgets@.push(b)
                &&& only_budgets_changed(*old(db), *final(db))
            },
    {
        BudgetRepository.create(db, user_id, form, now)
    }

    /// See `BudgetRepository::update`.
    pub fn update(&mut self, db: &mut Database, id: u128, user_id: u128, form: BudgetForm, now: DateTime) -> (r:
        DBResult<Budget>)
        ensures
            first_where(old(db).budgets@, owned_budget(id, user_id)) is None ==> {
                &&& r matches Err(e) && budget_not_found(e)
                &&& *final(db) == *old(db)
            },
            first_where(old(db).budgets@, owned_budget(id, user_id)) matches Some(i) ==> {
                &&& !is_month(form.month as int) ==> r == Err::<Budget, HttpStatus>(HttpStatus::InvalidMonth)
                    && *final(db) == *old(db)
                &&& is_month(form.month as int) ==> (r matches Ok(b) && revised_budget(
                    old(db).budgets@[i],
                    b,
                    form,
                    now,
                ) && final(db).budgets@ == old(db).budgets@.update(i, b)
                    && only_budgets_changed(*old(db), *final(db)))
            },
    {
        BudgetRepository.update(db, id, user_id, form, now)
    }

    /// Counts `amount` more as used on the live budget `budget_id`, only where what is used
    /// then stays within its limit; returns the budget so changed. `None`, with nothing
    /// changed, when there is no such budget or the amount does not fit.
    pub fn decrement(&mut self, db: &mut Database, budget_id: u128, amount: i64) -> (r: Option<Budget>)
        ensures
            only_budgets_changed(*old(db), *final(db)),
            match first_where(old(db).budgets@, budget_with_id(budget_id)) {
                None => r is None && *final(db) == *old(db),
                Some(i) => if can_consume(old(db).budgets@[i], amount as int) {
                    &&& r == Some(consumed(old(db).budgets@[i], amount as int))
                    &&& final(db).budgets@ == old(db).budgets@.update(i, consumed(old(db).budgets@[i], amount as int))
                } else {
                    r is None && *final(db) == *old(db)
                },
            },
    {
        let i = match BudgetRepository.position_by_id(db, budget_id) {
            Some(i) => i,
            None => {
                return None;
            },
        };
        if consume_at(&mut db.budgets, i, amount) {
            Some(db.budgets[i].clone())
        } else {
            None
        }
    }

    /// See `BudgetRepository::delete`.
    pub fn delete(&mut self, db: &mut Database, id: u128, user_id: u128, now: DateTime) -> (r: DBResult<Budget>)
        ensures
            first_where(old(db).budgets@, owned_budget(id, user_id)) is None ==> {
                &&& r matches Err(e) && budget_not_found(e)
                &&& *final(db) == *old(db)
            },
            first_where(old(db).budgets@, owned_budget(id, user_id)) matches Some(i) ==> {
                &&& r == Ok::<Budget, HttpStatus>(old(db).budgets@[i])
                &&& final(db).budgets@ == old(db).budgets@.update(
                    i,
                    (Budget { deleted_at: Some(now), ..old(db).budgets@[i] }),
                )
                &&& only_budgets_changed(*old(db), *final(db))
            },
    {
        BudgetRepository.delete(db, id, user_id, now)
    }
}

} // verus!
