use crate::budget_repository::current_budget;
use crate::date_time::DateTime;
use crate::expense_repository::form_error;
use crate::expense_service::{record_error, record_post, recorded};
use crate::http_error::ExpenseError;
use crate::models::{Database, Expense, ExpenseForm};
use crate::table::{first_where, lemma_first_where_absent, lemma_first_where_update};
use vstd::prelude::*;

verus! {

/// A successful call leaves the budget it charged with no more used than its limit, and
/// with what is used still non-negative where it was before.
pub proof fn law_success_stays_within_limit(
    before: Database,
    after: Database,
    owner: u128,
    form: ExpenseForm,
    now: DateTime,
    e: Expense,
)
    requires
        record_post(before, after, owner, form, now, Ok(e)),
    ensures
        first_where(before.budgets@, current_budget(owner, now)) matches Some(i) && {
            &&& after.budgets@[i].amount_used <= after.budgets@[i].amount
            &&& before.budgets@[i].amount_used >= 0 ==> after.budgets@[i].amount_used >= 0
        },
{
    assert(record_error(before, owner, form, now) is None);
}

/// Along any run of successful calls, each call leaves the budget it charged with no more
/// used than its limit.
pub proof fn law_successes_in_turn_stay_within_limit(
    dbs: Seq<Database>,
    rs: Seq<Result<Expense, ExpenseError>>,
    forms: Seq<ExpenseForm>,
    owner: u128,
    now: DateTime,
)
    requires
        dbs.len() == rs.len() + 1,
        forms.len() == rs.len(),
        forall|k: int| 0 <= k < rs.len() ==> record_post(dbs[k], dbs[k + 1], owner, #[trigger] forms[k], now, rs[k]),
        forall|k: int| 0 <= k < rs.len() ==> #[trigger] rs[k] is Ok,
    ensures
        forall|k: int|
            0 <= k < rs.len() ==> (first_where(#[trigger] dbs[k].budgets@, current_budget(owner, now)) matches Some(
                i,
            ) && dbs[k + 1].budgets@[i].amount_used <= dbs[k + 1].budgets@[i].amount),
{
    assert forall|k: int| 0 <= k < rs.len() implies (first_where(
        #[trigger] dbs[k].budgets@,
        current_budget(owner, now),
    ) matches Some(i) && dbs[k + 1].budgets@[i].amount_used <= dbs[k + 1].budgets@[i].amount) by {
        assert(rs[k] is Ok);
        assert(record_post(dbs[k], dbs[k + 1], owner, forms[k], now, rs[k]));
        law_success_stays_within_limit(dbs[k], dbs[k + 1], owner, forms[k], now, rs[k]->Ok_0);
    }
}

/// Asking for exactly what the current budget has left succeeds (for a positive amount and
/// a well-formed form) and uses the budget up.
pub proof fn law_exact_capacity_succeeds(
    before: Database,
    after: Database,
    owner: u128,
    form: ExpenseForm,
    now: DateTime,
    r: Result<Expense, ExpenseError>,
    i: int,
)
    requires
        first_where(before.budgets@, current_budget(owner, now)) == Some(i),
        form.amount == before.budgets@[i].available(),
        form_error(form, now) is None,
        record_post(before, after, owner, form, now, r),
    ensures
        r is Ok,
        after.budgets@[i].amount_used == after.budgets@[i].amount,
{
}

/// Asking for one unit more than the current budget has left fails with `ExceedsBudget`
/// and changes nothing.
pub proof fn law_one_over_capacity_fails(
    before: Database,
    after: Database,
    owner: u128,
    form: ExpenseForm,
    now: DateTime,
    r: Result<Expense, ExpenseError>,
    i: int,
)
    requires
        first_where(before.budgets@, current_budget(owner, now)) == Some(i),
        form.amount == before.budgets@[i].available() + 1,
        record_post(before, after, owner, form, now, r),
    ensures
        r == Err::<Expense, ExpenseError>(ExpenseError::ExceedsBudget),
        after == before,
{
}

/// Where the owner has no live budget for the month of `now`, a call fails with
/// `NoBudgetForMonth` and adds no expense.
pub proof fn law_no_budget_fails(
    before: Database,
    after: Database,
    owner: u128,
    form: ExpenseForm,
    now: DateTime,
    r: Result<Expense, ExpenseError>,
)
    requires
        forall|j: int|
            0 <= j < before.budgets@.len() ==> !(#[trigger] current_budget(owner, now)(before.budgets@[j])),
        record_post(before, after, owner, form, now, r),
    ensures
        r == Err::<Expense, ExpenseError>(ExpenseError::NoBudgetForMonth),
        after == before,
{
    lemma_first_where_absent(before.budgets@, current_budget(owner, now));
}

/// `n` calls one after another, each asking for `amount`, against a current budget with
/// `(n - 1) * amount` left: the first `n - 1` succeed and the last fails with
/// `ExceedsBudget`, so never all `n`.
pub proof fn law_calls_in_turn_never_overspend(
    dbs: Seq<Database>,
    rs: Seq<Result<Expense, ExpenseError>>,
    forms: Seq<ExpenseForm>,
    owner: u128,
    now: DateTime,
    amount: int,
    n: nat,
    i: int,
)
    requires
        n >= 1,
        dbs.len() == n + 1,
        rs.len() == n,
        forms.len() == n,
        forall|k: int| 0 <= k < n ==> record_post(dbs[k], dbs[k + 1], owner, #[trigger] forms[k], now, rs[k]),
        forall|k: int| 0 <= k < n ==> (#[trigger] forms[k]).amount == amount && form_error(forms[k], now) is None,
        first_where(dbs[0].budgets@, current_budget(owner, now)) == Some(i),
        dbs[0].budgets@[i].available() == (n - 1) * amount,
    ensures
        forall|k: int| 0 <= k < n - 1 ==> #[trigger] rs[k] is Ok,
        rs[n - 1] == Err::<Expense, ExpenseError>(ExpenseError::ExceedsBudget),
{
    lemma_calls_from(dbs, rs, forms, owner, now, amount, n, i, 0);
}

/// The calls from the `k`-th on, once `(n - 1 - k) * amount` is left.
proof fn lemma_calls_from(
    dbs: Seq<Database>,
    rs: Seq<Result<Expense, ExpenseError>>,
    forms: Seq<ExpenseForm>,
    owner: u128,
    now: DateTime,
    amount: int,
    n: nat,
    i: int,
    k: int,
)
    requires
        n >= 1,
        0 <= k <= n - 1,
        dbs.len() == n + 1,
        rs.len() == n,
        forms.len() == n,
        forall|q: int| 0 <= q < n ==> record_post(dbs[q], dbs[q + 1], owner, #[trigger] forms[q], now, rs[q]),
        forall|q: int| 0 <= q < n ==> (#[trigger] forms[q]).amount == amount && form_error(forms[q], now) is None,
        first_where(dbs[k].budgets@, current_budget(owner, now)) == Some(i),
        dbs[k].budgets@[i].available() == (n - 1 - k) * amount,
    ensures
        forall|q: int| k <= q < n - 1 ==> #[trigger] rs[q] is Ok,
        rs[n - 1] == Err::<Expense, ExpenseError>(ExpenseError::ExceedsBudget),
    decreases n - 1 - k,
{
    let p = current_budget(owner, now);
    assert(forms[k].amount == amount && form_error(forms[k], now) is None);
    assert(record_post(dbs[k], dbs[k + 1], owner, forms[k], now, rs[k]));
    if k == n - 1 {
        assert((n - 1 - k) * amount == 0) by (nonlinear_arith)
            requires
                n - 1 - k == 0,
        ;
        assert(record_error(dbs[k], owner, forms[k], now) == Some(ExpenseError::ExceedsBudget));
    } else {
        assert((n - 1 - k) * amount >= amount) by (nonlinear_arith)
            requires
                n - 1 - k >= 1,
                amount > 0,
        ;
        assert(record_error(dbs[k], owner, forms[k], now) is None);
        let e = rs[k]->Ok_0;
        assert(recorded(dbs[k], dbs[k + 1], i, e));
        lemma_first_where_update(dbs[k].budgets@, p, i, dbs[k + 1].budgets@[i]);
        assert(dbs[k + 1].budgets@ == dbs[k].budgets@.update(i, dbs[k + 1].budgets@[i]));
        assert((n - 1 - k) * amount - amount == (n - 1 - (k + 1)) * amount) by (nonlinear_arith);
        lemma_calls_from(dbs, rs, forms, owner, now, amount, n, i, k + 1);
    }
}

} // verus!
