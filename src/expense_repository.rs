use crate::aggregate::{aggregate, aggregate_of, spent_weeks, Scope};
use crate::date_time::{get_nullable_time, iso_week_of, spent_time, DateTime};
use crate::http::QueryParams;
use crate::http_error::{entity_not_found, DBResult, ExpenseError, HttpStatus};
use crate::ids::{fresh_id, get_uuid_from_string, new_id, uuid_value};
use crate::models::{only_expenses_changed, Database, Expense, ExpenseAggregate, ExpenseForm, Project};
use crate::pagination::{
    kept_positions, lemma_order_flagged, lemma_page_index, lemma_positions_distinct, lemma_positions_flagged,
    listed_page, newest_order, order_newest, page_holds, page_of, paginate_positions, positions, PaginationResult,
};
use crate::project_repository::{find_project_by_key, found_project, project_key};
use crate::table::{first_where, is_first, lemma_first_where_absent, lemma_first_where_found};
use crate::text::{lower_of, matches_search, text_contains};
use vstd::prelude::*;

verus! {

/// A live expense with this identifier.
pub open spec fn expense_with_id(id: u128) -> spec_fn(Expense) -> bool {
    |e: Expense| e.expense_id == id && e.deleted_at is None
}

/// A live expense with this identifier, belonging to `owner`.
pub open spec fn owned_expense(id: u128, owner: u128) -> spec_fn(Expense) -> bool {
    |e: Expense| e.expense_id == id && e.user_id == owner && e.deleted_at is None
}

/// The row of `expenses` that a lookup by `p` finds, if any.
pub open spec fn found_expense(expenses: Seq<Expense>, p: spec_fn(Expense) -> bool) -> Option<Expense> {
    match first_where(expenses, p) {
        Some(i) => Some(expenses[i]),
        None => None,
    }
}

/// The failure that the fields of `form` give, checked in order: a non-positive amount,
/// a project reference that is no UUID, a spent-at text that does not parse.
pub open spec fn form_error(form: ExpenseForm, now: DateTime) -> Option<ExpenseError> {
    if form.amount <= 0 {
        Some(ExpenseError::InvalidAmount)
    } else if uuid_value(form.project_id@) is None {
        Some(ExpenseError::InvalidProjectId)
    } else if spent_time(form.spent_at, now) is None {
        Some(ExpenseError::InvalidSpentAt)
    } else {
        None
    }
}

/// `e` is the expense that `form` makes for `owner` against `budget_id` at `now`.
pub open spec fn made_expense(e: Expense, owner: u128, budget_id: u128, form: ExpenseForm, now: DateTime) -> bool {
    &&& e.user_id == owner
    &&& Some(e.project_id) == uuid_value(form.project_id@)
    &&& e.budget_id == budget_id
    &&& e.amount == form.amount
    &&& e.narration == form.narration
    &&& Some(e.spent_at) == spent_time(form.spent_at, now)
    &&& e.created_at == now
    &&& e.updated_at == now
    &&& e.deleted_at is None
}

/// `after` is `before` with amount, narration, project and spent-at time taken from
/// `form` at `now`; the budget it was recorded against stays.
pub open spec fn revised_expense(before: Expense, after: Expense, form: ExpenseForm, now: DateTime) -> bool {
    &&& after.expense_id == before.expense_id
    &&& after.user_id == before.user_id
    &&& Some(after.project_id) == uuid_value(form.project_id@)
    &&& after.budget_id == before.budget_id
    &&& after.amount == form.amount
    &&& after.narration == form.narration
    &&& Some(after.spent_at) == spent_time(form.spent_at, now)
    &&& after.created_at == before.created_at
    &&& after.updated_at == now
    &&& after.deleted_at == before.deleted_at
}

/// Which expenses a listing is of.
#[derive(Clone, Copy, Debug, PartialEq, Eq, Structural)]
pub enum ListScope {
    User(u128),
    Project(u128),
    Budget(u128),
}

pub open spec fn in_list_scope(e: Expense, scope: ListScope) -> bool {
    match scope {
        ListScope::User(id) => e.user_id == id,
        ListScope::Project(id) => e.project_id == id,
        ListScope::Budget(id) => e.budget_id == id,
    }
}

/// The project an expense refers to, if it exists (live or not).
pub open spec fn project_of(projects: Seq<Project>, e: Expense) -> Option<Project> {
    found_project(projects, project_key(e.project_id))
}

/// A live expense of the scope whose narration holds the search text, ignoring case, and
/// whose project exists.
pub open spec fn expense_listed(e: Expense, scope: ListScope, q: Seq<char>, projects: Seq<Project>) -> bool {
    &&& e.deleted_at is None
    &&& in_list_scope(e, scope)
    &&& text_contains(lower_of(e.narration@), lower_of(q))
    &&& project_of(projects, e) is Some
}

pub open spec fn expense_flags(db: Database, scope: ListScope, q: Seq<char>) -> Seq<bool> {
    Seq::new(db.expenses@.len(), |j: int| expense_listed(db.expenses@[j], scope, q, db.projects@))
}

/// The creation time of each expense.
pub open spec fn expense_times(db: Database) -> Seq<DateTime> {
    Seq::new(db.expenses@.len(), |j: int| db.expenses@[j].created_at)
}

/// Each expense beside its project.
pub open spec fn expense_rows(db: Database) -> Seq<(Expense, Project)> {
    Seq::new(
        db.expenses@.len(),
        |j: int|
            (db.expenses@[j], match project_of(db.projects@, db.expenses@[j]) {
                Some(p) => p,
                None => arbitrary(),
            }),
    )
}

/// What a listing of the expenses of `scope` returns.
pub open spec fn expense_listing(
    db: Database,
    scope: ListScope,
    query: QueryParams,
    r: DBResult<PaginationResult<(Expense, Project)>>,
) -> bool {
    &&& (r is Err <==> query.page_number() < 1 || query.page_size() < 1)
    &&& (r matches Err(e) ==> e == HttpStatus::DBOperationFailed)
    &&& (r matches Ok(p) ==> listed_page(
        p,
        expense_rows(db),
        expense_times(db),
        expense_flags(db, scope, query.search_text()),
        query.page_number(),
        query.page_size(),
    ))
}

/// The "expense" not-found failure.
pub open spec fn expense_not_found(r: HttpStatus) -> bool {
    r matches HttpStatus::EntityNotFound(e) && e@ == "expense"@
}

/// Checks the fields of `form` and builds the expense they describe, under identifier
/// `expense_id`.
pub fn expense_from_form(expense_id: u128, user_id: u128, budget_id: u128, form: ExpenseForm, now: DateTime) -> (r: Result<
    Expense,
    ExpenseError,
>)
    ensures
        match form_error(form, now) {
            Some(err) => r == Err::<Expense, ExpenseError>(err),
            None => r matches Ok(e) && made_expense(e, user_id, budget_id, form, now) && e.expense_id == expense_id,
        },
{
    if form.amount <= 0 {
        return Err(ExpenseError::InvalidAmount);
    }
    let project_id = match get_uuid_from_string(form.project_id.as_str()) {
        Some(p) => p,
        None => {
            return Err(ExpenseError::InvalidProjectId);
        },
    };
    let spent_at = match get_nullable_time(&form.spent_at, now) {
        Some(t) => t,
        None => {
            return Err(ExpenseError::InvalidSpentAt);
        },
    };
    Ok(
        Expense {
            expense_id,
            user_id,
            project_id,
            budget_id,
            amount: form.amount,
            narration: form.narration,
            spent_at,
            created_at: now,
            updated_at: now,
            deleted_at: None,
        },
    )
}

/// No stored row of `s` has identifier `id`.
pub open spec fn fresh_expense_id(s: Seq<Expense>, id: u128) -> bool {
    forall|j: int| 0 <= j < s.len() ==> (#[trigger] s[j]).expense_id != id
}

/// A fresh identifier for a new row of `rows`: the one drawn by uuid, unless a row has it.
fn new_expense_id(rows: &Vec<Expense>) -> (r: u128)
    ensures
        fresh_expense_id(rows@, r),
{
    let mut ids: Vec<u128> = Vec::new();
    let mut j: usize = 0;
    while j < rows.len()
        invariant
            0 <= j <= rows@.len(),
            ids@.len() == j,
            forall|t: int| 0 <= t < j ==> ids@[t] == (#[trigger] rows@[t]).expense_id,
        decreases rows@.len() - j,
    {
        ids.push(rows[j].expense_id);
        j = j + 1;
    }
    let r = fresh_id(&ids, new_id());
    assert forall|t: int| 0 <= t < rows@.len() implies (#[trigger] rows@[t]).expense_id != r by {
        if rows@[t].expense_id == r {
            assert(ids@[t] == r);
            assert(ids@.contains(r));
        }
    }
    r
}

fn find_expense(expenses: &Vec<Expense>, id: u128, owner: Option<u128>) -> (r: Option<usize>)
    ensures
        owner is None ==> match r {
            Some(i) => first_where(expenses@, expense_with_id(id)) == Some(i as int),
            None => first_where(expenses@, expense_with_id(id)) is None,
        },
        owner matches Some(o) ==> match r {
            Some(i) => first_where(expenses@, owned_expense(id, o)) == Some(i as int),
            None => first_where(expenses@, owned_expense(id, o)) is None,
        },
{
    let ghost p = match owner {
        Some(o) => owned_expense(id, o),
        None => expense_with_id(id),
    };
    let mut i: usize = 0;
    while i < expenses.len()
        invariant
            0 <= i <= expenses@.len(),
            owner is None ==> p == expense_with_id(id),
            owner matches Some(o) ==> p == owned_expense(id, o),
            forall|j: int| 0 <= j < i ==> !p(#[trigger] expenses@[j]),
        decreases expenses@.len() - i,
    {
        let e = &expenses[i];
        let owned = match owner {
            Some(o) => e.user_id == o,
            None => true,
        };
        if e.expense_id == id && owned && e.deleted_at.is_none() {
            proof {
                assert(is_first(expenses@, p, i as int));
                lemma_first_where_found(expenses@, p, i as int);
            }
            return Some(i);
        }
        i = i + 1;
    }
    proof {
        lemma_first_where_absent(expenses@, p);
    }
    None
}

fn list_expenses(db: &Database, scope: ListScope, query_params: QueryParams) -> (r: DBResult<
    PaginationResult<(Expense, Project)>,
>)
    ensures
        expense_listing(*db, scope, query_params, r),
{
    let mut query_params = query_params;
    let q = query_params.get_search_query();
    let page = query_params.get_page();
    let per_page = query_params.get_per_page();
    let ghost want = expense_flags(*db, scope, q@);
    let mut flags: Vec<bool> = Vec::new();
    let mut keys: Vec<DateTime> = Vec::new();
    let mut joined: Vec<usize> = Vec::new();
    let mut j: usize = 0;
    while j < db.expenses.len()
        invariant
            0 <= j <= db.expenses@.len(),
            want == expense_flags(*db, scope, q@),
            flags@ == want.take(j as int),
            keys@ == expense_times(*db).take(j as int),
            joined@.len() == j,
            forall|t: int|
                0 <= t < j ==> #[trigger] want[t] ==> first_where(db.projects@, project_key(db.expenses@[t].project_id))
                    == Some(joined@[t] as int),
        decreases db.expenses@.len() - j,
    {
        let e = &db.expenses[j];
        let scoped = match scope {
            ListScope::User(id) => e.user_id == id,
            ListScope::Project(id) => e.project_id == id,
            ListScope::Budget(id) => e.budget_id == id,
        };
        let project = find_project_by_key(&db.projects, e.project_id);
        let hit = e.deleted_at.is_none() && scoped && matches_search(e.narration.as_str(), q.as_str())
            && project.is_some();
        flags.push(hit);
        keys.push(e.created_at);
        joined.push(
            match project {
                Some(i) => i,
                None => 0,
            },
        );
        proof {
            assert(want.take(j + 1) =~= want.take(j as int).push(hit));
            assert(expense_times(*db).take(j + 1) =~= expense_times(*db).take(j as int).push(e.created_at));
        }
        j = j + 1;
    }
    assert(flags@ =~= want);
    assert(keys@ =~= expense_times(*db));
    let kept = kept_positions(&flags);
    proof {
        lemma_positions_flagged(flags@);
        lemma_positions_distinct(flags@);
    }
    let ord = order_newest(&keys, &kept);
    let (sel, pages) = paginate_positions(&ord, page, per_page)?;
    proof {
        lemma_order_flagged(keys@, flags@, ord@);
        lemma_page_index(ord@, page as int, per_page as int);
    }
    let ghost rows = expense_rows(*db);
    let mut records: Vec<(Expense, Project)> = Vec::new();
    let mut k: usize = 0;
    while k < sel.len()
        invariant
            0 <= k <= sel@.len(),
            sel@ == page_of(ord@, page as int, per_page as int),
            flags@ == want,
            rows == expense_rows(*db),
            joined@.len() == db.expenses@.len(),
            forall|t: int| 0 <= t < sel@.len() ==> #[trigger] sel@[t] < db.expenses@.len(),
            forall|t: int| 0 <= t < sel@.len() ==> #[trigger] flags@[sel@[t] as int],
            forall|t: int|
                0 <= t < db.expenses@.len() ==> #[trigger] want[t] ==> first_where(db.projects@, project_key(db.expenses@[t].project_id))
                    == Some(joined@[t] as int),
            records@.len() == k,
            forall|t: int| 0 <= t < k ==> records@[t] == rows[#[trigger] sel@[t] as int],
        decreases sel@.len() - k,
    {
        let at = sel[k];
        assert(flags@[sel@[k as int] as int]);
        let e = db.expenses[at].clone();
        let pi = joined[at];
        let p = db.projects[pi].clone();
        records.push((e, p));
        k = k + 1;
    }
    let result = PaginationResult { records, total_pages: pages, total_records: ord.len() };
    assert(newest_order(keys@, positions(flags@), ord@) && page_holds(result, rows, ord@, page as int, per_page as int));
    Ok(result)
}

pub struct ExpenseRepository;

impl ExpenseRepository {
    /// A page of the live expenses of user `id` whose narration holds the search text,
    /// ignoring case, each beside its project, newest first by creation time.
    pub fn list_by_user_id(&mut self, db: &Database, id: u128, query_params: QueryParams) -> (r: DBResult<
        PaginationResult<(Expense, Project)>,
    >)
        ensures
            expense_listing(*db, ListScope::User(id), query_params, r),
    {
        list_expenses(db, ListScope::User(id), query_params)
    }

    /// As `list_by_user_id`, for the expenses of project `id`.
    pub fn list_by_project_id(&mut self, db: &Database, id: u128, query_params: QueryParams) -> (r: DBResult<
        PaginationResult<(Expense, Project)>,
    >)
        ensures
            expense_listing(*db, ListScope::Project(id), query_params, r),
    {
        list_expenses(db, ListScope::Project(id), query_params)
    }

    /// As `list_by_user_id`, for the expenses recorded against budget `id`.
    pub fn list_by_budget_id(&mut self, db: &Database, id: u128, query_params: QueryParams) -> (r: DBResult<
        PaginationResult<(Expense, Project)>,
    >)
        ensures
            expense_listing(*db, ListScope::Budget(id), query_params, r),
    {
        list_expenses(db, ListScope::Budget(id), query_params)
    }

    /// Adds the expense that `form` describes for `user_id` against `budget_id`, under a
    /// fresh identifier, spent at the given time or at `now`. Nothing is checked against
    /// the budget here. Fails, adding nothing, on a field of `form` that `form_error` names.
    pub fn create(&mut self, db: &mut Database, user_id: u128, budget_id: u128, form: ExpenseForm, now: DateTime) -> (r:
        Result<Expense, ExpenseError>)
        ensures
            match form_error(form, now) {
                Some(err) => r == Err::<Expense, ExpenseError>(err) && *final(db) == *old(db),
                None => r matches Ok(e) && made_expense(e, user_id, budget_id, form, now)
                    && fresh_expense_id(old(db).expenses@, e.expense_id)
                    && final(db).expenses@ == old(db).expenses@.push(e) && only_expenses_changed(
                    *old(db),
                    *final(db),
                ),
            },
    {
        let expense_id = new_expense_id(&db.expenses);
        let model = expense_from_form(expense_id, user_id, budget_id, form, now)?;
        db.expenses.push(model.clone());
        Ok(model)
    }

    /// Rewrites amount, narration, project and spent-at time of the caller's expense `id`
    /// at `now`. The budget it was recorded against is neither changed nor checked. Fails,
    /// changing nothing, with the "expense" not-found status when no live expense `id` of
    /// `user_id` exists, else on a field of `form` that `form_error` names.
    pub fn update(&mut self, db: &mut Database, id: u128, user_id: u128, form: ExpenseForm, now: DateTime) -> (r:
        Result<Expense, ExpenseError>)
        ensures
            first_where(old(db).expenses@, owned_expense(id, user_id)) is None ==> {
                &&& r matches Err(ExpenseError::Store(s)) && expense_not_found(s)
                &&& *final(db) == *old(db)
            },
            first_where(old(db).expenses@, owned_expense(id, user_id)) matches Some(i) ==> match form_error(
                form,
                now,
            ) {
                Some(err) => r == Err::<Expense, ExpenseError>(err) && *final(db) == *old(db),
                None => r matches Ok(e) && revised_expense(old(db).expenses@[i], e, form, now)
                    && final(db).expenses@ == old(db).expenses@.update(i, e) && only_expenses_changed(
                    *old(db),
                    *final(db),
                ),
            },
    {
        let i = match find_expense(&db.expenses, id, Some(user_id)) {
            Some(i) => i,
            None => {
                return Err(ExpenseError::Store(entity_not_found("expense")));
            },
        };
        let old_e = &db.expenses[i];
        let fresh = expense_from_form(old_e.expense_id, user_id, old_e.budget_id, form, now)?;
        let e = Expense {
            expense_id: old_e.expense_id,
            user_id: old_e.user_id,
            project_id: fresh.project_id,
            budget_id: old_e.budget_id,
            amount: fresh.amount,
            narration: fresh.narration,
            spent_at: fresh.spent_at,
            created_at: old_e.created_at,
            updated_at: now,
            deleted_at: old_e.deleted_at,
        };
        db.expenses.set(i, e.clone());
        Ok(e)
    }

    /// Marks the caller's expense `id` deleted at `now` and returns it as it was found. The
    /// budget it was recorded against keeps what it counted as used. Fails, changing
    /// nothing, with the "expense" not-found status when no live expense `id` of `user_id`
    /// exists.
    pub fn delete(&mut self, db: &mut Database, id: u128, user_id: u128, now: DateTime) -> (r: DBResult<Expense>)
        ensures
            first_where(old(db).expenses@, owned_expense(id, user_id)) is None ==> {
                &&& r matches Err(e) && expense_not_found(e)
                &&& *final(db) == *old(db)
            },
            first_where(old(db).expenses@, owned_expense(id, user_id)) matches Some(i) ==> {
                &&& r == Ok::<Expense, HttpStatus>(old(db).expenses@[i])
                &&& final(db).expenses@ == old(db).expenses@.update(
                    i,
                    (Expense { deleted_at: Some(now), ..old(db).expenses@[i] }),
                )
                &&& only_expenses_changed(*old(db), *final(db))
            },
    {
        let i = match find_expense(&db.expenses, id, Some(user_id)) {
            Some(i) => i,
            None => {
                return Err(entity_not_found("expense"));
            },
        };
        let found = db.expenses[i].clone();
        let mut e = found.clone();
        e.deleted_at = Some(now);
        db.expenses.set(i, e);
        Ok(found)
    }

    /// The live expense `id`, whoever owns it.
    pub fn find_by_id(&mut self, db: &Database, id: u128) -> (r: DBResult<Expense>)
        ensures
            match found_expense(db.expenses@, expense_with_id(id)) {
                Some(e) => r == Ok::<Expense, HttpStatus>(e),
                None => r matches Err(s) && expense_not_found(s),
            },
    {
        match find_expense(&db.expenses, id, None) {
            Some(i) => Ok(db.expenses[i].clone()),
            None => Err(entity_not_found("expense")),
        }
    }

    /// The live expense `id` of `user_id`; an expense of someone else is not found either.
    pub fn find_owned_by_id(&mut self, db: &Database, id: u128, user_id: u128) -> (r: DBResult<Expense>)
        ensures
            match found_expense(db.expenses@, owned_expense(id, user_id)) {
                Some(e) => r == Ok::<Expense, HttpStatus>(e),
                None => r matches Err(s) && expense_not_found(s),
            },
    {
        match find_expense(&db.expenses, id, Some(user_id)) {
            Some(i) => Ok(db.expenses[i].clone()),
            None => Err(entity_not_found("expense")),
        }
    }

    /// Sums of the live expenses of `user_id` over the year, month, ISO week and day of
    /// `now`.
    pub fn fetch_aggregate_by_user_id(&mut self, db: &Database, user_id: u128, now: DateTime) -> (r:
        ExpenseAggregate)
        ensures
            aggregate_of(
                db.expenses@,
                spent_weeks(db.expenses@),
                Scope::User(user_id),
                now,
                iso_week_of(now.year as int, now.month as int, now.day as int),
                r,
            ),
    {
        aggregate(&db.expenses, Scope::User(user_id), now)
    }
}

} // verus!
