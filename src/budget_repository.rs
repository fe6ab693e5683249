use crate::date_time::{budget_title, is_month, make_budget_title, DateTime};
use crate::http::QueryParams;
use crate::http_error::{entity_not_found, DBResult, HttpStatus};
use crate::ids::{fresh_id, new_id};
use crate::models::{only_budgets_changed, Budget, BudgetForm, Database};
use crate::pagination::{
    kept_positions, lemma_order_flagged, lemma_page_index, lemma_positions_distinct,
    lemma_positions_flagged, listed_page, newest_order, order_newest, page_holds, page_of, paginate_positions,
    positions, PaginationResult,
};
use crate::table::{first_where, is_first, lemma_first_where_absent, lemma_first_where_found};
use crate::text::{lower_of, matches_search, text_contains};
use vstd::prelude::*;

verus! {

/// A live budget with this identifier.
pub open spec fn budget_with_id(id: u128) -> spec_fn(Budget) -> bool {
    |b: Budget| b.budget_id == id && b.deleted_at is None
}

/// A live budget with this identifier, belonging to `owner`.
pub open spec fn owned_budget(id: u128, owner: u128) -> spec_fn(Budget) -> bool {
    |b: Budget| b.budget_id == id && b.user_id == owner && b.deleted_at is None
}

/// A live budget of `owner` for the calendar month and year of `now`.
pub open spec fn current_budget(owner: u128, now: DateTime) -> spec_fn(Budget) -> bool {
    |b: Budget|
        b.user_id == owner && b.deleted_at is None && b.month as int == now.month as int
            && b.year as int == now.year as int
}

/// The row of `budgets` that a lookup by `p` finds, if any.
pub open spec fn found_budget(budgets: Seq<Budget>, p: spec_fn(Budget) -> bool) -> Option<Budget> {
    match first_where(budgets, p) {
        Some(i) => Some(budgets[i]),
        None => None,
    }
}

/// `b` is the budget that `create` makes from `form` for `owner` at `now`.
pub open spec fn made_budget(b: Budget, owner: u128, form: BudgetForm, now: DateTime) -> bool {
    &&& b.user_id == owner
    &&& b.amount == form.amount
    &&& b.amount_used == 0
    &&& b.month == form.month
    &&& b.year == form.year
    &&& b.title@ == budget_title(form.month as int, form.year as int)
    &&& b.comment == form.comment
    &&& b.created_at == now
    &&& b.updated_at == now
    &&& b.deleted_at is None
}

/// `after` is `before` with the fields of `form` written over it at `now`; what was used
/// stays as it was.
pub open spec fn revised_budget(before: Budget, after: Budget, form: BudgetForm, now: DateTime) -> bool {
    &&& after.budget_id == before.budget_id
    &&& after.user_id == before.user_id
    &&& after.amount == form.amount
    &&& after.amount_used == before.amount_used
    &&& after.month == form.month
    &&& after.year == form.year
    &&& after.title@ == budget_title(form.month as int, form.year as int)
    &&& after.comment == form.comment
    &&& after.created_at == before.created_at
    &&& after.updated_at == now
    &&& after.deleted_at == before.deleted_at
}

/// A live budget of `owner` whose title or comment holds the search text, ignoring case.
pub open spec fn budget_listed(b: Budget, owner: u128, q: Seq<char>) -> bool {
    &&& b.user_id == owner
    &&& b.deleted_at is None
    &&& (text_contains(lower_of(b.title@), lower_of(q)) || (b.comment matches Some(c) && text_contains(
        lower_of(c@),
        lower_of(q),
    )))
}

/// The creation time of each row.
pub open spec fn budget_times(s: Seq<Budget>) -> Seq<DateTime> {
    Seq::new(s.len(), |j: int| s[j].created_at)
}

pub open spec fn budget_flags(s: Seq<Budget>, owner: u128, q: Seq<char>) -> Seq<bool> {
    Seq::new(s.len(), |j: int| budget_listed(s[j], owner, q))
}

/// The "budget" not-found failure.
pub open spec fn budget_not_found(r: HttpStatus) -> bool {
    r matches HttpStatus::EntityNotFound(e) && e@ == "budget"@
}

fn find_budget(budgets: &Vec<Budget>, id: u128, owner: Option<u128>) -> (r: Option<usize>)
    ensures
        owner is None ==> match r {
            Some(i) => first_where(budgets@, budget_with_id(id)) == Some(i as int),
            None => first_where(budgets@, budget_with_id(id)) is None,
        },
        owner matches Some(o) ==> match r {
            Some(i) => first_where(budgets@, owned_budget(id, o)) == Some(i as int),
            None => first_where(budgets@, owned_budget(id, o)) is None,
        },
{
    let ghost p = match owner {
        Some(o) => owned_budget(id, o),
        None => budget_with_id(id),
    };
    let mut i: usize = 0;
    while i < budgets.len()
        invariant
            0 <= i <= budgets@.len(),
            owner is None ==> p == budget_with_id(id),
            owner matches Some(o) ==> p == owned_budget(id, o),
            forall|j: int| 0 <= j < i ==> !p(#[trigger] budgets@[j]),
        decreases budgets@.len() - i,
    {
        let b = &budgets[i];
        let owned = match owner {
            Some(o) => b.user_id == o,
            None => true,
        };
        if b.budget_id == id && owned && b.deleted_at.is_none() {
            proof {
                assert(is_first(budgets@, p, i as int));
                lemma_first_where_found(budgets@, p, i as int);
            }
            return Some(i);
        }
        i = i + 1;
    }
    proof {
        lemma_first_where_absent(budgets@, p);
    }
    None
}

fn find_current_budget(budgets: &Vec<Budget>, owner: u128, now: DateTime) -> (r: Option<usize>)
    ensures
        match r {
            Some(i) => first_where(budgets@, current_budget(owner, now)) == Some(i as int),
            None => first_where(budgets@, current_budget(owner, now)) is None,
        },
{
    let ghost p = current_budget(owner, now);
    let mut i: usize = 0;
    while i < budgets.len()
        invariant
            0 <= i <= budgets@.len(),
            p == current_budget(owner, now),
            forall|j: int| 0 <= j < i ==> !p(#[trigger] budgets@[j]),
        decreases budgets@.len() - i,
    {
        let b = &budgets[i];
        if b.user_id == owner && b.deleted_at.is_none() && b.month as i64 == now.month as i64
            && b.year as i64 == now.year as i64 {
            proof {
                assert(is_first(budgets@, p, i as int));
                lemma_first_where_found(budgets@, p, i as int);
            }
            return Some(i);
        }
        i = i + 1;
    }
    proof {
        lemma_first_where_absent(budgets@, p);
    }
    None
}

/// Position of the budget of `owner` for the month and year of `now`.
pub fn current_budget_position(db: &Database, owner: u128, now: DateTime) -> (r: Option<usize>)
    ensures
        match r {
            Some(i) => first_where(db.budgets@, current_budget(owner, now)) == Some(i as int),
            None => first_where(db.budgets@, current_budget(owner, now)) is None,
        },
{
    find_current_budget(&db.budgets, owner, now)
}

/// No stored row of `s` has identifier `id`.
pub open spec fn fresh_budget_id(s: Seq<Budget>, id: u128) -> bool {
    forall|j: int| 0 <= j < s.len() ==> (#[trigger] s[j]).budget_id != id
}

/// A fresh identifier for a new row of `rows`: the one drawn by uuid, unless a row has it.
fn new_budget_id(rows: &Vec<Budget>) -> (r: u128)
    ensures
        fresh_budget_id(rows@, r),
{
    let mut ids: Vec<u128> = Vec::new();
    let mut j: usize = 0;
    while j < rows.len()
        invariant
            0 <= j <= rows@.len(),
            ids@.len() == j,
            forall|t: int| 0 <= t < j ==> ids@[t] == (#[trigger] rows@[t]).budget_id,
        decreases rows@.len() - j,
    {
        ids.push(rows[j].budget_id);
        j = j + 1;
    }
    let r = fresh_id(&ids, new_id());
    assert forall|t: int| 0 <= t < rows@.len() implies (#[trigger] rows@[t]).budget_id != r by {
        if rows@[t].budget_id == r {
            assert(ids@[t] == r);
            assert(ids@.contains(r));
        }
    }
    r
}

pub struct BudgetRepository;

impl BudgetRepository {
    /// A page of the live budgets of user `id` whose title or comment holds the search
    /// text, ignoring case, newest first by creation time; fails with `DBOperationFailed` where the page or
    /// the page size asked for is below 1.
    pub fn list_by_user_id(&mut self, db: &Database, id: u128, query_params: QueryParams) -> (r: DBResult<
        PaginationResult<Budget>,
    >)
        ensures
            r is Err <==> query_params.page_number() < 1 || query_params.page_size() < 1,
            r matches Err(e) ==> e == HttpStatus::DBOperationFailed,
            r matches Ok(p) ==> listed_page(
                p,
                db.budgets@,
                budget_times(db.budgets@),
                budget_flags(db.budgets@, id, query_params.search_text()),
                query_params.page_number(),
                query_params.page_size(),
            ),
    {
        let mut query_params = query_params;
        let q = query_params.get_search_query();
        let page = query_params.get_page();
        let per_page = query_params.get_per_page();
        let ghost want = budget_flags(db.budgets@, id, q@);
        let mut flags: Vec<bool> = Vec::new();
        let mut keys: Vec<DateTime> = Vec::new();
        let mut j: usize = 0;
        while j < db.budgets.len()
            invariant
                0 <= j <= db.budgets@.len(),
                want == budget_flags(db.budgets@, id, q@),
                flags@ == want.take(j as int),
                keys@ == budget_times(db.budgets@).take(j as int),
            decreases db.budgets@.len() - j,
        {
            let b = &db.budgets[j];
            let in_comment = match &b.comment {
                Some(c) => matches_search(c.as_str(), q.as_str()),
                None => false,
            };
            let hit = b.user_id == id && b.deleted_at.is_none() && (matches_search(b.title.as_str(), q.as_str())
                || in_comment);
            flags.push(hit);
            keys.push(b.created_at);
            proof {
                assert(want.take(j + 1) =~= want.take(j as int).push(hit));
                assert(budget_times(db.budgets@).take(j + 1) =~= budget_times(db.budgets@).take(j as int).push(b.created_at));
            }
            j = j + 1;
        }
        assert(flags@ =~= want);
        assert(keys@ =~= budget_times(db.budgets@));
        let kept = kept_positions(&flags);
        proof {
            lemma_positions_flagged(flags@);
            lemma_positions_distinct(flags@);
        }
        let ord = order_newest(&keys, &kept);
        let (sel, pages) = paginate_positions(&ord, page, per_page)?;
        proof {
            lemma_order_flagged(keys@, flags@, ord@);
            lemma_page_index(ord@, page as int, per_page as int);
        }
        let mut records: Vec<Budget> = Vec::new();
        let mut k: usize = 0;
        while k < sel.len()
            invariant
                0 <= k <= sel@.len(),
                sel@ == page_of(ord@, page as int, per_page as int),
                forall|t: int| 0 <= t < sel@.len() ==> #[trigger] sel@[t] < db.budgets@.len(),
                records@.len() == k,
                forall|t: int| 0 <= t < k ==> records@[t] == db.budgets@[#[trigger] sel@[t] as int],
            decreases sel@.len() - k,
        {
            assert(sel@[k as int] < db.budgets@.len());
            records.push(db.budgets[sel[k]].clone());
            k = k + 1;
        }
        let result = PaginationResult { records, total_pages: pages, total_records: ord.len() };
        assert(newest_order(keys@, positions(flags@), ord@) && page_holds(result, db.budgets@, ord@, page as int, per_page as int));
        Ok(result)
    }

    /// Adds a budget for `user_id` under a fresh identifier, with nothing used and its
    /// title made from the month and year; fails with `InvalidMonth`, adding nothing,
    /// when the month is not in 1..=12.
    pub fn create(&mut self, db: &mut Database, user_id: u128, form: BudgetForm, now: DateTime) -> (r:
        DBResult<Budget>)
        ensures
            r is Ok <==> is_month(form.month as int),
            r is Err ==> r == Err::<Budget, HttpStatus>(HttpStatus::InvalidMonth) && *final(db) == *old(db),
            r matches Ok(b) ==> {
                &&& made_budget(b, user_id, form, now)
                &&& fresh_budget_id(old(db).budgets@, b.budget_id)
                &&& final(db).budgets@ == old(db).budgets@.push(b)
                &&& only_budgets_changed(*old(db), *final(db))
            },
    {
        let title = match make_budget_title(form.month, form.year) {
            Ok(t) => t,
            Err(_) => {
                return Err(HttpStatus::InvalidMonth);
            },
        };
        let model = Budget {
            budget_id: new_budget_id(&db.budgets),
            user_id,
            amount: form.amount,
            amount_used: 0,
            month: form.month,
            year: form.year,
            title,
            comment: form.comment,
            created_at: now,
            updated_at: now,
            deleted_at: None,
        };
        db.budgets.push(model.clone());
        Ok(model)
    }

    /// Rewrites amount, month, year, comment and title of the caller's budget `id`, at `now`;
    /// what was used stays. Fails, changing nothing, with the "budget" not-found status when
    /// no live budget `id` of `user_id` exists, else with `InvalidMonth` for a month outside
    /// 1..=12.
    pub fn update(&mut self, db: &mut Database, id: u128, user_id: u128, form: BudgetForm, now: DateTime) -> (r:
        DBResult<Budget>)
        ensures
            first_where(old(db).budgets@, owned_budget(id, user_id)) is None ==> {
                &&& r matches Err(e) && budget_not_found(e)
                &&& *final(db) == *old(db)
            },
            first_where(old(db).budgets@, owned_budget(id, user_id)) matches Some(i) ==> {
                &&& !is_month(form.month as int) ==> r == Err::<Budget, HttpStatus>(HttpStatus::InvalidMonth)
                    && *final(db) == *old(db)
                &&& is_month(form.month as int) ==> (r matches Ok(b) && revised_budget(
                    old(db).budgets@[i],
                    b,
                    form,
                    now,
                ) && final(db).budgets@ == old(db).budgets@.update(i, b)
                    && only_budgets_changed(*old(db), *final(db)))
            },
    {
        let i = match find_budget(&db.budgets, id, Some(user_id)) {
            Some(i) => i,
            None => {
                return Err(entity_not_found("budget"));
            },
        };
        let title = match make_budget_title(form.month, form.year) {
            Ok(t) => t,
            Err(_) => {
                return Err(HttpStatus::InvalidMonth);
            },
        };
        let old_b = &db.budgets[i];
        let b = Budget {
            budget_id: old_b.budget_id,
            user_id: old_b.user_id,
            amount: form.amount,
            amount_used: old_b.amount_used,
            month: form.month,
            year: form.year,
            title,
            comment: form.comment,
            created_at: old_b.created_at,
            updated_at: now,
            deleted_at: old_b.deleted_at,
        };
        db.budgets.set(i, b.clone());
        Ok(b)
    }

    /// Marks the caller's budget `id` deleted at `now` and returns it as it was found; fails,
    /// changing nothing, with the "budget" not-found status when no live budget `id` of
    /// `user_id` exists.
    pub fn delete(&mut self, db: &mut Database, id: u128, user_id: u128, now: DateTime) -> (r: DBResult<Budget>)
        ensures
            first_where(old(db).budgets@, owned_budget(id, user_id)) is None ==> {
                &&& r matches Err(e) && budget_not_found(e)
                &&& *final(db) == *old(db)
            },
            first_where(old(db).budgets@, owned_budget(id, user_id)) matches Some(i) ==> {
                &&& r == Ok::<Budget, HttpStatus>(old(db).budgets@[i])
                &&& final(db).budgets@ == old(db).budgets@.update(
                    i,
                    (Budget { deleted_at: Some(now), ..old(db).budgets@[i] }),
                )
                &&& only_budgets_changed(*old(db), *final(db))
            },
    {
        let i = match find_budget(&db.budgets, id, Some(user_id)) {
            Some(i) => i,
            None => {
                return Err(entity_not_found("budget"));
            },
        };
        let found = db.budgets[i].clone();
        let mut b = found.clone();
        b.deleted_at = Some(now);
        db.budgets.set(i, b);
        Ok(found)
    }

    /// Position of the live budget `id`, whoever owns it.
    pub fn position_by_id(&mut self, db: &Database, id: u128) -> (r: Option<usize>)
        ensures
            match r {
                Some(i) => first_where(db.budgets@, budget_with_id(id)) == Some(i as int),
                None => first_where(db.budgets@, budget_with_id(id)) is None,
            },
    {
        find_budget(&db.budgets, id, None)
    }

    /// The live budget `id`, whoever owns it.
    pub fn find_by_id(&mut self, db: &Database, id: u128) -> (r: DBResult<Budget>)
        ensures
            match found_budget(db.budgets@, budget_with_id(id)) {
                Some(b) => r == Ok::<Budget, HttpStatus>(b),
                None => r matches Err(e) && budget_not_found(e),
            },
    {
        match find_budget(&db.budgets, id, None) {
            Some(i) => Ok(db.budgets[i].clone()),
            None => Err(entity_not_found("budget")),
        }
    }

    /// The live budget `id` of `user_id`; a budget of someone else is not found either.
    pub fn find_owned_by_id(&mut self, db: &Database, id: u128, user_id: u128) -> (r: DBResult<Budget>)
        ensures
            match found_budget(db.budgets@, owned_budget(id, user_id)) {
                Some(b) => r == Ok::<Budget, HttpStatus>(b),
                None => r matches Err(e) && budget_not_found(e),
            },
    {
        match find_budget(&db.budgets, id, Some(user_id)) {
            Some(i) => Ok(db.budgets[i].clone()),
            None => Err(entity_not_found("budget")),
        }
    }

    /// The live budget of `user_id` for the calendar month and year of `now`.
    pub fn find_owned_current_month_budget(&mut self, db: &Database, user_id: u128, now: DateTime) -> (r:
        Option<Budget>)
        ensures
            r == found_budget(db.budgets@, current_budget(user_id, now)),
    {
        match find_current_budget(&db.budgets, user_id, now) {
            Some(i) => Some(db.budgets[i].clone()),
            None => None,
        }
    }
}

} // verus!
