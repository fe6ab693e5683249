use crate::aggregate::{aggregate, aggregate_of, spent_weeks, Scope};
use crate::date_time::{iso_week_of, DateTime};
use crate::http::QueryParams;
use crate::http_error::{entity_not_found, DBResult, HttpStatus};
use crate::ids::{fresh_id, new_id};
use crate::models::{only_projects_changed, Database, ExpenseAggregate, Project, ProjectForm};
use crate::pagination::{
    kept_positions, lemma_order_flagged, lemma_page_index, lemma_positions_distinct,
    lemma_positions_flagged, listed_page, newest_order, order_newest, page_holds, page_of, paginate_positions,
    positions, PaginationResult,
};
use crate::table::{first_where, is_first, lemma_first_where_absent, lemma_first_where_found};
use crate::text::{contains_text, text_contains};
use vstd::prelude::*;

verus! {

/// A live project with this identifier.
pub open spec fn project_with_id(id: u128) -> spec_fn(Project) -> bool {
    |p: Project| p.project_id == id && p.deleted_at is None
}

/// A live project with this identifier, belonging to `owner`.
pub open spec fn owned_project(id: u128, owner: u128) -> spec_fn(Project) -> bool {
    |p: Project| p.project_id == id && p.user_id == owner && p.deleted_at is None
}

/// A project with this identifier, live or not.
pub open spec fn project_key(id: u128) -> spec_fn(Project) -> bool {
    |p: Project| p.project_id == id
}

/// The row of `projects` that a lookup by `p` finds, if any.
pub open spec fn found_project(projects: Seq<Project>, p: spec_fn(Project) -> bool) -> Option<Project> {
    match first_where(projects, p) {
        Some(i) => Some(projects[i]),
        None => None,
    }
}

/// A live project of `owner` whose name holds the search text.
pub open spec fn project_listed(p: Project, owner: u128, q: Seq<char>) -> bool {
    &&& p.user_id == owner
    &&& p.deleted_at is None
    &&& text_contains(p.name@, q)
}

/// The creation time of each row.
pub open spec fn project_times(s: Seq<Project>) -> Seq<DateTime> {
    Seq::new(s.len(), |j: int| s[j].created_at)
}

pub open spec fn project_flags(s: Seq<Project>, owner: u128, q: Seq<char>) -> Seq<bool> {
    Seq::new(s.len(), |j: int| project_listed(s[j], owner, q))
}

/// The "project" not-found failure.
pub open spec fn project_not_found(r: HttpStatus) -> bool {
    r matches HttpStatus::EntityNotFound(e) && e@ == "project"@
}

fn find_project(projects: &Vec<Project>, id: u128, owner: Option<u128>) -> (r: Option<usize>)
    ensures
        owner is None ==> match r {
            Some(i) => first_where(projects@, project_with_id(id)) == Some(i as int),
            None => first_where(projects@, project_with_id(id)) is None,
        },
        owner matches Some(o) ==> match r {
            Some(i) => first_where(projects@, owned_project(id, o)) == Some(i as int),
            None => first_where(projects@, owned_project(id, o)) is None,
        },
{
    let ghost p = match owner {
        Some(o) => owned_project(id, o),
        None => project_with_id(id),
    };
    let mut i: usize = 0;
    while i < projects.len()
        invariant
            0 <= i <= projects@.len(),
            owner is None ==> p == project_with_id(id),
            owner matches Some(o) ==> p == owned_project(id, o),
            forall|j: int| 0 <= j < i ==> !p(#[trigger] projects@[j]),
        decreases projects@.len() - i,
    {
        let q = &projects[i];
        let owned = match owner {
            Some(o) => q.user_id == o,
            None => true,
        };
        if q.project_id == id && owned && q.deleted_at.is_none() {
            proof {
                assert(is_first(projects@, p, i as int));
                lemma_first_where_found(projects@, p, i as int);
            }
            return Some(i);
        }
        i = i + 1;
    }
    proof {
        lemma_first_where_absent(projects@, p);
    }
    None
}

/// Position of the project with identifier `id`, live or not.
pub fn find_project_by_key(projects: &Vec<Project>, id: u128) -> (r: Option<usize>)
    ensures
        match r {
            Some(i) => first_where(projects@, project_key(id)) == Some(i as int),
            None => first_where(projects@, project_key(id)) is None,
        },
{
    let ghost p = project_key(id);
    let mut i: usize = 0;
    while i < projects.len()
        invariant
            0 <= i <= projects@.len(),
            p == project_key(id),
            forall|j: int| 0 <= j < i ==> !p(#[trigger] projects@[j]),
        decreases projects@.len() - i,
    {
        if projects[i].project_id == id {
            proof {
                assert(is_first(projects@, p, i as int));
                lemma_first_where_found(projects@, p, i as int);
            }
            return Some(i);
        }
        i = i + 1;
    }
    proof {
        lemma_first_where_absent(projects@, p);
    }
    None
}

/// No stored row of `s` has identifier `id`.
pub open spec fn fresh_project_id(s: Seq<Project>, id: u128) -> bool {
    forall|j: int| 0 <= j < s.len() ==> (#[trigger] s[j]).project_id != id
}

/// A fresh identifier for a new row of `rows`: the one drawn by uuid, unless a row has it.
fn new_project_id(rows: &Vec<Project>) -> (r: u128)
    ensures
        fresh_project_id(rows@, r),
{
    let mut ids: Vec<u128> = Vec::new();
    let mut j: usize = 0;
    while j < rows.len()
        invariant
            0 <= j <= rows@.len(),
            ids@.len() == j,
            forall|t: int| 0 <= t < j ==> ids@[t] == (#[trigger] rows@[t]).project_id,
        decreases rows@.len() - j,
    {
        ids.push(rows[j].project_id);
        j = j + 1;
    }
    let r = fresh_id(&ids, new_id());
    assert forall|t: int| 0 <= t < rows@.len() implies (#[trigger] rows@[t]).project_id != r by {
        if rows@[t].project_id == r {
            assert(ids@[t] == r);
            assert(ids@.contains(r));
        }
    }
    r
}

pub struct ProjectRepository;

impl ProjectRepository {
    /// A page of the live projects of user `id` whose name holds the search text, newest
    /// first by creation time; fails with `DBOperationFailed` where the page or the page size asked for is
    /// below 1.
    pub fn list_by_user_id(&mut self, db: &Database, id: u128, query_params: QueryParams) -> (r: DBResult<
        PaginationResult<Project>,
    >)
        ensures
            r is Err <==> query_params.page_number() < 1 || query_params.page_size() < 1,
            r matches Err(e) ==> e == HttpStatus::DBOperationFailed,
            r matches Ok(p) ==> listed_page(
                p,
                db.projects@,
                project_times(db.projects@),
                project_flags(db.projects@, id, query_params.search_text()),
                query_params.page_number(),
                query_params.page_size(),
            ),
    {
        let mut query_params = query_params;
        let q = query_params.get_search_query();
        let page = query_params.get_page();
        let per_page = query_params.get_per_page();
        let ghost want = project_flags(db.projects@, id, q@);
        let mut flags: Vec<bool> = Vec::new();
        let mut keys: Vec<DateTime> = Vec::new();
        let mut j: usize = 0;
        while j < db.projects.len()
            invariant
                0 <= j <= db.projects@.len(),
                want == project_flags(db.projects@, id, q@),
                flags@ == want.take(j as int),
                keys@ == project_times(db.projects@).take(j as int),
            decreases db.projects@.len() - j,
        {
            let p = &db.projects[j];
            let hit = p.user_id == id && p.deleted_at.is_none() && contains_text(p.name.as_str(), q.as_str());
            flags.push(hit);
            keys.push(p.created_at);
            proof {
                assert(want.take(j + 1) =~= want.take(j as int).push(hit));
                assert(project_times(db.projects@).take(j + 1) =~= project_times(db.projects@).take(j as int).push(p.created_at));
            }
            j = j + 1;
        }
        assert(flags@ =~= want);
        assert(keys@ =~= project_times(db.projects@));
        let kept = kept_positions(&flags);
        proof {
            lemma_positions_flagged(flags@);
            lemma_positions_distinct(flags@);
        }
        let ord = order_newest(&keys, &kept);
        let (sel, pages) = paginate_positions(&ord, page, per_page)?;
        proof {
            lemma_order_flagged(keys@, flags@, ord@);
            lemma_page_index(ord@, page as int, per_page as int);
        }
        let mut records: Vec<Project> = Vec::new();
        let mut k: usize = 0;
        while k < sel.len()
            invariant
                0 <= k <= sel@.len(),
                sel@ == page_of(ord@, page as int, per_page as int),
                forall|t: int| 0 <= t < sel@.len() ==> #[trigger] sel@[t] < db.projects@.len(),
                records@.len() == k,
                forall|t: int| 0 <= t < k ==> records@[t] == db.projects@[#[trigger] sel@[t] as int],
            decreases sel@.len() - k,
        {
            assert(sel@[k as int] < db.projects@.len());
            records.push(db.projects[sel[k]].clone());
            k = k + 1;
        }
        let result = PaginationResult { records, total_pages: pages, total_records: ord.len() };
        assert(newest_order(keys@, positions(flags@), ord@) && page_holds(result, db.projects@, ord@, page as int, per_page as int));
        Ok(result)
    }

    /// Adds a project of `user_id` under a fresh identifier.
    pub fn create(&mut self, db: &mut Database, user_id: u128, form: ProjectForm, now: DateTime) -> (r: Project)
        ensures
            r.user_id == user_id,
            fresh_project_id(old(db).projects@, r.project_id),
            r.name == form.name,
            r.description == form.description,
            r.created_at == now,
            r.updated_at == now,
            r.deleted_at is None,
            final(db).projects@ == old(db).projects@.push(r),
            only_projects_changed(*old(db), *final(db)),
    {
        let model = Project {
            project_id: new_project_id(&db.projects),
            user_id,
            name: form.name,
            description: form.description,
            created_at: now,
            updated_at: now,
            deleted_at: None,
        };
        db.projects.push(model.clone());
        model
    }

    /// Renames and redescribes the caller's project `id` at `now`; fails, changing nothing,
    /// with the "project" not-found status when no live project `id` of `user_id` exists.
    pub fn update(&mut self, db: &mut Database, id: u128, user_id: u128, form: ProjectForm, now: DateTime) -> (r:
        DBResult<Project>)
        ensures
            first_where(old(db).projects@, owned_project(id, user_id)) is None ==> {
                &&& r matches Err(e) && project_not_found(e)
                &&& *final(db) == *old(db)
            },
            first_where(old(db).projects@, owned_project(id, user_id)) matches Some(i) ==> {
                &&& r matches Ok(p) && p == (Project {
                    name: form.name,
                    description: form.description,
                    updated_at: now,
                    ..old(db).projects@[i]
                })
                &&& final(db).projects@ == old(db).projects@.update(i, r->Ok_0)
                &&& only_projects_changed(*old(db), *final(db))
            },
    {
        let i = match find_project(&db.projects, id, Some(user_id)) {
            Some(i) => i,
            None => {
                return Err(entity_not_found("project"));
            },
        };
        let mut p = db.projects[i].clone();
        p.name = form.name;
        p.description = form.description;
        p.updated_at = now;
        db.projects.set(i, p.clone());
        Ok(p)
    }

    /// Marks the caller's project `id` deleted at `now` and returns it as it was found; fails,
    /// changing nothing, with the "project" not-found status when no live project `id` of
    /// `user_id` exists.
    pub fn delete(&mut self, db: &mut Database, id: u128, user_id: u128, now: DateTime) -> (r: DBResult<Project>)
        ensures
            first_where(old(db).projects@, owned_project(id, user_id)) is None ==> {
                &&& r matches Err(e) && project_not_found(e)
                &&& *final(db) == *old(db)
            },
            first_where(old(db).projects@, owned_project(id, user_id)) matches Some(i) ==> {
                &&& r == Ok::<Project, HttpStatus>(old(db).projects@[i])
                &&& final(db).projects@ == old(db).projects@.update(
                    i,
                    (Project { deleted_at: Some(now), ..old(db).projects@[i] }),
                )
                &&& only_projects_changed(*old(db), *final(db))
            },
    {
        let i = match find_project(&db.projects, id, Some(user_id)) {
            Some(i) => i,
            None => {
                return Err(entity_not_found("project"));
            },
        };
        let found = db.projects[i].clone();
        let mut p = found.clone();
        p.deleted_at = Some(now);
        db.projects.set(i, p);
        Ok(found)
    }

    /// The live project `id`, whoever owns it.
    pub fn find_by_id(&mut self, db: &Database, id: u128) -> (r: DBResult<Project>)
        ensures
            match found_project(db.projects@, project_with_id(id)) {
                Some(p) => r == Ok::<Project, HttpStatus>(p),
                None => r matches Err(e) && project_not_found(e),
            },
    {
        match find_project(&db.projects, id, None) {
            Some(i) => Ok(db.projects[i].clone()),
            None => Err(entity_not_found("project")),
        }
    }

    /// The live project `id` of `user_id`; a project of someone else is not found either.
    pub fn find_owned_by_id(&mut self, db: &Database, id: u128, user_id: u128) -> (r: DBResult<Project>)
        ensures
            match found_project(db.projects@, owned_project(id, user_id)) {
                Some(p) => r == Ok::<Project, HttpStatus>(p),
                None => r matches Err(e) && project_not_found(e),
            },
    {
        match find_project(&db.projects, id, Some(user_id)) {
            Some(i) => Ok(db.projects[i].clone()),
            None => Err(entity_not_found("project")),
        }
    }

    /// Sums of the live expenses of project `project_id` over the year, month, ISO week and
    /// day of `now`.
    pub fn fetch_aggregate_by_project_id(&mut self, db: &Database, project_id: u128, now: DateTime) -> (r:
        ExpenseAggregate)
        ensures
            aggregate_of(
                db.expenses@,
                spent_weeks(db.expenses@),
                Scope::Project(project_id),
                now,
                iso_week_of(now.year as int, now.month as int, now.day as int),
                r,
            ),
    {
        aggregate(&db.expenses, Scope::Project(project_id), now)
    }
}

} // verus!
