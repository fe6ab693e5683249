use crate::date_time::DateTime;
use crate::http_error::{DBResult, HttpStatus};
use crate::models::{only_projects_changed, Database, Project, ProjectForm};
use crate::project_repository::{fresh_project_id, owned_project, project_not_found, ProjectRepository};
use crate::table::first_where;
use vstd::prelude::*;

verus! {

pub struct ProjectService;

impl ProjectService {
    /// See `ProjectRepository::create`.
    pub fn create(&mut self, db: &mut Database, user_id: u128, form: ProjectForm, now: DateTime) -> (r: Project)
        ensures
            r.user_id == user_id,
            fresh_project_id(old(db).projects@, r.project_id),
            r.name == form.name,
            r.description == form.description,
            r.created_at == now,
            r.updated_at == now,
            r.deleted_at is None,
            final(db).projects@ == old(db).projects@.push(r),
            only_projects_changed(*old(db), *final(db)),
    {
        ProjectRepository.create(db, user_id, form, now)
    }

    /// See `ProjectRepository::update`.
    pub fn update(&mut self, db: &mut Database, id: u128, user_id: u128, form: ProjectForm, now: DateTime) -> (r:
        DBResult<Project>)
        ensures
            first_where(old(db).projects@, owned_project(id, user_id)) is None ==> {
                &&& r matches Err(e) && project_not_found(e)
                &&& *final(db) == *old(db)
            },
            first_where(old(db).projects@, owned_project(id, user_id)) matches Some(i) ==> {
                &&& r matches Ok(p) && p == (Project {
                    name: form.name,
                    description: form.description,
                    updated_at: now,
                    ..old(db).projects@[i]
                })
                &&& final(db).projects@ == old(db).projects@.update(i, r->Ok_0)
                &&& only_projects_changed(*old(db), *final(db))
            },
    {
        ProjectRepository.update(db, id, user_id, form, now)
    }

    /// See `ProjectRepository::delete`.
    pub fn delete(&mut self, db: &mut Database, id: u128, user_id: u128, now: DateTime) -> (r: DBResult<Project>)
        ensures
            first_where(old(db).projects@, owned_project(id, user_id)) is None ==> {
                &&& r matches Err(e) && project_not_found(e)
                &&& *final(db) == *old(db)
            },
            first_where(old(db).projects@, owned_project(id, user_id)) matches Some(i) ==> {
                &&& r == Ok::<Project, HttpStatus>(old(db).projects@[i])
                &&& final(db).projects@ == old(db).projects@.update(
                    i,
                    (Project { deleted_at: Some(now), ..old(db).projects@[i] }),
                )
                &&& only_projects_changed(*old(db), *final(db))
            },
    {
        ProjectRepository.delete(db, id, user_id, now)
    }
}

} // verus!
