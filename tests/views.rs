use expense_tracker::aggregate::{aggregate, sum_by_windows, Scope};
use expense_tracker::budget_repository::BudgetRepository;
use expense_tracker::date_time::{current_timestamp, get_nullable_time, DateTime};
use expense_tracker::expense_repository::ExpenseRepository;
use expense_tracker::http::{IdPathParam, JsonSuccessMessageResponse, QueryParams};
use expense_tracker::http_error::HttpStatus;
use expense_tracker::ids::{fresh_id, get_uuid_from_string};
use expense_tracker::models::{BudgetForm, Database, ExpenseAggregate, ExpenseForm, ProjectForm};
use expense_tracker::project_repository::ProjectRepository;
use expense_tracker::project_service::ProjectService;
use expense_tracker::text::{contains_text, matches_search};

const OWNER: u128 = 7;
const OTHER: u128 = 8;

fn at(year: i32, month: u32, day: u32) -> DateTime {
    DateTime { year, month, day, hour: 12, minute: 0, second: 0 }
}

fn params(search: Option<&str>, page: Option<i64>, per_page: Option<i64>) -> QueryParams {
    QueryParams { search: search.map(|s| s.to_string()), limit: None, page, per_page }
}

fn add_expense(db: &mut Database, project: u128, amount: i64, narration: &str, spent: &str) {
    let form = ExpenseForm {
        project_id: uuid::Uuid::from_u128(project).to_string(),
        amount,
        narration: narration.to_string(),
        spent_at: Some(spent.to_string()),
    };
    ExpenseRepository.create(db, OWNER, 1, form, at(2024, 3, 15)).unwrap();
}

#[test]
fn iso_week_spans_new_year() {
    let mut db = Database::new();
    add_expense(&mut db, 1, 1, "a", "2020-12-28 09:00:00");
    add_expense(&mut db, 1, 20, "b", "2020-12-31 09:00:00");
    add_expense(&mut db, 1, 300, "c", "2021-01-04 09:00:00");
    add_expense(&mut db, 1, 4000, "d", "2020-12-27 09:00:00");
    let a = ExpenseRepository.fetch_aggregate_by_user_id(&db, OWNER, at(2021, 1, 1));
    assert_eq!(a.week_expenses, Some(21));
    assert_eq!(a.year_expenses, Some(300));
    assert_eq!(a.today_expenses, None);
}

#[test]
fn timestamps_parse() {
    let now = at(2020, 1, 2);
    let t = get_nullable_time(&Some("2024-12-31 23:59:58".to_string()), now).unwrap();
    assert_eq!(t, DateTime { year: 2024, month: 12, day: 31, hour: 23, minute: 59, second: 58 });
    assert!(get_nullable_time(&Some("2024-13-01 00:00:00".to_string()), now).is_none());
    assert_eq!(get_nullable_time(&None, now), Some(now));
    assert!(get_nullable_time(&Some("yesterday".to_string()), now).is_none());
    let c = current_timestamp();
    assert!((1..=12).contains(&c.month) && (1..=31).contains(&c.day) && c.hour < 24);
}

#[test]
fn sums_by_window() {
    let mut db = Database::new();
    add_expense(&mut db, 1, 100, "a", "2024-03-15 09:00:00");
    add_expense(&mut db, 1, 20, "b", "2024-03-12 09:00:00");
    add_expense(&mut db, 2, 3, "c", "2024-03-01 09:00:00");
    add_expense(&mut db, 1, 4000, "d", "2024-01-10 09:00:00");
    add_expense(&mut db, 1, 50000, "e", "2023-03-15 09:00:00");
    let a = ExpenseRepository.fetch_aggregate_by_user_id(&db, OWNER, at(2024, 3, 15));
    assert_eq!(
        a,
        ExpenseAggregate {
            year_expenses: Some(4123),
            month_expenses: Some(123),
            week_expenses: Some(120),
            today_expenses: Some(100),
        }
    );
    let p = ProjectRepository.fetch_aggregate_by_project_id(&db, 2, at(2024, 3, 15));
    assert_eq!(p.year_expenses, Some(3));
    assert_eq!(p.week_expenses, None);
    assert_eq!(p.today_expenses, None);
    let none = aggregate(&db.expenses, Scope::User(OTHER), at(2024, 3, 15));
    assert_eq!(none, ExpenseAggregate { year_expenses: None, month_expenses: None, week_expenses: None, today_expenses: None });
}

#[test]
fn deleted_expenses_are_not_summed() {
    let mut db = Database::new();
    add_expense(&mut db, 1, 100, "a", "2024-03-15 09:00:00");
    let id = db.expenses[0].expense_id;
    ExpenseRepository.delete(&mut db, id, OWNER, at(2024, 3, 15)).unwrap();
    let a = ExpenseRepository.fetch_aggregate_by_user_id(&db, OWNER, at(2024, 3, 15));
    assert_eq!(a.year_expenses, None);
}

#[test]
fn sums_take_given_weeks() {
    let mut db = Database::new();
    add_expense(&mut db, 1, 5, "a", "2024-03-15 09:00:00");
    add_expense(&mut db, 1, 6, "b", "2024-03-15 09:00:00");
    let weeks = vec![Some((2024, 1)), Some((2024, 2))];
    let a = sum_by_windows(&db.expenses, &weeks, Scope::User(OWNER), at(2024, 3, 15), Some((2024, 2)));
    assert_eq!(a.week_expenses, Some(6));
    assert_eq!(a.today_expenses, Some(11));
}

#[test]
fn budget_listing_pages_newest_first() {
    let mut db = Database::new();
    for month in 1..=5 {
        let form = BudgetForm { amount: 10, month, year: 2024, comment: None };
        BudgetRepository.create(&mut db, OWNER, form, at(2024, 1, 1)).unwrap();
    }
    BudgetRepository.create(&mut db, OTHER, BudgetForm { amount: 1, month: 1, year: 2024, comment: None }, at(2024, 1, 1)).unwrap();
    let p = BudgetRepository.list_by_user_id(&db, OWNER, params(None, Some(1), Some(2))).unwrap();
    assert_eq!(p.total_records, 5);
    assert_eq!(p.total_pages, 3);
    let titles: Vec<&str> = p.records.iter().map(|b| b.title.as_str()).collect();
    assert_eq!(titles, vec!["May, 2024 Budget", "April, 2024 Budget"]);
    let last = BudgetRepository.list_by_user_id(&db, OWNER, params(None, Some(3), Some(2))).unwrap();
    assert_eq!(last.records.len(), 1);
    assert_eq!(last.records[0].title, "January, 2024 Budget");
    let past = BudgetRepository.list_by_user_id(&db, OWNER, params(None, Some(4), Some(2))).unwrap();
    assert!(past.records.is_empty());
    let r = BudgetRepository.list_by_user_id(&db, OWNER, params(None, Some(0), None));
    assert_eq!(r.err(), Some(HttpStatus::DBOperationFailed));
    let r = BudgetRepository.list_by_user_id(&db, OWNER, params(None, None, Some(0)));
    assert_eq!(r.err(), Some(HttpStatus::DBOperationFailed));
}

#[test]
fn budget_search_ignores_case_and_reads_comments() {
    let mut db = Database::new();
    BudgetRepository.create(&mut db, OWNER, BudgetForm { amount: 1, month: 3, year: 2024, comment: None }, at(2024, 1, 1)).unwrap();
    BudgetRepository
        .create(&mut db, OWNER, BudgetForm { amount: 1, month: 6, year: 2024, comment: Some("Holiday".to_string()) }, at(2024, 1, 1))
        .unwrap();
    let p = BudgetRepository.list_by_user_id(&db, OWNER, params(Some("MARCH"), None, None)).unwrap();
    assert_eq!(p.total_records, 1);
    assert_eq!(p.records[0].month, 3);
    let p = BudgetRepository.list_by_user_id(&db, OWNER, params(Some("holi"), None, None)).unwrap();
    assert_eq!(p.total_records, 1);
    assert_eq!(p.records[0].month, 6);
}

#[test]
fn expense_listing_joins_projects() {
    let mut db = Database::new();
    let pr = ProjectService.create(&mut db, OWNER, ProjectForm { name: "Home".to_string(), description: "d".to_string() }, at(2024, 1, 1));
    add_expense(&mut db, pr.project_id, 10, "Groceries", "2024-03-15 09:00:00");
    add_expense(&mut db, pr.project_id, 20, "fuel", "2024-03-15 09:00:00");
    add_expense(&mut db, 99, 30, "orphan groceries", "2024-03-15 09:00:00");
    let p = ExpenseRepository.list_by_user_id(&db, OWNER, params(Some("grocer"), None, None)).unwrap();
    assert_eq!(p.total_records, 1);
    assert_eq!(p.records[0].0.narration, "Groceries");
    assert_eq!(p.records[0].1.name, "Home");
    let p = ExpenseRepository.list_by_project_id(&db, pr.project_id, params(None, None, None)).unwrap();
    assert_eq!(p.total_records, 2);
    assert_eq!(p.records[0].0.narration, "fuel");
    let p = ExpenseRepository.list_by_budget_id(&db, 1, params(None, Some(2), Some(1))).unwrap();
    assert_eq!(p.total_pages, 2);
    assert_eq!(p.records[0].0.narration, "Groceries");
    let p = ExpenseRepository.list_by_budget_id(&db, 2, params(None, None, None)).unwrap();
    assert_eq!(p.total_records, 0);
    assert_eq!(p.total_pages, 0);
}

#[test]
fn project_store() {
    let mut db = Database::new();
    let p = ProjectService.create(&mut db, OWNER, ProjectForm { name: "Home".to_string(), description: "d".to_string() }, at(2024, 1, 1));
    ProjectService.create(&mut db, OWNER, ProjectForm { name: "home office".to_string(), description: "e".to_string() }, at(2024, 1, 1));
    let listed = ProjectRepository.list_by_user_id(&db, OWNER, params(Some("Home"), None, None)).unwrap();
    assert_eq!(listed.total_records, 1);
    let u = ProjectService
        .update(&mut db, p.project_id, OWNER, ProjectForm { name: "House".to_string(), description: "x".to_string() }, at(2024, 2, 1))
        .unwrap();
    assert_eq!(u.name, "House");
    assert_eq!(u.updated_at, at(2024, 2, 1));
    let r = ProjectService.update(&mut db, p.project_id, OTHER, ProjectForm { name: "N".to_string(), description: "x".to_string() }, at(2024, 2, 1));
    assert_eq!(r.unwrap_err(), HttpStatus::EntityNotFound("project".to_string()));
    assert_eq!(ProjectRepository.find_owned_by_id(&db, p.project_id, OWNER).unwrap().name, "House");
    ProjectService.delete(&mut db, p.project_id, OWNER, at(2024, 3, 1)).unwrap();
    assert!(ProjectRepository.find_by_id(&db, p.project_id).is_err());
    assert!(ProjectRepository.find_owned_by_id(&db, p.project_id, OWNER).is_err());
}

#[test]
fn text_search() {
    assert!(contains_text("groceries", "cer"));
    assert!(contains_text("abc", ""));
    assert!(!contains_text("ab", "abc"));
    assert!(!contains_text("Groceries", "gro"));
    assert!(matches_search("Groceries", "GRO"));
    assert!(!matches_search("Groceries", "fuel"));
}

#[test]
fn query_parameter_defaults() {
    let mut q = params(None, None, None);
    assert_eq!(q.get_search_query(), "");
    assert_eq!(q.get_limit(), 10);
    assert_eq!(q.get_page(), 1);
    assert_eq!(q.get_per_page(), 10);
    let mut q = QueryParams { search: Some("x".to_string()), limit: Some(3), page: Some(4), per_page: Some(5) };
    assert_eq!(q.get_search_query(), "x");
    assert_eq!(q.get_limit(), 3);
    assert_eq!(q.get_page(), 4);
    assert_eq!(q.get_per_page(), 5);
}

#[test]
fn path_identifiers() {
    let mut p = IdPathParam { id: "a1a2a3a4-b1b2-c1c2-d1d2-d3d4d5d6d7d8".to_string() };
    assert_eq!(p.get_uuid(), Some(0xa1a2a3a4b1b2c1c2d1d2d3d4d5d6d7d8));
    let mut p = IdPathParam { id: "12".to_string() };
    assert_eq!(p.get_uuid(), None);
    assert_eq!(JsonSuccessMessageResponse::new("Hello").message, "Hello");
    assert_eq!(get_uuid_from_string("{a1a2a3a4-b1b2-c1c2-d1d2-d3d4d5d6d7d8}"), Some(0xa1a2a3a4b1b2c1c2d1d2d3d4d5d6d7d8));
}

#[test]
fn listings_follow_creation_time() {
    let mut db = Database::new();
    BudgetRepository.create(&mut db, OWNER, BudgetForm { amount: 1, month: 1, year: 2024, comment: None }, at(2024, 5, 1)).unwrap();
    BudgetRepository.create(&mut db, OWNER, BudgetForm { amount: 1, month: 2, year: 2024, comment: None }, at(2024, 3, 1)).unwrap();
    BudgetRepository.create(&mut db, OWNER, BudgetForm { amount: 1, month: 3, year: 2024, comment: None }, at(2024, 9, 1)).unwrap();
    BudgetRepository.create(&mut db, OWNER, BudgetForm { amount: 1, month: 4, year: 2024, comment: None }, at(2024, 3, 1)).unwrap();
    let p = BudgetRepository.list_by_user_id(&db, OWNER, params(None, None, None)).unwrap();
    let months: Vec<i16> = p.records.iter().map(|b| b.month).collect();
    assert_eq!(months, vec![3, 1, 4, 2]);
    let p = BudgetRepository.list_by_user_id(&db, OWNER, params(None, Some(2), Some(3))).unwrap();
    assert_eq!(p.records.len(), 1);
    assert_eq!(p.records[0].month, 2);

    let pr = ProjectService.create(&mut db, OWNER, ProjectForm { name: "Home".to_string(), description: "d".to_string() }, at(2024, 1, 1));
    let project = uuid::Uuid::from_u128(pr.project_id).to_string();
    for (narration, day) in [("early", 2), ("late", 20), ("middle", 10)] {
        let form = ExpenseForm { project_id: project.clone(), amount: 1, narration: narration.to_string(), spent_at: None };
        ExpenseRepository.create(&mut db, OWNER, 1, form, at(2024, 3, day)).unwrap();
    }
    let p = ExpenseRepository.list_by_user_id(&db, OWNER, params(None, None, None)).unwrap();
    let order: Vec<&str> = p.records.iter().map(|(e, _)| e.narration.as_str()).collect();
    assert_eq!(order, vec!["late", "middle", "early"]);
}

#[test]
fn fresh_identifiers() {
    assert_eq!(fresh_id(&vec![1, 2], 7), 7);
    assert_eq!(fresh_id(&vec![5, 0, 1, 3], 5), 2);
    assert_eq!(fresh_id(&vec![], 0), 0);
}
