use expense_tracker::budget_repository::BudgetRepository;
use expense_tracker::budget_service::BudgetService;
use expense_tracker::date_time::{make_budget_title, push_decimal, DateTime, Month};
use expense_tracker::http_error::{format_message, HttpStatus};
use expense_tracker::models::{BudgetForm, Database};

const OWNER: u128 = 7;
const OTHER: u128 = 8;

fn march_2024() -> DateTime {
    DateTime { year: 2024, month: 3, day: 15, hour: 10, minute: 30, second: 0 }
}

#[test]
fn title_of_march_2024() {
    let mut db = Database::new();
    let form = BudgetForm { amount: 5000, month: 3, year: 2024, comment: None };
    let b = BudgetRepository.create(&mut db, OWNER, form, march_2024()).unwrap();
    assert_eq!(b.title, "March, 2024 Budget");
    assert_eq!(b.amount, 5000);
    assert_eq!(b.amount_used, 0);
    assert_eq!(b.user_id, OWNER);
    assert_eq!(b.deleted_at, None);
    assert_eq!(db.budgets.len(), 1);
}

#[test]
fn month_thirteen_is_invalid() {
    let mut db = Database::new();
    let form = BudgetForm { amount: 5000, month: 13, year: 2024, comment: None };
    let r = BudgetRepository.create(&mut db, OWNER, form, march_2024());
    assert_eq!(r.unwrap_err(), HttpStatus::InvalidMonth);
    assert!(db.budgets.is_empty());
    assert_eq!(make_budget_title(0, 2024).unwrap_err(), "Invalid month");
    assert_eq!(make_budget_title(13, 2024).unwrap_err(), "Invalid month");
}

#[test]
fn titles_of_every_month() {
    let names = [
        "January", "February", "March", "April", "May", "June", "July", "August", "September",
        "October", "November", "December",
    ];
    for (i, name) in names.iter().enumerate() {
        let t = make_budget_title(i as i16 + 1, 1999).unwrap();
        assert_eq!(t, format!("{}, 1999 Budget", name));
        assert_eq!(Month::new(i as i16 + 1).name().unwrap(), *name);
    }
    assert_eq!(Month::new(-1).name().unwrap_err(), "Invalid month");
    assert_eq!(make_budget_title(12, -7).unwrap(), "December, -7 Budget");
    assert_eq!(make_budget_title(1, 0).unwrap(), "January, 0 Budget");
    assert_eq!(make_budget_title(5, i16::MIN).unwrap(), "May, -32768 Budget");
}

#[test]
fn decimal_text() {
    let mut s = String::from("n=");
    push_decimal(&mut s, i32::MIN);
    assert_eq!(s, "n=-2147483648");
    let mut s = String::new();
    push_decimal(&mut s, 1234509);
    assert_eq!(s, "1234509");
}

#[test]
fn budget_update_recomputes_title_and_keeps_usage() {
    let mut db = Database::new();
    let b = BudgetService
        .create(&mut db, OWNER, BudgetForm { amount: 100, month: 3, year: 2024, comment: None }, march_2024())
        .unwrap();
    BudgetService.decrement(&mut db, b.budget_id, 40).unwrap();
    let later = DateTime { year: 2024, month: 4, day: 1, hour: 0, minute: 0, second: 0 };
    let form = BudgetForm { amount: 500, month: 4, year: 2025, comment: Some("raise".to_string()) };
    let u = BudgetService.update(&mut db, b.budget_id, OWNER, form, later).unwrap();
    assert_eq!(u.title, "April, 2025 Budget");
    assert_eq!(u.amount, 500);
    assert_eq!(u.amount_used, 40);
    assert_eq!(u.comment, Some("raise".to_string()));
    assert_eq!(u.updated_at, later);
    assert_eq!(u.created_at, march_2024());
    assert_eq!(db.budgets[0].title, "April, 2025 Budget");
}

#[test]
fn budget_update_errors() {
    let mut db = Database::new();
    let b = BudgetService
        .create(&mut db, OWNER, BudgetForm { amount: 100, month: 3, year: 2024, comment: None }, march_2024())
        .unwrap();
    let form = BudgetForm { amount: 1, month: 2, year: 2024, comment: None };
    let r = BudgetService.update(&mut db, b.budget_id, OTHER, form, march_2024());
    assert_eq!(r.unwrap_err(), HttpStatus::EntityNotFound("budget".to_string()));
    let form = BudgetForm { amount: 1, month: 14, year: 2024, comment: None };
    let r = BudgetService.update(&mut db, b.budget_id, OWNER, form, march_2024());
    assert_eq!(r.unwrap_err(), HttpStatus::InvalidMonth);
    assert_eq!(db.budgets[0].amount, 100);
}

#[test]
fn budget_found_only_by_owner_and_while_live() {
    let mut db = Database::new();
    let b = BudgetService
        .create(&mut db, OWNER, BudgetForm { amount: 100, month: 3, year: 2024, comment: None }, march_2024())
        .unwrap();
    assert_eq!(BudgetRepository.find_owned_by_id(&db, b.budget_id, OWNER).unwrap().amount, 100);
    let r = BudgetRepository.find_owned_by_id(&db, b.budget_id, OTHER);
    assert_eq!(r.unwrap_err(), HttpStatus::EntityNotFound("budget".to_string()));
    assert!(BudgetRepository.find_by_id(&db, b.budget_id).is_ok());
    assert_eq!(
        BudgetRepository.find_owned_current_month_budget(&db, OWNER, march_2024()).unwrap().budget_id,
        b.budget_id
    );
    assert!(BudgetService.delete(&mut db, b.budget_id, OTHER, march_2024()).is_err());
    let d = BudgetService.delete(&mut db, b.budget_id, OWNER, march_2024()).unwrap();
    assert_eq!(d.deleted_at, None);
    assert_eq!(db.budgets[0].deleted_at, Some(march_2024()));
    assert!(BudgetRepository.find_by_id(&db, b.budget_id).is_err());
    assert!(BudgetRepository.find_owned_current_month_budget(&db, OWNER, march_2024()).is_none());
}

#[test]
fn store_failure_messages() {
    assert_eq!(format_message(&HttpStatus::DBOperationFailed), "Database operation failed");
    assert_eq!(
        format_message(&HttpStatus::EntityNotFound("budget".to_string())),
        "Such budget does not exits"
    );
    assert_eq!(format_message(&HttpStatus::InvalidMonth), "Invalid month");
}
