use expense_tracker::budget_repository::BudgetRepository;
use expense_tracker::budget_service::BudgetService;
use expense_tracker::date_time::DateTime;
use expense_tracker::expense_repository::ExpenseRepository;
use expense_tracker::expense_service::ExpenseService;
use expense_tracker::http_error::{ExpenseError, HttpStatus};
use expense_tracker::models::{BudgetForm, Database, ExpenseForm};

const OWNER: u128 = 7;
const OTHER: u128 = 8;
const PROJECT: &str = "550e8400-e29b-41d4-a716-446655440000";

fn march_2024() -> DateTime {
    DateTime { year: 2024, month: 3, day: 15, hour: 10, minute: 30, second: 0 }
}

fn budget_form(amount: i64, month: i16, year: i16) -> BudgetForm {
    BudgetForm { amount, month, year, comment: None }
}

fn expense_form(amount: i64, narration: &str) -> ExpenseForm {
    ExpenseForm {
        project_id: PROJECT.to_string(),
        amount,
        narration: narration.to_string(),
        spent_at: None,
    }
}

fn db_with_budget(amount: i64) -> (Database, u128) {
    let mut db = Database::new();
    let b = BudgetRepository.create(&mut db, OWNER, budget_form(amount, 3, 2024), march_2024()).unwrap();
    (db, b.budget_id)
}

#[test]
fn groceries_then_overspend() {
    let (mut db, _) = db_with_budget(10000);
    let e = ExpenseService.create(&mut db, OWNER, expense_form(4000, "groceries"), march_2024()).unwrap();
    assert_eq!(e.amount, 4000);
    assert_eq!(e.narration, "groceries");
    assert_eq!(db.budgets[0].amount_used, 4000);
    assert_eq!(e.budget_id, db.budgets[0].budget_id);
    assert_eq!(e.spent_at, march_2024());
    let r = ExpenseService.create(&mut db, OWNER, expense_form(7000, "rent"), march_2024());
    assert_eq!(r.unwrap_err(), ExpenseError::ExceedsBudget);
    assert_eq!(db.budgets[0].amount_used, 4000);
    assert_eq!(db.expenses.len(), 1);
}

#[test]
fn exact_capacity_uses_budget_up() {
    let (mut db, _) = db_with_budget(10000);
    ExpenseService.create(&mut db, OWNER, expense_form(2500, "a"), march_2024()).unwrap();
    let available = db.budgets[0].amount - db.budgets[0].amount_used;
    assert!(ExpenseService.create(&mut db, OWNER, expense_form(available, "b"), march_2024()).is_ok());
    assert_eq!(db.budgets[0].amount_used, db.budgets[0].amount);
}

#[test]
fn one_over_capacity_fails() {
    let (mut db, _) = db_with_budget(10000);
    ExpenseService.create(&mut db, OWNER, expense_form(2500, "a"), march_2024()).unwrap();
    let available = db.budgets[0].amount - db.budgets[0].amount_used;
    let r = ExpenseService.create(&mut db, OWNER, expense_form(available + 1, "b"), march_2024());
    assert_eq!(r.unwrap_err(), ExpenseError::ExceedsBudget);
    assert_eq!(db.budgets[0].amount_used, 2500);
    assert_eq!(db.expenses.len(), 1);
}

#[test]
fn no_budget_for_month() {
    let mut db = Database::new();
    let r = ExpenseService.create(&mut db, OWNER, expense_form(10, "coffee"), march_2024());
    assert_eq!(r.unwrap_err(), ExpenseError::NoBudgetForMonth);
    assert!(db.expenses.is_empty());
}

#[test]
fn budget_of_another_month_year_or_owner_is_not_current() {
    let mut db = Database::new();
    BudgetRepository.create(&mut db, OWNER, budget_form(1000, 4, 2024), march_2024()).unwrap();
    BudgetRepository.create(&mut db, OWNER, budget_form(1000, 3, 2023), march_2024()).unwrap();
    BudgetRepository.create(&mut db, OTHER, budget_form(1000, 3, 2024), march_2024()).unwrap();
    let r = ExpenseService.create(&mut db, OWNER, expense_form(10, "coffee"), march_2024());
    assert_eq!(r.unwrap_err(), ExpenseError::NoBudgetForMonth);
    assert!(db.expenses.is_empty());
}

#[test]
fn deleted_budget_is_not_current() {
    let (mut db, id) = db_with_budget(1000);
    BudgetService.delete(&mut db, id, OWNER, march_2024()).unwrap();
    let r = ExpenseService.create(&mut db, OWNER, expense_form(10, "coffee"), march_2024());
    assert_eq!(r.unwrap_err(), ExpenseError::NoBudgetForMonth);
}

#[test]
fn calls_in_turn_stop_at_the_limit() {
    let n: i64 = 5;
    let amount: i64 = 300;
    let (mut db, _) = db_with_budget((n - 1) * amount);
    let mut ok = 0;
    let mut failed = 0;
    for _ in 0..n {
        match ExpenseService.create(&mut db, OWNER, expense_form(amount, "x"), march_2024()) {
            Ok(_) => ok += 1,
            Err(e) => {
                assert_eq!(e, ExpenseError::ExceedsBudget);
                failed += 1;
            }
        }
    }
    assert_eq!(ok, n - 1);
    assert_eq!(failed, 1);
    assert_eq!(db.budgets[0].amount_used, db.budgets[0].amount);
}

#[test]
fn used_never_exceeds_limit() {
    let (mut db, _) = db_with_budget(1000);
    for amount in [300, 500, 400, 150, 60, 1, 1000, 49] {
        let _ = ExpenseService.create(&mut db, OWNER, expense_form(amount, "x"), march_2024());
        assert!(db.budgets[0].amount_used <= db.budgets[0].amount);
        assert!(db.budgets[0].amount_used >= 0);
    }
    assert_eq!(db.budgets[0].amount_used, 1000);
}

#[test]
fn non_positive_amount_is_refused() {
    let (mut db, _) = db_with_budget(1000);
    let r = ExpenseService.create(&mut db, OWNER, expense_form(0, "x"), march_2024());
    assert_eq!(r.unwrap_err(), ExpenseError::InvalidAmount);
    let r = ExpenseService.create(&mut db, OWNER, expense_form(-5, "x"), march_2024());
    assert_eq!(r.unwrap_err(), ExpenseError::InvalidAmount);
    assert_eq!(db.budgets[0].amount_used, 0);
    assert!(db.expenses.is_empty());
}

#[test]
fn bad_project_reference_is_refused() {
    let (mut db, _) = db_with_budget(1000);
    let mut form = expense_form(10, "x");
    form.project_id = "not-a-uuid".to_string();
    let r = ExpenseService.create(&mut db, OWNER, form, march_2024());
    assert_eq!(r.unwrap_err(), ExpenseError::InvalidProjectId);
    assert_eq!(db.budgets[0].amount_used, 0);
}

#[test]
fn bad_spent_at_is_refused() {
    let (mut db, _) = db_with_budget(1000);
    let mut form = expense_form(10, "x");
    form.spent_at = Some("2024/03/01".to_string());
    let r = ExpenseService.create(&mut db, OWNER, form, march_2024());
    assert_eq!(r.unwrap_err(), ExpenseError::InvalidSpentAt);
    assert!(db.expenses.is_empty());
}

#[test]
fn spent_at_and_project_are_read_from_the_form() {
    let (mut db, _) = db_with_budget(1000);
    let mut form = expense_form(10, "x");
    form.spent_at = Some("2024-03-02 08:09:10".to_string());
    let e = ExpenseService.create(&mut db, OWNER, form, march_2024()).unwrap();
    assert_eq!(e.spent_at, DateTime { year: 2024, month: 3, day: 2, hour: 8, minute: 9, second: 10 });
    assert_eq!(e.project_id, 0x550e8400_e29b_41d4_a716_446655440000);
    assert_eq!(e.created_at, march_2024());
}

#[test]
fn capacity_is_checked_before_the_form() {
    let (mut db, _) = db_with_budget(100);
    let mut form = expense_form(101, "x");
    form.project_id = "bad".to_string();
    let r = ExpenseService.create(&mut db, OWNER, form, march_2024());
    assert_eq!(r.unwrap_err(), ExpenseError::ExceedsBudget);
}

#[test]
fn expense_store_insert_does_not_touch_budget() {
    let (mut db, id) = db_with_budget(100);
    let e = ExpenseRepository.create(&mut db, OWNER, id, expense_form(500, "x"), march_2024()).unwrap();
    assert_eq!(e.budget_id, id);
    assert_eq!(db.budgets[0].amount_used, 0);
    assert_eq!(db.expenses.len(), 1);
}

#[test]
fn decrement_only_within_limit() {
    let (mut db, id) = db_with_budget(100);
    let b = BudgetService.decrement(&mut db, id, 60).unwrap();
    assert_eq!(b.amount_used, 60);
    assert!(BudgetService.decrement(&mut db, id, 41).is_none());
    assert_eq!(db.budgets[0].amount_used, 60);
    assert_eq!(BudgetService.decrement(&mut db, id, 40).unwrap().amount_used, 100);
    assert!(BudgetService.decrement(&mut db, id + 1, 1).is_none());
}

#[test]
fn expense_update_keeps_budget_usage() {
    let (mut db, _) = db_with_budget(1000);
    let e = ExpenseService.create(&mut db, OWNER, expense_form(100, "x"), march_2024()).unwrap();
    let later = DateTime { year: 2024, month: 3, day: 20, hour: 0, minute: 0, second: 0 };
    let u = ExpenseService.update(&mut db, e.expense_id, OWNER, expense_form(900, "y"), later).unwrap();
    assert_eq!(u.amount, 900);
    assert_eq!(u.narration, "y");
    assert_eq!(u.updated_at, later);
    assert_eq!(u.created_at, march_2024());
    assert_eq!(db.budgets[0].amount_used, 100);
    let r = ExpenseService.update(&mut db, e.expense_id, OTHER, expense_form(1, "z"), later);
    assert_eq!(r.unwrap_err(), ExpenseError::Store(HttpStatus::EntityNotFound("expense".to_string())));
    let r = ExpenseService.update(&mut db, e.expense_id, OWNER, expense_form(0, "z"), later);
    assert_eq!(r.unwrap_err(), ExpenseError::InvalidAmount);
}

#[test]
fn expense_delete_hides_it() {
    let (mut db, _) = db_with_budget(1000);
    let e = ExpenseService.create(&mut db, OWNER, expense_form(100, "x"), march_2024()).unwrap();
    assert!(ExpenseService.delete(&mut db, e.expense_id, OTHER, march_2024()).is_err());
    let d = ExpenseService.delete(&mut db, e.expense_id, OWNER, march_2024()).unwrap();
    assert_eq!(d.deleted_at, None);
    assert_eq!(d.expense_id, e.expense_id);
    assert_eq!(db.expenses[0].deleted_at, Some(march_2024()));
    assert_eq!(db.budgets[0].amount_used, 100);
    let r = ExpenseRepository.find_owned_by_id(&db, e.expense_id, OWNER);
    assert_eq!(r.unwrap_err(), HttpStatus::EntityNotFound("expense".to_string()));
    assert!(ExpenseRepository.find_by_id(&db, e.expense_id).is_err());
}

#[test]
fn expense_found_only_by_owner() {
    let (mut db, _) = db_with_budget(1000);
    let e = ExpenseService.create(&mut db, OWNER, expense_form(100, "x"), march_2024()).unwrap();
    assert_eq!(ExpenseRepository.find_owned_by_id(&db, e.expense_id, OWNER).unwrap().amount, 100);
    assert!(ExpenseRepository.find_owned_by_id(&db, e.expense_id, OTHER).is_err());
    assert_eq!(ExpenseRepository.find_by_id(&db, e.expense_id).unwrap().user_id, OWNER);
}

#[test]
fn error_messages() {
    assert_eq!(ExpenseError::NoBudgetForMonth.message(), "No budget for current month found");
    assert_eq!(ExpenseError::ExceedsBudget.message(), "This expense exceeds current budget");
    assert_eq!(
        ExpenseError::Store(HttpStatus::EntityNotFound("expense".to_string())).message(),
        "Such expense does not exits"
    );
}
