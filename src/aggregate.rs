use crate::date_time::{iso_week, iso_week_of, DateTime};
use crate::models::{Expense, ExpenseAggregate};
use vstd::prelude::*;

verus! {

/// Whose expenses are summed.
#[derive(Clone, Copy, Debug, PartialEq, Eq, Structural)]
pub enum Scope {
    User(u128),
    Project(u128),
}

/// The calendar window, around a moment, that a sum covers.
#[derive(Clone, Copy, Debug, PartialEq, Eq, Structural)]
pub enum Window {
    Year,
    Month,
    Week,
    Today,
}

pub open spec fn in_scope(e: Expense, scope: Scope) -> bool {
    match scope {
        Scope::User(id) => e.user_id == id,
        Scope::Project(id) => e.project_id == id,
    }
}

/// A live expense of the scope, spent in the window around `now`. `week` is the ISO week
/// of the day it was spent on and `now_week` that of `now`.
pub open spec fn counts_in(
    e: Expense,
    week: Option<(i32, u32)>,
    scope: Scope,
    now: DateTime,
    now_week: Option<(i32, u32)>,
    w: Window,
) -> bool {
    &&& e.deleted_at is None
    &&& in_scope(e, scope)
    &&& match w {
        Window::Year => e.spent_at.year == now.year,
        Window::Month => e.spent_at.year == now.year && e.spent_at.month == now.month,
        Window::Week => week is Some && week == now_week,
        Window::Today => e.spent_at.year == now.year && e.spent_at.month == now.month && e.spent_at.day == now.day,
    }
}

/// Sum of the amounts of the first `n` expenses that count in the window.
pub open spec fn window_total(
    s: Seq<Expense>,
    weeks: Seq<Option<(i32, u32)>>,
    scope: Scope,
    now: DateTime,
    now_week: Option<(i32, u32)>,
    w: Window,
    n: int,
) -> int
    decreases n,
{
    if n <= 0 {
        0
    } else {
        window_total(s, weeks, scope, now, now_week, w, n - 1) + if counts_in(
            s[n - 1],
            weeks[n - 1],
            scope,
            now,
            now_week,
            w,
        ) {
            s[n - 1].amount as int
        } else {
            0
        }
    }
}

/// The sum over the window: `None` where no expense counts in it.
pub open spec fn window_sum(
    s: Seq<Expense>,
    weeks: Seq<Option<(i32, u32)>>,
    scope: Scope,
    now: DateTime,
    now_week: Option<(i32, u32)>,
    w: Window,
) -> Option<int> {
    if exists|j: int| 0 <= j < s.len() && #[trigger] counts_in(s[j], weeks[j], scope, now, now_week, w) {
        Some(window_total(s, weeks, scope, now, now_week, w, s.len() as int))
    } else {
        None
    }
}

pub open spec fn as_int(v: Option<i128>) -> Option<int> {
    match v {
        Some(x) => Some(x as int),
        None => None,
    }
}

/// The four sums, given the ISO week of each expense and of `now`.
pub open spec fn aggregate_of(
    s: Seq<Expense>,
    weeks: Seq<Option<(i32, u32)>>,
    scope: Scope,
    now: DateTime,
    now_week: Option<(i32, u32)>,
    a: ExpenseAggregate,
) -> bool {
    &&& as_int(a.year_expenses) == window_sum(s, weeks, scope, now, now_week, Window::Year)
    &&& as_int(a.month_expenses) == window_sum(s, weeks, scope, now, now_week, Window::Month)
    &&& as_int(a.week_expenses) == window_sum(s, weeks, scope, now, now_week, Window::Week)
    &&& as_int(a.today_expenses) == window_sum(s, weeks, scope, now, now_week, Window::Today)
}

/// The ISO week of the day each expense was spent on.
pub open spec fn spent_weeks(s: Seq<Expense>) -> Seq<Option<(i32, u32)>> {
    Seq::new(
        s.len(),
        |j: int| iso_week_of(s[j].spent_at.year as int, s[j].spent_at.month as int, s[j].spent_at.day as int),
    )
}

fn counts(
    e: &Expense,
    week: Option<(i32, u32)>,
    scope: Scope,
    now: DateTime,
    now_week: Option<(i32, u32)>,
    w: Window,
) -> (r: bool)
    ensures
        r == counts_in(*e, week, scope, now, now_week, w),
{
    let scoped = match scope {
        Scope::User(id) => e.user_id == id,
        Scope::Project(id) => e.project_id == id,
    };
    let t = e.spent_at;
    let windowed = match w {
        Window::Year => t.year == now.year,
        Window::Month => t.year == now.year && t.month == now.month,
        Window::Week => week.is_some() && week == now_week,
        Window::Today => t.year == now.year && t.month == now.month && t.day == now.day,
    };
    e.deleted_at.is_none() && scoped && windowed
}

/// Sum of the amounts of the live expenses of `scope` spent in window `w` around `now`;
/// `None` where there are none.
pub fn sum_window(
    expenses: &Vec<Expense>,
    weeks: &Vec<Option<(i32, u32)>>,
    scope: Scope,
    now: DateTime,
    now_week: Option<(i32, u32)>,
    w: Window,
) -> (r: Option<i128>)
    requires
        weeks@.len() == expenses@.len(),
    ensures
        as_int(r) == window_sum(expenses@, weeks@, scope, now, now_week, w),
{
    let mut total: i128 = 0;
    let mut any = false;
    let mut j: usize = 0;
    while j < expenses.len()
        invariant
            0 <= j <= expenses@.len(),
            weeks@.len() == expenses@.len(),
            total as int == window_total(expenses@, weeks@, scope, now, now_week, w, j as int),
            -(j as int) * 0x8000_0000_0000_0000 <= total <= (j as int) * 0x8000_0000_0000_0000,
            any == exists|q: int| 0 <= q < j && #[trigger] counts_in(expenses@[q], weeks@[q], scope, now, now_week, w),
        decreases expenses@.len() - j,
    {
        if counts(&expenses[j], weeks[j], scope, now, now_week, w) {
            total = total + expenses[j].amount as i128;
            any = true;
        }
        j = j + 1;
    }
    if any {
        Some(total)
    } else {
        None
    }
}

/// The four sums over the expenses of `scope`, given the ISO week of the day each was
/// spent on (`weeks`) and of `now` (`now_week`).
pub fn sum_by_windows(
    expenses: &Vec<Expense>,
    weeks: &Vec<Option<(i32, u32)>>,
    scope: Scope,
    now: DateTime,
    now_week: Option<(i32, u32)>,
) -> (r: ExpenseAggregate)
    requires
        weeks@.len() == expenses@.len(),
    ensures
        aggregate_of(expenses@, weeks@, scope, now, now_week, r),
{
    ExpenseAggregate {
        year_expenses: sum_window(expenses, weeks, scope, now, now_week, Window::Year),
        month_expenses: sum_window(expenses, weeks, scope, now, now_week, Window::Month),
        week_expenses: sum_window(expenses, weeks, scope, now, now_week, Window::Week),
        today_expenses: sum_window(expenses, weeks, scope, now, now_week, Window::Today),
    }
}

/// The four sums over the expenses of `scope` around `now`, with ISO weeks from chrono.
pub fn aggregate(expenses: &Vec<Expense>, scope: Scope, now: DateTime) -> (r: ExpenseAggregate)
    ensures
        aggregate_of(
            expenses@,
            spent_weeks(expenses@),
            scope,
            now,
            iso_week_of(now.year as int, now.month as int, now.day as int),
            r,
        ),
{
    let mut weeks: Vec<Option<(i32, u32)>> = Vec::new();
    let mut j: usize = 0;
    while j < expenses.len()
        invariant
            0 <= j <= expenses@.len(),
            weeks@ == spent_weeks(expenses@).take(j as int),
        decreases expenses@.len() - j,
    {
        let t = expenses[j].spent_at;
        weeks.push(iso_week(t.year, t.month, t.day));
        j = j + 1;
    }
    assert(weeks@ =~= spent_weeks(expenses@));
    let now_week = iso_week(now.year, now.month, now.day);
    sum_by_windows(expenses, &weeks, scope, now, now_week)
}

} // verus!
