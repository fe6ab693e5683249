use chrono::{Datelike, Timelike};
use vstd::prelude::*;

verus! {

/// English name of a month, 1-indexed; empty outside 1..=12.
pub open spec fn month_name(m: int) -> Seq<char> {
    if m == 1 {
        "January"@
    } else if m == 2 {
        "February"@
    } else if m == 3 {
        "March"@
    } else if m == 4 {
        "April"@
    } else if m == 5 {
        "May"@
    } else if m == 6 {
        "June"@
    } else if m == 7 {
        "July"@
    } else if m == 8 {
        "August"@
    } else if m == 9 {
        "September"@
    } else if m == 10 {
        "October"@
    } else if m == 11 {
        "November"@
    } else if m == 12 {
        "December"@
    } else {
        Seq::empty()
    }
}

pub open spec fn is_month(m: int) -> bool {
    1 <= m <= 12
}

/// The character of a decimal digit.
pub open spec fn digit_char(d: nat) -> char {
    if d == 0 {
        '0'
    } else if d == 1 {
        '1'
    } else if d == 2 {
        '2'
    } else if d == 3 {
        '3'
    } else if d == 4 {
        '4'
    } else if d == 5 {
        '5'
    } else if d == 6 {
        '6'
    } else if d == 7 {
        '7'
    } else if d == 8 {
        '8'
    } else {
        '9'
    }
}

/// Decimal digits of a natural number, most significant first, no leading zeros.
pub open spec fn digits(n: nat) -> Seq<char>
    decreases n,
{
    if n < 10 {
        seq![digit_char(n)]
    } else {
        digits(n / 10).push(digit_char(n % 10))
    }
}

/// Decimal text of an integer, with a leading minus sign when negative.
pub open spec fn decimal(n: int) -> Seq<char> {
    if n < 0 {
        seq!['-'] + digits((-n) as nat)
    } else {
        digits(n as nat)
    }
}

/// Title of the budget of a month: "March, 2024 Budget".
pub open spec fn budget_title(month: int, year: int) -> Seq<char> {
    month_name(month) + ", "@ + decimal(year) + " Budget"@
}

fn digit_str(d: u32) -> (r: &'static str)
    requires
        d < 10,
    ensures
        r@ == seq![digit_char(d as nat)],
{
    proof {
        reveal_strlit("0");
        reveal_strlit("1");
        reveal_strlit("2");
        reveal_strlit("3");
        reveal_strlit("4");
        reveal_strlit("5");
        reveal_strlit("6");
        reveal_strlit("7");
        reveal_strlit("8");
        reveal_strlit("9");
    }
    if d == 0 {
        "0"
    } else if d == 1 {
        "1"
    } else if d == 2 {
        "2"
    } else if d == 3 {
        "3"
    } else if d == 4 {
        "4"
    } else if d == 5 {
        "5"
    } else if d == 6 {
        "6"
    } else if d == 7 {
        "7"
    } else if d == 8 {
        "8"
    } else {
        "9"
    }
}

fn push_digits(s: &mut String, n: u32)
    ensures
        final(s)@ == old(s)@ + digits(n as nat),
    decreases n,
{
    if n >= 10 {
        push_digits(s, n / 10);
    }
    s.append(digit_str(n % 10));
    proof {
        if n >= 10 {
            assert(digits(n as nat) == digits((n / 10) as nat).push(digit_char((n % 10) as nat)));
        }
    }
}

/// Appends the decimal text of `n` to `s`.
pub fn push_decimal(s: &mut String, n: i32)
    ensures
        final(s)@ == old(s)@ + decimal(n as int),
{
    if n < 0 {
        s.append("-");
        proof {
            reveal_strlit("-");
        }
        let m: u32 = if n == i32::MIN {
            2147483648u32
        } else {
            (-n) as u32
        };
        push_digits(s, m);
    } else {
        push_digits(s, n as u32);
    }
}

/// The title of the budget of `month` in `year`; `Err` with "Invalid month" when `month`
/// is not in 1..=12.
pub fn make_budget_title(month: i16, year: i16) -> (r: Result<String, String>)
    ensures
        r is Ok <==> is_month(month as int),
        r matches Ok(t) ==> t@ == budget_title(month as int, year as int),
        r matches Err(e) ==> e@ == "Invalid month"@,
{
    let mut lookup = Month::new(month);
    match lookup.name() {
        Ok(name) => {
            let mut title = name.to_string();
            title.append(", ");
            push_decimal(&mut title, year as i32);
            title.append(" Budget");
            Ok(title)
        },
        Err(e) => Err(e),
    }
}

pub struct MonthItem<'n> {
    pub number: i16,
    pub name: &'n str,
}

/// A month number together with the table of month names it is looked up in.
pub struct Month<'m> {
    pub month: i16,
    pub months: Vec<MonthItem<'m>>,
}

impl<'m> Month<'m> {
    /// The lookup table holds the twelve months in order.
    pub open spec fn wf(&self) -> bool {
        &&& self.months@.len() == 12
        &&& forall|i: int|
            0 <= i < 12 ==> {
                &&& (#[trigger] self.months@[i]).number == i + 1
                &&& self.months@[i].name@ == month_name(i + 1)
            }
    }

    pub fn new<'mo>(current_month: i16) -> (r: Month<'mo>)
        ensures
            r.month == current_month,
            r.wf(),
    {
        let months = vec![
            MonthItem { number: 1, name: "January" },
            MonthItem { number: 2, name: "February" },
            MonthItem { number: 3, name: "March" },
            MonthItem { number: 4, name: "April" },
            MonthItem { number: 5, name: "May" },
            MonthItem { number: 6, name: "June" },
            MonthItem { number: 7, name: "July" },
            MonthItem { number: 8, name: "August" },
            MonthItem { number: 9, name: "September" },
            MonthItem { number: 10, name: "October" },
            MonthItem { number: 11, name: "November" },
            MonthItem { number: 12, name: "December" },
        ];
        Month { month: current_month, months }
    }

    /// Name of the first table entry whose number is the month.
    pub fn name(&mut self) -> (r: Result<&str, String>)
        ensures
            *final(self) == *old(self),
            old(self).wf() ==> (r is Ok <==> is_month(old(self).month as int)),
            old(self).wf() ==> (r matches Ok(n) ==> n@ == month_name(old(self).month as int)),
            r matches Err(e) ==> e@ == "Invalid month"@,
    {
        let mut i: usize = 0;
        while i < self.months.len()
            invariant
                0 <= i <= self.months@.len(),
                self.wf() ==> i <= self.month - 1 || !is_month(self.month as int),
                self.wf() ==> forall|j: int| 0 <= j < i ==> self.months@[j].number != self.month,
            decreases self.months@.len() - i,
        {
            if self.month == self.months[i].number {
                return Ok(self.months[i].name);
            }
            i = i + 1;
        }
        Err("Invalid month".to_string())
    }
}

} // verus!

verus! {

/// A local date and time of day, to the second.
#[derive(Clone, Copy, Debug, PartialEq, Eq, Structural)]
pub struct DateTime {
    pub year: i32,
    pub month: u32,
    pub day: u32,
    pub hour: u32,
    pub minute: u32,
    pub second: u32,
}

impl DateTime {
    /// Every field lies in its calendar range.
    pub open spec fn wf(&self) -> bool {
        &&& 1 <= self.month <= 12
        &&& 1 <= self.day <= 31
        &&& self.hour < 24
        &&& self.minute < 60
        &&& self.second < 60
    }
}

/// `a` is an earlier moment than `b`.
pub open spec fn earlier(a: DateTime, b: DateTime) -> bool {
    if a.year != b.year {
        a.year < b.year
    } else if a.month != b.month {
        a.month < b.month
    } else if a.day != b.day {
        a.day < b.day
    } else if a.hour != b.hour {
        a.hour < b.hour
    } else if a.minute != b.minute {
        a.minute < b.minute
    } else {
        a.second < b.second
    }
}

/// Whether `a` is an earlier moment than `b`.
pub fn is_earlier(a: &DateTime, b: &DateTime) -> (r: bool)
    ensures
        r == earlier(*a, *b),
{
    if a.year != b.year {
        a.year < b.year
    } else if a.month != b.month {
        a.month < b.month
    } else if a.day != b.day {
        a.day < b.day
    } else if a.hour != b.hour {
        a.hour < b.hour
    } else if a.minute != b.minute {
        a.minute < b.minute
    } else {
        a.second < b.second
    }
}

/// Layout of a timestamp given as text: `YYYY-MM-DD HH:MM:SS`.
pub const TIMESTAMP_FORMAT: &'static str = "%Y-%m-%d %H:%M:%S";

/// What chrono's `NaiveDateTime::parse_from_str` makes of a text in a format.
pub uninterp spec fn parsed_date_time(text: Seq<char>, format: Seq<char>) -> Option<DateTime>;

/// The ISO week-numbering year and week of a calendar date, as chrono's
/// `NaiveDate::from_ymd_opt` followed by `Datelike::iso_week` give them.
pub uninterp spec fn iso_week_of(year: int, month: int, day: int) -> Option<(i32, u32)>;

/// Relies on chrono's `Local::now().naive_local()`: the local date and time now, whose
/// accessors `month`, `day`, `hour`, `minute` and `second` stay in their documented ranges.
#[verifier::external_body]
pub fn current_timestamp() -> (r: DateTime)
    ensures
        r.wf(),
{
    let t = chrono::Local::now().naive_local();
    DateTime {
        year: t.year(),
        month: t.month(),
        day: t.day(),
        hour: t.hour(),
        minute: t.minute(),
        second: t.second(),
    }
}

/// Relies on chrono's `NaiveDateTime::parse_from_str`: the parsed date and time, if the
/// text matches the format; accessor values stay in their documented ranges.
#[verifier::external_body]
pub(crate) fn parse_date_time(text: &str, format: &str) -> (r: Option<DateTime>)
    ensures
        r == parsed_date_time(text@, format@),
        r matches Some(t) ==> t.wf(),
{
    match chrono::NaiveDateTime::parse_from_str(text, format) {
        Ok(t) => Some(DateTime {
            year: t.year(),
            month: t.month(),
            day: t.day(),
            hour: t.hour(),
            minute: t.minute(),
            second: t.second(),
        }),
        Err(_) => None,
    }
}

/// Relies on chrono's `NaiveDate::from_ymd_opt` and `Datelike::iso_week`: the ISO year and
/// week (1 to 53) of a date, `None` when the date does not exist.
#[verifier::external_body]
pub(crate) fn iso_week(year: i32, month: u32, day: u32) -> (r: Option<(i32, u32)>)
    ensures
        r == iso_week_of(year as int, month as int, day as int),
        r matches Some(w) ==> 1 <= w.1 <= 53,
{
    match chrono::NaiveDate::from_ymd_opt(year, month, day) {
        Some(d) => Some((d.iso_week().year(), d.iso_week().week())),
        None => None,
    }
}

/// The time given as text, parsed as `YYYY-MM-DD HH:MM:SS`, or `now` when none is given.
pub open spec fn spent_time(spent_at: Option<String>, now: DateTime) -> Option<DateTime> {
    match spent_at {
        None => Some(now),
        Some(s) => parsed_date_time(s@, TIMESTAMP_FORMAT@),
    }
}

/// The time an entry was spent at: the text parsed as `YYYY-MM-DD HH:MM:SS` when given,
/// `now` when not; `None` when the text does not parse.
pub fn get_nullable_time(spent_at: &Option<String>, now: DateTime) -> (r: Option<DateTime>)
    ensures
        r == spent_time(*spent_at, now),
{
    match spent_at {
        None => Some(now),
        Some(s) => parse_date_time(s.as_str(), TIMESTAMP_FORMAT),
    }
}

} // verus!
