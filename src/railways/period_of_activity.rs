use vstd::prelude::*;

verus! {

/// Years that `chrono::NaiveDate` can hold.
pub const MIN_YEAR: i32 = -262143;

pub const MAX_YEAR: i32 = 262142;

/// A leap year of the proleptic Gregorian calendar.
pub open spec fn is_leap_year(year: int) -> bool {
    year % 4 == 0 && (year % 100 != 0 || year % 400 == 0)
}

/// The number of days in a month (1 to 12) of a year.
pub open spec fn days_in_month(year: int, month: int) -> int {
    if month == 2 {
        if is_leap_year(year) {
            29
        } else {
            28
        }
    } else if month == 4 || month == 6 || month == 9 || month == 11 {
        30
    } else {
        31
    }
}

/// The day exists in the calendar, within the years that a date can hold.
pub open spec fn is_calendar_day(year: int, month: int, day: int) -> bool {
    &&& MIN_YEAR <= year <= MAX_YEAR
    &&& 1 <= month <= 12
    &&& 1 <= day <= days_in_month(year, month)
}

/// Relies on `chrono::NaiveDate::from_ymd_opt`: it gives a date exactly when
/// the day exists in the proleptic Gregorian calendar and the year is within
/// chrono's range.
#[verifier::external_body]
fn calendar_day_exists(year: i32, month: u32, day: u32) -> (r: bool)
    ensures
        r == is_calendar_day(year as int, month as int, day as int),
{
    chrono::NaiveDate::from_ymd_opt(year, month, day).is_some()
}

/// When a railway company started or stopped operating: a year, or an exact
/// day.
#[derive(Debug, Copy, Clone, Eq, PartialEq, Structural)]
pub enum Date {
    Year(u32),
    ExactDay { year: i32, month: u32, day: u32 },
}

impl Date {
    pub fn with_year(year: u32) -> (r: Date)
        ensures
            r == Date::Year(year),
    {
        Date::Year(year)
    }

    /// The day `day` of month `month` of `year`; `None` when no such day
    /// exists.
    pub fn with_exact_day(year: i32, month: u32, day: u32) -> (r: Option<Date>)
        ensures
            r is Some <==> is_calendar_day(year as int, month as int, day as int),
            r matches Some(d) ==> d == (Date::ExactDay { year, month, day }),
    {
        if calendar_day_exists(year, month, day) {
            Some(Date::ExactDay { year, month, day })
        } else {
            None
        }
    }
}

/// Whether a railway company still operates.
#[derive(Debug, Eq, PartialEq, Structural, Copy, Clone)]
pub enum RailwayStatus {
    Active,
    Inactive,
}

/// When a railway company operated, and whether it still does.
#[derive(Debug, Copy, Clone, Eq, PartialEq, Structural)]
pub struct PeriodOfActivity {
    operating_since: Date,
    operating_until: Option<Date>,
    status: RailwayStatus,
}

impl PeriodOfActivity {
    pub closed spec fn spec_since(self) -> Date {
        self.operating_since
    }

    pub closed spec fn spec_until(self) -> Option<Date> {
        self.operating_until
    }

    pub closed spec fn spec_status(self) -> RailwayStatus {
        self.status
    }

    pub fn new(
        operating_since: Date,
        operating_until: Option<Date>,
        status: RailwayStatus,
    ) -> (r: PeriodOfActivity)
        ensures
            r.spec_since() == operating_since,
            r.spec_until() == operating_until,
            r.spec_status() == status,
    {
        PeriodOfActivity { operating_since, operating_until, status }
    }

    /// Active since `operating_since`.
    pub fn active_railway(operating_since: Date) -> (r: PeriodOfActivity)
        ensures
            r.spec_since() == operating_since,
            r.spec_until() is None,
            r.spec_status() == RailwayStatus::Active,
    {
        PeriodOfActivity { operating_since, operating_until: None, status: RailwayStatus::Active }
    }

    /// Active from `operating_since` to `operating_until`, and no longer.
    pub fn inactive_railway(operating_since: Date, operating_until: Date) -> (r: PeriodOfActivity)
        ensures
            r.spec_since() == operating_since,
            r.spec_until() == Some(operating_until),
            r.spec_status() == RailwayStatus::Inactive,
    {
        PeriodOfActivity {
            operating_since,
            operating_until: Some(operating_until),
            status: RailwayStatus::Inactive,
        }
    }

    pub fn operating_since(&self) -> (r: &Date)
        ensures
            *r == self.spec_since(),
    {
        &self.operating_since
    }

    pub fn operating_until(&self) -> (r: Option<&Date>)
        ensures
            match r {
                Some(d) => self.spec_until() == Some(*d),
                None => self.spec_until() is None,
            },
    {
        self.operating_until.as_ref()
    }

    pub fn status(&self) -> (r: RailwayStatus)
        ensures
            r == self.spec_status(),
    {
        self.status
    }
}

} // verus!
