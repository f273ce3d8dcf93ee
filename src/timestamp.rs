use vstd::prelude::*;

verus! {

/// `year` is a Gregorian leap year.
pub open spec fn is_leap_year(year: int) -> bool {
    year % 4 == 0 && (year % 100 != 0 || year % 400 == 0)
}

/// The number of days of `month` (1 to 12) in `year`.
pub open spec fn days_in_month(year: int, month: int) -> int {
    if month == 2 {
        if is_leap_year(year) { 29 } else { 28 }
    } else if month == 4 || month == 6 || month == 9 || month == 11 {
        30
    } else {
        31
    }
}

/// A real calendar date of the years 1 to 9999 and a time of day to the
/// second.
pub open spec fn is_valid_datetime(year: int, month: int, day: int, hour: int, minute: int, second: int) -> bool {
    &&& 1 <= year <= 9999
    &&& 1 <= month <= 12
    &&& 1 <= day <= days_in_month(year, month)
    &&& 0 <= hour < 24
    &&& 0 <= minute < 60
    &&& 0 <= second < 60
}

/// A moment given by its calendar date and time of day, always a real one.
#[derive(Clone, Copy, Debug)]
pub struct Timestamp {
    year: i32,
    month: u32,
    day: u32,
    hour: u32,
    minute: u32,
    second: u32,
}

/// The text of a date and time in the form `YYYY-MM-DD HH:MM:SS`.
pub uninterp spec fn datetime_text(year: int, month: int, day: int, hour: int, minute: int, second: int) -> Seq<char>;

impl Timestamp {
    #[verifier::type_invariant]
    spec fn wf(self) -> bool {
        is_valid_datetime(
            self.year as int,
            self.month as int,
            self.day as int,
            self.hour as int,
            self.minute as int,
            self.second as int,
        )
    }

    /// The text of this moment in the form `YYYY-MM-DD HH:MM:SS`.
    pub closed spec fn text(self) -> Seq<char> {
        datetime_text(
            self.year as int,
            self.month as int,
            self.day as int,
            self.hour as int,
            self.minute as int,
            self.second as int,
        )
    }

    /// The year, month, day, hour, minute and second.
    pub closed spec fn parts(self) -> (int, int, int, int, int, int) {
        (self.year as int, self.month as int, self.day as int, self.hour as int, self.minute as int, self.second as int)
    }

    /// The moment with the given parts, if they name a real one.
    pub fn new(year: i32, month: u32, day: u32, hour: u32, minute: u32, second: u32) -> (r: Option<Timestamp>)
        ensures
            r is Some <==> is_valid_datetime(year as int, month as int, day as int, hour as int, minute as int, second as int),
            r matches Some(t) ==> t.parts() == (year as int, month as int, day as int, hour as int, minute as int, second as int),
    {
        if year < 1 || year > 9999 || month < 1 || month > 12 || hour >= 24 || minute >= 60 || second >= 60 {
            return None;
        }
        let leap = year % 4 == 0 && (year % 100 != 0 || year % 400 == 0);
        let days: u32 = if month == 2 {
            if leap { 29 } else { 28 }
        } else if month == 4 || month == 6 || month == 9 || month == 11 {
            30
        } else {
            31
        };
        if day < 1 || day > days {
            return None;
        }
        Some(Timestamp { year, month, day, hour, minute, second })
    }

    /// The year, month, day, hour, minute and second.
    pub fn to_parts(&self) -> (r: (i32, u32, u32, u32, u32, u32))
        ensures
            (r.0 as int, r.1 as int, r.2 as int, r.3 as int, r.4 as int, r.5 as int) == self.parts(),
    {
        (self.year, self.month, self.day, self.hour, self.minute, self.second)
    }

    /// This moment as text, `YYYY-MM-DD HH:MM:SS`.
    pub fn format(&self) -> (r: String)
        ensures
            r@ == self.text(),
    {
        proof {
            use_type_invariant(self);
        }
        format_datetime(self.year, self.month, self.day, self.hour, self.minute, self.second)
    }
}

/// Relies on chrono: `NaiveDate::from_ymd_opt` and `NaiveDate::and_hms_opt`,
/// which succeed on a real date and time of day within chrono's years
/// (-262144 to 262143), and `NaiveDateTime::format` with
/// `"%Y-%m-%d %H:%M:%S"`, whose text depends on the six parts alone.
#[verifier::external_body]
fn format_datetime(year: i32, month: u32, day: u32, hour: u32, minute: u32, second: u32) -> (r: String)
    requires
        is_valid_datetime(year as int, month as int, day as int, hour as int, minute as int, second as int),
    ensures
        r@ == datetime_text(year as int, month as int, day as int, hour as int, minute as int, second as int),
{
    let date = chrono::NaiveDate::from_ymd_opt(year, month, day).unwrap();
    let moment = date.and_hms_opt(hour, minute, second).unwrap();
    moment.format("%Y-%m-%d %H:%M:%S").to_string()
}

} // verus!
