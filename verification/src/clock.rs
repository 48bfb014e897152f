//! The clock of the service: a reading of the UTC wall clock and the two
//! texts, time of day and date, that the time handler returns.

use vstd::prelude::*;

verus! {

/// The first year a reading can hold.
pub const MIN_YEAR: i32 = -262143;

/// The last year a reading can hold.
pub const MAX_YEAR: i32 = 262142;

/// A moment of the UTC wall clock, to the second, in the proleptic Gregorian
/// calendar.
#[derive(Clone, Copy, Debug, PartialEq, Eq)]
pub struct ClockReading {
    pub year: i32,
    pub month: u32,
    pub day: u32,
    pub hour: u32,
    pub minute: u32,
    pub second: u32,
}

/// The body of the time handler's response.
#[derive(Clone, Debug, PartialEq, Eq)]
pub struct TimeMessage {
    pub hour: String,
    pub date: String,
}

/// What a `TimeMessage` is, mathematically.
pub struct TimeMessageView {
    pub hour: Seq<char>,
    pub date: Seq<char>,
}

impl View for TimeMessage {
    type V = TimeMessageView;

    open spec fn view(&self) -> TimeMessageView {
        TimeMessageView { hour: self.hour@, date: self.date@ }
    }
}

/// Whether `year` has a 29th of February.
pub open spec fn is_leap_year(year: int) -> bool {
    year % 4 == 0 && (year % 100 != 0 || year % 400 == 0)
}

/// The number of days of `month` in `year`; 0 where there is no such month.
pub open spec fn days_in_month(year: int, month: int) -> int {
    if month == 2 {
        if is_leap_year(year) {
            29
        } else {
            28
        }
    } else if month == 4 || month == 6 || month == 9 || month == 11 {
        30
    } else if 1 <= month <= 12 {
        31
    } else {
        0
    }
}

/// Whether the calendar has the given day.
pub open spec fn valid_date(year: int, month: int, day: int) -> bool {
    &&& MIN_YEAR <= year <= MAX_YEAR
    &&& 1 <= month <= 12
    &&& 1 <= day <= days_in_month(year, month)
}

/// Whether the given time of day exists.
pub open spec fn valid_time(hour: int, minute: int, second: int) -> bool {
    0 <= hour < 24 && 0 <= minute < 60 && 0 <= second < 60
}

/// The character for a decimal digit.
pub open spec fn digit(n: int) -> char
    recommends
        0 <= n < 10,
{
    seq!['0', '1', '2', '3', '4', '5', '6', '7', '8', '9'][n]
}

/// Whether `c` is a decimal digit.
pub open spec fn is_digit(c: char) -> bool {
    '0' <= c && c <= '9'
}

/// `n` in two digits, with a leading zero below ten.
pub open spec fn two_digits(n: int) -> Seq<char>
    recommends
        0 <= n < 100,
{
    seq![digit(n / 10), digit(n % 10)]
}

/// `n` in four digits, with leading zeros below a thousand.
pub open spec fn four_digits(n: int) -> Seq<char>
    recommends
        0 <= n < 10000,
{
    two_digits(n / 100) + two_digits(n % 100)
}

/// `n` in decimal, without leading zeros.
pub open spec fn decimal(n: nat) -> Seq<char>
    decreases n,
{
    if n < 10 {
        seq![digit(n as int)]
    } else {
        decimal(n / 10).push(digit((n % 10) as int))
    }
}

/// A year as text: four digits from 0 to 9999; any other year with its sign
/// in front and at least four digits behind it.
pub open spec fn year_text(year: int) -> Seq<char> {
    if 0 <= year < 10000 {
        four_digits(year)
    } else if 0 <= year {
        seq!['+'] + decimal(year as nat)
    } else if -10000 < year {
        seq!['-'] + four_digits(-year)
    } else {
        seq!['-'] + decimal((-year) as nat)
    }
}

/// A time of day as text: hour, minute and second in two digits each, with
/// colons between them.
pub open spec fn time_text(hour: int, minute: int, second: int) -> Seq<char> {
    two_digits(hour) + seq![':'] + two_digits(minute) + seq![':'] + two_digits(second)
}

/// A date as text: year, month and day, with hyphens between them.
pub open spec fn date_text(year: int, month: int, day: int) -> Seq<char> {
    year_text(year) + seq!['-'] + two_digits(month) + seq!['-'] + two_digits(day)
}

/// Whether `s` has the shape `HH:MM:SS`.
pub open spec fn is_time_pattern(s: Seq<char>) -> bool {
    &&& s.len() == 8
    &&& is_digit(s[0]) && is_digit(s[1])
    &&& s[2] == ':'
    &&& is_digit(s[3]) && is_digit(s[4])
    &&& s[5] == ':'
    &&& is_digit(s[6]) && is_digit(s[7])
}

/// Whether `s` has the shape `YYYY-MM-DD`.
pub open spec fn is_date_pattern(s: Seq<char>) -> bool {
    &&& s.len() == 10
    &&& is_digit(s[0]) && is_digit(s[1]) && is_digit(s[2]) && is_digit(s[3])
    &&& s[4] == '-'
    &&& is_digit(s[5]) && is_digit(s[6])
    &&& s[7] == '-'
    &&& is_digit(s[8]) && is_digit(s[9])
}

/// The response for a given reading of the clock.
pub open spec fn time_message_of(reading: ClockReading) -> TimeMessageView {
    TimeMessageView {
        hour: time_text(reading.hour as int, reading.minute as int, reading.second as int),
        date: date_text(reading.year as int, reading.month as int, reading.day as int),
    }
}

/// Whether `m` is the response for the clock read at `reading`, a moment
/// that exists.
pub open spec fn read_at(m: TimeMessageView, reading: ClockReading) -> bool {
    reading.wf() && m == time_message_of(reading)
}

/// Whether `m` is the response for some reading of the clock; its date then
/// has the shape `YYYY-MM-DD` where the year read lies between 0 and 9999.
pub open spec fn read_from_clock(m: TimeMessageView) -> bool {
    exists|reading: ClockReading|
        #[trigger] read_at(m, reading) && (0 <= reading.year <= 9999 ==> is_date_pattern(m.date))
}

impl ClockReading {
    /// A reading is well formed when its day exists in the calendar and its
    /// time of day exists.
    pub open spec fn wf(&self) -> bool {
        &&& valid_date(self.year as int, self.month as int, self.day as int)
        &&& valid_time(self.hour as int, self.minute as int, self.second as int)
    }

    /// The reading with the given fields, where they name a moment that
    /// exists.
    pub fn new(year: i32, month: u32, day: u32, hour: u32, minute: u32, second: u32) -> (r: Option<
        ClockReading,
    >)
        ensures
            r is Some <==> valid_date(year as int, month as int, day as int) && valid_time(
                hour as int,
                minute as int,
                second as int,
            ),
            r is Some ==> r.unwrap() == (ClockReading { year, month, day, hour, minute, second }),
    {
        if year < MIN_YEAR || year > MAX_YEAR || month < 1 || month > 12 {
            return None;
        }
        if day < 1 || day > month_length(year, month) {
            return None;
        }
        if hour >= 24 || minute >= 60 || second >= 60 {
            return None;
        }
        Some(ClockReading { year, month, day, hour, minute, second })
    }
}

/// The number of days of `month` in `year`; 0 where there is no such month.
pub fn month_length(year: i32, month: u32) -> (n: u32)
    ensures
        n == days_in_month(year as int, month as int),
{
    if month == 2 {
        // Moved up by a multiple of 400, which keeps every remainder that
        // the leap rule looks at and leaves no year below zero.
        let shifted: i64 = year as i64 + 2147484000;
        let leap = shifted % 4 == 0 && (shifted % 100 != 0 || shifted % 400 == 0);
        if leap {
            29
        } else {
            28
        }
    } else if month == 4 || month == 6 || month == 9 || month == 11 {
        30
    } else if 1 <= month && month <= 12 {
        31
    } else {
        0
    }
}

/// Reads the UTC wall clock.
///
/// Trusted: reads the system clock with `std::time::SystemTime::now`, turns
/// the reading into chrono's UTC date and time with chrono's
/// `From<SystemTime>`, which takes a clock before 1970 as well as one after,
/// and takes the fields with chrono's `Datelike` and `Timelike` getters.
/// Claimed of every outcome: the day exists in the calendar and the time of
/// day exists.
#[verifier::external_body]
fn read_utc_clock() -> (r: ClockReading)
    ensures
        r.wf(),
{
    let now = chrono::DateTime::<chrono::Utc>::from(std::time::SystemTime::now());
    ClockReading {
        year: chrono::Datelike::year(&now),
        month: chrono::Datelike::month(&now),
        day: chrono::Datelike::day(&now),
        hour: chrono::Timelike::hour(&now),
        minute: chrono::Timelike::minute(&now),
        second: chrono::Timelike::second(&now),
    }
}

/// Renders a time of day with chrono.
///
/// Trusted: builds the time with `chrono::NaiveTime::from_hms_opt`, which
/// accepts every time of day that exists, and renders it with
/// `NaiveTime::format`. Claimed for the pattern `%H:%M:%S`: hour, minute and
/// second in two digits each, zero-padded, with colons between them.
#[verifier::external_body]
fn format_time_of_day(hour: u32, minute: u32, second: u32, pattern: &str) -> (s: String)
    requires
        valid_time(hour as int, minute as int, second as int),
        pattern@ == "%H:%M:%S"@,
    ensures
        s@ == time_text(hour as int, minute as int, second as int),
{
    chrono::NaiveTime::from_hms_opt(hour, minute, second).unwrap().format(pattern).to_string()
}

/// Renders a date with chrono.
///
/// Trusted: builds the date with `chrono::NaiveDate::from_ymd_opt`, which
/// accepts every day of the calendar between the first and the last year,
/// and renders it with `NaiveDate::format`. Claimed for the pattern
/// `%Y-%m-%d`: the year in four zero-padded digits from 0 to 9999, and
/// otherwise with its sign and at least four digits; month and day in two
/// zero-padded digits each; hyphens between them.
#[verifier::external_body]
fn format_date(year: i32, month: u32, day: u32, pattern: &str) -> (s: String)
    requires
        valid_date(year as int, month as int, day as int),
        pattern@ == "%Y-%m-%d"@,
    ensures
        s@ == date_text(year as int, month as int, day as int),
{
    chrono::NaiveDate::from_ymd_opt(year, month, day).unwrap().format(pattern).to_string()
}

/// The response for a reading of the clock: its time of day as `HH:MM:SS`
/// and its date as `YYYY-MM-DD`.
pub fn time_message(reading: &ClockReading) -> (m: TimeMessage)
    requires
        reading.wf(),
    ensures
        m@ == time_message_of(*reading),
        is_time_pattern(m@.hour),
        0 <= reading.year <= 9999 ==> is_date_pattern(m@.date),
{
    proof {
        lemma_texts_match_patterns(*reading);
    }
    TimeMessage {
        hour: format_time_of_day(reading.hour, reading.minute, reading.second, "%H:%M:%S"),
        date: format_date(reading.year, reading.month, reading.day, "%Y-%m-%d"),
    }
}

/// The response of the time handler: the time message of the moment at which
/// the clock was read.
pub fn get_time() -> (m: TimeMessage)
    ensures
        read_from_clock(m@),
        is_time_pattern(m@.hour),
{
    let reading = read_utc_clock();
    let m = time_message(&reading);
    assert(read_at(m@, reading));
    m
}

/// Two digits are two digits.
proof fn lemma_two_digits(n: int)
    requires
        0 <= n < 100,
    ensures
        two_digits(n).len() == 2,
        is_digit(two_digits(n)[0]),
        is_digit(two_digits(n)[1]),
{
}

/// For every well-formed reading the time text has the shape `HH:MM:SS`,
/// and, where the year lies between 0 and 9999, the date text has the shape
/// `YYYY-MM-DD`.
pub proof fn lemma_texts_match_patterns(reading: ClockReading)
    requires
        reading.wf(),
    ensures
        is_time_pattern(time_message_of(reading).hour),
        0 <= reading.year <= 9999 ==> is_date_pattern(time_message_of(reading).date),
{
    lemma_two_digits(reading.hour as int);
    lemma_two_digits(reading.minute as int);
    lemma_two_digits(reading.second as int);
    lemma_two_digits(reading.month as int);
    lemma_two_digits(reading.day as int);
    if 0 <= reading.year <= 9999 {
        let y = reading.year as int;
        lemma_two_digits(y / 100);
        lemma_two_digits(y % 100);
    }
}

} // verus!
