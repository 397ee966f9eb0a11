//! Names for a session and for the frames it stores.
//!
//! A stamp writes a local time down to the second. The time is handed in by
//! the caller, who reads the clock: nothing in here does.

use vstd::prelude::*;
use vstd::string::StringExecFns;

verus! {

/// The digit that stands for `n`, a number below ten.
pub open spec fn digit(n: int) -> char {
    seq!['0', '1', '2', '3', '4', '5', '6', '7', '8', '9'][n]
}

/// `n` in two digits, with a zero in front of a number below ten.
pub open spec fn two_digits(n: int) -> Seq<char> {
    seq![digit(n / 10), digit(n % 10)]
}

/// `n` in four digits, with zeros in front of a number below one thousand.
pub open spec fn four_digits(n: int) -> Seq<char> {
    two_digits(n / 100) + two_digits(n % 100)
}

/// `n` in as many digits as it takes.
pub open spec fn decimal(n: int) -> Seq<char>
    decreases n,
{
    if n < 10 {
        seq![digit(n)]
    } else {
        decimal(n / 10).push(digit(n % 10))
    }
}

/// A year as a stamp writes it: in four digits from the year 0 to the year
/// 9999, and else with its sign in front of at least four digits.
pub open spec fn year_text(year: int) -> Seq<char> {
    if 0 <= year <= 9999 {
        four_digits(year)
    } else if year > 9999 {
        seq!['+'] + decimal(year)
    } else if year >= -9999 {
        seq!['-'] + four_digits(-year)
    } else {
        seq!['-'] + decimal(-year)
    }
}

/// A time of the calendar, to the second, as plain mathematics.
pub struct CalendarTime {
    pub year: int,
    pub month: int,
    pub day: int,
    pub hour: int,
    pub minute: int,
    pub second: int,
}

impl CalendarTime {
    /// Every part lies in the range that the calendar gives it. The second
    /// may be 60, for a leap second.
    pub open spec fn in_range(self) -> bool {
        &&& -262144 <= self.year <= 262143
        &&& 1 <= self.month <= 12
        &&& 1 <= self.day <= 31
        &&& 0 <= self.hour <= 23
        &&& 0 <= self.minute <= 59
        &&& 0 <= self.second <= 60
    }

    /// Hour, minute and second in two digits each, as in `235959`: what
    /// the pattern `%H%M%S` of `strftime` gives.
    pub open spec fn time_of_day_text(self) -> Seq<char> {
        two_digits(self.hour) + two_digits(self.minute) + two_digits(self.second)
    }

    /// Year, month and day, an underscore, and the time of day, as in
    /// `20240131_235959`: what the pattern `%Y%m%d_%H%M%S` of `strftime`
    /// gives.
    pub open spec fn date_time_text(self) -> Seq<char> {
        year_text(self.year) + two_digits(self.month) + two_digits(self.day) + seq!['_']
            + self.time_of_day_text()
    }
}

/// `text` is a date and a time of day, as `date_time_text` writes them.
pub open spec fn is_date_time_stamp(text: Seq<char>) -> bool {
    exists|time: CalendarTime| time.in_range() && text == #[trigger] time.date_time_text()
}

/// `text` is a time of day, as `time_of_day_text` writes it.
pub open spec fn is_time_of_day_stamp(text: Seq<char>) -> bool {
    exists|time: CalendarTime| time.in_range() && text == #[trigger] time.time_of_day_text()
}

/// No year is written in fewer than four characters.
pub proof fn lemma_year_text_is_long(year: int)
    ensures
        year_text(year).len() >= 4,
{
    if year > 9999 {
        reveal_with_fuel(decimal, 4);
    } else if year < -9999 {
        reveal_with_fuel(decimal, 4);
    }
}

/// A stamp of a date and a time is never empty: it has fifteen characters
/// at least, and exactly fifteen from the year 0 to the year 9999.
pub proof fn lemma_date_time_text_is_long(time: CalendarTime)
    ensures
        time.date_time_text().len() >= 15,
        0 <= time.year <= 9999 ==> time.date_time_text().len() == 15,
        time.time_of_day_text().len() == 6,
{
    lemma_year_text_is_long(time.year);
}

/// A local date and time of day as a clock shows them. Every part lies in
/// the range that the calendar gives it.
#[derive(Clone, Copy, Debug)]
pub struct LocalTime {
    year: i32,
    month: u32,
    day: u32,
    hour: u32,
    minute: u32,
    second: u32,
}

impl View for LocalTime {
    type V = CalendarTime;

    closed spec fn view(&self) -> CalendarTime {
        CalendarTime {
            year: self.year as int,
            month: self.month as int,
            day: self.day as int,
            hour: self.hour as int,
            minute: self.minute as int,
            second: self.second as int,
        }
    }
}

impl LocalTime {
    #[verifier::type_invariant]
    spec fn well_formed(self) -> bool {
        self@.in_range()
    }

    /// The time with the given parts, where every part is in its range, and
    /// `None` where one is not.
    pub fn new(year: i32, month: u32, day: u32, hour: u32, minute: u32, second: u32) -> (time:
        Option<LocalTime>)
        ensures
            time is Some <==> (CalendarTime {
                year: year as int,
                month: month as int,
                day: day as int,
                hour: hour as int,
                minute: minute as int,
                second: second as int,
            }).in_range(),
            time matches Some(local) ==> local@ == (CalendarTime {
                year: year as int,
                month: month as int,
                day: day as int,
                hour: hour as int,
                minute: minute as int,
                second: second as int,
            }),
    {
        if -262144 <= year && year <= 262143 && 1 <= month && month <= 12 && 1 <= day && day <= 31
            && hour <= 23 && minute <= 59 && second <= 60 {
            Some(LocalTime { year, month, day, hour, minute, second })
        } else {
            None
        }
    }
}

/// The text of one digit.
fn digit_text(n: u32) -> (text: &'static str)
    requires
        n < 10,
    ensures
        text@ == seq![digit(n as int)],
{
    proof {
        reveal_strlit("0");
        reveal_strlit("1");
        reveal_strlit("2");
        reveal_strlit("3");
        reveal_strlit("4");
        reveal_strlit("5");
        reveal_strlit("6");
        reveal_strlit("7");
        reveal_strlit("8");
        reveal_strlit("9");
    }
    let text: &'static str = if n == 0 {
        "0"
    } else if n == 1 {
        "1"
    } else if n == 2 {
        "2"
    } else if n == 3 {
        "3"
    } else if n == 4 {
        "4"
    } else if n == 5 {
        "5"
    } else if n == 6 {
        "6"
    } else if n == 7 {
        "7"
    } else if n == 8 {
        "8"
    } else {
        "9"
    };
    assert(text@ =~= seq![digit(n as int)]);
    text
}

/// Writes `n` in two digits at the end of `text`.
fn append_two_digits(text: &mut String, n: u32)
    requires
        n < 100,
    ensures
        final(text)@ == old(text)@ + two_digits(n as int),
{
    text.append(digit_text(n / 10));
    text.append(digit_text(n % 10));
    assert(text@ =~= old(text)@ + two_digits(n as int));
}

/// Writes `n` in four digits at the end of `text`.
fn append_four_digits(text: &mut String, n: u32)
    requires
        n < 10000,
    ensures
        final(text)@ == old(text)@ + four_digits(n as int),
{
    append_two_digits(text, n / 100);
    append_two_digits(text, n % 100);
    assert(text@ =~= old(text)@ + four_digits(n as int));
}

/// Writes `n` at the end of `text`, in as many digits as it takes.
fn append_decimal(text: &mut String, n: u32)
    ensures
        final(text)@ == old(text)@ + decimal(n as int),
    decreases n,
{
    if n < 10 {
        text.append(digit_text(n));
    } else {
        append_decimal(text, n / 10);
        text.append(digit_text(n % 10));
        assert(text@ =~= old(text)@ + decimal(n as int));
    }
}

/// Writes a year at the end of `text`.
fn append_year(text: &mut String, year: i32)
    requires
        -262144 <= year <= 262143,
    ensures
        final(text)@ == old(text)@ + year_text(year as int),
{
    proof {
        reveal_strlit("+");
        reveal_strlit("-");
    }
    if 0 <= year && year <= 9999 {
        append_four_digits(text, year as u32);
    } else if year > 9999 {
        text.append("+");
        append_decimal(text, year as u32);
        assert(text@ =~= old(text)@ + year_text(year as int));
    } else if year >= -9999 {
        text.append("-");
        append_four_digits(text, (-year) as u32);
        assert(text@ =~= old(text)@ + year_text(year as int));
    } else {
        text.append("-");
        append_decimal(text, (-year) as u32);
        assert(text@ =~= old(text)@ + year_text(year as int));
    }
}

/// Writes hour, minute and second at the end of `text`.
fn append_time_of_day(text: &mut String, time: &LocalTime)
    ensures
        final(text)@ == old(text)@ + time@.time_of_day_text(),
{
    proof {
        use_type_invariant(time);
    }
    append_two_digits(text, time.hour);
    append_two_digits(text, time.minute);
    append_two_digits(text, time.second);
    assert(text@ =~= old(text)@ + time@.time_of_day_text());
}

/// The stamp of a date and a time, to the second: `time` written as
/// `20240131_235959`. A session that is not given a name is named by the
/// stamp of the time at which it starts.
pub fn session_stamp(time: &LocalTime) -> (stamp: String)
    ensures
        stamp@ == time@.date_time_text(),
        time@.in_range(),
        is_date_time_stamp(stamp@),
        stamp@.len() >= 15,
{
    proof {
        use_type_invariant(time);
        reveal_strlit("_");
        lemma_date_time_text_is_long(time@);
    }
    let mut stamp: String = String::new();
    append_year(&mut stamp, time.year);
    append_two_digits(&mut stamp, time.month);
    append_two_digits(&mut stamp, time.day);
    stamp.append("_");
    append_time_of_day(&mut stamp, time);
    assert(stamp@ =~= time@.date_time_text());
    stamp
}

/// The stamp of a time of day, to the second: the time of day of `time`
/// written as `235959`.
pub fn folder_stamp(time: &LocalTime) -> (stamp: String)
    ensures
        stamp@ == time@.time_of_day_text(),
        time@.in_range(),
        is_time_of_day_stamp(stamp@),
        stamp@.len() == 6,
{
    proof {
        use_type_invariant(time);
    }
    let mut stamp: String = String::new();
    append_time_of_day(&mut stamp, time);
    assert(stamp@ =~= time@.time_of_day_text());
    stamp
}

/// Whether the operator's own name is used: it was asked for and is not empty.
pub open spec fn uses_custom_name(use_custom_name: bool, custom_name: Seq<char>) -> bool {
    use_custom_name && custom_name.len() > 0
}

/// The seed of a session: the custom name where it is used, else `fallback`.
pub open spec fn seed_for(
    use_custom_name: bool,
    custom_name: Seq<char>,
    fallback: Seq<char>,
) -> Seq<char> {
    if uses_custom_name(use_custom_name, custom_name) {
        custom_name
    } else {
        fallback
    }
}

/// Picks the seed of a session between the operator's name and `fallback`.
pub fn choose_seed(use_custom_name: bool, custom_name: &str, fallback: String) -> (seed: String)
    ensures
        seed@ == seed_for(use_custom_name, custom_name@, fallback@),
{
    if use_custom_name && !custom_name.is_empty() {
        String::from_str(custom_name)
    } else {
        fallback
    }
}

/// Picks the seed of a session that starts at `started`: the operator's
/// name where it is used, and else the stamp of `started`. The seed is never
/// empty.
pub fn naming_seed(use_custom_name: bool, custom_name: &str, started: &LocalTime) -> (seed: String)
    ensures
        seed@ == seed_for(use_custom_name, custom_name@, started@.date_time_text()),
        !uses_custom_name(use_custom_name, custom_name@) ==> is_date_time_stamp(seed@),
        seed@.len() > 0,
{
    choose_seed(use_custom_name, custom_name, session_stamp(started))
}

/// The name of the folder of a session: seed, underscore, stamp.
pub open spec fn folder_name(seed: Seq<char>, stamp: Seq<char>) -> Seq<char> {
    seed + seq!['_'] + stamp
}

/// Builds the name of the folder that holds the frames of a session.
pub fn session_folder_name(seed: &str, stamp: &str) -> (name: String)
    ensures
        name@ == folder_name(seed@, stamp@),
{
    proof {
        reveal_strlit("_");
    }
    let mut name: String = String::from_str(seed);
    name.append("_");
    name.append(stamp);
    assert("_"@ =~= seq!['_']);
    name
}

/// The name of the file of one frame: target, underscore, stamp, `.png`.
pub open spec fn file_name(target: Seq<char>, stamp: Seq<char>) -> Seq<char> {
    target + seq!['_'] + stamp + seq!['.', 'p', 'n', 'g']
}

/// Builds the name of the file that holds the frame captured from the
/// target called `target_name` at the time that `stamp` gives.
pub fn frame_file_name(target_name: &str, stamp: &str) -> (name: String)
    ensures
        name@ == file_name(target_name@, stamp@),
{
    proof {
        reveal_strlit("_");
        reveal_strlit(".png");
    }
    let mut name: String = String::from_str(target_name);
    name.append("_");
    name.append(stamp);
    name.append(".png");
    assert("_"@ =~= seq!['_']);
    assert(".png"@ =~= seq!['.', 'p', 'n', 'g']);
    name
}

} // verus!
