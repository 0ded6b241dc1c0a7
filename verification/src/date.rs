use vstd::prelude::*;
use vstd::string::StrSliceExecFns;
use crate::numeric::spec_is_digit;

verus! {

/// A calendar day in the proleptic Gregorian calendar, years 0 through 9999
/// (the range a four-digit year field can carry).
#[derive(Clone, Copy, Debug, PartialEq, Eq, Structural)]
pub struct Date {
    pub year: u32,
    pub month: u32,
    pub day: u32,
}

/// An instant on a calendar day, at millisecond precision, implicitly UTC.
#[derive(Clone, Copy, Debug, PartialEq, Eq, Structural)]
pub struct Timestamp {
    pub date: Date,
    pub hour: u32,
    pub minute: u32,
    pub second: u32,
    pub millisecond: u32,
}

pub open spec fn spec_is_leap_year(y: int) -> bool {
    y % 4 == 0 && (y % 100 != 0 || y % 400 == 0)
}

pub open spec fn spec_days_in_month(y: int, m: int) -> int {
    if m == 2 {
        if spec_is_leap_year(y) {
            29
        } else {
            28
        }
    } else if m == 4 || m == 6 || m == 9 || m == 11 {
        30
    } else {
        31
    }
}

impl Date {
    /// A well-formed calendar day: month and day in range for the year.
    pub open spec fn valid(self) -> bool {
        self.year <= 9999 && 1 <= self.month <= 12 && 1 <= self.day
            <= spec_days_in_month(self.year as int, self.month as int)
    }
}

impl Timestamp {
    /// A well-formed instant: a valid day and in-range time-of-day fields.
    pub open spec fn valid(self) -> bool {
        self.date.valid() && self.hour <= 23 && self.minute <= 59 && self.second <= 59
            && self.millisecond <= 999
    }
}

pub fn is_leap_year(y: u32) -> (b: bool)
    ensures
        b == spec_is_leap_year(y as int),
{
    y % 4 == 0 && (y % 100 != 0 || y % 400 == 0)
}

pub fn days_in_month(y: u32, m: u32) -> (d: u32)
    ensures
        d == spec_days_in_month(y as int, m as int),
{
    if m == 2 {
        if is_leap_year(y) {
            29
        } else {
            28
        }
    } else if m == 4 || m == 6 || m == 9 || m == 11 {
        30
    } else {
        31
    }
}

pub fn date_valid(d: &Date) -> (b: bool)
    ensures
        b == d.valid(),
{
    d.year <= 9999 && 1 <= d.month && d.month <= 12 && 1 <= d.day && d.day <= days_in_month(
        d.year,
        d.month,
    )
}

/// Day order: `a` is on or before `b`.
pub open spec fn spec_date_le(a: Date, b: Date) -> bool {
    a.year < b.year || (a.year == b.year && (a.month < b.month || (a.month == b.month && a.day
        <= b.day)))
}

pub fn date_le(a: &Date, b: &Date) -> (r: bool)
    ensures
        r == spec_date_le(*a, *b),
{
    a.year < b.year || (a.year == b.year && (a.month < b.month || (a.month == b.month && a.day
        <= b.day)))
}

/// The day after `d`.
pub open spec fn spec_next_day(d: Date) -> Date {
    if d.day < spec_days_in_month(d.year as int, d.month as int) {
        Date { year: d.year, month: d.month, day: (d.day + 1) as u32 }
    } else if d.month < 12 {
        Date { year: d.year, month: (d.month + 1) as u32, day: 1 }
    } else {
        Date { year: (d.year + 1) as u32, month: 1, day: 1 }
    }
}

pub fn next_day(d: &Date) -> (r: Date)
    requires
        d.valid(),
        !(d.year == 9999 && d.month == 12 && d.day == 31),
    ensures
        r == spec_next_day(*d),
        r.valid(),
        spec_date_le(*d, r),
        *d != r,
{
    if d.day < days_in_month(d.year, d.month) {
        Date { year: d.year, month: d.month, day: d.day + 1 }
    } else if d.month < 12 {
        Date { year: d.year, month: d.month + 1, day: 1 }
    } else {
        Date { year: d.year + 1, month: 1, day: 1 }
    }
}

// Timestamps arrive as text in the one fixed shape `YYYY-MM-DDTHH:MM:SS.sss`:
// four year digits, two digits for every other part, three millisecond
// digits, and the five separators in their places — nothing else, no
// timezone suffix. A string of any other shape, or one whose parts are out
// of range, does not parse.
pub open spec fn spec_digit_val(c: char) -> int {
    c as int - 48
}

pub open spec fn spec_two_val(s: Seq<char>, i: int) -> int {
    spec_digit_val(s[i]) * 10 + spec_digit_val(s[i + 1])
}

pub open spec fn spec_ts_shape(s: Seq<char>) -> bool {
    s.len() == 23 && s[4] == '-' && s[7] == '-' && s[10] == 'T' && s[13] == ':' && s[16] == ':'
        && s[19] == '.' && spec_is_digit(s[0]) && spec_is_digit(s[1]) && spec_is_digit(s[2])
        && spec_is_digit(s[3]) && spec_is_digit(s[5]) && spec_is_digit(s[6]) && spec_is_digit(s[8])
        && spec_is_digit(s[9]) && spec_is_digit(s[11]) && spec_is_digit(s[12]) && spec_is_digit(
        s[14],
    ) && spec_is_digit(s[15]) && spec_is_digit(s[17]) && spec_is_digit(s[18]) && spec_is_digit(
        s[20],
    ) && spec_is_digit(s[21]) && spec_is_digit(s[22])
}

pub open spec fn spec_ts_value(s: Seq<char>) -> Timestamp {
    Timestamp {
        date: Date {
            year: (spec_two_val(s, 0) * 100 + spec_two_val(s, 2)) as u32,
            month: spec_two_val(s, 5) as u32,
            day: spec_two_val(s, 8) as u32,
        },
        hour: spec_two_val(s, 11) as u32,
        minute: spec_two_val(s, 14) as u32,
        second: spec_two_val(s, 17) as u32,
        millisecond: (spec_two_val(s, 20) * 10 + spec_digit_val(s[22])) as u32,
    }
}

/// What parsing a timestamp string yields: the instant it writes down, or
/// nothing when the text is not of the fixed shape or not a real instant.
pub open spec fn spec_parse_timestamp(s: Seq<char>) -> Option<Timestamp> {
    if spec_ts_shape(s) && spec_ts_value(s).valid() {
        Some(spec_ts_value(s))
    } else {
        None
    }
}

pub open spec fn spec_digit_char(v: int) -> char {
    if v == 0 {
        '0'
    } else if v == 1 {
        '1'
    } else if v == 2 {
        '2'
    } else if v == 3 {
        '3'
    } else if v == 4 {
        '4'
    } else if v == 5 {
        '5'
    } else if v == 6 {
        '6'
    } else if v == 7 {
        '7'
    } else if v == 8 {
        '8'
    } else {
        '9'
    }
}

/// The eight characters `YYYYMMDD` that name a day's directory.
pub open spec fn spec_day_dir_name(d: Date) -> Seq<char> {
    seq![
        spec_digit_char(d.year as int / 1000 % 10),
        spec_digit_char(d.year as int / 100 % 10),
        spec_digit_char(d.year as int / 10 % 10),
        spec_digit_char(d.year as int % 10),
        spec_digit_char(d.month as int / 10),
        spec_digit_char(d.month as int % 10),
        spec_digit_char(d.day as int / 10),
        spec_digit_char(d.day as int % 10),
    ]
}

/// The name of an hour's file: the hour in decimal, without padding.
pub open spec fn spec_hour_file_name(h: int) -> Seq<char> {
    if h < 10 {
        seq![spec_digit_char(h)]
    } else {
        seq![spec_digit_char(h / 10), spec_digit_char(h % 10)]
    }
}

fn push_digit(s: &mut String, v: u32)
    requires
        v <= 9,
    ensures
        final(s)@ == old(s)@ + seq![spec_digit_char(v as int)],
{
    proof {
        reveal_strlit("0");
        reveal_strlit("1");
        reveal_strlit("2");
        reveal_strlit("3");
        reveal_strlit("4");
        reveal_strlit("5");
        reveal_strlit("6");
        reveal_strlit("7");
        reveal_strlit("8");
        reveal_strlit("9");
    }
    match v {
        0 => s.append("0"),
        1 => s.append("1"),
        2 => s.append("2"),
        3 => s.append("3"),
        4 => s.append("4"),
        5 => s.append("5"),
        6 => s.append("6"),
        7 => s.append("7"),
        8 => s.append("8"),
        _ => s.append("9"),
    }
    assert(s@ =~= old(s)@ + seq![spec_digit_char(v as int)]);
}

/// Writes the `YYYYMMDD` directory name of a day.
pub fn day_dir_name(d: &Date) -> (r: String)
    requires
        d.valid(),
    ensures
        r@ == spec_day_dir_name(*d),
{
    let mut s = String::new();
    push_digit(&mut s, d.year / 1000);
    push_digit(&mut s, d.year / 100 % 10);
    push_digit(&mut s, d.year / 10 % 10);
    push_digit(&mut s, d.year % 10);
    push_digit(&mut s, d.month / 10);
    push_digit(&mut s, d.month % 10);
    push_digit(&mut s, d.day / 10);
    push_digit(&mut s, d.day % 10);
    proof {
        assert(s@ =~= spec_day_dir_name(*d));
    }
    s
}

/// Writes the file name of an hour, `0` through `23`.
pub fn hour_file_name(h: u32) -> (r: String)
    requires
        h <= 23,
    ensures
        r@ == spec_hour_file_name(h as int),
{
    let mut s = String::new();
    if h >= 10 {
        push_digit(&mut s, h / 10);
    }
    push_digit(&mut s, h % 10);
    proof {
        assert(s@ =~= spec_hour_file_name(h as int));
    }
    s
}

fn read_digit(s: &str, i: usize) -> (r: Option<u32>)
    requires
        i < s@.len(),
    ensures
        match r {
            Some(v) => spec_is_digit(s@[i as int]) && v == spec_digit_val(s@[i as int]) && v <= 9,
            None => !spec_is_digit(s@[i as int]),
        },
{
    let c = s.get_char(i);
    if '0' <= c && c <= '9' {
        Some(c as u32 - 48)
    } else {
        None
    }
}

fn read_two(s: &str, i: usize) -> (r: Option<u32>)
    requires
        i < usize::MAX,
        i + 1 < s@.len(),
    ensures
        match r {
            Some(v) => spec_is_digit(s@[i as int]) && spec_is_digit(s@[i as int + 1]) && v
                == spec_two_val(s@, i as int) && v <= 99,
            None => !(spec_is_digit(s@[i as int]) && spec_is_digit(s@[i as int + 1])),
        },
{
    let hi = match read_digit(s, i) {
        Some(v) => v,
        None => {
            return None;
        },
    };
    let lo = match read_digit(s, i + 1) {
        Some(v) => v,
        None => {
            return None;
        },
    };
    Some(hi * 10 + lo)
}

pub fn timestamp_valid(t: &Timestamp) -> (b: bool)
    ensures
        b == t.valid(),
{
    date_valid(&t.date) && t.hour <= 23 && t.minute <= 59 && t.second <= 59 && t.millisecond <= 999
}

/// Reads a timestamp of the fixed shape `YYYY-MM-DDTHH:MM:SS.sss`.
pub fn parse_timestamp(s: &str) -> (r: Option<Timestamp>)
    ensures
        r == spec_parse_timestamp(s@),
{
    let n = s.unicode_len();
    if n != 23 {
        return None;
    }
    if !(s.get_char(4) == '-' && s.get_char(7) == '-' && s.get_char(10) == 'T' && s.get_char(13)
        == ':' && s.get_char(16) == ':' && s.get_char(19) == '.') {
        return None;
    }
    let yh = match read_two(s, 0) {
        Some(v) => v,
        None => {
            return None;
        },
    };
    let yl = match read_two(s, 2) {
        Some(v) => v,
        None => {
            return None;
        },
    };
    let mo = match read_two(s, 5) {
        Some(v) => v,
        None => {
            return None;
        },
    };
    let da = match read_two(s, 8) {
        Some(v) => v,
        None => {
            return None;
        },
    };
    let ho = match read_two(s, 11) {
        Some(v) => v,
        None => {
            return None;
        },
    };
    let mi = match read_two(s, 14) {
        Some(v) => v,
        None => {
            return None;
        },
    };
    let se = match read_two(s, 17) {
        Some(v) => v,
        None => {
            return None;
        },
    };
    let mh = match read_two(s, 20) {
        Some(v) => v,
        None => {
            return None;
        },
    };
    let ml = match read_digit(s, 22) {
        Some(v) => v,
        None => {
            return None;
        },
    };
    let ts = Timestamp {
        date: Date { year: yh * 100 + yl, month: mo, day: da },
        hour: ho,
        minute: mi,
        second: se,
        millisecond: mh * 10 + ml,
    };
    if timestamp_valid(&ts) {
        Some(ts)
    } else {
        None
    }
}

} // verus!

