use vstd::prelude::*;
use vstd::string::StringExecFns;

verus! {

/// Gregorian leap-year rule.
pub open spec fn spec_is_leap(y: int) -> bool {
    y % 4 == 0 && (y % 100 != 0 || y % 400 == 0)
}

pub open spec fn spec_year_len(y: int) -> int {
    if spec_is_leap(y) {
        366
    } else {
        365
    }
}

/// Year and remaining day-of-year (0-based) reached by walking a day
/// count forward from the start of year `y`.
pub open spec fn spec_year_of(days: int, y: int) -> (int, int)
    decreases days
        when days >= 0
{
    if days < spec_year_len(y) {
        (y, days)
    } else {
        spec_year_of(days - spec_year_len(y), y + 1)
    }
}

pub open spec fn spec_month_len(m: int, leap: bool) -> int {
    if m == 1 { 31 }
    else if m == 2 { if leap { 29 } else { 28 } }
    else if m == 3 { 31 }
    else if m == 4 { 30 }
    else if m == 5 { 31 }
    else if m == 6 { 30 }
    else if m == 7 { 31 }
    else if m == 8 { 31 }
    else if m == 9 { 30 }
    else if m == 10 { 31 }
    else if m == 11 { 30 }
    else { 31 }
}

/// Month and remaining day offset (0-based) reached by walking a
/// day-of-year forward from month `m`.
pub open spec fn spec_month_of(doy: int, m: int, leap: bool) -> (int, int)
    decreases 12 - m
        when 1 <= m <= 12
{
    if m == 12 || doy < spec_month_len(m, leap) {
        (m, doy)
    } else {
        spec_month_of(doy - spec_month_len(m, leap), m + 1, leap)
    }
}

/// Days from the start of month `m` to the end of the year.
pub open spec fn spec_months_rest(m: int, leap: bool) -> int
    decreases 12 - m
        when 1 <= m <= 12
{
    if m == 12 {
        31
    } else {
        spec_month_len(m, leap) + spec_months_rest(m + 1, leap)
    }
}

pub open spec fn spec_digit(d: int) -> char {
    if d == 0 { '0' }
    else if d == 1 { '1' }
    else if d == 2 { '2' }
    else if d == 3 { '3' }
    else if d == 4 { '4' }
    else if d == 5 { '5' }
    else if d == 6 { '6' }
    else if d == 7 { '7' }
    else if d == 8 { '8' }
    else { '9' }
}

/// Decimal digits of `n`, most significant first, no padding.
pub open spec fn spec_dec(n: int) -> Seq<char>
    decreases n
        when n >= 0
{
    if n < 10 {
        seq![spec_digit(n)]
    } else {
        spec_dec(n / 10) + seq![spec_digit(n % 10)]
    }
}

/// Two decimal digits, zero-padded.
pub open spec fn spec_dec2(n: int) -> Seq<char> {
    seq![spec_digit(n / 10), spec_digit(n % 10)]
}

pub open spec fn spec_month_name(m: int) -> Seq<char> {
    if m == 1 { "January"@ }
    else if m == 2 { "February"@ }
    else if m == 3 { "March"@ }
    else if m == 4 { "April"@ }
    else if m == 5 { "May"@ }
    else if m == 6 { "June"@ }
    else if m == 7 { "July"@ }
    else if m == 8 { "August"@ }
    else if m == 9 { "September"@ }
    else if m == 10 { "October"@ }
    else if m == 11 { "November"@ }
    else { "December"@ }
}

/// Weekday names indexed with 0 as Sunday; the unix epoch fell on a
/// Thursday, so day number `d` falls on `(d + 4) % 7`.
pub open spec fn spec_weekday_name(w: int) -> Seq<char> {
    if w == 0 { "Sunday"@ }
    else if w == 1 { "Monday"@ }
    else if w == 2 { "Tuesday"@ }
    else if w == 3 { "Wednesday"@ }
    else if w == 4 { "Thursday"@ }
    else if w == 5 { "Friday"@ }
    else { "Saturday"@ }
}

/// The calendar arithmetic and decimal formatting behind the history
/// mark, verified against the spec functions above.
pub struct Calendar;

impl Calendar {
    pub fn is_leap(y: u64) -> (r: bool)
        ensures
            r == spec_is_leap(y as int),
    {
        y % 4 == 0 && (y % 100 != 0 || y % 400 == 0)
    }

    pub fn year_len(y: u64) -> (r: u64)
        ensures
            r == spec_year_len(y as int),
    {
        if Self::is_leap(y) {
            366
        } else {
            365
        }
    }

    pub fn month_len(m: u64, leap: bool) -> (r: u64)
        requires
            1 <= m <= 12,
        ensures
            r == spec_month_len(m as int, leap),
    {
        if m == 1 { 31 }
        else if m == 2 { if leap { 29 } else { 28 } }
        else if m == 3 { 31 }
        else if m == 4 { 30 }
        else if m == 5 { 31 }
        else if m == 6 { 30 }
        else if m == 7 { 31 }
        else if m == 8 { 31 }
        else if m == 9 { 30 }
        else if m == 10 { 31 }
        else if m == 11 { 30 }
        else { 31 }
    }

    /// Civil date (year, month, day) of a day count from 1970-01-01.
    pub fn civil_from_days(days: u64) -> (r: (u64, u64, u64))
        requires
            days <= 3_000_000,
        ensures
            ({
                let (y, doy) = spec_year_of(days as int, 1970);
                let (m, d0) = spec_month_of(doy, 1, spec_is_leap(y));
                &&& r.0 == y
                &&& r.1 == m
                &&& r.2 == d0 + 1
            }),
            1970 <= r.0 <= 12000,
            1 <= r.1 <= 12,
            1 <= r.2 <= 31,
    {
        let mut y: u64 = 1970;
        let mut left: u64 = days;
        while left >= Self::year_len(y)
            invariant
                spec_year_of(days as int, 1970) == spec_year_of(left as int, y as int),
                1970 <= y,
                (y - 1970) * 365 <= days - left,
                days <= 3_000_000,
                left <= days,
            decreases left,
        {
            let yl = Self::year_len(y);
            proof {
                assert(((y + 1) - 1970) * 365 == (y - 1970) * 365 + 365) by (nonlinear_arith);
            }
            left = left - yl;
            y = y + 1;
        }
        proof {
            assert((y - 1970) * 365 <= 3_000_000int);
            assert(y - 1970 <= 8220int) by (nonlinear_arith)
                requires (y - 1970) * 365 <= 3_000_000int;
        }

        let leap = Self::is_leap(y);
        let ghost doy0 = left as int;
        let mut m: u64 = 1;
        let mut d: u64 = left;
        proof {
            if leap {
                assert(spec_months_rest(1, true) == 366) by {
                    reveal_with_fuel(spec_months_rest, 13);
                }
            } else {
                assert(spec_months_rest(1, false) == 365) by {
                    reveal_with_fuel(spec_months_rest, 13);
                }
            }
        }
        while m < 12 && d >= Self::month_len(m, leap)
            invariant
                1 <= m <= 12,
                leap == spec_is_leap(y as int),
                spec_month_of(doy0, 1, leap) == spec_month_of(d as int, m as int, leap),
                d < spec_months_rest(m as int, leap),
            decreases 12 - m,
        {
            let ml = Self::month_len(m, leap);
            d = d - ml;
            m = m + 1;
        }

        (y, m, d + 1)
    }

    fn digit_str(d: u64) -> (r: &'static str)
        requires
            d < 10,
        ensures
            r@ == seq![spec_digit(d as int)],
    {
        proof {
            reveal_strlit("0");
            reveal_strlit("1");
            reveal_strlit("2");
            reveal_strlit("3");
            reveal_strlit("4");
            reveal_strlit("5");
            reveal_strlit("6");
            reveal_strlit("7");
            reveal_strlit("8");
            reveal_strlit("9");
        }
        let r = match d {
            0 => "0",
            1 => "1",
            2 => "2",
            3 => "3",
            4 => "4",
            5 => "5",
            6 => "6",
            7 => "7",
            8 => "8",
            _ => "9",
        };
        proof {
            assert(r@ =~= seq![spec_digit(d as int)]);
        }
        r
    }

    /// `n` in decimal, no padding.
    pub fn dec_u64(n: u64) -> (r: String)
        ensures
            r@ == spec_dec(n as int),
        decreases n,
    {
        if n < 10 {
            String::from_str(Self::digit_str(n))
        } else {
            let mut s = Self::dec_u64(n / 10);
            s.append(Self::digit_str(n % 10));
            s
        }
    }

    /// `n` in decimal, zero-padded to two digits.
    pub fn dec2(n: u64) -> (r: String)
        requires
            n <= 99,
        ensures
            r@ == spec_dec2(n as int),
    {
        let mut s = String::from_str(Self::digit_str(n / 10));
        s.append(Self::digit_str(n % 10));
        proof {
            assert(s@ =~= spec_dec2(n as int));
        }
        s
    }

    pub fn month_name(m: u64) -> (r: &'static str)
        requires
            1 <= m <= 12,
        ensures
            r@ == spec_month_name(m as int),
    {
        if m == 1 { "January" }
        else if m == 2 { "February" }
        else if m == 3 { "March" }
        else if m == 4 { "April" }
        else if m == 5 { "May" }
        else if m == 6 { "June" }
        else if m == 7 { "July" }
        else if m == 8 { "August" }
        else if m == 9 { "September" }
        else if m == 10 { "October" }
        else if m == 11 { "November" }
        else { "December" }
    }

    pub fn weekday_name(w: u64) -> (r: &'static str)
        requires
            w < 7,
        ensures
            r@ == spec_weekday_name(w as int),
    {
        if w == 0 { "Sunday" }
        else if w == 1 { "Monday" }
        else if w == 2 { "Tuesday" }
        else if w == 3 { "Wednesday" }
        else if w == 4 { "Thursday" }
        else if w == 5 { "Friday" }
        else { "Saturday" }
    }
}

} // verus!
