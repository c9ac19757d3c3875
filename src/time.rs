use vstd::prelude::*;

verus! {

/// Whether `year` is a leap year of the Gregorian calendar.
pub open spec fn is_leap(year: int) -> bool {
    (year % 4 == 0 && year % 100 != 0) || year % 400 == 0
}

/// The number of days in a month of a year.
pub open spec fn month_days(year: int, month: int) -> int {
    if month == 2 {
        if is_leap(year) {
            29
        } else {
            28
        }
    } else if month == 4 || month == 6 || month == 9 || month == 11 {
        30
    } else {
        31
    }
}

/// Whether the fields name a second of a real calendar day, with a year of at most four digits.
pub open spec fn valid_fields(year: int, month: int, day: int, hour: int, minute: int, second: int) -> bool {
    &&& 0 <= year <= 9999
    &&& 1 <= month <= 12
    &&& 1 <= day <= month_days(year, month)
    &&& 0 <= hour < 24
    &&& 0 <= minute < 60
    &&& 0 <= second < 60
}

/// A point in time in UTC, to the second.
#[derive(Clone, Copy, Debug, PartialEq, Eq, Structural)]
pub struct Timestamp {
    pub year: u16,
    pub month: u8,
    pub day: u8,
    pub hour: u8,
    pub minute: u8,
    pub second: u8,
}

/// Two decimal digits of a value below a hundred.
pub open spec fn two_digits(n: int) -> Seq<u8> {
    seq![(0x30 + n / 10) as u8, (0x30 + n % 10) as u8]
}

/// Four decimal digits of a value below ten thousand.
pub open spec fn four_digits(n: int) -> Seq<u8> {
    two_digits(n / 100) + two_digits(n % 100)
}

/// ISO-8601 in UTC: `YYYY-MM-DDTHH:MM:SSZ`.
pub open spec fn iso8601_bytes(t: Timestamp) -> Seq<u8> {
    four_digits(t.year as int) + seq![0x2Du8] + two_digits(t.month as int) + seq![0x2Du8]
        + two_digits(t.day as int) + seq![0x54u8] + two_digits(t.hour as int) + seq![0x3Au8]
        + two_digits(t.minute as int) + seq![0x3Au8] + two_digits(t.second as int) + seq![0x5Au8]
}

fn push_two(out: &mut Vec<u8>, n: u16)
    requires
        n < 100,
    ensures
        final(out)@ == old(out)@ + two_digits(n as int),
{
    out.push((0x30 + n / 10) as u8);
    out.push((0x30 + n % 10) as u8);
    proof {
        assert(out@ =~= old(out)@ + two_digits(n as int));
    }
}

impl Timestamp {
    pub open spec fn wf(self) -> bool {
        valid_fields(
            self.year as int,
            self.month as int,
            self.day as int,
            self.hour as int,
            self.minute as int,
            self.second as int,
        )
    }

    /// The timestamp with these fields, or `None` where they name no second of a calendar day
    /// or the year has more than four digits.
    pub fn new(year: u16, month: u8, day: u8, hour: u8, minute: u8, second: u8) -> (r: Option<
        Timestamp,
    >)
        ensures
            r is Some <==> valid_fields(
                year as int,
                month as int,
                day as int,
                hour as int,
                minute as int,
                second as int,
            ),
            r matches Some(t) ==> t.wf() && t.year == year && t.month == month && t.day == day
                && t.hour == hour && t.minute == minute && t.second == second,
    {
        if year > 9999 || month < 1 || month > 12 || hour >= 24 || minute >= 60 || second >= 60 {
            return None;
        }
        let leap = (year % 4 == 0 && year % 100 != 0) || year % 400 == 0;
        let last: u8 = if month == 2 {
            if leap {
                29
            } else {
                28
            }
        } else if month == 4 || month == 6 || month == 9 || month == 11 {
            30
        } else {
            31
        };
        if day < 1 || day > last {
            return None;
        }
        Some(Timestamp { year, month, day, hour, minute, second })
    }

    /// The canonical text of this timestamp: ISO-8601 in UTC with a `Z` suffix.
    pub fn iso8601(&self) -> (r: Vec<u8>)
        requires
            self.wf(),
        ensures
            r@ == iso8601_bytes(*self),
    {
        let mut out: Vec<u8> = Vec::new();
        push_two(&mut out, self.year / 100);
        push_two(&mut out, self.year % 100);
        out.push(0x2D);
        push_two(&mut out, self.month as u16);
        out.push(0x2D);
        push_two(&mut out, self.day as u16);
        out.push(0x54);
        push_two(&mut out, self.hour as u16);
        out.push(0x3A);
        push_two(&mut out, self.minute as u16);
        out.push(0x3A);
        push_two(&mut out, self.second as u16);
        out.push(0x5A);
        proof {
            assert(out@ =~= iso8601_bytes(*self));
        }
        out
    }
}

} // verus!
