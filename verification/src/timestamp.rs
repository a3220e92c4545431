//! A UTC civil time as plain calendar fields, and its fixed ISO-8601
//! rendering with literal zero milliseconds, as the upstream API expects.

use vstd::prelude::*;

use chrono::Datelike;
use chrono::Timelike;

verus! {

/// A UTC civil time, held as plain calendar fields.
#[derive(Debug, Clone, Copy, PartialEq, Eq, Structural)]
pub struct Timestamp {
    pub year: i32,
    pub month: u32,
    pub day: u32,
    pub hour: u32,
    pub minute: u32,
    pub second: u32,
}

impl Timestamp {
    /// The field ranges of a calendar time whose year the four-digit
    /// rendering can hold.
    pub open spec fn wf(self) -> bool {
        &&& 0 <= self.year <= 9999
        &&& 1 <= self.month <= 12
        &&& 1 <= self.day <= 31
        &&& self.hour <= 23
        &&& self.minute <= 59
        &&& self.second <= 59
    }

    /// Accepts exactly the field values within calendar ranges.
    pub fn new(year: i32, month: u32, day: u32, hour: u32, minute: u32, second: u32) -> (r:
        Option<Timestamp>)
        ensures
            ({
                let t = Timestamp { year, month, day, hour, minute, second };
                &&& (r is Some) <==> t.wf()
                &&& r matches Some(v) ==> v == t
            }),
    {
        let t = Timestamp { year, month, day, hour, minute, second };
        if 0 <= year && year <= 9999 && 1 <= month && month <= 12 && 1 <= day && day <= 31
            && hour <= 23 && minute <= 59 && second <= 59 {
            Some(t)
        } else {
            None
        }
    }

    /// Whether the fields lie within calendar ranges.
    pub fn is_wf(&self) -> (r: bool)
        ensures
            r == self.wf(),
    {
        0 <= self.year && self.year <= 9999 && 1 <= self.month && self.month <= 12
            && 1 <= self.day && self.day <= 31 && self.hour <= 23 && self.minute <= 59
            && self.second <= 59
    }
}

/// The decimal digit character for `d`.
pub open spec fn spec_digit(d: nat) -> char {
    if d == 0 {
        '0'
    } else if d == 1 {
        '1'
    } else if d == 2 {
        '2'
    } else if d == 3 {
        '3'
    } else if d == 4 {
        '4'
    } else if d == 5 {
        '5'
    } else if d == 6 {
        '6'
    } else if d == 7 {
        '7'
    } else if d == 8 {
        '8'
    } else {
        '9'
    }
}

/// `n` written as exactly two decimal digits.
pub open spec fn spec_two_digits(n: nat) -> Seq<char> {
    seq![spec_digit(n / 10), spec_digit(n % 10)]
}

/// `n` written as exactly four decimal digits.
pub open spec fn spec_four_digits(n: nat) -> Seq<char> {
    spec_two_digits(n / 100) + spec_two_digits(n % 100)
}

/// The fixed `YYYY-MM-DDTHH:MM:SS.000Z` rendering of a timestamp: the
/// milliseconds are the literal zeros the upstream API expects.
pub open spec fn spec_timestamp(t: Timestamp) -> Seq<char> {
    spec_four_digits(t.year as nat) + seq!['-'] + spec_two_digits(t.month as nat) + seq!['-']
        + spec_two_digits(t.day as nat) + seq!['T'] + spec_two_digits(t.hour as nat) + seq![':']
        + spec_two_digits(t.minute as nat) + seq![':'] + spec_two_digits(t.second as nat) + seq![
        '.',
        '0',
        '0',
        '0',
        'Z',
    ]
}

/// The decimal digit character for `d`.
pub(crate) fn digit_char(d: u32) -> (c: char)
    requires
        d < 10,
    ensures
        c == spec_digit(d as nat),
{
    if d == 0 {
        '0'
    } else if d == 1 {
        '1'
    } else if d == 2 {
        '2'
    } else if d == 3 {
        '3'
    } else if d == 4 {
        '4'
    } else if d == 5 {
        '5'
    } else if d == 6 {
        '6'
    } else if d == 7 {
        '7'
    } else if d == 8 {
        '8'
    } else {
        '9'
    }
}

/// Appends `n` as exactly two decimal digits.
fn push_two_digits(out: &mut String, n: u32)
    requires
        n < 100,
    ensures
        final(out)@ == old(out)@ + spec_two_digits(n as nat),
{
    out.push(digit_char(n / 10));
    out.push(digit_char(n % 10));
    proof {
        assert(out@ =~= old(out)@ + spec_two_digits(n as nat));
    }
}

/// Renders a timestamp as `YYYY-MM-DDTHH:MM:SS.000Z`.
pub fn format_timestamp(t: &Timestamp) -> (r: String)
    requires
        t.wf(),
    ensures
        r@ == spec_timestamp(*t),
{
    let mut out = String::new();
    let y: u32 = t.year as u32;
    push_two_digits(&mut out, y / 100);
    push_two_digits(&mut out, y % 100);
    out.push('-');
    push_two_digits(&mut out, t.month);
    out.push('-');
    push_two_digits(&mut out, t.day);
    out.push('T');
    push_two_digits(&mut out, t.hour);
    out.push(':');
    push_two_digits(&mut out, t.minute);
    out.push(':');
    push_two_digits(&mut out, t.second);
    out.push('.');
    out.push('0');
    out.push('0');
    out.push('0');
    out.push('Z');
    proof {
        assert(out@ =~= spec_timestamp(*t));
    }
    out
}

/// Relies on chrono::Utc::now for the current civil UTC time; the Datelike
/// and Timelike accessors split it into plain fields, and chrono documents
/// the month as 1 to 12, the day as 1 to 31, the hour as 0 to 23, and the
/// minute and second as 0 to 59.
#[verifier::external_body]
fn now_utc_parts() -> (r: Timestamp)
    ensures
        1 <= r.month <= 12,
        1 <= r.day <= 31,
        r.hour <= 23,
        r.minute <= 59,
        r.second <= 59,
{
    let t = chrono::Utc::now();
    Timestamp {
        year: t.year(),
        month: t.month(),
        day: t.day(),
        hour: t.hour(),
        minute: t.minute(),
        second: t.second(),
    }
}

/// The current UTC time, or `None` when its year does not fit the four-digit
/// rendering; whatever the clock reports, a returned timestamp is within
/// calendar ranges.
pub fn current_timestamp() -> (r: Option<Timestamp>)
    ensures
        r matches Some(t) ==> t.wf(),
{
    let p = now_utc_parts();
    Timestamp::new(p.year, p.month, p.day, p.hour, p.minute, p.second)
}

} // verus!
