use crate::digits::{
    push_four_digits, push_two_digits, spec_four_digits, spec_two_digits,
};
use vstd::prelude::*;

verus! {

/// A calendar date held as plain year, month and day numbers.
///
/// The library keeps dates in this explicit form so that everything that
/// reads a date (chiefly the citation formatter) can be specified over the
/// three numbers directly.
#[derive(Clone, Copy, PartialEq, Eq, Structural, Debug)]
pub struct Date {
    pub year: u16,
    pub month: u8,
    pub day: u8,
}

impl Date {
    /// A well-formed date: a four-digit year and month and day numbers in
    /// their calendar ranges.
    pub open spec fn wf(self) -> bool {
        self.year <= 9999 && 1 <= self.month <= 12 && 1 <= self.day <= 31
    }

    pub fn new(year: u16, month: u8, day: u8) -> (d: Date)
        requires
            year <= 9999,
            1 <= month <= 12,
            1 <= day <= 31,
        ensures
            d.wf(),
            d.year == year && d.month == month && d.day == day,
    {
        Date { year, month, day }
    }

    /// Builds a well-formed date from arbitrary numbers by clamping each
    /// component into its range.
    pub fn clamped(year: i32, month: u32, day: u32) -> (d: Date)
        ensures
            d.wf(),
            0 <= year <= 9999 ==> d.year == year,
            1 <= month <= 12 ==> d.month == month,
            1 <= day <= 31 ==> d.day == day,
    {
        let y: u16 = if year < 0 {
            0
        } else if year > 9999 {
            9999
        } else {
            year as u16
        };
        let m: u8 = if month < 1 {
            1
        } else if month > 12 {
            12
        } else {
            month as u8
        };
        let d: u8 = if day < 1 {
            1
        } else if day > 31 {
            31
        } else {
            day as u8
        };
        Date { year: y, month: m, day: d }
    }
}

// The date-pattern mini-syntax used by citation templates.  A pattern is an
// arbitrary string; `%Y` stands for the four-digit year, `%y` for the
// two-digit year, `%m` for the two-digit month, `%d` for the two-digit day,
// and `%%` for a literal percent sign.  A percent sign before any other
// character, or at the end of the pattern, is kept verbatim, as is every
// other character.

/// The rendering of date `d` under the pattern `fmt`, read from position `i` on.
pub open spec fn spec_format_date_from(d: Date, fmt: Seq<char>, i: int) -> Seq<char>
    decreases fmt.len() - i,
{
    if i < 0 || i >= fmt.len() {
        Seq::empty()
    } else if fmt[i] == '%' && i + 1 < fmt.len() {
        let c = fmt[i + 1];
        let rest = spec_format_date_from(d, fmt, i + 2);
        if c == 'Y' {
            spec_four_digits(d.year as int) + rest
        } else if c == 'y' {
            spec_two_digits(d.year as int % 100) + rest
        } else if c == 'm' {
            spec_two_digits(d.month as int) + rest
        } else if c == 'd' {
            spec_two_digits(d.day as int) + rest
        } else if c == '%' {
            seq!['%'] + rest
        } else {
            seq!['%', c] + rest
        }
    } else {
        seq![fmt[i]] + spec_format_date_from(d, fmt, i + 1)
    }
}

/// The rendering of date `d` under the pattern `fmt`.
pub open spec fn spec_format_date(d: Date, fmt: Seq<char>) -> Seq<char> {
    spec_format_date_from(d, fmt, 0)
}

/// Appends the rendering of `d` under the pattern `fmt` to `out`.
pub fn push_formatted_date(out: &mut Vec<char>, d: &Date, fmt: &Vec<char>)
    requires
        d.wf(),
    ensures
        final(out)@ == old(out)@ + spec_format_date(*d, fmt@),
{
    let n = fmt.len();
    let mut i: usize = 0;
    while i < n
        invariant
            d.wf(),
            i <= n == fmt@.len(),
            old(out)@ + spec_format_date(*d, fmt@) == out@ + spec_format_date_from(*d, fmt@, i as int),
        decreases n - i,
    {
        let ghost prev = out@;
        let ghost rest = spec_format_date_from(*d, fmt@, i + 2);
        let c = fmt[i];
        if c == '%' && i + 1 < n {
            let c2 = fmt[i + 1];
            if c2 == 'Y' {
                push_four_digits(out, d.year as u32);
                proof {
                    seq_concat_assoc(prev, spec_four_digits(d.year as int), rest);
                }
            } else if c2 == 'y' {
                push_two_digits(out, (d.year % 100) as u32);
                proof {
                    seq_concat_assoc(prev, spec_two_digits(d.year as int % 100), rest);
                }
            } else if c2 == 'm' {
                push_two_digits(out, d.month as u32);
                proof {
                    seq_concat_assoc(prev, spec_two_digits(d.month as int), rest);
                }
            } else if c2 == 'd' {
                push_two_digits(out, d.day as u32);
                proof {
                    seq_concat_assoc(prev, spec_two_digits(d.day as int), rest);
                }
            } else if c2 == '%' {
                out.push('%');
                proof {
                    assert(out@ =~= prev + seq!['%']);
                    seq_concat_assoc(prev, seq!['%'], rest);
                }
            } else {
                out.push('%');
                out.push(c2);
                proof {
                    assert(out@ =~= prev + seq!['%', c2]);
                    seq_concat_assoc(prev, seq!['%', c2], rest);
                }
            }
            i = i + 2;
        } else {
            out.push(c);
            proof {
                assert(out@ =~= prev + seq![fmt@[i as int]]);
                seq_concat_assoc(prev, seq![fmt@[i as int]], spec_format_date_from(*d, fmt@, i + 1));
            }
            i = i + 1;
        }
    }
}

/// Concatenation of character sequences is associative.
pub proof fn seq_concat_assoc(a: Seq<char>, b: Seq<char>, c: Seq<char>)
    ensures
        (a + b) + c == a + (b + c),
{
    assert((a + b) + c =~= a + (b + c));
}

/// Relies on chrono::Local::now, chrono::DateTime::date_naive and the
/// chrono::Datelike accessors: the year, month and day numbers of the
/// current local calendar date, with month and day in their calendar ranges.
#[verifier::external_body]
fn now_ymd() -> (r: (i32, u32, u32))
    ensures
        1 <= r.1 <= 12,
        1 <= r.2 <= 31,
{
    let now = chrono::Local::now().date_naive();
    (
        chrono::Datelike::year(&now),
        chrono::Datelike::month(&now),
        chrono::Datelike::day(&now),
    )
}

/// The current local calendar date, clamped into the library's date range.
pub fn today() -> (d: Date)
    ensures
        d.wf(),
{
    let (y, m, dd) = now_ymd();
    Date::clamped(y, m, dd)
}

} // verus!
