use vstd::prelude::*;

verus! {

// Decimal rendering of the integers that appear in citations: record ids
// and the year, month and day numbers of a date.

/// The decimal digit character for `d`.
pub open spec fn spec_digit(d: int) -> char
    recommends
        0 <= d < 10,
{
    if d == 0 {
        '0'
    } else if d == 1 {
        '1'
    } else if d == 2 {
        '2'
    } else if d == 3 {
        '3'
    } else if d == 4 {
        '4'
    } else if d == 5 {
        '5'
    } else if d == 6 {
        '6'
    } else if d == 7 {
        '7'
    } else if d == 8 {
        '8'
    } else {
        '9'
    }
}

/// The decimal digits of a non-negative number, most significant first,
/// without leading zeros (a single zero for 0).
pub open spec fn spec_nat_digits(n: int) -> Seq<char>
    recommends
        n >= 0,
    decreases n,
{
    if n < 10 {
        seq![spec_digit(n)]
    } else {
        spec_nat_digits(n / 10).push(spec_digit(n % 10))
    }
}

/// The decimal rendering of a signed number: a minus sign for negative
/// numbers, then the digits.
pub open spec fn spec_int_digits(n: int) -> Seq<char> {
    if n < 0 {
        seq!['-'] + spec_nat_digits(-n)
    } else {
        spec_nat_digits(n)
    }
}

/// A number below 100 as exactly two digits, zero-padded.
pub open spec fn spec_two_digits(n: int) -> Seq<char>
    recommends
        0 <= n < 100,
{
    seq![spec_digit(n / 10), spec_digit(n % 10)]
}

/// A number below 10000 as exactly four digits, zero-padded.
pub open spec fn spec_four_digits(n: int) -> Seq<char>
    recommends
        0 <= n < 10000,
{
    seq![spec_digit(n / 1000), spec_digit(n / 100 % 10), spec_digit(n / 10 % 10), spec_digit(n % 10)]
}

fn digit_char(d: u64) -> (c: char)
    requires
        d < 10,
    ensures
        c == spec_digit(d as int),
{
    if d == 0 {
        '0'
    } else if d == 1 {
        '1'
    } else if d == 2 {
        '2'
    } else if d == 3 {
        '3'
    } else if d == 4 {
        '4'
    } else if d == 5 {
        '5'
    } else if d == 6 {
        '6'
    } else if d == 7 {
        '7'
    } else if d == 8 {
        '8'
    } else {
        '9'
    }
}

/// Appends the decimal digits of `n` to `out`.
pub fn push_u64_digits(out: &mut Vec<char>, n: u64)
    ensures
        final(out)@ == old(out)@ + spec_nat_digits(n as int),
    decreases n,
{
    if n < 10 {
        out.push(digit_char(n));
        assert(out@ =~= old(out)@ + spec_nat_digits(n as int));
    } else {
        push_u64_digits(out, n / 10);
        out.push(digit_char(n % 10));
        assert(out@ =~= old(out)@ + spec_nat_digits(n as int));
    }
}

/// Appends the decimal rendering of `n` to `out`, sign included.
pub fn push_i64_digits(out: &mut Vec<char>, n: i64)
    ensures
        final(out)@ == old(out)@ + spec_int_digits(n as int),
{
    if n < 0 {
        out.push('-');
        let m: u64 = ((-(n + 1)) as u64) + 1;
        assert(m as int == -(n as int));
        push_u64_digits(out, m);
        assert(out@ =~= old(out)@ + spec_int_digits(n as int));
    } else {
        push_u64_digits(out, n as u64);
    }
}

/// Appends `n` as exactly two zero-padded digits.
pub fn push_two_digits(out: &mut Vec<char>, n: u32)
    requires
        n < 100,
    ensures
        final(out)@ == old(out)@ + spec_two_digits(n as int),
{
    out.push(digit_char((n / 10) as u64));
    out.push(digit_char((n % 10) as u64));
    assert(out@ =~= old(out)@ + spec_two_digits(n as int));
}

/// Appends `n` as exactly four zero-padded digits.
pub fn push_four_digits(out: &mut Vec<char>, n: u32)
    requires
        n < 10000,
    ensures
        final(out)@ == old(out)@ + spec_four_digits(n as int),
{
    out.push(digit_char((n / 1000) as u64));
    out.push(digit_char((n / 100 % 10) as u64));
    out.push(digit_char((n / 10 % 10) as u64));
    out.push(digit_char((n % 10) as u64));
    assert(out@ =~= old(out)@ + spec_four_digits(n as int));
}

} // verus!
