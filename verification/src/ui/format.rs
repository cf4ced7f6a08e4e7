//! Decimal formatting of counts, with thousands separators.

use vstd::prelude::*;

use crate::ui::text::string_from_chars;

verus! {

/// The character of a decimal digit.
pub open spec fn digit_char(d: int) -> char {
    if d == 0 {
        '0'
    } else if d == 1 {
        '1'
    } else if d == 2 {
        '2'
    } else if d == 3 {
        '3'
    } else if d == 4 {
        '4'
    } else if d == 5 {
        '5'
    } else if d == 6 {
        '6'
    } else if d == 7 {
        '7'
    } else if d == 8 {
        '8'
    } else {
        '9'
    }
}

/// The decimal digits of `n`, without leading zeros.
pub open spec fn decimal(n: nat) -> Seq<char>
    decreases n,
{
    if n < 10 {
        seq![digit_char(n as int)]
    } else {
        decimal(n / 10).push(digit_char((n % 10) as int))
    }
}

/// Three decimal digits of `r`, with leading zeros.
pub open spec fn three_digits(r: nat) -> Seq<char> {
    seq![digit_char((r / 100) as int), digit_char(((r / 10) % 10) as int), digit_char((r % 10) as int)]
}

/// The decimal digits of `n` in groups of three, separated by commas.
pub open spec fn grouped(n: nat) -> Seq<char>
    decreases n,
{
    if n < 1000 {
        decimal(n)
    } else {
        grouped(n / 1000) + seq![','] + three_digits(n % 1000)
    }
}

/// The character of a decimal digit.
pub fn digit_of(d: u128) -> (c: char)
    requires
        d < 10,
    ensures
        c == digit_char(d as int),
{
    if d == 0 {
        '0'
    } else if d == 1 {
        '1'
    } else if d == 2 {
        '2'
    } else if d == 3 {
        '3'
    } else if d == 4 {
        '4'
    } else if d == 5 {
        '5'
    } else if d == 6 {
        '6'
    } else if d == 7 {
        '7'
    } else if d == 8 {
        '8'
    } else {
        '9'
    }
}

/// Appends the decimal digits of `n` to `out`.
pub fn push_decimal(out: &mut Vec<char>, n: u128)
    ensures
        final(out)@ == old(out)@ + decimal(n as nat),
    decreases n,
{
    if n < 10 {
        out.push(digit_of(n));
        assert(decimal(n as nat) =~= seq![digit_char(n as int)]);
    } else {
        let ghost start = out@;
        push_decimal(out, n / 10);
        out.push(digit_of(n % 10));
        assert(out@ =~= start + decimal(n as nat));
    }
}

/// Appends the grouped decimal digits of `n` to `out`.
pub fn push_grouped(out: &mut Vec<char>, n: u128)
    ensures
        final(out)@ == old(out)@ + grouped(n as nat),
    decreases n,
{
    if n < 1000 {
        push_decimal(out, n);
    } else {
        let ghost start = out@;
        push_grouped(out, n / 1000);
        out.push(',');
        let r = n % 1000;
        out.push(digit_of(r / 100));
        out.push(digit_of((r / 10) % 10));
        out.push(digit_of(r % 10));
        assert(out@ =~= start + grouped(n as nat));
    }
}

/// The decimal digits of `n`.
pub fn decimal_string(n: u128) -> (s: String)
    ensures
        s@ == decimal(n as nat),
{
    let mut out: Vec<char> = Vec::new();
    push_decimal(&mut out, n);
    assert(out@ =~= decimal(n as nat));
    string_from_chars(&out)
}

/// A count in decimal with a comma between groups of three digits, such as
/// `12,345`.
pub fn format_integer(value: u64) -> (s: String)
    ensures
        s@ == grouped(value as nat),
{
    let mut out: Vec<char> = Vec::new();
    push_grouped(&mut out, value as u128);
    assert(out@ =~= grouped(value as nat));
    string_from_chars(&out)
}

/// The magnitude of a signed value.
pub open spec fn magnitude(value: int) -> nat {
    if value < 0 { (-value) as nat } else { value as nat }
}

/// A signed change: `-` before negative values, `+` before the others, then
/// the grouped digits, such as `+1,234` or `-30`.
pub open spec fn signed_grouped(value: int) -> Seq<char> {
    seq![if value < 0 { '-' } else { '+' }] + grouped(magnitude(value))
}

/// A signed change: its sign, then its grouped digits.
pub fn format_signed_integer(value: i128) -> (s: String)
    ensures
        s@ == signed_grouped(value as int),
{
    let mut out: Vec<char> = Vec::new();
    let m: u128 = if value < 0 {
        out.push('-');
        if value == i128::MIN {
            170141183460469231731687303715884105728u128
        } else {
            (-value) as u128
        }
    } else {
        out.push('+');
        value as u128
    };
    push_grouped(&mut out, m);
    assert(out@ =~= signed_grouped(value as int));
    string_from_chars(&out)
}

} // verus!
