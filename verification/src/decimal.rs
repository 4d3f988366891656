//! Integers written in decimal.

use vstd::prelude::*;

verus! {

/// The character for one decimal digit, `'0'` for 0 up to `'9'` for 9.
pub open spec fn digit_char(d: nat) -> char {
    ('0' as nat + d) as char
}

/// `n` in decimal, without leading zeros; zero is `"0"`.
pub open spec fn decimal_digits(n: nat) -> Seq<char>
    decreases n,
{
    if n < 10 {
        seq![digit_char(n)]
    } else {
        decimal_digits(n / 10).push(digit_char(n % 10))
    }
}

/// `v` in decimal, with a `'-'` in front where it is negative.
pub open spec fn decimal_text(v: int) -> Seq<char> {
    if v < 0 {
        seq!['-'] + decimal_digits((-v) as nat)
    } else {
        decimal_digits(v as nat)
    }
}

/// Appends `n` in decimal to `out`.
pub(crate) fn push_decimal(out: &mut String, n: u32)
    ensures
        final(out)@ == old(out)@ + decimal_digits(n as nat),
    decreases n,
{
    if n >= 10 {
        push_decimal(out, n / 10);
    }
    let digit: u8 = (n % 10) as u8;
    out.push((48u8 + digit) as char);
}

/// Writes `value` in decimal, as `decimal_text` says.
pub(crate) fn decimal_string(value: i32) -> (r: String)
    ensures
        r@ == decimal_text(value as int),
{
    let mut out = String::new();
    if value < 0 {
        out.push('-');
        push_decimal(&mut out, (-(value as i64)) as u32);
    } else {
        push_decimal(&mut out, value as u32);
    }
    out
}

} // verus!
