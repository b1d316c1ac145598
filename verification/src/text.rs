//! Decimal text of unsigned integers and of fixed-point numbers.

use vstd::prelude::*;

verus! {

/// The character of one decimal digit.
pub open spec fn digit_char(d: nat) -> char
    recommends
        d < 10,
{
    if d == 0 {
        '0'
    } else if d == 1 {
        '1'
    } else if d == 2 {
        '2'
    } else if d == 3 {
        '3'
    } else if d == 4 {
        '4'
    } else if d == 5 {
        '5'
    } else if d == 6 {
        '6'
    } else if d == 7 {
        '7'
    } else if d == 8 {
        '8'
    } else {
        '9'
    }
}

/// The decimal numeral of `n`: most significant digit first, no leading
/// zero, and `"0"` for zero.
pub open spec fn decimal(n: nat) -> Seq<char>
    decreases n,
{
    if n < 10 {
        seq![digit_char(n)]
    } else {
        decimal(n / 10).push(digit_char(n % 10))
    }
}

/// The last `places` decimal digits of `n`, padded with zeros on the left.
pub open spec fn low_digits(n: nat, places: nat) -> Seq<char>
    decreases places,
{
    if places == 0 {
        Seq::empty()
    } else {
        low_digits(n / 10, (places - 1) as nat).push(digit_char(n % 10))
    }
}

/// `n` without its last `places` decimal digits: `n / 10^places`.
pub open spec fn high_part(n: nat, places: nat) -> nat
    decreases places,
{
    if places == 0 {
        n
    } else {
        high_part(n / 10, (places - 1) as nat)
    }
}

/// The numeral of `n / 10^places` with exactly `places` digits behind the
/// decimal point; without a point where `places` is zero.
pub open spec fn fixed_point(n: nat, places: nat) -> Seq<char> {
    if places == 0 {
        decimal(n)
    } else {
        decimal(high_part(n, places)).push('.') + low_digits(n, places)
    }
}

/// One decimal digit as text.
pub fn digit_text(d: u8) -> (s: &'static str)
    requires
        d < 10,
    ensures
        s@ == seq![digit_char(d as nat)],
{
    proof {
        reveal_strlit("0");
        reveal_strlit("1");
        reveal_strlit("2");
        reveal_strlit("3");
        reveal_strlit("4");
        reveal_strlit("5");
        reveal_strlit("6");
        reveal_strlit("7");
        reveal_strlit("8");
        reveal_strlit("9");
    }
    let s = if d == 0 {
        "0"
    } else if d == 1 {
        "1"
    } else if d == 2 {
        "2"
    } else if d == 3 {
        "3"
    } else if d == 4 {
        "4"
    } else if d == 5 {
        "5"
    } else if d == 6 {
        "6"
    } else if d == 7 {
        "7"
    } else if d == 8 {
        "8"
    } else {
        "9"
    };
    assert(s@ =~= seq![digit_char(d as nat)]);
    s
}

/// Appends the decimal numeral of `n` to `out`.
pub fn push_decimal(out: &mut String, n: u128)
    ensures
        final(out)@ == old(out)@ + decimal(n as nat),
    decreases n,
{
    if n >= 10 {
        push_decimal(out, n / 10);
    }
    let d: u8 = (n % 10) as u8;
    out.append(digit_text(d));
    assert(out@ =~= old(out)@ + decimal(n as nat));
}

/// The decimal numeral of `n`.
pub fn decimal_text(n: u128) -> (s: String)
    ensures
        s@ == decimal(n as nat),
{
    let mut s = String::new();
    push_decimal(&mut s, n);
    assert(s@ =~= decimal(n as nat));
    s
}

/// Appends the last `places` decimal digits of `n`, zero-padded, to `out`.
pub fn push_low_digits(out: &mut String, n: u128, places: u8)
    ensures
        final(out)@ == old(out)@ + low_digits(n as nat, places as nat),
    decreases places,
{
    if places > 0 {
        push_low_digits(out, n / 10, places - 1);
        let d: u8 = (n % 10) as u8;
        out.append(digit_text(d));
    }
    assert(out@ =~= old(out)@ + low_digits(n as nat, places as nat));
}

/// `n` without its last `places` decimal digits.
pub fn drop_low_digits(n: u128, places: u8) -> (r: u128)
    ensures
        r == high_part(n as nat, places as nat),
    decreases places,
{
    if places == 0 {
        n
    } else {
        drop_low_digits(n / 10, places - 1)
    }
}

/// Appends `n / 10^places` to `out` as a numeral with exactly `places`
/// digits behind the decimal point.
pub fn push_fixed_point(out: &mut String, n: u128, places: u8)
    ensures
        final(out)@ == old(out)@ + fixed_point(n as nat, places as nat),
{
    if places == 0 {
        push_decimal(out, n);
    } else {
        push_decimal(out, drop_low_digits(n, places));
        proof {
            reveal_strlit(".");
        }
        out.append(".");
        push_low_digits(out, n, places);
        assert(out@ =~= old(out)@ + fixed_point(n as nat, places as nat));
    }
}

} // verus!
