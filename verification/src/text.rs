//! Decimal rendering for protocol responses and the elapsed-time display.

use vstd::prelude::*;

verus! {

/// The decimal digit character for a value below ten.
pub open spec fn spec_digit(d: int) -> char
    recommends
        0 <= d < 10,
{
    if d == 0 {
        '0'
    } else if d == 1 {
        '1'
    } else if d == 2 {
        '2'
    } else if d == 3 {
        '3'
    } else if d == 4 {
        '4'
    } else if d == 5 {
        '5'
    } else if d == 6 {
        '6'
    } else if d == 7 {
        '7'
    } else if d == 8 {
        '8'
    } else {
        '9'
    }
}

/// The decimal digit string of a value below ten.
fn digit_str(d: u64) -> (r: &'static str)
    requires
        d < 10,
    ensures
        r@ =~= seq![spec_digit(d as int)],
{
    proof {
        reveal_strlit("0");
        reveal_strlit("1");
        reveal_strlit("2");
        reveal_strlit("3");
        reveal_strlit("4");
        reveal_strlit("5");
        reveal_strlit("6");
        reveal_strlit("7");
        reveal_strlit("8");
        reveal_strlit("9");
    }
    if d == 0 {
        "0"
    } else if d == 1 {
        "1"
    } else if d == 2 {
        "2"
    } else if d == 3 {
        "3"
    } else if d == 4 {
        "4"
    } else if d == 5 {
        "5"
    } else if d == 6 {
        "6"
    } else if d == 7 {
        "7"
    } else if d == 8 {
        "8"
    } else {
        "9"
    }
}

/// The usual decimal spelling of a non-negative integer: no sign, no
/// leading zero except for zero itself.
pub open spec fn spec_decimal(n: int) -> Seq<char>
    recommends
        n >= 0,
    decreases n,
{
    if n < 10 {
        seq![spec_digit(n)]
    } else {
        spec_decimal(n / 10).push(spec_digit(n % 10))
    }
}

/// Render a value in decimal.
pub fn decimal_string(n: u64) -> (r: String)
    ensures
        r@ =~= spec_decimal(n as int),
    decreases n,
{
    if n < 10 {
        String::from_str(digit_str(n))
    } else {
        let mut s = decimal_string(n / 10);
        s.append(digit_str(n % 10));
        s
    }
}

/// The value a decimal digit character stands for.
pub open spec fn spec_digit_value(c: char) -> int {
    if c == '0' {
        0
    } else if c == '1' {
        1
    } else if c == '2' {
        2
    } else if c == '3' {
        3
    } else if c == '4' {
        4
    } else if c == '5' {
        5
    } else if c == '6' {
        6
    } else if c == '7' {
        7
    } else if c == '8' {
        8
    } else {
        9
    }
}

/// The number a digit string stands for, read most significant first.
pub open spec fn spec_number_of(s: Seq<char>) -> int
    decreases s.len(),
{
    if s.len() == 0 {
        0
    } else {
        10 * spec_number_of(s.drop_last()) + spec_digit_value(s.last())
    }
}

/// Decimal rendering round-trips: reading the rendered digits back yields
/// the value, so a reply line carries the number itself.
pub proof fn lemma_decimal_roundtrip(n: int)
    requires
        n >= 0,
    ensures
        spec_number_of(spec_decimal(n)) == n,
    decreases n,
{
    if n < 10 {
        let s = spec_decimal(n);
        assert(s =~= seq![spec_digit(n)]);
        assert(s.len() == 1);
        assert(s.drop_last() =~= Seq::<char>::empty());
        assert(spec_number_of(s.drop_last()) == 0);
        assert(s.last() == spec_digit(n));
        assert(spec_digit_value(spec_digit(n)) == n);
        assert(spec_number_of(s) == n);
    } else {
        lemma_decimal_roundtrip(n / 10);
        let s = spec_decimal(n / 10);
        let d = spec_digit(n % 10);
        assert(spec_decimal(n) =~= s.push(d));
        assert(s.push(d).drop_last() =~= s);
        assert(s.push(d).last() == d);
        assert(spec_digit_value(d) == n % 10);
        assert(spec_number_of(s.push(d)) == 10 * spec_number_of(s) + n % 10);
        assert(spec_number_of(spec_decimal(n)) == n);
    }
}

/// A value's decimal spelling, left-padded with one zero to at least two
/// digits, as clock displays spell hours, minutes and seconds.
pub open spec fn spec_padded2(n: int) -> Seq<char>
    recommends
        n >= 0,
{
    if n < 10 {
        seq!['0'] + spec_decimal(n)
    } else {
        spec_decimal(n)
    }
}

/// Render a value in decimal, padded to at least two digits.
pub fn padded2_string(n: u64) -> (r: String)
    ensures
        r@ =~= spec_padded2(n as int),
{
    if n < 10 {
        let mut s = String::from_str("0");
        proof {
            reveal_strlit("0");
        }
        s.append(digit_str(n));
        s
    } else {
        decimal_string(n)
    }
}

/// The `hh:mm:ss` clock spelling of a duration given in whole seconds:
/// hours, minutes below sixty and seconds below sixty, each padded to two
/// digits.
pub open spec fn spec_clock(seconds: int) -> Seq<char>
    recommends
        seconds >= 0,
{
    spec_padded2(seconds / 3600) + seq![':'] + spec_padded2(seconds / 60 % 60) + seq![':']
        + spec_padded2(seconds % 60)
}

/// Spell a duration of whole seconds as `hh:mm:ss`.
pub fn display_duration(seconds: u64) -> (r: String)
    ensures
        r@ =~= spec_clock(seconds as int),
{
    let secs = seconds;
    let sub_seconds = secs % 60;
    let minutes = secs / 60;
    let sub_minutes = minutes % 60;
    let hours = minutes / 60;
    let mut s = padded2_string(hours);
    s.append(":");
    let m = padded2_string(sub_minutes);
    s.append(m.as_str());
    s.append(":");
    let sec = padded2_string(sub_seconds);
    s.append(sec.as_str());
    proof {
        reveal_strlit(":");
        assert(secs as int / 60 / 60 == secs as int / 3600) by {
            vstd::arithmetic::div_mod::lemma_div_denominator(secs as int, 60, 60);
        }
    }
    s
}

} // verus!
