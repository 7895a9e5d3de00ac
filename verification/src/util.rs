//! Durations as text.

use vstd::prelude::*;
use vstd::string::StringExecFns;

verus! {

/// The character of the digit `d`.
pub open spec fn digit(d: int) -> char {
    if d == 0 {
        '0'
    } else if d == 1 {
        '1'
    } else if d == 2 {
        '2'
    } else if d == 3 {
        '3'
    } else if d == 4 {
        '4'
    } else if d == 5 {
        '5'
    } else if d == 6 {
        '6'
    } else if d == 7 {
        '7'
    } else if d == 8 {
        '8'
    } else {
        '9'
    }
}

/// `n` in decimal digits, without leading zeros.
pub open spec fn decimal(n: nat) -> Seq<char>
    decreases n,
{
    if n < 10 {
        seq![digit(n as int)]
    } else {
        decimal(n / 10).push(digit((n % 10) as int))
    }
}

/// `n` in decimal digits, with a leading zero if it has one digit only.
pub open spec fn two_digits(n: nat) -> Seq<char> {
    if n < 10 {
        seq!['0'] + decimal(n)
    } else {
        decimal(n)
    }
}

/// `secs` seconds as hours, minutes and seconds, each of at least two
/// digits, with colons between them.
pub open spec fn clock(secs: nat) -> Seq<char> {
    two_digits(secs / 3600) + seq![':'] + two_digits(secs % 3600 / 60) + seq![':'] + two_digits(
        secs % 60,
    )
}

fn digit_str(d: u64) -> (r: &'static str)
    requires
        d < 10,
    ensures
        r@ == seq![digit(d as int)],
{
    proof {
        reveal_strlit("0");
        reveal_strlit("1");
        reveal_strlit("2");
        reveal_strlit("3");
        reveal_strlit("4");
        reveal_strlit("5");
        reveal_strlit("6");
        reveal_strlit("7");
        reveal_strlit("8");
        reveal_strlit("9");
    }
    let r = if d == 0 {
        "0"
    } else if d == 1 {
        "1"
    } else if d == 2 {
        "2"
    } else if d == 3 {
        "3"
    } else if d == 4 {
        "4"
    } else if d == 5 {
        "5"
    } else if d == 6 {
        "6"
    } else if d == 7 {
        "7"
    } else if d == 8 {
        "8"
    } else {
        "9"
    };
    assert(r@ =~= seq![digit(d as int)]);
    r
}

fn push_decimal(out: &mut String, n: u64)
    ensures
        final(out)@ == old(out)@ + decimal(n as nat),
    decreases n,
{
    if n >= 10 {
        push_decimal(out, n / 10);
    }
    out.append(digit_str(n % 10));
    assert(out@ =~= old(out)@ + decimal(n as nat));
}

fn push_two_digits(out: &mut String, n: u64)
    ensures
        final(out)@ == old(out)@ + two_digits(n as nat),
{
    if n < 10 {
        out.append(digit_str(0));
    }
    push_decimal(out, n);
    assert(out@ =~= old(out)@ + two_digits(n as nat));
}

fn push_colon(out: &mut String)
    ensures
        final(out)@ == old(out)@ + seq![':'],
{
    proof {
        reveal_strlit(":");
    }
    out.append(":");
    assert(out@ =~= old(out)@ + seq![':']);
}

/// Writes a number of seconds as `HH:MM:SS`. The hours take more than two
/// digits where they need them.
pub fn format_seconds(secs: u64) -> (r: String)
    ensures
        r@ == clock(secs as nat),
{
    let hours: u64 = secs / 3600;
    let rest: u64 = secs % 3600;
    let minutes: u64 = rest / 60;
    let seconds: u64 = rest % 60;
    assert(seconds == secs % 60) by {
        assert(3600 == 60 * 60);
        assert((secs % 3600) % 60 == secs % 60) by (nonlinear_arith);
    }
    let mut out = String::new();
    push_two_digits(&mut out, hours);
    push_colon(&mut out);
    push_two_digits(&mut out, minutes);
    push_colon(&mut out);
    push_two_digits(&mut out, seconds);
    assert(out@ =~= clock(secs as nat));
    out
}

} // verus!
