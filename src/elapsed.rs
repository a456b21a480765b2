use vstd::prelude::*;
use vstd::string::StringExecFns;

verus! {

pub open spec fn digit_char(d: nat) -> char {
    if d == 0 {
        '0'
    } else if d == 1 {
        '1'
    } else if d == 2 {
        '2'
    } else if d == 3 {
        '3'
    } else if d == 4 {
        '4'
    } else if d == 5 {
        '5'
    } else if d == 6 {
        '6'
    } else if d == 7 {
        '7'
    } else if d == 8 {
        '8'
    } else {
        '9'
    }
}

/// The decimal digits of `n`, without leading zeros.
pub open spec fn decimal(n: nat) -> Seq<char>
    decreases n,
{
    if n < 10 {
        seq![digit_char(n)]
    } else {
        decimal(n / 10).push(digit_char(n % 10))
    }
}

fn digit_str(d: u64) -> (r: &'static str)
    requires
        d < 10,
    ensures
        r@ == seq![digit_char(d as nat)],
{
    proof {
        reveal_strlit("0");
        reveal_strlit("1");
        reveal_strlit("2");
        reveal_strlit("3");
        reveal_strlit("4");
        reveal_strlit("5");
        reveal_strlit("6");
        reveal_strlit("7");
        reveal_strlit("8");
        reveal_strlit("9");
    }
    if d == 0 {
        "0"
    } else if d == 1 {
        "1"
    } else if d == 2 {
        "2"
    } else if d == 3 {
        "3"
    } else if d == 4 {
        "4"
    } else if d == 5 {
        "5"
    } else if d == 6 {
        "6"
    } else if d == 7 {
        "7"
    } else if d == 8 {
        "8"
    } else {
        "9"
    }
}

/// Appends the decimal digits of `n` to `s`.
pub fn push_decimal(s: &mut String, n: u64)
    ensures
        final(s)@ == old(s)@ + decimal(n as nat),
    decreases n,
{
    if n >= 10 {
        push_decimal(s, n / 10);
    }
    s.append(digit_str(n % 10));
    proof {
        if n >= 10 {
            assert(decimal(n as nat) == decimal((n / 10) as nat).push(digit_char((n % 10) as nat)));
        }
    }
}

/// How long the bot ran, for the shutdown message: whole hours (with the
/// remaining minutes) once an hour has passed, else minutes, in the singular
/// for exactly one.
pub open spec fn spec_time_difference(minutes: nat) -> Seq<char> {
    let hours = minutes / 60;
    if hours > 0 {
        decimal(hours) + if hours > 1 {
            " hours"@
        } else {
            " hour"@
        } + " and "@ + decimal(minutes % 60) + " minutes"@
    } else if minutes == 1 {
        "1 minute"@
    } else {
        decimal(minutes) + " minutes"@
    }
}

pub fn get_time_difference_string(minutes: u64) -> (r: String)
    ensures
        r@ == spec_time_difference(minutes as nat),
{
    let hours = minutes / 60;
    let mut text = String::new();
    if hours > 0 {
        push_decimal(&mut text, hours);
        if hours > 1 {
            text.append(" hours");
        } else {
            text.append(" hour");
        }
        text.append(" and ");
        push_decimal(&mut text, minutes % 60);
        text.append(" minutes");
    } else if minutes == 1 {
        text.append("1 minute");
    } else {
        push_decimal(&mut text, minutes);
        text.append(" minutes");
    }
    text
}

} // verus!
